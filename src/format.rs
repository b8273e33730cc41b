//! The field formatter: renders the named fields of one event, in the order
//! they are visited, into a single owned line.
use crate::table::{contains_nul, has_nul};
use vstd::prelude::*;

verus! {

/// Whether `s` begins with `p`.
pub open spec fn has_prefix(s: Seq<char>, p: Seq<char>) -> bool {
    p.len() <= s.len() && s.subrange(0, p.len() as int) == p
}

/// The name of the field that carries an event's main text.
pub open spec fn message_name() -> Seq<char> {
    "message"@
}

/// The prefix of compatibility fields, which are never rendered.
pub open spec fn log_prefix() -> Seq<char> {
    "log."@
}

/// The escape that lets a field name collide with a reserved word.
pub open spec fn raw_prefix() -> Seq<char> {
    "r#"@
}

/// The debug text of a string: quoted, with its special characters escaped.
pub uninterp spec fn debug_text(s: Seq<char>) -> Seq<char>;

/// Relies on the `Debug` formatting of `str`, which depends on the
/// characters alone.
#[verifier::external_body]
fn debug_str(s: &str) -> (r: String)
    ensures
        r@ == debug_text(s@),
{
    format!("{:?}", s)
}

/// What a field named `name` whose value renders as `value` contributes
/// to the line, if anything.
pub open spec fn field_text(name: Seq<char>, value: Seq<char>) -> Option<Seq<char>> {
    if name == message_name() {
        Some(value)
    } else if has_prefix(name, log_prefix()) {
        None
    } else if has_prefix(name, raw_prefix()) {
        Some(name.skip(2) + "="@ + value)
    } else {
        Some(name + "="@ + value)
    }
}

/// The line after appending `piece`: a space separates it from what came
/// before, unless nothing did.
pub open spec fn append_piece(text: Seq<char>, is_empty: bool, piece: Seq<char>) -> Seq<char> {
    if is_empty {
        text + piece
    } else {
        text + " "@ + piece
    }
}

/// The rendered value of an error: its text, then the field's name and the
/// text of its source where there is one.
pub open spec fn error_text(name: Seq<char>, value: Seq<char>, source: Option<Seq<char>>) -> Seq<char> {
    match source {
        Some(src) => value + " "@ + name + " = "@ + src,
        None => value,
    }
}

/// The state of a line, its text and whether no field is on it yet, after
/// recording a field named `name` whose value renders as `value`.
pub open spec fn record_step(text: Seq<char>, at_start: bool, name: Seq<char>, value: Seq<char>) -> (
    Seq<char>,
    bool,
) {
    match field_text(name, value) {
        Some(piece) => (append_piece(text, at_start, piece), false),
        None => (text, at_start),
    }
}

/// The line made of `fields`, pairs of a name and a rendered value, visited
/// in order from an empty line; and whether none of them showed.
pub open spec fn render(fields: Seq<(Seq<char>, Seq<char>)>) -> (Seq<char>, bool)
    decreases fields.len(),
{
    if fields.len() == 0 {
        (Seq::empty(), true)
    } else {
        let (text, at_start) = render(fields.drop_last());
        record_step(text, at_start, fields.last().0, fields.last().1)
    }
}

/// Visiting one more field moves the line exactly as one call of
/// [`Visitor::record_debug`] does, so a fresh visitor fed `fields` in order
/// holds `render(fields)`.
pub proof fn lemma_render_push(fields: Seq<(Seq<char>, Seq<char>)>, name: Seq<char>, value: Seq<char>)
    ensures
        render(fields.push((name, value))) == record_step(render(fields).0, render(fields).1, name, value),
{
    assert(fields.push((name, value)).drop_last() =~= fields);
}

/// `pieces` joined by single spaces: no leading, trailing or doubled space.
pub open spec fn join(pieces: Seq<Seq<char>>) -> Seq<char>
    decreases pieces.len(),
{
    if pieces.len() == 0 {
        Seq::empty()
    } else {
        append_piece(join(pieces.drop_last()), pieces.len() == 1, pieces.last())
    }
}

/// What each field contributes on its own, for fields none of which is
/// suppressed.
pub open spec fn field_pieces(fields: Seq<(Seq<char>, Seq<char>)>) -> Seq<Seq<char>> {
    fields.map_values(|f: (Seq<char>, Seq<char>)| field_text(f.0, f.1)->0)
}

/// Fields without the compatibility prefix render, in the order visited, as
/// their own texts joined by single spaces; the message shows its value
/// alone, any other field `name=value`.
pub proof fn lemma_render_joins_fields(fields: Seq<(Seq<char>, Seq<char>)>)
    requires
        forall|i: int| 0 <= i < fields.len() ==> !has_prefix(#[trigger] fields[i].0, log_prefix()),
    ensures
        render(fields) == (join(field_pieces(fields)), fields.len() == 0),
        forall|i: int|
            0 <= i < fields.len() ==> field_text(#[trigger] fields[i].0, fields[i].1) == Some(
                field_pieces(fields)[i],
            ),
    decreases fields.len(),
{
    if fields.len() > 0 {
        let prefix = fields.drop_last();
        lemma_render_joins_fields(prefix);
        assert(field_pieces(prefix) =~= field_pieces(fields).drop_last());
        let last = fields.last();
        assert(!has_prefix(fields[fields.len() - 1].0, log_prefix()));
        assert(field_text(last.0, last.1) is Some);
    }
}

/// A field whose name carries the compatibility prefix leaves no trace on
/// the line, wherever it stands among the fields.
pub proof fn lemma_log_field_absent(fields: Seq<(Seq<char>, Seq<char>)>, i: int)
    requires
        0 <= i < fields.len(),
        has_prefix(fields[i].0, log_prefix()),
    ensures
        render(fields) == render(fields.remove(i)),
    decreases fields.len(),
{
    reveal_strlit("message");
    reveal_strlit("log.");
    if i == fields.len() - 1 {
        assert(fields.remove(i) =~= fields.drop_last());
        if fields[i].0 == message_name() {
            assert(fields[i].0.subrange(0, 4)[0] == log_prefix()[0]);
        }
    } else {
        lemma_log_field_absent(fields.drop_last(), i);
        assert(fields.remove(i).drop_last() =~= fields.drop_last().remove(i));
        assert(fields.remove(i).last() == fields.last());
    }
}

/// Whether `s` begins with `p`.
pub fn starts_with(s: &str, p: &str) -> (r: bool)
    ensures
        r == has_prefix(s@, p@),
{
    let n = s.unicode_len();
    let m = p.unicode_len();
    if m > n {
        return false;
    }
    let mut i: usize = 0;
    while i < m
        invariant
            n == s@.len(),
            m == p@.len(),
            m <= n,
            i <= m,
            forall|j: int| 0 <= j < i ==> s@[j] == p@[j],
        decreases m - i,
    {
        if s.get_char(i) != p.get_char(i) {
            assert(s@.subrange(0, m as int)[i as int] != p@[i as int]);
            return false;
        }
        i = i + 1;
    }
    assert(s@.subrange(0, m as int) =~= p@);
    true
}

/// Whether `s` is exactly `p`.
pub fn str_equals(s: &str, p: &str) -> (r: bool)
    ensures
        r == (s@ == p@),
{
    if s.unicode_len() != p.unicode_len() {
        return false;
    }
    let r = starts_with(s, p);
    assert(s@.subrange(0, s@.len() as int) =~= s@);
    r
}

/// Renders an event's fields into one line.
pub struct Visitor {
    writer: String,
    is_empty: bool,
}

impl Visitor {
    /// The text written so far.
    pub closed spec fn text(&self) -> Seq<char> {
        self.writer@
    }

    /// Whether the next field written is the first on the line.
    pub closed spec fn at_start(&self) -> bool {
        self.is_empty
    }

    /// A formatter that appends to `writer`; `is_empty` says that no field
    /// precedes the first one it writes.
    pub fn new(writer: String, is_empty: bool) -> (r: Visitor)
        ensures
            r.text() == writer@,
            r.at_start() == is_empty,
    {
        Visitor { writer, is_empty }
    }

    /// Writes the separator owed before a field: none before the first.
    pub fn maybe_pad(&mut self)
        ensures
            final(self).text() == (if old(self).at_start() { old(self).text() } else {
                old(self).text() + " "@
            }),
            !final(self).at_start(),
    {
        if self.is_empty {
            self.is_empty = false;
        } else {
            self.writer.append(" ");
        }
    }

    /// Records a field whose value renders as `value`.
    pub fn record_debug(&mut self, name: &str, value: &str)
        ensures
            (final(self).text(), final(self).at_start()) == record_step(
                old(self).text(),
                old(self).at_start(),
                name@,
                value@,
            ),
    {
        proof {
            reveal_strlit("message");
            reveal_strlit("log.");
            reveal_strlit("r#");
        }
        if str_equals(name, "message") {
            self.maybe_pad();
            self.writer.append(value);
        } else if starts_with(name, "log.") {
        } else if starts_with(name, "r#") {
            self.maybe_pad();
            let bare = name.substring_char(2, name.unicode_len());
            self.writer.append(bare);
            self.writer.append("=");
            self.writer.append(value);
            assert(bare@ == name@.skip(2));
        } else {
            self.maybe_pad();
            self.writer.append(name);
            self.writer.append("=");
            self.writer.append(value);
        }
    }

    /// Records a string field, the message included, by its debug text:
    /// quoted and escaped.
    pub fn record_str(&mut self, name: &str, value: &str)
        ensures
            (final(self).text(), final(self).at_start()) == record_step(
                old(self).text(),
                old(self).at_start(),
                name@,
                debug_text(value@),
            ),
    {
        let quoted = debug_str(value);
        self.record_debug(name, quoted.as_str());
    }

    /// Records an error field, given the error's text and, where it has a
    /// source, the source's text.
    pub fn record_error(&mut self, name: &str, value: &str, source: Option<&str>)
        ensures
            (final(self).text(), final(self).at_start()) == record_step(
                old(self).text(),
                old(self).at_start(),
                name@,
                error_text(
                    name@,
                    value@,
                    match source {
                        Some(src) => Some(src@),
                        None => None,
                    },
                ),
            ),
    {
        match source {
            Some(src) => {
                let mut text = String::from_str(value);
                text.append(" ");
                text.append(name);
                text.append(" = ");
                text.append(src);
                proof {
                    reveal_strlit(" ");
                    reveal_strlit(" = ");
                }
                self.record_debug(name, text.as_str());
            },
            None => {
                self.record_debug(name, value);
            },
        }
    }

    /// The finished line, owned; none where it holds a NUL, which no host
    /// could read.
    pub fn into_line(self) -> (r: Option<String>)
        ensures
            match r {
                Some(line) => !has_nul(self.text()) && line@ == self.text(),
                None => has_nul(self.text()),
            },
    {
        if contains_nul(self.writer.as_str()) {
            None
        } else {
            Some(self.writer)
        }
    }
}

} // verus!
