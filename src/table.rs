//! The identifier table: span names interned under strictly increasing
//! identifiers, starting at 1, never removed.
use std::collections::HashMap;
use vstd::prelude::*;

verus! {

broadcast use vstd::std_specs::hash::group_hash_axioms;

/// The name stored in place of one that holds an embedded NUL.
pub const MALFORMED_NAME: &'static str = "malformed name";

/// Whether `s` holds a NUL character anywhere.
pub open spec fn has_nul(s: Seq<char>) -> bool {
    exists|i: int| 0 <= i < s.len() && s[i] == '\0'
}

/// The text of the placeholder name.
pub open spec fn malformed_name() -> Seq<char> {
    MALFORMED_NAME@
}

/// The name that the table keeps for a span named `s`.
pub open spec fn stored_name(s: Seq<char>) -> Seq<char> {
    if has_nul(s) {
        malformed_name()
    } else {
        s
    }
}

/// Whether `s` holds a NUL character.
pub fn contains_nul(s: &str) -> (r: bool)
    ensures
        r == has_nul(s@),
{
    let n = s.unicode_len();
    let mut i: usize = 0;
    while i < n
        invariant
            n == s@.len(),
            i <= n,
            forall|j: int| 0 <= j < i ==> s@[j] != '\0',
        decreases n - i,
    {
        if s.get_char(i) == '\0' {
            return true;
        }
        i = i + 1;
    }
    false
}

/// The abstract state of a table: the next identifier to hand out and the
/// name of every identifier handed out so far.
pub struct TableModel {
    pub next_id: int,
    pub names: Map<u64, Seq<char>>,
}

impl TableModel {
    /// Identifiers run from 1 below `next_id`, each with a name free of NUL.
    pub open spec fn wf(self) -> bool {
        &&& 1 <= self.next_id <= u64::MAX
        &&& forall|k: u64| #[trigger] self.names.contains_key(k) <==> 1 <= k < self.next_id
        &&& forall|k: u64| #[trigger] self.names.contains_key(k) ==> !has_nul(self.names[k])
    }

    /// Interning `name`: the next identifier, or none once they are spent.
    pub open spec fn intern(self, name: Seq<char>) -> (TableModel, Option<u64>) {
        if self.next_id >= u64::MAX {
            (self, None)
        } else {
            (
                TableModel {
                    next_id: self.next_id + 1,
                    names: self.names.insert(self.next_id as u64, stored_name(name)),
                },
                Some(self.next_id as u64),
            )
        }
    }
}

/// Interning each name of `names` in turn, from `m`: the state reached and
/// the identifiers handed out, in order.
pub open spec fn intern_all(m: TableModel, names: Seq<Seq<char>>) -> (TableModel, Seq<u64>)
    decreases names.len(),
{
    if names.len() == 0 {
        (m, Seq::empty())
    } else {
        let (m1, ids) = intern_all(m, names.drop_last());
        let (m2, r) = m1.intern(names.last());
        match r {
            Some(id) => (m2, ids.push(id)),
            None => (m2, ids),
        }
    }
}

/// The placeholder name holds no NUL.
pub proof fn lemma_malformed_name_has_no_nul()
    ensures
        !has_nul(malformed_name()),
{
    reveal_strlit("malformed name");
    if has_nul(malformed_name()) {
        let i = choose|i: int| 0 <= i < malformed_name().len() && malformed_name()[i] == '\0';
        assert(false);
    }
}

/// Interning keeps a table well formed.
pub proof fn lemma_intern_wf(m: TableModel, name: Seq<char>)
    requires
        m.wf(),
    ensures
        m.intern(name).0.wf(),
{
    lemma_malformed_name_has_no_nul();
}

/// A span created under a name free of NUL is found under exactly that name.
pub proof fn lemma_lookup_after_create(m: TableModel, name: Seq<char>)
    requires
        m.wf(),
        m.next_id < u64::MAX,
        !has_nul(name),
    ensures
        ({
            let (m2, r) = m.intern(name);
            &&& r is Some
            &&& m2.names.contains_key(r->0)
            &&& m2.names[r->0] == name
        }),
{
}

/// A span created under a name holding a NUL is still created, and the
/// placeholder is stored as its name.
pub proof fn lemma_create_with_nul(m: TableModel, name: Seq<char>)
    requires
        m.wf(),
        m.next_id < u64::MAX,
        has_nul(name),
    ensures
        ({
            let (m2, r) = m.intern(name);
            &&& r is Some
            &&& m2.names.contains_key(r->0)
            &&& m2.names[r->0] == malformed_name()
        }),
{
}

/// A run of span creations hands out strictly increasing, hence pairwise
/// distinct, identifiers; each is a new entry holding the stored form of its
/// name, the table gains exactly those entries, and no earlier entry changes.
pub proof fn lemma_intern_all(m: TableModel, names: Seq<Seq<char>>)
    requires
        m.wf(),
        m.next_id + names.len() <= u64::MAX,
    ensures
        ({
            let (m2, ids) = intern_all(m, names);
            &&& m2.wf()
            &&& ids.len() == names.len()
            &&& m2.next_id == m.next_id + names.len()
            &&& forall|i: int| 0 <= i < ids.len() ==> #[trigger] ids[i] == m.next_id + i
            &&& forall|i: int, j: int| 0 <= i < j < ids.len() ==> ids[i] < ids[j]
            &&& forall|i: int|
                0 <= i < ids.len() ==> !m.names.contains_key(#[trigger] ids[i])
                    && m2.names.contains_key(ids[i]) && m2.names[ids[i]] == stored_name(names[i])
            &&& forall|k: u64|
                #[trigger] m2.names.contains_key(k) <==> (m.names.contains_key(k) || exists|i: int|
                    0 <= i < ids.len() && ids[i] == k)
            &&& forall|k: u64| #[trigger] m.names.contains_key(k) ==> m2.names[k] == m.names[k]
        }),
    decreases names.len(),
{
    if names.len() > 0 {
        let prefix = names.drop_last();
        lemma_intern_all(m, prefix);
        let (m1, ids1) = intern_all(m, prefix);
        lemma_intern_wf(m1, names.last());
        let (m2, ids) = intern_all(m, names);
        assert(ids == ids1.push(m1.next_id as u64));
        assert forall|i: int| 0 <= i < ids.len() implies !m.names.contains_key(#[trigger] ids[i])
            && m2.names.contains_key(ids[i]) && m2.names[ids[i]] == stored_name(names[i]) by {
            if i < ids1.len() {
                assert(ids[i] == ids1[i]);
                assert(names[i] == prefix[i]);
            }
        }
        assert forall|k: u64| #[trigger] m2.names.contains_key(k) <==> (m.names.contains_key(k)
            || exists|i: int| 0 <= i < ids.len() && ids[i] == k) by {
            if m2.names.contains_key(k) && !m.names.contains_key(k) {
                if k == m1.next_id {
                    assert(ids[ids.len() - 1] == k);
                } else {
                    let i = choose|i: int| 0 <= i < ids1.len() && ids1[i] == k;
                    assert(ids[i] == k);
                }
            }
            if exists|i: int| 0 <= i < ids.len() && ids[i] == k {
                let i = choose|i: int| 0 <= i < ids.len() && ids[i] == k;
                if i < ids1.len() {
                    assert(ids1[i] == k);
                }
            }
        }
    }
}

/// Span identifiers and their names.
pub struct SpanTable {
    next_id: u64,
    names: HashMap<u64, String>,
}

impl View for SpanTable {
    type V = TableModel;

    closed spec fn view(&self) -> TableModel {
        TableModel {
            next_id: self.next_id as int,
            names: Map::new(|k: u64| self.names@.contains_key(k), |k: u64| self.names@[k]@),
        }
    }
}

impl SpanTable {
    pub open spec fn wf(&self) -> bool {
        self@.wf()
    }

    /// An empty table whose first identifier is 1.
    pub fn new() -> (r: SpanTable)
        ensures
            r.wf(),
            r@.next_id == 1,
            r@.names == Map::<u64, Seq<char>>::empty(),
    {
        let t = SpanTable { next_id: 1, names: HashMap::new() };
        assert(t@.names =~= Map::<u64, Seq<char>>::empty());
        t
    }

    /// Whether `id` was handed out by this table.
    pub fn contains(&self, id: u64) -> (r: bool)
        ensures
            r == self@.names.contains_key(id),
    {
        self.names.contains_key(&id)
    }

    /// Whether another identifier can still be handed out.
    pub fn can_allocate(&self) -> (r: bool)
        ensures
            r == (self@.next_id < u64::MAX),
    {
        self.next_id < u64::MAX
    }

    /// Allocates the next identifier and stores the span's name under it;
    /// a name holding a NUL is stored as the placeholder.
    pub fn intern(&mut self, name: &str) -> (r: Option<u64>)
        requires
            old(self).wf(),
        ensures
            final(self).wf(),
            (final(self)@, r) == old(self)@.intern(name@),
            r is None <==> old(self)@.next_id == u64::MAX,
            r matches Some(id) ==> {
                &&& id == old(self)@.next_id
                &&& !old(self)@.names.contains_key(id)
                &&& final(self)@.names.contains_key(id)
                &&& final(self)@.names[id] == stored_name(name@)
                &&& !has_nul(name@) ==> final(self)@.names[id] == name@
                &&& has_nul(name@) ==> final(self)@.names[id] == malformed_name()
            },
    {
        if self.next_id == u64::MAX {
            return None;
        }
        let id = self.next_id;
        let stored = if contains_nul(name) {
            String::from_str(MALFORMED_NAME)
        } else {
            String::from_str(name)
        };
        proof {
            lemma_malformed_name_has_no_nul();
        }
        self.names.insert(id, stored);
        self.next_id = id + 1;
        let ghost post = old(self)@.intern(name@).0;
        assert(self@.names =~= post.names);
        Some(id)
    }

    /// The name stored under `id`, if it was handed out.
    pub fn lookup(&self, id: u64) -> (r: Option<&String>)
        ensures
            match r {
                Some(s) => self@.names.contains_key(id) && s@ == self@.names[id],
                None => !self@.names.contains_key(id),
            },
    {
        self.names.get(&id)
    }
}

} // verus!
