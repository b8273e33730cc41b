use tracing_ext_ffi_subscriber::table::{contains_nul, SpanTable, MALFORMED_NAME};

#[test]
fn ids_start_at_one_and_strictly_increase() {
    let mut t = SpanTable::new();
    let mut last = 0u64;
    for i in 0..50 {
        let id = t.intern(&format!("span{}", i)).unwrap();
        assert!(id > last);
        last = id;
    }
    assert_eq!(last, 50);
    let mut t2 = SpanTable::new();
    assert_eq!(t2.intern("first"), Some(1));
    assert_eq!(t2.intern("second"), Some(2));
}

#[test]
fn lookup_after_create_returns_the_name() {
    let mut t = SpanTable::new();
    let a = t.intern("request").unwrap();
    let b = t.intern("db_query").unwrap();
    let c = t.intern("").unwrap();
    assert_eq!(t.lookup(a).map(|s| s.as_str()), Some("request"));
    assert_eq!(t.lookup(b).map(|s| s.as_str()), Some("db_query"));
    assert_eq!(t.lookup(c).map(|s| s.as_str()), Some(""));
    assert!(t.contains(a));
}

#[test]
fn name_with_nul_is_stored_as_placeholder() {
    let mut t = SpanTable::new();
    let id = t.intern("a\0b").unwrap();
    assert_eq!(t.lookup(id).map(|s| s.as_str()), Some(MALFORMED_NAME));
    assert_eq!(MALFORMED_NAME, "malformed name");
}

#[test]
fn unknown_id_is_not_found() {
    let mut t = SpanTable::new();
    assert!(t.lookup(0).is_none());
    assert!(t.lookup(1).is_none());
    let id = t.intern("x").unwrap();
    assert!(!t.contains(id + 1));
    assert!(!t.contains(0));
    assert!(t.can_allocate());
}

#[test]
fn many_creations_give_one_entry_each() {
    let n = 8u64;
    let m = 250u64;
    let mut t = SpanTable::new();
    let mut ids = Vec::new();
    for i in 0..n {
        for j in 0..m {
            ids.push(t.intern(&format!("t{}-s{}", i, j)).unwrap());
        }
    }
    assert_eq!(ids.len() as u64, n * m);
    let mut sorted = ids.clone();
    sorted.dedup();
    assert_eq!(sorted.len() as u64, n * m);
    for (k, id) in ids.iter().enumerate() {
        assert_eq!(*id, k as u64 + 1);
        let expect = format!("t{}-s{}", k as u64 / m, k as u64 % m);
        assert_eq!(t.lookup(*id).map(|s| s.as_str()), Some(expect.as_str()));
    }
    assert!(!t.contains(n * m + 1));
}

#[test]
fn nul_detection() {
    assert!(contains_nul("\0"));
    assert!(contains_nul("ab\0"));
    assert!(!contains_nul(""));
    assert!(!contains_nul("héllo"));
}
