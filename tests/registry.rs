use stream_encoder::error::EncodeError;
use stream_encoder::registry::Registry;

#[test]
fn registry_insert_get_remove() {
    let mut r: Registry<&str> = Registry::new();
    assert_eq!(r.len(), 0);
    let a = r.insert("a").unwrap();
    let b = r.insert("b").unwrap();
    assert_eq!((a, b), (0, 1));
    assert_eq!(r.len(), 2);
    assert_eq!(r.get(a), Ok(&"a"));
    assert_eq!(r.get(7), Err(EncodeError::SessionNotFound(7)));
    assert_eq!(r.remove(a), Ok("a"));
    assert_eq!(r.remove(a), Err(EncodeError::SessionNotFound(a)));
    assert!(!r.contains(a));
    assert!(r.contains(b));
    assert_eq!(r.len(), 1);
}

#[test]
fn registry_never_reuses_identifiers() {
    let mut r: Registry<u8> = Registry::new();
    let a = r.insert(1).unwrap();
    assert_eq!(r.discard(a), Some(1));
    assert_eq!(r.discard(a), None);
    let b = r.insert(2).unwrap();
    assert_ne!(a, b);
    let c = r.insert(4).unwrap();
    assert!(c != a && c != b);
}
