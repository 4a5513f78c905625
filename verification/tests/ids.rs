use alien_gateway::ids::{bytes_equal, Address, Hash32};

#[test]
fn hash_round_trip_and_compare() {
    let mut bytes = [0u8; 32];
    bytes[31] = 9;
    let h = Hash32::from_array(bytes);
    assert_eq!(h.to_array(), bytes);
    assert!(h.same(&Hash32::from_array(bytes)));
    assert!(!h.same(&Hash32::from_array([0u8; 32])));
}

#[test]
fn address_compare_by_strkey() {
    let a = Address::from_strkey(b"GABC".to_vec());
    let b = Address::from_strkey(b"GABC".to_vec());
    let c = Address::from_strkey(b"GABD".to_vec());
    let d = Address::from_strkey(b"GAB".to_vec());
    assert!(a.same(&b));
    assert!(!a.same(&c));
    assert!(!a.same(&d));
    assert_eq!(a.clone().strkey(), b"GABC");
}

#[test]
fn bytes_equal_cases() {
    assert!(bytes_equal(&[], &[]));
    assert!(bytes_equal(&[1, 2, 3], &[1, 2, 3]));
    assert!(!bytes_equal(&[1, 2, 3], &[1, 2, 4]));
    assert!(!bytes_equal(&[1, 2], &[1, 2, 3]));
}
