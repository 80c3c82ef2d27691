use admin_backend::domain::permission::{
    PermissionBits, PermissionMethod, DELETE_BIT, READ_BIT, WRITE_BIT,
};

#[test]
fn read_write_allows_read() {
    let mask = PermissionBits::read() | PermissionBits::write();
    assert!(mask.allows(PermissionMethod::Read));
    assert!(mask.allows(PermissionMethod::Write));
    assert!(!mask.allows(PermissionMethod::Delete));
}

#[test]
fn read_does_not_allow_write() {
    let mask = PermissionBits::read();
    assert!(mask.allows(PermissionMethod::Read));
    assert!(!mask.allows(PermissionMethod::Write));
    assert!(!mask.allows(PermissionMethod::Delete));
}

#[test]
fn all_three_allow_delete() {
    let mask = PermissionBits::read() | PermissionBits::write() | PermissionBits::delete();
    assert!(mask.allows(PermissionMethod::Delete));
    assert_eq!(mask, PermissionBits::full());
}

#[test]
fn full_mask_allows_every_operation() {
    let mask = PermissionBits::full();
    assert_eq!(mask.bits(), 7);
    assert!(mask.allows(PermissionMethod::Read));
    assert!(mask.allows(PermissionMethod::Write));
    assert!(mask.allows(PermissionMethod::Delete));
}

#[test]
fn empty_mask_allows_nothing() {
    let mask = PermissionBits::empty();
    assert_eq!(mask.bits(), 0);
    assert!(!mask.allows(PermissionMethod::Read));
    assert!(!mask.allows(PermissionMethod::Write));
    assert!(!mask.allows(PermissionMethod::Delete));
}

#[test]
fn bits_have_their_values() {
    assert_eq!(READ_BIT, 0b0001);
    assert_eq!(WRITE_BIT, 0b0010);
    assert_eq!(DELETE_BIT, 0b0100);
    assert_eq!(PermissionBits::read().bits(), 1);
    assert_eq!(PermissionBits::write().bits(), 2);
    assert_eq!(PermissionBits::delete().bits(), 4);
    assert_eq!((PermissionBits::read() | PermissionBits::delete()).bits(), 5);
}

#[test]
fn unknown_bits_grant_nothing() {
    let mask = PermissionBits::from_bits(0b1_0000);
    assert_eq!(mask.bits(), 16);
    assert!(!mask.allows(PermissionMethod::Read));
    assert!(!mask.allows(PermissionMethod::Write));
    assert!(!mask.allows(PermissionMethod::Delete));
    let mixed = PermissionBits::from_bits(0b1_0010);
    assert!(mixed.allows(PermissionMethod::Write));
    assert!(!mixed.allows(PermissionMethod::Read));
}

#[test]
fn contains_asks_for_every_bit() {
    let mask = PermissionBits::from_bits(3);
    assert!(mask.contains(PermissionBits::read()));
    assert!(mask.contains(PermissionBits::from_bits(3)));
    assert!(!mask.contains(PermissionBits::full()));
    assert!(mask.contains(PermissionBits::empty()));
}

#[test]
fn union_allows_what_either_allows() {
    let methods = [PermissionMethod::Read, PermissionMethod::Write, PermissionMethod::Delete];
    for a in 0..8u32 {
        for b in 0..8u32 {
            let left = PermissionBits::from_bits(a);
            let right = PermissionBits::from_bits(b);
            for m in methods {
                assert_eq!((left | right).allows(m), left.allows(m) || right.allows(m));
            }
        }
    }
}
