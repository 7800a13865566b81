use std::str::FromStr;

use anchor_lang::prelude::Pubkey;
use favorites::{favorites_address, Address, PROGRAM_ID};

fn key(byte: u8) -> Address {
    Address { bytes: [byte; 32] }
}

#[test]
fn program_id_is_the_decoded_base58_address() {
    let decoded = Pubkey::from_str("CRGr5Y2bChPmkVShA9E3DrLTTQ1MUvS9TDf6fFNADgjC").unwrap();
    assert_eq!(decoded.to_bytes(), PROGRAM_ID);
}

#[test]
fn favorites_address_is_the_program_derived_address() {
    let program = Pubkey::new_from_array(PROGRAM_ID);
    for byte in 0..40u8 {
        let user = key(byte);
        let (expected, bump) =
            Pubkey::find_program_address(&[b"favorites", &user.bytes[..]], &program);
        assert_eq!(
            favorites_address(&user),
            Some((Address { bytes: expected.to_bytes() }, bump))
        );
    }
}

#[test]
fn favorites_address_known_value_with_first_bump() {
    let expected = Address {
        bytes: [
            134, 24, 232, 115, 236, 200, 16, 90, 16, 11, 140, 130, 52, 167, 93, 168, 7, 3, 32, 22,
            91, 226, 206, 57, 191, 194, 164, 27, 88, 200, 167, 193,
        ],
    };
    assert_eq!(favorites_address(&key(1)), Some((expected, 255)));
}

#[test]
fn favorites_address_known_value_with_later_bump() {
    let expected = Address {
        bytes: [
            106, 47, 99, 17, 15, 48, 107, 186, 132, 31, 154, 121, 16, 201, 237, 13, 244, 214, 140,
            250, 109, 102, 227, 142, 75, 248, 87, 65, 205, 247, 245, 90,
        ],
    };
    assert_eq!(favorites_address(&key(6)), Some((expected, 253)));
}

#[test]
fn favorites_address_is_not_the_callers_key() {
    let user = key(9);
    let (address, _) = favorites_address(&user).unwrap();
    assert_ne!(address, user);
}

#[test]
fn favorites_address_is_the_same_on_every_call() {
    let user = key(77);
    assert_eq!(favorites_address(&user), favorites_address(&user));
}

#[test]
fn different_callers_get_different_addresses() {
    let (first, _) = favorites_address(&key(1)).unwrap();
    let (second, _) = favorites_address(&key(2)).unwrap();
    assert_ne!(first, second);
}

#[test]
fn same_compares_all_bytes() {
    let mut other = key(5);
    assert!(key(5).same(&other));
    other.bytes[31] = 6;
    assert!(!key(5).same(&other));
    other.bytes[31] = 5;
    other.bytes[0] = 4;
    assert!(!key(5).same(&other));
}
