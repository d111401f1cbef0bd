use shared_ledger::address::{
    derive_address, derive_transfer_address, program_id, PROGRAM_ID, TRANSFER_NAMESPACE,
};
use shared_ledger::pubkey::Pubkey;
use std::str::FromStr;

fn outside(key: &Pubkey) -> anchor_lang::prelude::Pubkey {
    anchor_lang::prelude::Pubkey::new_from_array(key.bytes)
}

#[test]
fn program_id_is_the_declared_key() {
    let declared =
        anchor_lang::prelude::Pubkey::from_str("27b22Rj4yVNXM1vEdh65LJ2HsfbmWwBeoncMEFd14bhL")
            .unwrap();
    assert_eq!(program_id().bytes, declared.to_bytes());
    assert_eq!(PROGRAM_ID, declared.to_bytes());
}

#[test]
fn namespace_is_the_word_transfer() {
    assert_eq!(&TRANSFER_NAMESPACE, b"transfer");
}

#[test]
fn transfer_address_is_the_program_derived_address() {
    let uuid = Pubkey::new([42; 32]);
    let (address, bump) = derive_transfer_address(&uuid).unwrap();
    let (expected, expected_bump) = anchor_lang::prelude::Pubkey::find_program_address(
        &[b"transfer".as_ref(), uuid.bytes.as_ref()],
        &outside(&program_id()),
    );
    assert_eq!(address.bytes, expected.to_bytes());
    assert_eq!(bump, expected_bump);
    assert_ne!(address, uuid);
    assert_ne!(address, program_id());
}

#[test]
fn stored_bump_re_derives_the_address() {
    let uuid = Pubkey::new([5; 32]);
    let (address, bump) = derive_transfer_address(&uuid).unwrap();
    let again = anchor_lang::prelude::Pubkey::create_program_address(
        &[b"transfer".as_ref(), uuid.bytes.as_ref(), &[bump]],
        &outside(&program_id()),
    )
    .unwrap();
    assert_eq!(address.bytes, again.to_bytes());
    assert!(!again.is_on_curve());
}

#[test]
fn derivation_is_reproducible() {
    let uuid = Pubkey::new([17; 32]);
    assert_eq!(derive_transfer_address(&uuid), derive_transfer_address(&uuid));
}

#[test]
fn different_identifiers_get_different_addresses() {
    let first = derive_transfer_address(&Pubkey::new([1; 32])).unwrap();
    let second = derive_transfer_address(&Pubkey::new([2; 32])).unwrap();
    assert_ne!(first.0, second.0);
}

#[test]
fn derive_puts_the_namespace_first() {
    let owner = Pubkey::new([8; 32]);
    let ledger = vec![3u8; 32];
    let uuid = vec![4u8; 32];
    let found = derive_address(b"ledger_user", &vec![ledger.clone(), uuid.clone()], &owner).unwrap();
    let expected = anchor_lang::prelude::Pubkey::find_program_address(
        &[b"ledger_user".as_ref(), ledger.as_slice(), uuid.as_slice()],
        &outside(&owner),
    );
    assert_eq!(found.0.bytes, expected.0.to_bytes());
    assert_eq!(found.1, expected.1);
    let swapped = derive_address(b"ledger_user", &vec![uuid, ledger], &owner).unwrap();
    assert_ne!(swapped.0, found.0);
}

#[test]
fn derive_depends_on_the_program() {
    let parts = vec![vec![1u8; 32]];
    let one = derive_address(b"transfer", &parts, &Pubkey::new([1; 32])).unwrap();
    let other = derive_address(b"transfer", &parts, &Pubkey::new([2; 32])).unwrap();
    assert_ne!(one.0, other.0);
    assert_eq!(derive_address(b"transfer", &parts, &program_id()), derive_transfer_address(&Pubkey::new([1; 32])));
}

#[test]
fn derive_gives_nothing_for_a_seed_of_more_than_32_bytes() {
    assert_eq!(derive_address(b"transfer", &vec![vec![0u8; 33]], &program_id()), None);
}

#[test]
fn derive_gives_nothing_for_more_than_fifteen_seeds() {
    // the namespace and fifteen parts make sixteen seeds; the discriminant would be the seventeenth
    let parts = vec![vec![1u8]; 15];
    assert_eq!(derive_address(b"n", &parts, &program_id()), None);
    let fewer = vec![vec![1u8]; 14];
    assert!(derive_address(b"n", &fewer, &program_id()).is_some());
}
