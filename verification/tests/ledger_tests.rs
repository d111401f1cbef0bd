use shared_ledger::address_map::AddressMap;
use shared_ledger::instruction::{transfer, AccountMeta, Instruction};
use shared_ledger::ledger::{has_signed, is_passed, AccountRef, HostError, LedgerState};
use shared_ledger::pubkey::Pubkey;

fn key(byte: u8) -> Pubkey {
    Pubkey::new([byte; 32])
}

fn signer(byte: u8) -> AccountRef {
    AccountRef { key: key(byte), is_signer: true }
}

fn bystander(byte: u8) -> AccountRef {
    AccountRef { key: key(byte), is_signer: false }
}

#[test]
fn keys_compare_by_bytes() {
    let mut bytes = [7u8; 32];
    assert!(key(7).equals(&Pubkey::new(bytes)));
    bytes[31] = 8;
    assert!(!key(7).equals(&Pubkey::new(bytes)));
    assert_eq!(Pubkey::new(bytes).to_bytes(), bytes);
}

#[test]
fn address_map_binds_replaces_and_removes() {
    let mut map: AddressMap<u64> = AddressMap::new();
    assert_eq!(map.get(&key(1)), None);
    assert!(!map.contains(&key(1)));
    map.insert(key(1), 10);
    map.insert(key(2), 20);
    assert_eq!(map.get(&key(1)), Some(&10));
    assert_eq!(map.get(&key(2)), Some(&20));
    map.insert(key(1), 11);
    assert_eq!(map.get(&key(1)), Some(&11));
    assert_eq!(map.remove(&key(1)), Some(11));
    assert_eq!(map.remove(&key(1)), None);
    assert_eq!(map.get(&key(1)), None);
    assert_eq!(map.get(&key(2)), Some(&20));
    assert!(map.contains(&key(2)));
}

#[test]
fn new_ledger_is_empty() {
    let state = LedgerState::new();
    assert_eq!(state.balance(&key(1)), 0);
    assert!(state.record(&key(1)).is_none());
    assert!(state.transfer_request(&key(1)).is_none());
    assert!(state.credential(&key(1)).is_none());
}

#[test]
fn fund_adds_up() {
    let mut state = LedgerState::new();
    assert_eq!(state.fund(&key(1), 40), Ok(()));
    assert_eq!(state.fund(&key(1), 2), Ok(()));
    assert_eq!(state.balance(&key(1)), 42);
    assert_eq!(state.balance(&key(2)), 0);
}

#[test]
fn fund_refuses_overflow() {
    let mut state = LedgerState::new();
    assert_eq!(state.fund(&key(1), u64::MAX), Ok(()));
    assert_eq!(state.fund(&key(1), 1), Err(HostError::BalanceOverflow));
    assert_eq!(state.balance(&key(1)), u64::MAX);
}

#[test]
fn signed_transfers_move_units() {
    let mut state = LedgerState::new();
    state.fund(&key(1), 100).unwrap();
    state.fund(&key(2), 5).unwrap();
    let accounts = vec![signer(1), bystander(2)];
    assert_eq!(state.invoke(&transfer(&key(1), &key(2), 30), &accounts), Ok(()));
    assert_eq!(state.balance(&key(1)), 70);
    assert_eq!(state.balance(&key(2)), 35);
    assert_eq!(state.invoke(&transfer(&key(1), &key(2), 70), &accounts), Ok(()));
    assert_eq!(state.balance(&key(1)), 0);
    assert_eq!(state.balance(&key(2)), 105);
}

#[test]
fn transfer_refuses_more_than_owned() {
    let mut state = LedgerState::new();
    state.fund(&key(1), 100).unwrap();
    let accounts = vec![signer(1), bystander(2), signer(3)];
    assert_eq!(
        state.invoke(&transfer(&key(1), &key(2), 101), &accounts),
        Err(HostError::InsufficientFunds)
    );
    assert_eq!(state.balance(&key(1)), 100);
    assert_eq!(state.balance(&key(2)), 0);
    assert_eq!(
        state.invoke(&transfer(&key(3), &key(2), 1), &accounts),
        Err(HostError::InsufficientFunds)
    );
}

#[test]
fn transfer_refuses_overflow_of_the_receiver() {
    let mut state = LedgerState::new();
    state.fund(&key(1), 10).unwrap();
    state.fund(&key(2), u64::MAX - 5).unwrap();
    let accounts = vec![signer(1), bystander(2)];
    assert_eq!(
        state.invoke(&transfer(&key(1), &key(2), 6), &accounts),
        Err(HostError::BalanceOverflow)
    );
    assert_eq!(state.balance(&key(1)), 10);
    assert_eq!(state.balance(&key(2)), u64::MAX - 5);
    assert_eq!(state.invoke(&transfer(&key(1), &key(2), 5), &accounts), Ok(()));
    assert_eq!(state.balance(&key(2)), u64::MAX);
}

#[test]
fn transfer_to_oneself_changes_nothing() {
    let mut state = LedgerState::new();
    state.fund(&key(1), u64::MAX).unwrap();
    let accounts = vec![signer(1)];
    assert_eq!(state.invoke(&transfer(&key(1), &key(1), 7), &accounts), Ok(()));
    assert_eq!(state.balance(&key(1)), u64::MAX);
    let mut poor = LedgerState::new();
    assert_eq!(
        poor.invoke(&transfer(&key(1), &key(1), 7), &accounts),
        Err(HostError::InsufficientFunds)
    );
}

#[test]
fn passed_and_signed() {
    let accounts = vec![bystander(1), signer(2), bystander(2)];
    assert!(is_passed(&accounts, &key(1)));
    assert!(is_passed(&accounts, &key(2)));
    assert!(!is_passed(&accounts, &key(3)));
    assert!(!has_signed(&accounts, &key(1)));
    assert!(has_signed(&accounts, &key(2)));
    assert!(!has_signed(&accounts, &key(3)));
    assert!(!is_passed(&vec![], &key(1)));
}

#[test]
fn invoke_carries_out_a_signed_transfer() {
    let mut state = LedgerState::new();
    state.fund(&key(1), 50).unwrap();
    let ix = transfer(&key(1), &key(2), 20);
    assert_eq!(state.invoke(&ix, &vec![signer(1), bystander(2)]), Ok(()));
    assert_eq!(state.balance(&key(1)), 30);
    assert_eq!(state.balance(&key(2)), 20);
}

#[test]
fn invoke_refuses_an_unsigned_transfer() {
    let mut state = LedgerState::new();
    state.fund(&key(1), 50).unwrap();
    let ix = transfer(&key(1), &key(2), 20);
    assert_eq!(
        state.invoke(&ix, &vec![bystander(1), signer(2)]),
        Err(HostError::MissingSignature)
    );
    let mut unsigned = transfer(&key(1), &key(2), 20);
    unsigned.accounts[0] = AccountMeta { pubkey: key(1), is_signer: false, is_writable: true };
    assert_eq!(
        state.invoke(&unsigned, &vec![signer(1), bystander(2)]),
        Err(HostError::MissingSignature)
    );
    assert_eq!(state.balance(&key(1)), 50);
    assert_eq!(state.balance(&key(2)), 0);
}

#[test]
fn invoke_refuses_an_account_that_was_not_passed() {
    let mut state = LedgerState::new();
    state.fund(&key(1), 50).unwrap();
    let ix = transfer(&key(1), &key(2), 20);
    assert_eq!(state.invoke(&ix, &vec![signer(1)]), Err(HostError::MissingAccount));
    assert_eq!(state.invoke(&ix, &vec![bystander(2)]), Err(HostError::MissingAccount));
    assert_eq!(state.balance(&key(1)), 50);
}

#[test]
fn invoke_refuses_what_is_no_transfer() {
    let mut state = LedgerState::new();
    state.fund(&key(1), 50).unwrap();
    let other = Instruction {
        program_id: key(0),
        accounts: vec![
            AccountMeta { pubkey: key(1), is_signer: true, is_writable: true },
            AccountMeta { pubkey: key(2), is_signer: false, is_writable: true },
        ],
        data: vec![1, 0, 0, 0, 20, 0, 0, 0, 0, 0, 0, 0],
    };
    assert_eq!(
        state.invoke(&other, &vec![signer(1), bystander(2)]),
        Err(HostError::UnsupportedInstruction)
    );
    assert_eq!(state.balance(&key(1)), 50);
}

#[test]
fn invoke_refuses_more_than_owned() {
    let mut state = LedgerState::new();
    state.fund(&key(1), 19).unwrap();
    let ix = transfer(&key(1), &key(2), 20);
    assert_eq!(
        state.invoke(&ix, &vec![signer(1), bystander(2)]),
        Err(HostError::InsufficientFunds)
    );
    assert_eq!(state.balance(&key(1)), 19);
}
