use shared_ledger::layout::{
    reserved_text_len, written_text_len, BUMP_LENGTH, DISCRIMINATOR_LENGTH, MAX_BYTES_PER_SCALAR,
    PUBLIC_KEY_LENGTH, STRING_LENGTH_PREFIX, U32, U64,
};
use shared_ledger::pubkey::Pubkey;
use shared_ledger::records::{
    ContentCredential, ContentType, TransactionEvent, TransactionEventType, Transfer,
};
use shared_ledger::validation::{MAX_HASH_LENGTH, MAX_TOPIC_LENGTH};

#[test]
fn field_widths() {
    assert_eq!(DISCRIMINATOR_LENGTH, 8);
    assert_eq!(PUBLIC_KEY_LENGTH, 32);
    assert_eq!(STRING_LENGTH_PREFIX, 4);
    assert_eq!(MAX_BYTES_PER_SCALAR, 4);
    assert_eq!(U32, 4);
    assert_eq!(U64, 8);
    assert_eq!(BUMP_LENGTH, 1);
    assert_eq!(Pubkey::LEN, 32);
}

#[test]
fn reserved_text_is_prefix_plus_four_bytes_per_scalar() {
    assert_eq!(reserved_text_len(0), 4);
    assert_eq!(reserved_text_len(1), 8);
    assert_eq!(reserved_text_len(MAX_TOPIC_LENGTH), 204);
    assert_eq!(reserved_text_len(MAX_HASH_LENGTH), 260);
}

#[test]
fn written_text_counts_bytes_not_scalars() {
    assert_eq!(written_text_len(""), 4);
    assert_eq!(written_text_len("rent"), 8);
    // two bytes, three bytes and four bytes for one scalar value each
    assert_eq!(written_text_len("é"), 6);
    assert_eq!(written_text_len("€"), 7);
    assert_eq!(written_text_len("😀"), 8);
}

#[test]
fn record_sizes() {
    assert_eq!(TransactionEvent::EVENT_TYPE_LENGTH, 1);
    assert_eq!(TransactionEvent::LEN, 5);
    assert_eq!(Transfer::NUM_TRANSACTION_EVENT, 2);
    assert_eq!(Transfer::LEN, 8 + 32 + 32 + 32 + 8 + (4 + 50 * 4) + 2 * 5 + 1);
    assert_eq!(Transfer::LEN, 327);
    assert_eq!(ContentCredential::CONTENT_LENGTH, 1);
    assert_eq!(ContentCredential::LEN, 8 + 32 + 1 + (4 + 64 * 4));
    assert_eq!(ContentCredential::LEN, 301);
}

#[test]
fn widest_topic_fills_the_reserved_bytes_exactly() {
    let topic = "😀".repeat(50);
    let request = Transfer::pending(
        Pubkey::new([1; 32]),
        Pubkey::new([2; 32]),
        Pubkey::new([3; 32]),
        7,
        topic,
        255,
    )
    .unwrap();
    assert_eq!(request.encoded_len(), Transfer::LEN);
}

#[test]
fn short_topic_takes_fewer_bytes_than_reserved() {
    let request = Transfer::pending(
        Pubkey::new([1; 32]),
        Pubkey::new([2; 32]),
        Pubkey::new([3; 32]),
        7,
        "rent".to_string(),
        255,
    )
    .unwrap();
    assert_eq!(request.encoded_len(), 8 + 96 + 8 + 10 + 8 + 1);
    assert!(request.encoded_len() <= Transfer::LEN);
}

#[test]
fn widest_hash_fills_the_reserved_bytes_exactly() {
    let credential =
        ContentCredential::issue(Pubkey::new([9; 32]), ContentType::EMAIL, "😀".repeat(64)).unwrap();
    assert_eq!(credential.encoded_len(), ContentCredential::LEN);
    let plain =
        ContentCredential::issue(Pubkey::new([9; 32]), ContentType::EMAIL, "a".repeat(64)).unwrap();
    assert_eq!(plain.encoded_len(), 8 + 32 + 1 + 4 + 64);
}

#[test]
fn pending_request_has_creation_in_first_slot() {
    let request = Transfer::pending(
        Pubkey::new([1; 32]),
        Pubkey::new([2; 32]),
        Pubkey::new([3; 32]),
        1000,
        "rent".to_string(),
        254,
    )
    .unwrap();
    assert_eq!(request.from, Pubkey::new([1; 32]));
    assert_eq!(request.to, Pubkey::new([2; 32]));
    assert_eq!(request.uuid, Pubkey::new([3; 32]));
    assert_eq!(request.amount, 1000);
    assert_eq!(request.topic, "rent");
    assert_eq!(request.bump, 254);
    assert_eq!(
        request.events[0],
        TransactionEvent { timestamp: 1, event_type: TransactionEventType::CREATION }
    );
    assert_eq!(
        request.events[1],
        TransactionEvent { timestamp: 0, event_type: TransactionEventType::UNDEFINED }
    );
    assert_eq!(request.events[0], TransactionEvent::creation());
    assert_eq!(request.events[1], TransactionEvent::default());
    assert_eq!(TransactionEventType::default(), TransactionEventType::UNDEFINED);
}
