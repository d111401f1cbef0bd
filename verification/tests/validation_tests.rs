use shared_ledger::pubkey::Pubkey;
use shared_ledger::records::{ContentCredential, ContentType, Transfer};
use shared_ledger::validation::{
    check_hash, check_topic, scalar_count, within_bound, ErrorCode, MAX_HASH_LENGTH,
    MAX_TOPIC_LENGTH,
};

#[test]
fn bounds() {
    assert_eq!(MAX_TOPIC_LENGTH, 50);
    assert_eq!(MAX_HASH_LENGTH, 64);
}

#[test]
fn scalar_count_counts_scalar_values() {
    assert_eq!(scalar_count(""), 0);
    assert_eq!(scalar_count("rent"), 4);
    assert_eq!(scalar_count("é€😀"), 3);
    assert_eq!("é€😀".len(), 9);
}

#[test]
fn within_bound_is_inclusive() {
    assert!(within_bound("abc", 3));
    assert!(within_bound("abc", 4));
    assert!(!within_bound("abc", 2));
    assert!(within_bound("", 0));
}

#[test]
fn topic_of_fifty_is_accepted_and_fifty_one_rejected() {
    assert_eq!(check_topic(&"t".repeat(50)), Ok(()));
    assert_eq!(check_topic(&"t".repeat(51)), Err(ErrorCode::TopicTooLong));
    assert_eq!(check_topic(""), Ok(()));
}

#[test]
fn topic_bound_counts_scalars_not_bytes() {
    // 50 scalar values in 200 bytes
    assert_eq!(check_topic(&"😀".repeat(50)), Ok(()));
    assert_eq!(check_topic(&"😀".repeat(51)), Err(ErrorCode::TopicTooLong));
}

#[test]
fn hash_of_sixty_four_is_accepted_and_sixty_five_rejected() {
    assert_eq!(check_hash(&"h".repeat(64)), Ok(()));
    assert_eq!(check_hash(&"h".repeat(65)), Err(ErrorCode::HashTooLong));
    assert_eq!(check_hash(&"é".repeat(64)), Ok(()));
}

#[test]
fn messages() {
    assert_eq!(
        ErrorCode::TopicTooLong.message(),
        "The provided topic should be 50 characters long maximum."
    );
    assert_eq!(
        ErrorCode::HashTooLong.message(),
        "The provided Hash should be 64 characters long maximum."
    );
}

#[test]
fn pending_rejects_long_topic() {
    let made = Transfer::pending(
        Pubkey::new([1; 32]),
        Pubkey::new([2; 32]),
        Pubkey::new([3; 32]),
        1,
        "t".repeat(51),
        255,
    );
    assert_eq!(made.err(), Some(ErrorCode::TopicTooLong));
}

#[test]
fn issue_keeps_the_hash_and_rejects_a_long_one() {
    let owner = Pubkey::new([7; 32]);
    let hash = "9f86d081884c7d659a2feaa0c55ad015a3bf4f1b2b0b822cd15d6c15b0f00a08";
    assert_eq!(hash.len(), 64);
    let credential = ContentCredential::issue(owner, ContentType::EMAIL, hash.to_string()).unwrap();
    assert_eq!(credential.owner, owner);
    assert_eq!(credential.content, ContentType::EMAIL);
    assert_eq!(credential.hash, hash);
    let long = ContentCredential::issue(owner, ContentType::EMAIL, "h".repeat(65));
    assert_eq!(long.err(), Some(ErrorCode::HashTooLong));
}
