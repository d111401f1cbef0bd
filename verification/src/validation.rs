//! Checks on caller-supplied text. Lengths are counted in Unicode scalar
//! values, never in bytes.

use vstd::prelude::*;
use vstd::string::*;

verus! {

/// The two conditions under which an operation rejects its arguments.
#[derive(Clone, Copy, Debug, PartialEq, Eq, Structural)]
pub enum ErrorCode {
    TopicTooLong,
    HashTooLong,
}

/// Largest number of scalar values in the topic of a transfer request.
pub const MAX_TOPIC_LENGTH: usize = 50;

/// Largest number of scalar values in the hash of a content credential.
pub const MAX_HASH_LENGTH: usize = 64;

impl ErrorCode {
    /// The text shown to the caller for this condition.
    pub fn message(&self) -> (text: &'static str)
        ensures
            text@ == match *self {
                ErrorCode::TopicTooLong => "The provided topic should be 50 characters long maximum."@,
                ErrorCode::HashTooLong => "The provided Hash should be 64 characters long maximum."@,
            },
    {
        match self {
            ErrorCode::TopicTooLong => "The provided topic should be 50 characters long maximum.",
            ErrorCode::HashTooLong => "The provided Hash should be 64 characters long maximum.",
        }
    }
}

/// What checking a topic yields.
pub open spec fn topic_verdict(topic: Seq<char>) -> Result<(), ErrorCode> {
    if topic.len() <= MAX_TOPIC_LENGTH {
        Ok(())
    } else {
        Err(ErrorCode::TopicTooLong)
    }
}

/// What checking a hash yields.
pub open spec fn hash_verdict(hash: Seq<char>) -> Result<(), ErrorCode> {
    if hash.len() <= MAX_HASH_LENGTH {
        Ok(())
    } else {
        Err(ErrorCode::HashTooLong)
    }
}

/// Number of Unicode scalar values in `text`.
pub fn scalar_count(text: &str) -> (count: usize)
    ensures
        count == text@.len(),
{
    text.unicode_len()
}

/// Whether `text` holds at most `bound` scalar values.
pub fn within_bound(text: &str, bound: usize) -> (fits: bool)
    ensures
        fits == (text@.len() <= bound),
{
    scalar_count(text) <= bound
}

/// Accepts a topic of at most 50 scalar values.
pub fn check_topic(topic: &str) -> (verdict: Result<(), ErrorCode>)
    ensures
        verdict == topic_verdict(topic@),
        verdict is Ok <==> topic@.len() <= 50,
        verdict is Err ==> verdict == Err::<(), ErrorCode>(ErrorCode::TopicTooLong),
{
    if within_bound(topic, MAX_TOPIC_LENGTH) {
        Ok(())
    } else {
        Err(ErrorCode::TopicTooLong)
    }
}

/// Accepts a hash of at most 64 scalar values.
pub fn check_hash(hash: &str) -> (verdict: Result<(), ErrorCode>)
    ensures
        verdict == hash_verdict(hash@),
        verdict is Ok <==> hash@.len() <= 64,
        verdict is Err ==> verdict == Err::<(), ErrorCode>(ErrorCode::HashTooLong),
{
    if within_bound(hash, MAX_HASH_LENGTH) {
        Ok(())
    } else {
        Err(ErrorCode::HashTooLong)
    }
}

} // verus!
