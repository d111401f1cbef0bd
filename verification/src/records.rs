//! The persisted records and the bytes each of them takes.

use vstd::prelude::*;
use crate::layout::{
    lemma_text_fits, text_len, text_reserve, written_text_len, BUMP_LENGTH, DISCRIMINATOR_LENGTH,
    MAX_BYTES_PER_SCALAR, PUBLIC_KEY_LENGTH, STRING_LENGTH_PREFIX, U32, U64,
};
use crate::pubkey::Pubkey;
use crate::validation::{check_hash, check_topic, ErrorCode, MAX_HASH_LENGTH, MAX_TOPIC_LENGTH};

verus! {

/// The kind of content that a credential attests.
#[allow(non_camel_case_types)]
#[derive(Clone, Copy, Debug, PartialEq, Eq, Structural)]
pub enum ContentType {
    EMAIL,
}

/// The kind of step recorded in the log of a transfer request.
#[allow(non_camel_case_types)]
#[derive(Clone, Copy, Debug, PartialEq, Eq, Structural)]
pub enum TransactionEventType {
    UNDEFINED,
    CREATION,
    CANCEL,
    TRANSFER,
}

impl Default for TransactionEventType {
    fn default() -> (kind: Self)
        ensures
            kind == TransactionEventType::UNDEFINED,
    {
        TransactionEventType::UNDEFINED
    }
}

/// One entry of the log of a transfer request.
#[derive(Clone, Copy, Debug, PartialEq, Eq, Structural)]
pub struct TransactionEvent {
    /// A coarse counter, not a wall-clock time.
    pub timestamp: u32,
    pub event_type: TransactionEventType,
}

impl Default for TransactionEvent {
    fn default() -> (event: Self)
        ensures
            event == TransactionEvent::unset(),
    {
        TransactionEvent { timestamp: 0, event_type: TransactionEventType::UNDEFINED }
    }
}

impl TransactionEvent {
    pub const EVENT_TYPE_LENGTH: usize = 1;

    /// Bytes of a stored event: its timestamp and its kind.
    pub const LEN: usize = U32 + TransactionEvent::EVENT_TYPE_LENGTH;

    /// The entry of a log slot that nothing was written to.
    pub open spec fn unset() -> TransactionEvent {
        TransactionEvent { timestamp: 0, event_type: TransactionEventType::UNDEFINED }
    }

    /// The entry written when a transfer request is created.
    pub open spec fn created() -> TransactionEvent {
        TransactionEvent { timestamp: 1, event_type: TransactionEventType::CREATION }
    }

    /// Builds the entry written when a transfer request is created.
    pub fn creation() -> (event: TransactionEvent)
        ensures
            event == TransactionEvent::created(),
    {
        TransactionEvent { timestamp: 1, event_type: TransactionEventType::CREATION }
    }
}

/// A pending transfer request: `to` asks `from` for `amount` units.
#[derive(Clone, Debug)]
pub struct Transfer {
    /// The payer.
    pub from: Pubkey,
    /// The requester.
    pub to: Pubkey,
    /// The caller-chosen identifier from which the record's address is derived.
    pub uuid: Pubkey,
    pub amount: u64,
    pub events: [TransactionEvent; 2],
    pub topic: String,
    /// The discriminant found when the record's address was derived.
    pub bump: u8,
}

/// A transfer request as a mathematical value.
pub struct TransferView {
    pub from: Seq<u8>,
    pub to: Seq<u8>,
    pub uuid: Seq<u8>,
    pub amount: u64,
    pub events: Seq<TransactionEvent>,
    pub topic: Seq<char>,
    pub bump: u8,
}

impl View for Transfer {
    type V = TransferView;

    open spec fn view(&self) -> TransferView {
        TransferView {
            from: self.from@,
            to: self.to@,
            uuid: self.uuid@,
            amount: self.amount,
            events: self.events@,
            topic: self.topic@,
            bump: self.bump,
        }
    }
}

impl TransferView {
    /// The request that creation writes: the creation entry in the first log
    /// slot, nothing in the second.
    pub open spec fn pending(
        from: Seq<u8>,
        to: Seq<u8>,
        uuid: Seq<u8>,
        amount: u64,
        topic: Seq<char>,
        bump: u8,
    ) -> TransferView {
        TransferView {
            from,
            to,
            uuid,
            amount,
            events: seq![TransactionEvent::created(), TransactionEvent::unset()],
            topic,
            bump,
        }
    }

    /// The topic is within its bound and the log has its two slots.
    pub open spec fn valid(self) -> bool {
        &&& self.from.len() == PUBLIC_KEY_LENGTH
        &&& self.to.len() == PUBLIC_KEY_LENGTH
        &&& self.uuid.len() == PUBLIC_KEY_LENGTH
        &&& self.events.len() == Transfer::NUM_TRANSACTION_EVENT
        &&& self.topic.len() <= MAX_TOPIC_LENGTH
    }

    /// Bytes that the request takes when written.
    pub open spec fn encoded_len(self) -> nat {
        DISCRIMINATOR_LENGTH as nat + self.from.len() + self.to.len() + self.uuid.len()
            + U64 as nat + self.events.len() * TransactionEvent::LEN as nat + text_len(
            self.topic,
        ) + BUMP_LENGTH as nat
    }
}

impl Transfer {
    pub const NUM_TRANSACTION_EVENT: usize = 2;

    /// Bytes reserved for a stored transfer request.
    pub const LEN: usize = DISCRIMINATOR_LENGTH + PUBLIC_KEY_LENGTH + PUBLIC_KEY_LENGTH
        + PUBLIC_KEY_LENGTH + U64 + STRING_LENGTH_PREFIX + MAX_TOPIC_LENGTH * MAX_BYTES_PER_SCALAR
        + Transfer::NUM_TRANSACTION_EVENT * TransactionEvent::LEN + BUMP_LENGTH;

    /// Checks the topic and builds the request that creation writes.
    pub fn pending(
        from: Pubkey,
        to: Pubkey,
        uuid: Pubkey,
        amount: u64,
        topic: String,
        bump: u8,
    ) -> (made: Result<Transfer, ErrorCode>)
        ensures
            match made {
                Ok(request) => topic@.len() <= MAX_TOPIC_LENGTH && request@
                    == TransferView::pending(from@, to@, uuid@, amount, topic@, bump)
                    && request@.valid(),
                Err(code) => topic@.len() > MAX_TOPIC_LENGTH && code == ErrorCode::TopicTooLong,
            },
    {
        match check_topic(topic.as_str()) {
            Err(code) => Err(code),
            Ok(()) => {
                let events = [TransactionEvent::creation(), TransactionEvent::default()];
                let request = Transfer { from, to, uuid, amount, events, topic, bump };
                assert(request@.events =~= seq![
                    TransactionEvent::created(),
                    TransactionEvent::unset(),
                ]);
                Ok(request)
            },
        }
    }

    /// Bytes that this request takes when written.
    pub fn encoded_len(&self) -> (written: usize)
        requires
            self@.valid(),
        ensures
            written == self@.encoded_len(),
            written <= Transfer::LEN,
    {
        proof {
            lemma_transfer_fits(self@);
        }
        DISCRIMINATOR_LENGTH + PUBLIC_KEY_LENGTH + PUBLIC_KEY_LENGTH + PUBLIC_KEY_LENGTH + U64
            + Transfer::NUM_TRANSACTION_EVENT * TransactionEvent::LEN + written_text_len(
            self.topic.as_str(),
        ) + BUMP_LENGTH
    }
}

/// An attestation that binds its owner to a content hash.
#[derive(Clone, Debug)]
pub struct ContentCredential {
    /// The signer who created the credential.
    pub owner: Pubkey,
    pub content: ContentType,
    pub hash: String,
}

/// A content credential as a mathematical value.
pub struct ContentCredentialView {
    pub owner: Seq<u8>,
    pub content: ContentType,
    pub hash: Seq<char>,
}

impl View for ContentCredential {
    type V = ContentCredentialView;

    open spec fn view(&self) -> ContentCredentialView {
        ContentCredentialView { owner: self.owner@, content: self.content, hash: self.hash@ }
    }
}

impl ContentCredentialView {
    /// The hash is within its bound.
    pub open spec fn valid(self) -> bool {
        &&& self.owner.len() == PUBLIC_KEY_LENGTH
        &&& self.hash.len() <= MAX_HASH_LENGTH
    }

    /// Bytes that the credential takes when written.
    pub open spec fn encoded_len(self) -> nat {
        DISCRIMINATOR_LENGTH as nat + self.owner.len() + ContentCredential::CONTENT_LENGTH as nat
            + text_len(self.hash)
    }
}

impl ContentCredential {
    pub const CONTENT_LENGTH: usize = 1;

    /// Bytes reserved for a stored content credential.
    pub const LEN: usize = DISCRIMINATOR_LENGTH + PUBLIC_KEY_LENGTH
        + ContentCredential::CONTENT_LENGTH + STRING_LENGTH_PREFIX + MAX_HASH_LENGTH
        * MAX_BYTES_PER_SCALAR;

    /// Checks the hash and builds the credential owned by `owner`.
    pub fn issue(owner: Pubkey, content: ContentType, hash: String) -> (made: Result<
        ContentCredential,
        ErrorCode,
    >)
        ensures
            match made {
                Ok(credential) => hash@.len() <= MAX_HASH_LENGTH && credential@ == (
                ContentCredentialView { owner: owner@, content, hash: hash@ })
                    && credential@.valid(),
                Err(code) => hash@.len() > MAX_HASH_LENGTH && code == ErrorCode::HashTooLong,
            },
    {
        match check_hash(hash.as_str()) {
            Err(code) => Err(code),
            Ok(()) => Ok(ContentCredential { owner, content, hash }),
        }
    }

    /// Bytes that this credential takes when written.
    pub fn encoded_len(&self) -> (written: usize)
        requires
            self@.valid(),
        ensures
            written == self@.encoded_len(),
            written <= ContentCredential::LEN,
    {
        proof {
            lemma_credential_fits(self@);
        }
        DISCRIMINATOR_LENGTH + PUBLIC_KEY_LENGTH + ContentCredential::CONTENT_LENGTH
            + written_text_len(self.hash.as_str())
    }
}

/// The sizes reserved for the three kinds of stored value.
pub proof fn lemma_reserved_sizes()
    ensures
        TransactionEvent::LEN == 5,
        Transfer::LEN == 327,
        ContentCredential::LEN == 301,
        Transfer::LEN == DISCRIMINATOR_LENGTH + 3 * PUBLIC_KEY_LENGTH + U64 + text_reserve(
            MAX_TOPIC_LENGTH as nat,
        ) + 2 * TransactionEvent::LEN + BUMP_LENGTH,
        ContentCredential::LEN == DISCRIMINATOR_LENGTH + PUBLIC_KEY_LENGTH + 1 + text_reserve(
            MAX_HASH_LENGTH as nat,
        ),
{
}

/// A valid transfer request never takes more bytes than are reserved for it.
pub proof fn lemma_transfer_fits(request: TransferView)
    requires
        request.valid(),
    ensures
        request.encoded_len() <= Transfer::LEN,
{
    lemma_text_fits(request.topic, MAX_TOPIC_LENGTH as nat);
}

/// A valid content credential never takes more bytes than are reserved for it.
pub proof fn lemma_credential_fits(credential: ContentCredentialView)
    requires
        credential.valid(),
    ensures
        credential.encoded_len() <= ContentCredential::LEN,
{
    lemma_text_fits(credential.hash, MAX_HASH_LENGTH as nat);
}

} // verus!
