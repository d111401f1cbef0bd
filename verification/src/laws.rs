//! What holds of the operations on every ledger, stated over the functions
//! that give each operation's outcome.
//!
//! Where a law takes `derived`, it holds for whatever the derivation from the
//! identifier gives; two operations on one identifier get the same `derived`,
//! because the derivation is a function of its inputs.

use vstd::prelude::*;
use crate::ledger::{HostError, LedgerView, RecordView};
use crate::operations::{
    credential_created, transfer_created, transfer_executed, CreateContentCredential,
    CreateTransferRequest, ExecuteTransferRequest, LedgerError,
};
use crate::records::{ContentCredentialView, ContentType, TransferView};
use crate::validation::{ErrorCode, MAX_HASH_LENGTH, MAX_TOPIC_LENGTH};

verus! {

/// Every record of `pre` that `post` still holds is unchanged, and every
/// content credential of `pre` is still there.
pub open spec fn keeps_records(pre: LedgerView, post: LedgerView) -> bool {
    &&& forall|address: Seq<u8>|
        pre.records.contains_key(address) && #[trigger] post.records.contains_key(address)
            ==> post.records[address] == pre.records[address]
    &&& forall|address: Seq<u8>| #[trigger]
        pre.credential_at(address) is Some ==> post.credential_at(address) == pre.credential_at(
            address,
        )
}

/// A hash of at most 64 scalar values is accepted and stored as it was given:
/// where the author signed and the address is free, the credential at that
/// address holds the author, the content kind and the very hash.
pub proof fn lemma_credential_round_trip(
    pre: LedgerView,
    accounts: CreateContentCredential,
    content: ContentType,
    hash: Seq<char>,
)
    requires
        hash.len() <= MAX_HASH_LENGTH,
        accounts.author.is_signer,
        !pre.records.contains_key(accounts.credential@),
    ensures
        credential_created(pre, accounts, content, hash).1 is Ok,
        credential_created(pre, accounts, content, hash).0.credential_at(accounts.credential@)
            == Some(ContentCredentialView { owner: accounts.author.key@, content, hash }),
        credential_created(pre, accounts, content, hash).0.balances == pre.balances,
{
}

/// A hash of more than 64 scalar values from a signing author is rejected as
/// too long, and nothing is stored.
pub proof fn lemma_long_hash_rejected(
    pre: LedgerView,
    accounts: CreateContentCredential,
    content: ContentType,
    hash: Seq<char>,
)
    requires
        hash.len() > MAX_HASH_LENGTH,
        accounts.author.is_signer,
    ensures
        credential_created(pre, accounts, content, hash) == (
            pre,
            Err::<(), LedgerError>(LedgerError::Validation(ErrorCode::HashTooLong)),
        ),
{
}

/// A topic of at most 50 scalar values is accepted: where the requester
/// signed, the address passed is the derived one and it is free, the request
/// is stored there with the values given.
pub proof fn lemma_topic_within_bound_accepted(
    pre: LedgerView,
    accounts: CreateTransferRequest,
    bump: u8,
    uuid: Seq<u8>,
    topic: Seq<char>,
    amount: u64,
)
    requires
        topic.len() <= MAX_TOPIC_LENGTH,
        accounts.requester.is_signer,
        !pre.records.contains_key(accounts.transfer@),
    ensures
        ({
            let after = transfer_created(
                pre,
                accounts,
                Some((accounts.transfer@, bump)),
                uuid,
                topic,
                amount,
            );
            &&& after.1 is Ok
            &&& after.0.transfer_at(accounts.transfer@) == Some(
                TransferView::pending(
                    accounts.payer.key@,
                    accounts.requester.key@,
                    uuid,
                    amount,
                    topic,
                    bump,
                ),
            )
            &&& after.0.balances == pre.balances
        }),
{
}

/// A topic of more than 50 scalar values is rejected as too long, whatever
/// the address holds, and nothing is stored.
pub proof fn lemma_long_topic_rejected(
    pre: LedgerView,
    accounts: CreateTransferRequest,
    bump: u8,
    uuid: Seq<u8>,
    topic: Seq<char>,
    amount: u64,
)
    requires
        topic.len() > MAX_TOPIC_LENGTH,
        accounts.requester.is_signer,
    ensures
        transfer_created(pre, accounts, Some((accounts.transfer@, bump)), uuid, topic, amount) == (
            pre,
            Err::<(), LedgerError>(LedgerError::Validation(ErrorCode::TopicTooLong)),
        ),
{
}

/// After a transfer request was created for an identifier, a second creation
/// for the same identifier fails, whoever asks and whatever the topic and
/// amount, and leaves the ledger with the first request untouched. Where the
/// second call is in order but for the identifier, the failure is that the
/// address holds a record.
pub proof fn lemma_second_creation_fails(
    pre: LedgerView,
    derived: Option<(Seq<u8>, u8)>,
    uuid: Seq<u8>,
    first: CreateTransferRequest,
    first_topic: Seq<char>,
    first_amount: u64,
    second: CreateTransferRequest,
    second_topic: Seq<char>,
    second_amount: u64,
)
    requires
        transfer_created(pre, first, derived, uuid, first_topic, first_amount).1 is Ok,
    ensures
        ({
            let mid = transfer_created(pre, first, derived, uuid, first_topic, first_amount).0;
            let again = transfer_created(mid, second, derived, uuid, second_topic, second_amount);
            &&& again.1 is Err
            &&& again.0 == mid
            &&& mid.transfer_at(first.transfer@) == Some(
                TransferView::pending(
                    first.payer.key@,
                    first.requester.key@,
                    uuid,
                    first_amount,
                    first_topic,
                    crate::address::bump_of(derived),
                ),
            )
            &&& second.requester.is_signer && second.transfer@ == first.transfer@
                && second_topic.len() <= MAX_TOPIC_LENGTH ==> again.1 == Err::<(), LedgerError>(
                LedgerError::Host(HostError::RecordExists),
            )
        }),
{
}

/// Executing a pending request of `amount` units from `from` to `to`, with
/// `from` as the signing payer and `to` as the requester, moves exactly
/// `amount` units from `from` to `to`, changes no other balance and removes
/// the record; the payer must own the units and the requester's balance must
/// stay within 64 bits.
pub proof fn lemma_execution_moves_amount(
    pre: LedgerView,
    accounts: ExecuteTransferRequest,
    bump: u8,
    request: TransferView,
)
    requires
        pre.valid(),
        pre.transfer_at(accounts.transfer@) == Some(request),
        accounts.payer.is_signer,
        accounts.payer.key@ == request.from,
        accounts.requester.key@ == request.to,
        pre.balance(request.from) >= request.amount,
        request.from != request.to ==> pre.balance(request.to) + request.amount <= u64::MAX,
    ensures
        ({
            let after = transfer_executed(pre, accounts, Some((accounts.transfer@, bump)));
            let post = after.0;
            &&& after.1 is Ok
            &&& post.records == pre.records.remove(accounts.transfer@)
            &&& post.transfer_at(accounts.transfer@) is None
            &&& request.from != request.to ==> post.balance(request.from) == pre.balance(
                request.from,
            ) - request.amount && post.balance(request.to) == pre.balance(request.to)
                + request.amount
            &&& request.from == request.to ==> post.balance(request.from) == pre.balance(
                request.from,
            )
            &&& forall|other: Seq<u8>|
                other != request.from && other != request.to ==> #[trigger] post.balance(other)
                    == pre.balance(other)
        }),
{
}

/// A request is executed at most once: after an execution succeeded, another
/// on the same address finds no record and changes nothing.
pub proof fn lemma_second_execution_fails(
    pre: LedgerView,
    first: ExecuteTransferRequest,
    first_derived: Option<(Seq<u8>, u8)>,
    second: ExecuteTransferRequest,
    second_derived: Option<(Seq<u8>, u8)>,
)
    requires
        transfer_executed(pre, first, first_derived).1 is Ok,
        second.transfer@ == first.transfer@,
    ensures
        ({
            let post = transfer_executed(pre, first, first_derived).0;
            transfer_executed(post, second, second_derived) == (
                post,
                Err::<(), LedgerError>(LedgerError::Host(HostError::RecordNotFound)),
            )
        }),
{
}

/// An execution whose payer is not the one that the record names fails and
/// moves nothing: the ledger is as it was.
pub proof fn lemma_wrong_payer_moves_nothing(
    pre: LedgerView,
    accounts: ExecuteTransferRequest,
    derived: Option<(Seq<u8>, u8)>,
    request: TransferView,
)
    requires
        pre.transfer_at(accounts.transfer@) == Some(request),
        accounts.payer.key@ != request.from,
    ensures
        transfer_executed(pre, accounts, derived).1 is Err,
        transfer_executed(pre, accounts, derived).0 == pre,
        accounts.payer.is_signer && derived is Some && crate::address::found_address(derived)
            == accounts.transfer@ ==> transfer_executed(pre, accounts, derived).1 == Err::<
            (),
            LedgerError,
        >(LedgerError::Host(HostError::PayerMismatch)),
{
}

/// An execution whose requester is not the one that the record names fails
/// and moves nothing.
pub proof fn lemma_wrong_requester_moves_nothing(
    pre: LedgerView,
    accounts: ExecuteTransferRequest,
    derived: Option<(Seq<u8>, u8)>,
    request: TransferView,
)
    requires
        pre.transfer_at(accounts.transfer@) == Some(request),
        accounts.requester.key@ != request.to,
    ensures
        transfer_executed(pre, accounts, derived).1 is Err,
        transfer_executed(pre, accounts, derived).0 == pre,
{
}

/// An execution that the payer did not sign fails and moves nothing.
pub proof fn lemma_unsigned_execution_moves_nothing(
    pre: LedgerView,
    accounts: ExecuteTransferRequest,
    derived: Option<(Seq<u8>, u8)>,
)
    requires
        !accounts.payer.is_signer,
    ensures
        transfer_executed(pre, accounts, derived).1 is Err,
        transfer_executed(pre, accounts, derived).0 == pre,
{
}

/// A failed operation has no effect at all.
pub proof fn lemma_failure_changes_nothing(
    pre: LedgerView,
    issue: CreateContentCredential,
    content: ContentType,
    hash: Seq<char>,
    create: CreateTransferRequest,
    derived: Option<(Seq<u8>, u8)>,
    uuid: Seq<u8>,
    topic: Seq<char>,
    amount: u64,
    execute: ExecuteTransferRequest,
)
    ensures
        credential_created(pre, issue, content, hash).1 is Err ==> credential_created(
            pre,
            issue,
            content,
            hash,
        ).0 == pre,
        transfer_created(pre, create, derived, uuid, topic, amount).1 is Err ==> transfer_created(
            pre,
            create,
            derived,
            uuid,
            topic,
            amount,
        ).0 == pre,
        transfer_executed(pre, execute, derived).1 is Err ==> transfer_executed(
            pre,
            execute,
            derived,
        ).0 == pre,
{
}

/// No operation changes a record once it is stored, and none removes a
/// content credential: a request keeps its amount, payer and requester until
/// it is executed, and a credential stays as it was issued.
pub proof fn lemma_records_are_immutable(
    pre: LedgerView,
    issue: CreateContentCredential,
    content: ContentType,
    hash: Seq<char>,
    create: CreateTransferRequest,
    derived: Option<(Seq<u8>, u8)>,
    uuid: Seq<u8>,
    topic: Seq<char>,
    amount: u64,
    execute: ExecuteTransferRequest,
)
    ensures
        keeps_records(pre, credential_created(pre, issue, content, hash).0),
        keeps_records(pre, transfer_created(pre, create, derived, uuid, topic, amount).0),
        keeps_records(pre, transfer_executed(pre, execute, derived).0),
{
}

/// The operations keep the ledger valid: balances stay within 64 bits and
/// every stored record stays within the bytes reserved for it. The identifier
/// is a key of 32 bytes.
pub proof fn lemma_operations_keep_validity(
    pre: LedgerView,
    issue: CreateContentCredential,
    content: ContentType,
    hash: Seq<char>,
    create: CreateTransferRequest,
    derived: Option<(Seq<u8>, u8)>,
    uuid: Seq<u8>,
    topic: Seq<char>,
    amount: u64,
    execute: ExecuteTransferRequest,
)
    requires
        pre.valid(),
        uuid.len() == 32,
    ensures
        credential_created(pre, issue, content, hash).0.valid(),
        transfer_created(pre, create, derived, uuid, topic, amount).0.valid(),
        transfer_executed(pre, execute, derived).0.valid(),
{
    crate::pubkey::lemma_key_len(issue.author.key);
    crate::pubkey::lemma_key_len(create.payer.key);
    crate::pubkey::lemma_key_len(create.requester.key);
}

/// Every record of a valid ledger fits the bytes reserved for its kind.
pub proof fn lemma_stored_records_fit(ledger: LedgerView, address: Seq<u8>)
    requires
        ledger.valid(),
        ledger.records.contains_key(address),
    ensures
        match ledger.records[address] {
            RecordView::Credential(credential) => credential.encoded_len()
                <= crate::records::ContentCredential::LEN,
            RecordView::Transfer(request) => request.encoded_len() <= crate::records::Transfer::LEN,
        },
{
    match ledger.records[address] {
        RecordView::Credential(credential) => crate::records::lemma_credential_fits(credential),
        RecordView::Transfer(request) => crate::records::lemma_transfer_fits(request),
    }
}

} // verus!
