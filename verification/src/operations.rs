//! The three operations of the ledger.
//!
//! Each is one step: the host's checks on the accounts come first, then the
//! check of the caller's text, then the change of state. A step that fails at
//! any point leaves the ledger as it was.

use vstd::prelude::*;
use crate::address::{bump_of, derive_transfer_address, found_view, transfer_address};
use crate::instruction::transfer;
use crate::ledger::{AccountRef, HostError, LedgerState, LedgerView, Record, RecordView};
use crate::pubkey::Pubkey;
use crate::records::{
    ContentCredential, ContentCredentialView, ContentType, Transfer, TransferView,
};
use crate::validation::{ErrorCode, MAX_HASH_LENGTH, MAX_TOPIC_LENGTH};

verus! {

/// Why an operation failed.
#[derive(Clone, Copy, Debug, PartialEq, Eq, Structural)]
pub enum LedgerError {
    /// The caller's text exceeds its bound.
    Validation(ErrorCode),
    /// The host refused the accounts or the change of state.
    Host(HostError),
}

/// The accounts of `create_notification_credential`.
#[derive(Clone, Copy, Debug, PartialEq, Eq)]
pub struct CreateContentCredential {
    /// The issuer, who signs.
    pub author: AccountRef,
    /// The fresh address at which the credential is stored.
    pub credential: Pubkey,
}

/// The accounts of `create_transfer_request`.
#[derive(Clone, Copy, Debug, PartialEq, Eq)]
pub struct CreateTransferRequest {
    /// The address at which the request is stored: the one derived from its identifier.
    pub transfer: Pubkey,
    /// The party that asks for the payment and signs.
    pub requester: AccountRef,
    /// The party that is asked to pay.
    pub payer: AccountRef,
}

/// The accounts of `execute_transfer_request`.
#[derive(Clone, Copy, Debug, PartialEq, Eq)]
pub struct ExecuteTransferRequest {
    /// The party that asked for the payment.
    pub requester: AccountRef,
    /// The party that pays and signs.
    pub payer: AccountRef,
    /// The address at which the request is stored.
    pub transfer: Pubkey,
}

/// The outcome of a change that the host carries out, as the outcome of the
/// operation around it: on a refusal the ledger is `pre` again.
pub open spec fn committed(pre: LedgerView, outcome: (LedgerView, Result<(), HostError>)) -> (
    LedgerView,
    Result<(), LedgerError>,
) {
    match outcome.1 {
        Ok(()) => (outcome.0, Ok(())),
        Err(refusal) => (pre, Err(LedgerError::Host(refusal))),
    }
}

/// The ledger and the result after `create_notification_credential`.
pub open spec fn credential_created(
    pre: LedgerView,
    accounts: CreateContentCredential,
    content: ContentType,
    hash: Seq<char>,
) -> (LedgerView, Result<(), LedgerError>) {
    if !accounts.author.is_signer {
        (pre, Err(LedgerError::Host(HostError::MissingSignature)))
    } else if hash.len() > MAX_HASH_LENGTH {
        (pre, Err(LedgerError::Validation(ErrorCode::HashTooLong)))
    } else {
        committed(
            pre,
            pre.allocated(
                accounts.credential@,
                RecordView::Credential(
                    ContentCredentialView { owner: accounts.author.key@, content, hash },
                ),
            ),
        )
    }
}

/// The ledger and the result after `create_transfer_request`, where `derived`
/// is the address and discriminant derived from `uuid`.
pub open spec fn transfer_created(
    pre: LedgerView,
    accounts: CreateTransferRequest,
    derived: Option<(Seq<u8>, u8)>,
    uuid: Seq<u8>,
    topic: Seq<char>,
    amount: u64,
) -> (LedgerView, Result<(), LedgerError>) {
    if !accounts.requester.is_signer {
        (pre, Err(LedgerError::Host(HostError::MissingSignature)))
    } else {
        match derived {
            None => (pre, Err(LedgerError::Host(HostError::NoViableAddress))),
            Some((address, bump)) => {
                if accounts.transfer@ != address {
                    (pre, Err(LedgerError::Host(HostError::AddressMismatch)))
                } else if topic.len() > MAX_TOPIC_LENGTH {
                    (pre, Err(LedgerError::Validation(ErrorCode::TopicTooLong)))
                } else {
                    committed(
                        pre,
                        pre.allocated(
                            address,
                            RecordView::Transfer(
                                TransferView::pending(
                                    accounts.payer.key@,
                                    accounts.requester.key@,
                                    uuid,
                                    amount,
                                    topic,
                                    bump,
                                ),
                            ),
                        ),
                    )
                }
            },
        }
    }
}

/// The ledger and the result after `execute_transfer_request`, where
/// `derived` is the address and discriminant derived from the identifier.
pub open spec fn transfer_executed(
    pre: LedgerView,
    accounts: ExecuteTransferRequest,
    derived: Option<(Seq<u8>, u8)>,
) -> (LedgerView, Result<(), LedgerError>) {
    match pre.transfer_at(accounts.transfer@) {
        None => (pre, Err(LedgerError::Host(HostError::RecordNotFound))),
        Some(request) => {
            if !accounts.payer.is_signer {
                (pre, Err(LedgerError::Host(HostError::MissingSignature)))
            } else {
                match derived {
                    None => (pre, Err(LedgerError::Host(HostError::NoViableAddress))),
                    Some((address, _)) => {
                        if address != accounts.transfer@ {
                            (pre, Err(LedgerError::Host(HostError::AddressMismatch)))
                        } else if request.from != accounts.payer.key@ {
                            (pre, Err(LedgerError::Host(HostError::PayerMismatch)))
                        } else if request.to != accounts.requester.key@ {
                            (pre, Err(LedgerError::Host(HostError::RequesterMismatch)))
                        } else {
                            let paid = pre.transferred(request.from, request.to, request.amount);
                            committed(pre, (paid.0.without_record(accounts.transfer@), paid.1))
                        }
                    },
                }
            }
        },
    }
}

/// What a successful execution leaves: the request at `accounts.transfer`
/// named the payer and the requester that were passed, exactly its amount
/// went from the one to the other, and the record is gone.
pub open spec fn paid_in_full(
    pre: LedgerView,
    accounts: ExecuteTransferRequest,
    post: LedgerView,
) -> bool {
    &&& pre.transfer_at(accounts.transfer@) matches Some(request)
    &&& accounts.payer.is_signer
    &&& request.from == accounts.payer.key@
    &&& request.to == accounts.requester.key@
    &&& pre.balance(request.from) >= request.amount
    &&& post == pre.moved(request.from, request.to, request.amount as nat).without_record(
        accounts.transfer@,
    )
    &&& post.transfer_at(accounts.transfer@) is None
}

/// Issues a content credential: stores at `accounts.credential` a record that
/// binds the signing author to `hash`.
pub fn create_notification_credential(
    state: &mut LedgerState,
    accounts: &CreateContentCredential,
    content: ContentType,
    hash: String,
) -> (done: Result<(), LedgerError>)
    requires
        old(state).wf(),
    ensures
        final(state).wf(),
        (final(state)@, done) == credential_created(old(state)@, *accounts, content, hash@),
        done is Err ==> final(state)@ == old(state)@,
        accounts.author.is_signer && hash@.len() > 64 ==> done == Err::<(), LedgerError>(
            LedgerError::Validation(ErrorCode::HashTooLong),
        ),
        accounts.author.is_signer && hash@.len() <= 64 && !old(state)@.records.contains_key(
            accounts.credential@,
        ) ==> done is Ok && final(state)@.credential_at(accounts.credential@) == Some(
            ContentCredentialView { owner: accounts.author.key@, content, hash: hash@ },
        ),
{
    if !accounts.author.is_signer {
        return Err(LedgerError::Host(HostError::MissingSignature));
    }
    match ContentCredential::issue(accounts.author.key, content, hash) {
        Err(code) => Err(LedgerError::Validation(code)),
        Ok(credential) => match state.allocate(&accounts.credential, Record::Credential(credential)) {
            Err(refusal) => Err(LedgerError::Host(refusal)),
            Ok(()) => Ok(()),
        },
    }
}

/// Creates a transfer request at the given derived address: `derived` is what
/// the derivation from `uuid` gave.
pub fn create_transfer_request_at(
    state: &mut LedgerState,
    accounts: &CreateTransferRequest,
    derived: Option<(Pubkey, u8)>,
    uuid: Pubkey,
    topic: String,
    amount: u64,
) -> (done: Result<(), LedgerError>)
    requires
        old(state).wf(),
    ensures
        final(state).wf(),
        (final(state)@, done) == transfer_created(
            old(state)@,
            *accounts,
            found_view(derived),
            uuid@,
            topic@,
            amount,
        ),
        done is Err ==> final(state)@ == old(state)@,
        done is Ok ==> accounts.requester.is_signer && topic@.len() <= 50
            && !old(state)@.records.contains_key(accounts.transfer@),
        done is Ok ==> found_view(derived) == Some((accounts.transfer@, bump_of(found_view(derived))))
            && final(state)@.transfer_at(accounts.transfer@) == Some(
            TransferView::pending(
                accounts.payer.key@,
                accounts.requester.key@,
                uuid@,
                amount,
                topic@,
                bump_of(found_view(derived)),
            ),
        ),
{
    if !accounts.requester.is_signer {
        return Err(LedgerError::Host(HostError::MissingSignature));
    }
    let (address, bump) = match derived {
        None => {
            return Err(LedgerError::Host(HostError::NoViableAddress));
        },
        Some(found) => found,
    };
    if !accounts.transfer.equals(&address) {
        return Err(LedgerError::Host(HostError::AddressMismatch));
    }
    match Transfer::pending(accounts.payer.key, accounts.requester.key, uuid, amount, topic, bump) {
        Err(code) => Err(LedgerError::Validation(code)),
        Ok(request) => match state.allocate(&address, Record::Transfer(request)) {
            Err(refusal) => Err(LedgerError::Host(refusal)),
            Ok(()) => Ok(()),
        },
    }
}

/// Creates a transfer request: stores, at the address derived from `uuid`, a
/// record by which the signing requester asks the payer for `amount` units.
pub fn create_transfer_request(
    state: &mut LedgerState,
    accounts: &CreateTransferRequest,
    uuid: Pubkey,
    topic: String,
    amount: u64,
) -> (done: Result<(), LedgerError>)
    requires
        old(state).wf(),
    ensures
        final(state).wf(),
        (final(state)@, done) == transfer_created(
            old(state)@,
            *accounts,
            transfer_address(uuid@),
            uuid@,
            topic@,
            amount,
        ),
        done is Err ==> final(state)@ == old(state)@,
        accounts.requester.is_signer && transfer_address(uuid@) == Some(
            (accounts.transfer@, bump_of(transfer_address(uuid@))),
        ) ==> {
            &&& topic@.len() > 50 ==> done == Err::<(), LedgerError>(
                LedgerError::Validation(ErrorCode::TopicTooLong),
            )
            &&& topic@.len() <= 50 && !old(state)@.records.contains_key(accounts.transfer@)
                ==> done is Ok && final(state)@.transfer_at(accounts.transfer@) == Some(
                TransferView::pending(
                    accounts.payer.key@,
                    accounts.requester.key@,
                    uuid@,
                    amount,
                    topic@,
                    bump_of(transfer_address(uuid@)),
                ),
            )
            &&& topic@.len() <= 50 && old(state)@.records.contains_key(accounts.transfer@)
                ==> done == Err::<(), LedgerError>(LedgerError::Host(HostError::RecordExists))
        },
{
    let derived = derive_transfer_address(&uuid);
    create_transfer_request_at(state, accounts, derived, uuid, topic, amount)
}

/// Executes the transfer request at the given derived address: `derived` is
/// what the derivation from the request's identifier gave.
pub fn execute_transfer_request_at(
    state: &mut LedgerState,
    accounts: &ExecuteTransferRequest,
    derived: Option<(Pubkey, u8)>,
) -> (done: Result<(), LedgerError>)
    requires
        old(state).wf(),
    ensures
        final(state).wf(),
        (final(state)@, done) == transfer_executed(old(state)@, *accounts, found_view(derived)),
        done is Err ==> final(state)@ == old(state)@,
        done is Ok ==> paid_in_full(old(state)@, *accounts, final(state)@),
{
    let (from, to, amount) = match state.transfer_request(&accounts.transfer) {
        None => {
            return Err(LedgerError::Host(HostError::RecordNotFound));
        },
        Some(request) => (request.from, request.to, request.amount),
    };
    if !accounts.payer.is_signer {
        return Err(LedgerError::Host(HostError::MissingSignature));
    }
    let address = match derived {
        None => {
            return Err(LedgerError::Host(HostError::NoViableAddress));
        },
        Some(found) => found.0,
    };
    if !address.equals(&accounts.transfer) {
        return Err(LedgerError::Host(HostError::AddressMismatch));
    }
    if !from.equals(&accounts.payer.key) {
        return Err(LedgerError::Host(HostError::PayerMismatch));
    }
    if !to.equals(&accounts.requester.key) {
        return Err(LedgerError::Host(HostError::RequesterMismatch));
    }
    let order = transfer(&from, &to, amount);
    let passed = vec![accounts.payer, accounts.requester];
    proof {
        assert(passed@[0] == accounts.payer && passed@[1] == accounts.requester);
        assert(crate::ledger::passed(passed@, from@));
        assert(crate::ledger::passed(passed@, to@));
        assert(crate::ledger::signed(passed@, from@));
    }
    match state.invoke(&order, &passed) {
        Err(refusal) => Err(LedgerError::Host(refusal)),
        Ok(()) => {
            state.close(&accounts.transfer);
            Ok(())
        },
    }
}

/// Executes a transfer request: moves the requested amount from the signing
/// payer to the requester and removes the record, both or neither.
pub fn execute_transfer_request(
    state: &mut LedgerState,
    accounts: &ExecuteTransferRequest,
    uuid: Pubkey,
) -> (done: Result<(), LedgerError>)
    requires
        old(state).wf(),
    ensures
        final(state).wf(),
        (final(state)@, done) == transfer_executed(
            old(state)@,
            *accounts,
            transfer_address(uuid@),
        ),
        done is Err ==> final(state)@ == old(state)@,
        done is Ok ==> paid_in_full(old(state)@, *accounts, final(state)@),
        old(state)@.transfer_at(accounts.transfer@) matches Some(request) && request.from
            != accounts.payer.key@ ==> done is Err,
{
    let derived = derive_transfer_address(&uuid);
    execute_transfer_request_at(state, accounts, derived)
}

} // verus!
