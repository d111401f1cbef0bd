//! The ledger as the operations see it: which record each address holds and
//! how many units of the native asset each identity owns.
//!
//! The host keeps this state and applies each operation as a whole or not at
//! all. `LedgerState` is the same state held in memory, so that an operation
//! is one function from a state to the next. Storage deposits are the host's
//! business and are not tracked.

use vstd::prelude::*;
use crate::address_map::AddressMap;
use crate::instruction::{decode_transfer, read_transfer, Instruction};
use crate::pubkey::Pubkey;
use crate::records::{ContentCredential, ContentCredentialView, Transfer, TransferView};

verus! {

/// Why the host refuses an operation.
#[derive(Clone, Copy, Debug, PartialEq, Eq, Structural)]
pub enum HostError {
    /// An account that has to authorize the operation did not sign it.
    MissingSignature,
    /// No address can be derived for the identifier.
    NoViableAddress,
    /// The address passed for a record is not the one derived for it.
    AddressMismatch,
    /// The address already holds a record.
    RecordExists,
    /// The address holds no record of the kind asked for.
    RecordNotFound,
    /// The paying account is not the payer that the record names.
    PayerMismatch,
    /// The receiving account is not the requester that the record names.
    RequesterMismatch,
    /// The instruction is none that the host's system program carries out.
    UnsupportedInstruction,
    /// The instruction names an account that was not passed along with it.
    MissingAccount,
    /// The payer owns fewer units than are to be moved.
    InsufficientFunds,
    /// The receiver would own more units than can be counted.
    BalanceOverflow,
}

/// An account passed to an operation: its identity and whether it signed.
#[derive(Clone, Copy, Debug, PartialEq, Eq)]
pub struct AccountRef {
    pub key: Pubkey,
    pub is_signer: bool,
}

/// What an address holds.
#[derive(Clone, Debug)]
pub enum Record {
    Credential(ContentCredential),
    Transfer(Transfer),
}

/// A record as a mathematical value.
pub enum RecordView {
    Credential(ContentCredentialView),
    Transfer(TransferView),
}

impl View for Record {
    type V = RecordView;

    open spec fn view(&self) -> RecordView {
        match *self {
            Record::Credential(credential) => RecordView::Credential(credential@),
            Record::Transfer(request) => RecordView::Transfer(request@),
        }
    }
}

impl RecordView {
    /// The record's text is within its bound.
    pub open spec fn valid(self) -> bool {
        match self {
            RecordView::Credential(credential) => credential.valid(),
            RecordView::Transfer(request) => request.valid(),
        }
    }
}

/// The ledger as a mathematical value.
pub struct LedgerView {
    /// The record at each address that holds one.
    pub records: Map<Seq<u8>, RecordView>,
    /// The units that each identity owns; zero for one that was never paid.
    pub balances: Map<Seq<u8>, nat>,
}

impl LedgerView {
    /// The ledger without records, in which nobody owns anything.
    pub open spec fn empty() -> LedgerView {
        LedgerView { records: Map::empty(), balances: Map::total(|key: Seq<u8>| 0nat) }
    }

    /// Every balance is defined and fits in 64 bits, and every record is valid.
    pub open spec fn valid(self) -> bool {
        &&& forall|key: Seq<u8>| self.balances.contains_key(key)
        &&& forall|key: Seq<u8>| #[trigger] self.balances[key] <= u64::MAX
        &&& forall|address: Seq<u8>| #[trigger]
            self.records.contains_key(address) ==> self.records[address].valid()
    }

    /// The units that `key` owns.
    pub open spec fn balance(self, key: Seq<u8>) -> nat {
        self.balances[key]
    }

    /// The transfer request pending at `address`, if there is one.
    pub open spec fn transfer_at(self, address: Seq<u8>) -> Option<TransferView> {
        if self.records.contains_key(address) {
            match self.records[address] {
                RecordView::Transfer(request) => Some(request),
                RecordView::Credential(_) => None,
            }
        } else {
            None
        }
    }

    /// The content credential at `address`, if there is one.
    pub open spec fn credential_at(self, address: Seq<u8>) -> Option<ContentCredentialView> {
        if self.records.contains_key(address) {
            match self.records[address] {
                RecordView::Credential(credential) => Some(credential),
                RecordView::Transfer(_) => None,
            }
        } else {
            None
        }
    }

    /// The ledger with `record` at `address`.
    pub open spec fn with_record(self, address: Seq<u8>, record: RecordView) -> LedgerView {
        LedgerView { records: self.records.insert(address, record), ..self }
    }

    /// The ledger with no record at `address`.
    pub open spec fn without_record(self, address: Seq<u8>) -> LedgerView {
        LedgerView { records: self.records.remove(address), ..self }
    }

    /// The ledger in which `key` owns `units`.
    pub open spec fn with_balance(self, key: Seq<u8>, units: nat) -> LedgerView {
        LedgerView { balances: self.balances.insert(key, units), ..self }
    }

    /// The ledger after `lamports` units left `from` and then reached `to`.
    pub open spec fn moved(self, from: Seq<u8>, to: Seq<u8>, lamports: nat) -> LedgerView {
        let debited = self.with_balance(from, (self.balance(from) - lamports) as nat);
        debited.with_balance(to, debited.balance(to) + lamports)
    }

    /// What paying `units` to `key` yields: the new ledger, or the refusal and
    /// the ledger as it was.
    pub open spec fn funded(self, key: Seq<u8>, units: u64) -> (LedgerView, Result<(), HostError>) {
        if self.balance(key) + units > u64::MAX {
            (self, Err(HostError::BalanceOverflow))
        } else {
            (self.with_balance(key, self.balance(key) + units as nat), Ok(()))
        }
    }

    /// What moving `lamports` units from `from` to `to` yields.
    pub open spec fn transferred(self, from: Seq<u8>, to: Seq<u8>, lamports: u64) -> (
        LedgerView,
        Result<(), HostError>,
    ) {
        if self.balance(from) < lamports {
            (self, Err(HostError::InsufficientFunds))
        } else if from != to && self.balance(to) + lamports > u64::MAX {
            (self, Err(HostError::BalanceOverflow))
        } else {
            (self.moved(from, to, lamports as nat), Ok(()))
        }
    }

    /// What storing `record` at `address` yields: an address that holds a
    /// record is never written over.
    pub open spec fn allocated(self, address: Seq<u8>, record: RecordView) -> (
        LedgerView,
        Result<(), HostError>,
    ) {
        if self.records.contains_key(address) {
            (self, Err(HostError::RecordExists))
        } else {
            (self.with_record(address, record), Ok(()))
        }
    }

    /// What carrying out `ix` with the accounts `accounts` yields.
    pub open spec fn invoked(self, ix: Instruction, accounts: Seq<AccountRef>) -> (
        LedgerView,
        Result<(), HostError>,
    ) {
        match read_transfer(ix) {
            None => (self, Err(HostError::UnsupportedInstruction)),
            Some(order) => {
                if !passed(accounts, order.from.pubkey@) || !passed(accounts, order.to.pubkey@) {
                    (self, Err(HostError::MissingAccount))
                } else if !order.from.is_signer || !signed(accounts, order.from.pubkey@) {
                    (self, Err(HostError::MissingSignature))
                } else {
                    self.transferred(order.from.pubkey@, order.to.pubkey@, order.lamports)
                }
            },
        }
    }
}

/// Whether `accounts` holds an account with the identity `key`.
pub open spec fn passed(accounts: Seq<AccountRef>, key: Seq<u8>) -> bool {
    exists|i: int| 0 <= i < accounts.len() && (#[trigger] accounts[i]).key@ == key
}

/// Whether `accounts` holds an account with the identity `key` that signed.
pub open spec fn signed(accounts: Seq<AccountRef>, key: Seq<u8>) -> bool {
    exists|i: int|
        0 <= i < accounts.len() && (#[trigger] accounts[i]).key@ == key && accounts[i].is_signer
}

/// Looks for an account with the identity `key`.
pub fn is_passed(accounts: &Vec<AccountRef>, key: &Pubkey) -> (found: bool)
    ensures
        found == passed(accounts@, key@),
{
    let mut i: usize = 0;
    while i < accounts.len()
        invariant
            i <= accounts.len(),
            forall|j: int| 0 <= j < i ==> (#[trigger] accounts@[j]).key@ != key@,
        decreases accounts.len() - i,
    {
        if accounts[i].key.equals(key) {
            return true;
        }
        i += 1;
    }
    false
}

/// Looks for an account with the identity `key` that signed.
pub fn has_signed(accounts: &Vec<AccountRef>, key: &Pubkey) -> (found: bool)
    ensures
        found == signed(accounts@, key@),
{
    let mut i: usize = 0;
    while i < accounts.len()
        invariant
            i <= accounts.len(),
            forall|j: int|
                0 <= j < i ==> !((#[trigger] accounts@[j]).key@ == key@ && accounts@[j].is_signer),
        decreases accounts.len() - i,
    {
        if accounts[i].is_signer && accounts[i].key.equals(key) {
            return true;
        }
        i += 1;
    }
    false
}

/// The ledger held in memory.
pub struct LedgerState {
    records: AddressMap<Record>,
    balances: AddressMap<u64>,
}

impl LedgerState {
    /// The ledger this state stands for.
    pub closed spec fn view(&self) -> LedgerView {
        LedgerView {
            records: Map::new(
                |address: Seq<u8>| self.records@.contains_key(address),
                |address: Seq<u8>| self.records@[address]@,
            ),
            balances: Map::total(
                |key: Seq<u8>|
                    if self.balances@.contains_key(key) {
                        self.balances@[key] as nat
                    } else {
                        0nat
                    },
            ),
        }
    }

    /// Both tables are in order and every stored record is valid.
    pub closed spec fn wf(&self) -> bool {
        &&& self.records.wf()
        &&& self.balances.wf()
        &&& self@.valid()
    }

    /// A well-formed state stands for a valid ledger.
    pub proof fn lemma_wf_valid(&self)
        requires
            self.wf(),
        ensures
            self@.valid(),
    {
    }

    /// The ledger without records, in which nobody owns anything.
    pub fn new() -> (state: LedgerState)
        ensures
            state.wf(),
            state@ == LedgerView::empty(),
    {
        let state = LedgerState { records: AddressMap::new(), balances: AddressMap::new() };
        assert(state@.records =~= LedgerView::empty().records);
        assert(state@.balances =~= LedgerView::empty().balances);
        state
    }

    /// The units that `key` owns.
    pub fn balance(&self, key: &Pubkey) -> (units: u64)
        requires
            self.wf(),
        ensures
            units == self@.balance(key@),
    {
        match self.balances.get(key) {
            Some(units) => *units,
            None => 0,
        }
    }

    /// The record at `address`, if it holds one.
    pub fn record(&self, address: &Pubkey) -> (found: Option<&Record>)
        requires
            self.wf(),
        ensures
            match found {
                Some(record) => self@.records.contains_key(address@) && self@.records[address@]
                    == record@ && record@.valid(),
                None => !self@.records.contains_key(address@),
            },
    {
        self.records.get(address)
    }

    /// The transfer request pending at `address`, if there is one.
    pub fn transfer_request(&self, address: &Pubkey) -> (found: Option<&Transfer>)
        requires
            self.wf(),
        ensures
            match found {
                Some(request) => self@.transfer_at(address@) == Some(request@) && request@.valid(),
                None => self@.transfer_at(address@) is None,
            },
    {
        match self.records.get(address) {
            Some(Record::Transfer(request)) => Some(request),
            _ => None,
        }
    }

    /// The content credential at `address`, if there is one.
    pub fn credential(&self, address: &Pubkey) -> (found: Option<&ContentCredential>)
        requires
            self.wf(),
        ensures
            match found {
                Some(credential) => self@.credential_at(address@) == Some(credential@)
                    && credential@.valid(),
                None => self@.credential_at(address@) is None,
            },
    {
        match self.records.get(address) {
            Some(Record::Credential(credential)) => Some(credential),
            _ => None,
        }
    }

    fn set_balance(&mut self, key: &Pubkey, units: u64)
        requires
            old(self).wf(),
        ensures
            final(self).wf(),
            final(self)@ == old(self)@.with_balance(key@, units as nat),
    {
        self.balances.insert(*key, units);
        assert(self@.records =~= old(self)@.records);
        assert(self@.balances =~= old(self)@.balances.insert(key@, units as nat));
    }

    /// Pays `units` to `key` from outside the ledger.
    pub fn fund(&mut self, key: &Pubkey, units: u64) -> (paid: Result<(), HostError>)
        requires
            old(self).wf(),
        ensures
            final(self).wf(),
            (final(self)@, paid) == old(self)@.funded(key@, units),
    {
        let owned = self.balance(key);
        match owned.checked_add(units) {
            None => Err(HostError::BalanceOverflow),
            Some(total) => {
                self.set_balance(key, total);
                Ok(())
            },
        }
    }

    /// Moves `lamports` units from `from` to `to`, or refuses and changes nothing.
    pub(crate) fn transfer(&mut self, from: &Pubkey, to: &Pubkey, lamports: u64) -> (moved: Result<
        (),
        HostError,
    >)
        requires
            old(self).wf(),
        ensures
            final(self).wf(),
            (final(self)@, moved) == old(self)@.transferred(from@, to@, lamports),
    {
        let owned = self.balance(from);
        if owned < lamports {
            return Err(HostError::InsufficientFunds);
        }
        if from.equals(to) {
            proof {
                let pre = old(self)@;
                assert(pre.moved(from@, to@, lamports as nat).balances =~= pre.balances);
            }
            return Ok(());
        }
        let held = self.balance(to);
        match held.checked_add(lamports) {
            None => Err(HostError::BalanceOverflow),
            Some(total) => {
                self.set_balance(from, owned - lamports);
                self.set_balance(to, total);
                Ok(())
            },
        }
    }

    /// Stores `record` at `address` unless the address holds a record already.
    pub(crate) fn allocate(&mut self, address: &Pubkey, record: Record) -> (stored: Result<(), HostError>)
        requires
            old(self).wf(),
            record@.valid(),
        ensures
            final(self).wf(),
            (final(self)@, stored) == old(self)@.allocated(address@, record@),
    {
        if self.records.contains(address) {
            return Err(HostError::RecordExists);
        }
        self.records.insert(*address, record);
        assert(self@.records =~= old(self)@.records.insert(address@, record@));
        assert(self@.balances =~= old(self)@.balances);
        Ok(())
    }

    /// Removes the record at `address`, if it holds one.
    pub(crate) fn close(&mut self, address: &Pubkey)
        requires
            old(self).wf(),
        ensures
            final(self).wf(),
            final(self)@ == old(self)@.without_record(address@),
    {
        let _ = self.records.remove(address);
        assert(self@.records =~= old(self)@.records.remove(address@));
        assert(self@.balances =~= old(self)@.balances);
    }

    /// Carries out `ix` on behalf of the accounts `accounts`: a transfer of
    /// the native asset, which the paying account must have signed.
    pub fn invoke(&mut self, ix: &Instruction, accounts: &Vec<AccountRef>) -> (done: Result<
        (),
        HostError,
    >)
        requires
            old(self).wf(),
        ensures
            final(self).wf(),
            (final(self)@, done) == old(self)@.invoked(*ix, accounts@),
    {
        match decode_transfer(ix) {
            None => Err(HostError::UnsupportedInstruction),
            Some(order) => {
                if !is_passed(accounts, &order.from.pubkey) || !is_passed(
                    accounts,
                    &order.to.pubkey,
                ) {
                    Err(HostError::MissingAccount)
                } else if !order.from.is_signer || !has_signed(accounts, &order.from.pubkey) {
                    Err(HostError::MissingSignature)
                } else {
                    self.transfer(&order.from.pubkey, &order.to.pubkey, order.lamports)
                }
            },
        }
    }
}

} // verus!
