//! The records that the program keeps in its accounts, and their layouts.
//!
//! A record is stored as a fixed run of bytes: single bytes as they are,
//! identities as their 32 bytes, integers as eight little-endian bytes, the
//! fields in the order in which they are declared.

use crate::address::{derived_view, spec_derive, DerivedAddress, DerivedAddressView, Identity};
use crate::codec::{append, append_u64, copy_range, lemma_u64_round_trip, read_u64, u64_at, u64_bytes};
use crate::error::{EscrowError, Failure};
use vstd::prelude::*;
use vstd::string::{StrSliceExecFns, StringSliceAdditionalSpecFns};

verus! {

/// The stake record of one depositor.
#[derive(Clone, Copy, Debug, PartialEq, Eq)]
pub struct Users {
    /// Counts the changes made to the record; after 255 comes 0.
    pub id: u8,
    pub referral_code: Identity,
    pub referrer: Identity,
    /// What the depositor has staked and not withdrawn.
    pub total_staked_ab: u64,
    /// Reserved: stored, and read by nothing.
    pub totalbalance_ab: u64,
    /// Reserved: stored, and read by nothing.
    pub balance_ab: u64,
}

/// A stake record as plain values.
pub struct UsersView {
    pub id: u8,
    pub referral_code: Seq<u8>,
    pub referrer: Seq<u8>,
    pub total_staked_ab: u64,
    pub totalbalance_ab: u64,
    pub balance_ab: u64,
}

impl View for Users {
    type V = UsersView;

    open spec fn view(&self) -> UsersView {
        UsersView {
            id: self.id,
            referral_code: self.referral_code@,
            referrer: self.referrer@,
            total_staked_ab: self.total_staked_ab,
            totalbalance_ab: self.totalbalance_ab,
            balance_ab: self.balance_ab,
        }
    }
}

/// The counter that follows `id`.
pub open spec fn next_id(id: u8) -> u8 {
    if id == 255 {
        0
    } else {
        (id + 1) as u8
    }
}

impl UsersView {
    /// Both identities have their 32 bytes.
    pub open spec fn wf(self) -> bool {
        self.referral_code.len() == 32 && self.referrer.len() == 32
    }

    /// The 89 bytes that store this record.
    pub open spec fn encoded(self) -> Seq<u8> {
        seq![self.id] + self.referral_code + self.referrer + u64_bytes(self.total_staked_ab)
            + u64_bytes(self.totalbalance_ab) + u64_bytes(self.balance_ab)
    }

    /// The record that `bytes` store. Any 89 bytes store one; nothing else does.
    pub open spec fn decoded(bytes: Seq<u8>) -> Option<UsersView> {
        if bytes.len() == 89 {
            Some(
                UsersView {
                    id: bytes[0],
                    referral_code: bytes.subrange(1, 33),
                    referrer: bytes.subrange(33, 65),
                    total_staked_ab: u64_at(bytes, 65),
                    totalbalance_ab: u64_at(bytes, 73),
                    balance_ab: u64_at(bytes, 81),
                },
            )
        } else {
            None
        }
    }

    /// The record after `initiator` has registered it.
    pub open spec fn registered(self, initiator: Seq<u8>) -> UsersView {
        UsersView { id: next_id(self.id), referral_code: initiator, referrer: initiator, ..self }
    }

    /// The record after `depositor` has staked `amount` more, or `None` where
    /// the total would no longer fit.
    pub open spec fn staked(self, depositor: Seq<u8>, amount: u64) -> Option<UsersView> {
        if self.total_staked_ab + amount <= u64::MAX {
            Some(
                UsersView {
                    id: next_id(self.id),
                    referral_code: depositor,
                    referrer: depositor,
                    total_staked_ab: (self.total_staked_ab + amount) as u64,
                    ..self
                },
            )
        } else {
            None
        }
    }

    /// The record after `amount` has been withdrawn, or `None` where the
    /// depositor has staked less than that.
    pub open spec fn withdrawn(self, amount: u64) -> Option<UsersView> {
        if amount <= self.total_staked_ab {
            Some(UsersView { total_staked_ab: (self.total_staked_ab - amount) as u64, ..self })
        } else {
            None
        }
    }
}

impl Users {
    /// The number of bytes that store a stake record.
    pub const SIZE: usize = 89;

    /// The first seed of every depositor's account; the depositor's identity
    /// is the second.
    pub const SEED_PREFIX: &'static str = "user_authority";

    /// The seeds of the account of the depositor `owner`.
    pub open spec fn seeds(owner: Seq<u8>) -> Seq<Seq<u8>> {
        seq![Users::SEED_PREFIX.spec_bytes(), owner]
    }

    /// The derived address of the account of the depositor `owner`.
    pub open spec fn spec_authority(program_id: Seq<u8>, owner: Seq<u8>) -> Option<
        DerivedAddressView,
    > {
        spec_derive(Users::seeds(owner), program_id)
    }

    /// Derives the address of the account of the depositor `owner`.
    pub fn authority(program_id: &Identity, owner: &Identity) -> (out: Option<DerivedAddress>)
        ensures
            derived_view(out) == Users::spec_authority(program_id@, owner@),
    {
        let mut seeds: Vec<Vec<u8>> = Vec::new();
        seeds.push(Users::SEED_PREFIX.as_bytes_vec());
        seeds.push(owner.to_vec());
        assert(seeds.deep_view() =~~= Users::seeds(owner@));
        DerivedAddress::derive(seeds, program_id)
    }

    /// Reads a record from exactly the bytes that store it.
    pub fn try_from_slice(bytes: &[u8]) -> (out: Option<Users>)
        ensures
            match out {
                Some(record) => UsersView::decoded(bytes@) == Some(record@),
                None => UsersView::decoded(bytes@) is None,
            },
    {
        if bytes.len() != 89 {
            return None;
        }
        let referral_code = Identity::from_slice(copy_range(bytes, 1, 33).as_slice());
        let referrer = Identity::from_slice(copy_range(bytes, 33, 65).as_slice());
        match (referral_code, referrer) {
            (Some(referral_code), Some(referrer)) => Some(
                Users {
                    id: bytes[0],
                    referral_code,
                    referrer,
                    total_staked_ab: read_u64(bytes, 65),
                    totalbalance_ab: read_u64(bytes, 73),
                    balance_ab: read_u64(bytes, 81),
                },
            ),
            _ => None,
        }
    }

    /// The bytes that store this record.
    pub fn to_bytes(&self) -> (out: Vec<u8>)
        ensures
            out@ == self@.encoded(),
    {
        let mut out: Vec<u8> = Vec::new();
        out.push(self.id);
        assert(out@ =~= seq![self.id]);
        append(&mut out, self.referral_code.to_vec().as_slice());
        append(&mut out, self.referrer.to_vec().as_slice());
        append_u64(&mut out, self.total_staked_ab);
        append_u64(&mut out, self.totalbalance_ab);
        append_u64(&mut out, self.balance_ab);
        out
    }

    /// Registers the record for `initiator`: the counter moves on and both
    /// referral fields name the initiator.
    pub fn register(&mut self, initiator: &Identity)
        ensures
            final(self)@ == old(self)@.registered(initiator@),
    {
        self.id = self.id.wrapping_add(1);
        self.referral_code = *initiator;
        self.referrer = *initiator;
    }

    /// Credits `amount` to the record of `depositor`. Fails, and changes
    /// nothing, where the total would no longer fit in 64 bits.
    pub fn stake(&mut self, depositor: &Identity, amount: u64) -> (out: Result<(), Failure>)
        ensures
            match old(self)@.staked(depositor@, amount) {
                Some(after) => out is Ok && final(self)@ == after,
                None => out == Err::<(), Failure>(Failure::ArithmeticOverflow) && *final(self) == *old(
                    self,
                ),
            },
    {
        match self.total_staked_ab.checked_add(amount) {
            Some(total) => {
                self.id = self.id.wrapping_add(1);
                self.referral_code = *depositor;
                self.referrer = *depositor;
                self.total_staked_ab = total;
                Ok(())
            },
            None => Err(Failure::ArithmeticOverflow),
        }
    }

    /// Debits `amount` from the record. Fails with `InsufficientUserStake`,
    /// and changes nothing, exactly where `amount` is more than the stake.
    pub fn withdraw(&mut self, amount: u64) -> (out: Result<(), EscrowError>)
        ensures
            match old(self)@.withdrawn(amount) {
                Some(after) => out is Ok && final(self)@ == after,
                None => out == Err::<(), EscrowError>(EscrowError::InsufficientUserStake)
                    && *final(self) == *old(self),
            },
    {
        if self.total_staked_ab < amount {
            return Err(EscrowError::InsufficientUserStake);
        }
        self.total_staked_ab = self.total_staked_ab - amount;
        Ok(())
    }
}

/// Storing a stake record and reading it back gives the record, equal in
/// every field.
pub proof fn lemma_users_round_trip(record: Users)
    ensures
        record@.encoded().len() == 89,
        UsersView::decoded(record@.encoded()) == Some(record@),
{
    lemma_users_view_round_trip(record@);
}

/// Storing a well-formed stake record and reading it back gives the record.
pub proof fn lemma_users_view_round_trip(record: UsersView)
    requires
        record.wf(),
    ensures
        record.encoded().len() == 89,
        UsersView::decoded(record.encoded()) == Some(record),
{
    lemma_u64_round_trip();
    let bytes = record.encoded();
    assert(bytes.subrange(1, 33) =~= record.referral_code);
    assert(bytes.subrange(33, 65) =~= record.referrer);
    assert(bytes.subrange(65, 73) =~= u64_bytes(record.total_staked_ab));
    assert(bytes.subrange(73, 81) =~= u64_bytes(record.totalbalance_ab));
    assert(bytes.subrange(81, 89) =~= u64_bytes(record.balance_ab));
}

/// The record read from 89 bytes is well formed, and storing it gives those
/// bytes again.
pub proof fn lemma_users_bytes_round_trip(bytes: Seq<u8>)
    requires
        bytes.len() == 89,
    ensures
        UsersView::decoded(bytes) is Some,
        UsersView::decoded(bytes).unwrap().wf(),
        UsersView::decoded(bytes).unwrap().encoded() == bytes,
{
    lemma_u64_round_trip();
    let record = UsersView::decoded(bytes).unwrap();
    assert(u64_bytes(record.total_staked_ab) == bytes.subrange(65, 73));
    assert(u64_bytes(record.totalbalance_ab) == bytes.subrange(73, 81));
    assert(u64_bytes(record.balance_ab) == bytes.subrange(81, 89));
    assert(record.encoded() =~= bytes);
}

/// The vault that all depositors share: the total that it holds.
#[derive(Clone, Copy, Debug, PartialEq, Eq, Structural)]
pub struct Liquidity {
    pub amount: u64,
}

impl Liquidity {
    /// The number of bytes that store the vault's record.
    pub const SIZE: usize = 8;

    /// The only seed of the vault's account.
    pub const SECURE_SEED: &'static str = "liquidity_authority_with_owner";

    /// The 8 bytes that store this record.
    pub open spec fn encoded(self) -> Seq<u8> {
        u64_bytes(self.amount)
    }

    /// The record that `bytes` store. Any 8 bytes store one; nothing else does.
    pub open spec fn decoded(bytes: Seq<u8>) -> Option<Liquidity> {
        if bytes.len() == 8 {
            Some(Liquidity { amount: u64_at(bytes, 0) })
        } else {
            None
        }
    }

    /// The vault after `amount` has come in, or `None` where the total would
    /// no longer fit.
    pub open spec fn deposited(self, amount: u64) -> Option<Liquidity> {
        if self.amount + amount <= u64::MAX {
            Some(Liquidity { amount: (self.amount + amount) as u64 })
        } else {
            None
        }
    }

    /// The vault after `amount` has gone out, or `None` where it holds less
    /// than that.
    pub open spec fn withdrawn(self, amount: u64) -> Option<Liquidity> {
        if amount <= self.amount {
            Some(Liquidity { amount: (self.amount - amount) as u64 })
        } else {
            None
        }
    }

    /// The seeds of the vault's account.
    pub open spec fn seeds() -> Seq<Seq<u8>> {
        seq![Liquidity::SECURE_SEED.spec_bytes()]
    }

    /// The derived address of the vault's account.
    pub open spec fn spec_authority(program_id: Seq<u8>) -> Option<DerivedAddressView> {
        spec_derive(Liquidity::seeds(), program_id)
    }

    /// Derives the address of the vault's account.
    pub fn authority(program_id: &Identity) -> (out: Option<DerivedAddress>)
        ensures
            derived_view(out) == Liquidity::spec_authority(program_id@),
    {
        let mut seeds: Vec<Vec<u8>> = Vec::new();
        seeds.push(Liquidity::SECURE_SEED.as_bytes_vec());
        assert(seeds.deep_view() =~~= Liquidity::seeds());
        DerivedAddress::derive(seeds, program_id)
    }

    /// Reads the vault's record from exactly the bytes that store it.
    pub fn try_from_slice(bytes: &[u8]) -> (out: Option<Liquidity>)
        ensures
            out == Liquidity::decoded(bytes@),
    {
        if bytes.len() != 8 {
            return None;
        }
        Some(Liquidity { amount: read_u64(bytes, 0) })
    }

    /// The bytes that store this record.
    pub fn to_bytes(&self) -> (out: Vec<u8>)
        ensures
            out@ == self.encoded(),
    {
        let mut out: Vec<u8> = Vec::new();
        append_u64(&mut out, self.amount);
        out
    }

    /// Adds `amount` to the vault. Fails, and changes nothing, where the
    /// total would no longer fit in 64 bits.
    pub fn deposit(&mut self, amount: u64) -> (out: Result<(), Failure>)
        ensures
            match old(self).deposited(amount) {
                Some(after) => out is Ok && *final(self) == after,
                None => out == Err::<(), Failure>(Failure::ArithmeticOverflow) && *final(self) == *old(
                    self,
                ),
            },
    {
        match self.amount.checked_add(amount) {
            Some(total) => {
                self.amount = total;
                Ok(())
            },
            None => Err(Failure::ArithmeticOverflow),
        }
    }

    /// Takes `amount` out of the vault. Fails with
    /// `InsufficientVaultLiquidity`, and changes nothing, exactly where
    /// `amount` is more than the vault holds.
    pub fn withdraw(&mut self, amount: u64) -> (out: Result<(), EscrowError>)
        ensures
            match old(self).withdrawn(amount) {
                Some(after) => out is Ok && *final(self) == after,
                None => out == Err::<(), EscrowError>(EscrowError::InsufficientVaultLiquidity)
                    && *final(self) == *old(self),
            },
    {
        if self.amount < amount {
            return Err(EscrowError::InsufficientVaultLiquidity);
        }
        self.amount = self.amount - amount;
        Ok(())
    }
}

/// Storing the vault's record and reading it back gives the record; any 8
/// bytes are the bytes of the record read from them.
pub proof fn lemma_liquidity_round_trip(vault: Liquidity, bytes: Seq<u8>)
    ensures
        vault.encoded().len() == 8,
        Liquidity::decoded(vault.encoded()) == Some(vault),
        bytes.len() == 8 ==> Liquidity::decoded(bytes).unwrap().encoded() == bytes,
{
    lemma_u64_round_trip();
    assert(vault.encoded().subrange(0, 8) =~= vault.encoded());
    if bytes.len() == 8 {
        assert(bytes.subrange(0, 8) =~= bytes);
    }
}

/// What a stake instruction carries: the amount to deposit.
#[derive(Clone, Copy, Debug, PartialEq, Eq, Structural)]
pub struct Amount {
    pub amount: u64,
}

impl Amount {
    /// The 8 bytes that carry this amount.
    pub open spec fn encoded(self) -> Seq<u8> {
        u64_bytes(self.amount)
    }

    /// The amount that `bytes` carry: there must be exactly 8.
    pub open spec fn decoded(bytes: Seq<u8>) -> Option<Amount> {
        if bytes.len() == 8 {
            Some(Amount { amount: u64_at(bytes, 0) })
        } else {
            None
        }
    }

    /// Reads an amount from exactly the bytes that carry it.
    pub fn try_from_slice(bytes: &[u8]) -> (out: Option<Amount>)
        ensures
            out == Amount::decoded(bytes@),
    {
        if bytes.len() != 8 {
            return None;
        }
        Some(Amount { amount: read_u64(bytes, 0) })
    }

    /// The bytes that carry this amount.
    pub fn to_bytes(&self) -> (out: Vec<u8>)
        ensures
            out@ == self.encoded(),
    {
        let mut out: Vec<u8> = Vec::new();
        append_u64(&mut out, self.amount);
        out
    }
}

/// What a withdraw instruction carries: the amount to take out.
#[derive(Clone, Copy, Debug, PartialEq, Eq, Structural)]
pub struct WithdrawAmount {
    pub amount: u64,
}

impl WithdrawAmount {
    /// The 8 bytes that carry this amount.
    pub open spec fn encoded(self) -> Seq<u8> {
        u64_bytes(self.amount)
    }

    /// The amount that `bytes` carry: there must be exactly 8.
    pub open spec fn decoded(bytes: Seq<u8>) -> Option<WithdrawAmount> {
        if bytes.len() == 8 {
            Some(WithdrawAmount { amount: u64_at(bytes, 0) })
        } else {
            None
        }
    }

    /// Reads an amount from exactly the bytes that carry it.
    pub fn try_from_slice(bytes: &[u8]) -> (out: Option<WithdrawAmount>)
        ensures
            out == WithdrawAmount::decoded(bytes@),
    {
        if bytes.len() != 8 {
            return None;
        }
        Some(WithdrawAmount { amount: read_u64(bytes, 0) })
    }

    /// The bytes that carry this amount.
    pub fn to_bytes(&self) -> (out: Vec<u8>)
        ensures
            out@ == self.encoded(),
    {
        let mut out: Vec<u8> = Vec::new();
        append_u64(&mut out, self.amount);
        out
    }
}

/// An amount carried by an instruction comes back from its bytes unchanged.
pub proof fn lemma_amount_round_trip(stake: Amount, withdrawal: WithdrawAmount)
    ensures
        stake.encoded().len() == 8,
        Amount::decoded(stake.encoded()) == Some(stake),
        withdrawal.encoded().len() == 8,
        WithdrawAmount::decoded(withdrawal.encoded()) == Some(withdrawal),
{
    lemma_u64_round_trip();
    assert(stake.encoded().subrange(0, 8) =~= stake.encoded());
    assert(withdrawal.encoded().subrange(0, 8) =~= withdrawal.encoded());
}

/// The registration flag that shares a depositor's account with the stake
/// record.
#[derive(Clone, Copy, Debug, PartialEq, Eq)]
pub struct OwnableAccount {
    pub is_initialize: bool,
    pub owner_account: Identity,
}

/// A registration flag as plain values.
pub struct OwnableAccountView {
    pub is_initialize: bool,
    pub owner_account: Seq<u8>,
}

impl View for OwnableAccount {
    type V = OwnableAccountView;

    open spec fn view(&self) -> OwnableAccountView {
        OwnableAccountView {
            is_initialize: self.is_initialize,
            owner_account: self.owner_account@,
        }
    }
}

impl OwnableAccountView {
    /// The owner has its 32 bytes.
    pub open spec fn wf(self) -> bool {
        self.owner_account.len() == 32
    }

    /// The 33 bytes that store this flag: 1 for set and 0 for clear, then
    /// the owner.
    pub open spec fn encoded(self) -> Seq<u8> {
        seq![if self.is_initialize { 1u8 } else { 0u8 }] + self.owner_account
    }

    /// The flag that `bytes` store: there must be exactly 33, the first of
    /// them 0 or 1.
    pub open spec fn decoded(bytes: Seq<u8>) -> Option<OwnableAccountView> {
        if bytes.len() == 33 && bytes[0] <= 1 {
            Some(
                OwnableAccountView {
                    is_initialize: bytes[0] == 1,
                    owner_account: bytes.subrange(1, 33),
                },
            )
        } else {
            None
        }
    }

    /// The flag once `initiator` has registered.
    pub open spec fn claimed(initiator: Seq<u8>) -> OwnableAccountView {
        OwnableAccountView { is_initialize: true, owner_account: initiator }
    }
}

impl OwnableAccount {
    /// The number of bytes set aside for the flag in a depositor's account.
    /// The flag fills the first `PACKED_LEN` of them; the rest is padding
    /// that is never read and never changed.
    pub const SIZE: usize = 50;

    /// The number of bytes that store the flag.
    pub const PACKED_LEN: usize = 33;

    /// Reads a flag from exactly the bytes that store it.
    pub fn try_from_slice(bytes: &[u8]) -> (out: Option<OwnableAccount>)
        ensures
            match out {
                Some(flag) => OwnableAccountView::decoded(bytes@) == Some(flag@),
                None => OwnableAccountView::decoded(bytes@) is None,
            },
    {
        if bytes.len() != 33 {
            return None;
        }
        if bytes[0] > 1 {
            return None;
        }
        match Identity::from_slice(copy_range(bytes, 1, 33).as_slice()) {
            Some(owner_account) => Some(OwnableAccount { is_initialize: bytes[0] == 1, owner_account }),
            None => None,
        }
    }

    /// The bytes that store this flag.
    pub fn to_bytes(&self) -> (out: Vec<u8>)
        ensures
            out@ == self@.encoded(),
    {
        let mut out: Vec<u8> = Vec::new();
        out.push(if self.is_initialize { 1u8 } else { 0u8 });
        assert(out@ =~= seq![if self.is_initialize { 1u8 } else { 0u8 }]);
        append(&mut out, self.owner_account.to_vec().as_slice());
        out
    }

    /// The flag once `initiator` has registered.
    pub fn claim(initiator: &Identity) -> (out: OwnableAccount)
        ensures
            out@ == OwnableAccountView::claimed(initiator@),
    {
        OwnableAccount { is_initialize: true, owner_account: *initiator }
    }
}

/// Storing a registration flag and reading it back gives the flag, equal in
/// both fields.
pub proof fn lemma_ownable_round_trip(flag: OwnableAccount)
    ensures
        flag@.encoded().len() == 33,
        OwnableAccountView::decoded(flag@.encoded()) == Some(flag@),
{
    lemma_ownable_view_round_trip(flag@);
}

/// Storing a well-formed registration flag and reading it back gives the flag.
pub proof fn lemma_ownable_view_round_trip(flag: OwnableAccountView)
    requires
        flag.wf(),
    ensures
        flag.encoded().len() == 33,
        OwnableAccountView::decoded(flag.encoded()) == Some(flag),
{
    assert(flag.encoded().subrange(1, 33) =~= flag.owner_account);
}

/// The flag read from bytes is well formed, and storing it gives those bytes
/// again.
pub proof fn lemma_ownable_bytes_round_trip(bytes: Seq<u8>)
    requires
        OwnableAccountView::decoded(bytes) is Some,
    ensures
        OwnableAccountView::decoded(bytes).unwrap().wf(),
        OwnableAccountView::decoded(bytes).unwrap().encoded() == bytes,
{
    assert(OwnableAccountView::decoded(bytes).unwrap().encoded() =~= bytes);
}

} // verus!
