//! The typestate pattern: wrapper types that can only be obtained by
//! performing the validation, so that holding one is proof of the checked
//! constraint.

use vstd::prelude::*;

use crate::{AccountConstraintError, AccountConstraintResult};

verus! {

/// A raw account handle as supplied by the host environment, reduced to what
/// the constraint checks inspect: the account's identity and its access-mode
/// flags. The host's opaque handle is converted to this shape at the crate
/// boundary; the core never mutates it.
#[derive(Clone, Debug, Eq, PartialEq)]
pub struct AccountHandle {
    /// The account's identity (its address or key, rendered as text).
    pub identity: String,
    /// Whether the account's authority signed the current transaction.
    pub is_signer: bool,
    /// Whether the current transaction may mutate the account.
    pub is_writable: bool,
}

/// An account handle that has been proven to be both writable and a signer.
///
/// The only way to obtain a value of this type is [`Self::try_from`], which
/// performs the checks; there is no constructor that bypasses them, so any
/// code holding a `WritableSignerAccount` may rely on both flags being set.
/// The wrapper borrows the underlying handle and never copies account data.
#[derive(Debug)]
pub struct WritableSignerAccount<'a> {
    account: &'a AccountHandle,
}

impl<'a> WritableSignerAccount<'a> {
    /// The checked constraint: the wrapped handle is writable and a signer.
    #[verifier::type_invariant]
    pub closed spec fn constraint_holds(self) -> bool {
        self.account.is_writable && self.account.is_signer
    }

    /// The underlying handle, as seen by specifications.
    pub closed spec fn handle(self) -> AccountHandle {
        *self.account
    }

    /// The validating factory: wraps `account` if it is writable and a
    /// signer, checking writability first. When both predicates fail, the
    /// writability error deliberately masks the signer error: callers must
    /// expect "should be writable" on a doubly-invalid account.
    pub fn try_from(account: &'a AccountHandle) -> (result: AccountConstraintResult<Self>)
        ensures
            account.is_writable && account.is_signer ==> (result matches Ok(wrapped)
                && wrapped.handle() == *account),
            !account.is_writable ==> (result matches Err(e)
                && e is AccountShouldBeWritable
                && e.account_name() == account.identity@),
            account.is_writable && !account.is_signer ==> (result matches Err(e)
                && e is AccountShouldBeSigner
                && e.account_name() == account.identity@),
    {
        if !account.is_writable {
            return Err(AccountConstraintError::AccountShouldBeWritable(account.identity.clone()));
        }
        if !account.is_signer {
            return Err(AccountConstraintError::AccountShouldBeSigner(account.identity.clone()));
        }
        Ok(WritableSignerAccount { account })
    }

    /// Read-through access to the wrapped handle, so business logic can read
    /// it like the raw handle. The returned handle always carries both
    /// checked flags: that is the typestate guarantee.
    pub fn account(&self) -> (handle: &'a AccountHandle)
        ensures
            *handle == self.handle(),
            handle.is_writable,
            handle.is_signer,
    {
        proof {
            use_type_invariant(self);
        }
        self.account
    }
}

/// The reusable "take the next role's handle" step of aggregate
/// construction: returns the handle at `position`, or
/// `AccountMissing(role_name)` when the account sequence is already
/// exhausted. Each expected role consumes one such step.
pub fn next_role<'a>(
    accounts: &'a [AccountHandle],
    position: usize,
    role_name: &str,
) -> (result: AccountConstraintResult<&'a AccountHandle>)
    ensures
        position < accounts@.len() ==> (result matches Ok(handle)
            && *handle == accounts@[position as int]),
        position >= accounts@.len() ==> (result matches Err(e)
            && e is AccountMissing
            && e.account_name() == role_name@),
{
    if position < accounts.len() {
        Ok(&accounts[position])
    } else {
        Err(AccountConstraintError::AccountMissing(role_name.to_owned()))
    }
}

/// The verified bundle: one proven wrapper per expected positional role of
/// the transaction's account list. Its existence implies that every role's
/// predicate held at construction time; it is immutable thereafter, and no
/// partial bundle can ever be observed.
#[derive(Debug)]
pub struct VerifiedAccounts<'a> {
    writable_signer: WritableSignerAccount<'a>,
}

impl<'a> VerifiedAccounts<'a> {
    /// The handle filling the "writable_signer" role, as seen by
    /// specifications.
    pub closed spec fn writable_signer_handle(self) -> AccountHandle {
        self.writable_signer.handle()
    }

    /// Walks the raw account sequence positionally and attempts to fill
    /// every expected role, short-circuiting on the first failure.
    ///
    /// For each role in order: if the sequence is exhausted the result is
    /// `AccountMissing` with the role's name; otherwise the role's wrapper
    /// conversion runs on the next handle and its error, if any, is
    /// propagated unchanged. Only when every role is satisfied is a bundle
    /// returned, wrapping the handles in order.
    pub fn new(accounts: &'a [AccountHandle]) -> (result: AccountConstraintResult<Self>)
        ensures
            accounts@.len() == 0 ==> (result matches Err(e)
                && e is AccountMissing
                && e.account_name() == "writable_signer"@),
            accounts@.len() > 0 && !accounts@[0].is_writable ==> (result matches Err(e)
                && e is AccountShouldBeWritable
                && e.account_name() == accounts@[0].identity@),
            accounts@.len() > 0 && accounts@[0].is_writable && !accounts@[0].is_signer
                ==> (result matches Err(e)
                && e is AccountShouldBeSigner
                && e.account_name() == accounts@[0].identity@),
            accounts@.len() > 0 && accounts@[0].is_writable && accounts@[0].is_signer
                ==> (result matches Ok(verified)
                && verified.writable_signer_handle() == accounts@[0]),
    {
        let next = match next_role(accounts, 0, "writable_signer") {
            Ok(handle) => handle,
            Err(e) => {
                return Err(e);
            },
        };
        let writable_signer = match WritableSignerAccount::try_from(next) {
            Ok(wrapped) => wrapped,
            Err(e) => {
                return Err(e);
            },
        };
        Ok(VerifiedAccounts { writable_signer })
    }

    /// Read-through access to the handle that filled the "writable_signer"
    /// role.
    pub fn writable_signer(&self) -> (wrapped: &WritableSignerAccount<'a>)
        ensures
            wrapped.handle() == self.writable_signer_handle(),
    {
        &self.writable_signer
    }
}

} // verus!
