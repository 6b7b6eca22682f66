//! The checklist pattern: one boolean flag per required account check,
//! inspected at a single finalize point.
//!
//! Calling code performs its checks ad hoc, marks each one on the verifier,
//! and asserts at the end that nothing was skipped. The guarantee is only as
//! strong as the discipline of the calling code: nothing prevents a caller
//! from forgetting to mark (or perform) a check, which is why the typestate
//! pattern of [`crate::strongly_typed`] is preferred where it fits.

use vstd::prelude::*;
use vstd::string::StringExecFns;

verus! {

/// The built-in error reported when a required account check was never
/// performed before the finalize point.
#[derive(Clone, Debug, Eq, PartialEq)]
pub enum ShankAccountCheckError {
    /// The named account was never checked.
    MissingAccountCheck(String),
}

/// A caller-supplied error for the same missing-check failure, showing that
/// the checklist verifier is not tied to the built-in error vocabulary.
#[derive(Clone, Debug, Eq, PartialEq)]
pub enum CustomAccountCheckError {
    /// The named account was never checked.
    MissingAccountCheck(String),
}

impl ShankAccountCheckError {
    /// The account the error names.
    pub open spec fn account_name(self) -> Seq<char> {
        match self {
            ShankAccountCheckError::MissingAccountCheck(name) => name@,
        }
    }

    /// Renders the error as the human-readable text a host may surface.
    pub fn message(&self) -> (text: String)
        ensures
            text@ == "Account "@ + self.account_name() + " was never checked"@,
    {
        match self {
            ShankAccountCheckError::MissingAccountCheck(account) => {
                let mut text = String::from_str("Account ");
                text.append(account.as_str());
                text.append(" was never checked");
                text
            },
        }
    }
}

impl CustomAccountCheckError {
    /// The account the error names.
    pub open spec fn account_name(self) -> Seq<char> {
        match self {
            CustomAccountCheckError::MissingAccountCheck(name) => name@,
        }
    }

    /// Renders the error as the human-readable text a host may surface.
    pub fn message(&self) -> (text: String)
        ensures
            text@ == "Account "@ + self.account_name() + " was never checked"@,
    {
        match self {
            CustomAccountCheckError::MissingAccountCheck(account) => {
                let mut text = String::from_str("Account ");
                text.append(account.as_str());
                text.append(" was never checked");
                text
            },
        }
    }
}

pub type AccountCheckResult<E> = Result<(), E>;

/// An error type usable with the checklist verifier: one that can report
/// that the named account was never checked.
pub trait MissingCheckError: Sized {
    /// Whether `self` reports that the account named `account` was never
    /// checked.
    spec fn reports_missing_check(self, account: Seq<char>) -> bool;

    /// Builds the error reporting that `account` was never checked.
    fn missing_check(account: &str) -> (e: Self)
        ensures
            e.reports_missing_check(account@),
    ;
}

impl MissingCheckError for ShankAccountCheckError {
    open spec fn reports_missing_check(self, account: Seq<char>) -> bool {
        self matches ShankAccountCheckError::MissingAccountCheck(name) && name@ == account
    }

    fn missing_check(account: &str) -> (e: Self) {
        ShankAccountCheckError::MissingAccountCheck(account.to_owned())
    }
}

impl MissingCheckError for CustomAccountCheckError {
    open spec fn reports_missing_check(self, account: Seq<char>) -> bool {
        self matches CustomAccountCheckError::MissingAccountCheck(name) && name@ == account
    }

    fn missing_check(account: &str) -> (e: Self) {
        CustomAccountCheckError::MissingAccountCheck(account.to_owned())
    }
}

/// A type whose values can attest, at a finalize point, that every account
/// check required by one instruction was performed.
pub trait ChecksAccounts<E: MissingCheckError> {
    /// Whether every required check has been marked as performed.
    spec fn all_checks_marked(&self) -> bool;

    /// The account named by the first check, in the declared order, that is
    /// still unmarked. Only meaningful while some check is unmarked.
    spec fn first_unmarked_account(&self) -> Seq<char>;

    /// Fails on the first required check that was never marked, naming the
    /// account it concerns; succeeds only if every required check was
    /// marked.
    fn verify_checks(&self) -> (result: AccountCheckResult<E>)
        ensures
            result is Ok <==> self.all_checks_marked(),
            result matches Err(e) ==> e.reports_missing_check(self.first_unmarked_account()),
    ;
}

/// The checklist for an instruction that requires one account check: that
/// the system account was inspected. A fresh value has no flags set; each
/// flag is set only by the corresponding `mark_*` call, so an unmarked check
/// stays unmarked forever. One value serves one invocation and must not be
/// reused across transactions.
pub struct AccountChecksForInstructionFoo {
    checked_system_account: bool,
}

impl AccountChecksForInstructionFoo {
    /// Whether the system-account check has been marked as performed.
    pub closed spec fn system_account_checked(self) -> bool {
        self.checked_system_account
    }

    /// A fresh checklist: no check has been marked yet.
    pub fn new() -> (verifier: Self)
        ensures
            !verifier.system_account_checked(),
    {
        AccountChecksForInstructionFoo { checked_system_account: false }
    }

    /// Records that the system account was checked. Idempotent: the
    /// checklist's state after marking is the same whether the check was
    /// already marked or not.
    pub fn mark_system_account_checked(&mut self)
        ensures
            final(self).system_account_checked(),
    {
        self.checked_system_account = true;
    }

    /// The finalize step behind every [`ChecksAccounts`] impl of this
    /// checklist, generalized over the caller's error vocabulary: scans the
    /// required flags in declared order and fails on the first unset one,
    /// naming the account it concerns.
    pub fn verify_checks_with<E: MissingCheckError>(&self) -> (result: AccountCheckResult<E>)
        ensures
            result is Ok <==> self.system_account_checked(),
            result matches Err(e) ==> e.reports_missing_check("system account"@),
    {
        if !self.checked_system_account {
            return Err(E::missing_check("system account"));
        }
        Ok(())
    }
}

/// Law: marking a check is idempotent. `mark_system_account_checked`
/// guarantees only that the check is marked afterwards, and the checklist's
/// whole state is determined by which checks are marked; so the state after
/// marking a second time equals the state after marking once, and every
/// later `verify_checks` outcome is unchanged.
pub proof fn lemma_mark_checked_idempotent(
    marked_once: AccountChecksForInstructionFoo,
    marked_again: AccountChecksForInstructionFoo,
)
    requires
        marked_once.system_account_checked(),
        marked_again.system_account_checked(),
    ensures
        marked_once == marked_again,
{
}

impl ChecksAccounts<ShankAccountCheckError> for AccountChecksForInstructionFoo {
    open spec fn all_checks_marked(&self) -> bool {
        self.system_account_checked()
    }

    open spec fn first_unmarked_account(&self) -> Seq<char> {
        "system account"@
    }

    fn verify_checks(&self) -> (result: AccountCheckResult<ShankAccountCheckError>) {
        self.verify_checks_with::<ShankAccountCheckError>()
    }
}

impl ChecksAccounts<CustomAccountCheckError> for AccountChecksForInstructionFoo {
    open spec fn all_checks_marked(&self) -> bool {
        self.system_account_checked()
    }

    open spec fn first_unmarked_account(&self) -> Seq<char> {
        "system account"@
    }

    fn verify_checks(&self) -> (result: AccountCheckResult<CustomAccountCheckError>) {
        self.verify_checks_with::<CustomAccountCheckError>()
    }
}

} // verus!
