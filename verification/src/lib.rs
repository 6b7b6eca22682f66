//! Account-constraint verification for transaction processing.
//!
//! A transaction-processing entry point receives an untyped, ordered list of
//! account handles; forgetting to check a property of one of them (is it a
//! signer? is it writable?) is a classic vulnerability class. This crate
//! offers two complementary patterns that turn "did we check X?" into a
//! structural guarantee:
//!
//! * a checklist pattern ([`simple`]): one boolean flag per required check,
//!   inspected at a single finalize point; and
//! * a typestate pattern ([`strongly_typed`]): wrapper types that can only be
//!   constructed by performing the validation, so holding a value of the
//!   wrapper type is itself proof that the constraint holds.

use vstd::prelude::*;
use vstd::string::StringExecFns;

pub mod simple;
pub mod strongly_typed;

verus! {

/// A constraint violation found while validating the account list.
///
/// Each variant carries the identity of the offending account (or the name of
/// the missing role) so that failures are human-readable.
#[derive(Clone, Debug, Eq, PartialEq)]
pub enum AccountConstraintError {
    /// The accounts array had fewer entries than the named role requires.
    AccountMissing(String),
    /// The named account must have signed the transaction but did not.
    AccountShouldBeSigner(String),
    /// The named account must be writable but is read-only.
    AccountShouldBeWritable(String),
}

pub type AccountConstraintResult<T> = Result<T, AccountConstraintError>;

impl AccountConstraintError {
    /// The identity carried by the error: the offending account's identity,
    /// or, for a missing account, the name of the unfilled role.
    pub open spec fn account_name(self) -> Seq<char> {
        match self {
            AccountConstraintError::AccountMissing(name) => name@,
            AccountConstraintError::AccountShouldBeSigner(name) => name@,
            AccountConstraintError::AccountShouldBeWritable(name) => name@,
        }
    }

    /// The stable numeric code of each variant: the wire contract with the
    /// host's error channel. Changing this mapping would break callers.
    pub open spec fn code_spec(self) -> u32 {
        match self {
            AccountConstraintError::AccountMissing(_) => 0,
            AccountConstraintError::AccountShouldBeSigner(_) => 1,
            AccountConstraintError::AccountShouldBeWritable(_) => 2,
        }
    }

    /// Converts the error to the small stable integer code that the host
    /// environment's error channel expects.
    pub fn error_code(&self) -> (code: u32)
        ensures
            code == self.code_spec(),
    {
        match self {
            AccountConstraintError::AccountMissing(_) => 0,
            AccountConstraintError::AccountShouldBeSigner(_) => 1,
            AccountConstraintError::AccountShouldBeWritable(_) => 2,
        }
    }

    /// Renders the error as the human-readable text a host may surface next
    /// to the numeric code.
    pub fn message(&self) -> (text: String)
        ensures
            self is AccountMissing ==> text@ == "Account '"@ + self.account_name()
                + "' was missing from the accounts array"@,
            self is AccountShouldBeSigner ==> text@ == "Account '"@ + self.account_name()
                + "' should be signer"@,
            self is AccountShouldBeWritable ==> text@ == "Account '"@ + self.account_name()
                + "' should be writable"@,
    {
        match self {
            AccountConstraintError::AccountMissing(name) => {
                let mut text = String::from_str("Account '");
                text.append(name.as_str());
                text.append("' was missing from the accounts array");
                text
            },
            AccountConstraintError::AccountShouldBeSigner(name) => {
                let mut text = String::from_str("Account '");
                text.append(name.as_str());
                text.append("' should be signer");
                text
            },
            AccountConstraintError::AccountShouldBeWritable(name) => {
                let mut text = String::from_str("Account '");
                text.append(name.as_str());
                text.append("' should be writable");
                text
            },
        }
    }
}

} // verus!
