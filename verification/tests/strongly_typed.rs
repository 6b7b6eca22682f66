use account_constraints::strongly_typed::{AccountHandle, VerifiedAccounts, WritableSignerAccount};
use account_constraints::AccountConstraintError;

#[test]
fn writable_signer() {
    let account_info = AccountHandle {
        identity: "A".to_string(),
        is_signer: true,
        is_writable: true,
    };
    let res: Result<WritableSignerAccount, AccountConstraintError> =
        WritableSignerAccount::try_from(&account_info);
    assert!(res.is_ok());
}

#[test]
fn writable_signer_via_verified_accounts() {
    let account_info = AccountHandle {
        identity: "A".to_string(),
        is_signer: true,
        is_writable: true,
    };
    let accounts = vec![account_info];
    let res = VerifiedAccounts::new(&accounts);
    assert!(res.is_ok());
    assert_eq!(res.unwrap().writable_signer().account().identity, "A");
}

#[test]
fn writable_signer_not_writable_via_verified_accounts() {
    let account_info = AccountHandle {
        identity: "A".to_string(),
        is_signer: true,
        is_writable: false,
    };
    let accounts = vec![account_info];
    let res = VerifiedAccounts::new(&accounts);
    assert!(res.is_err());
}

#[test]
fn wrapper_reads_through_identity_and_flags() {
    let handle = AccountHandle {
        identity: "fee payer".to_string(),
        is_signer: true,
        is_writable: true,
    };
    let wrapped = WritableSignerAccount::try_from(&handle).unwrap();
    let seen = wrapped.account();
    assert_eq!(seen.identity, "fee payer");
    assert!(seen.is_signer);
    assert!(seen.is_writable);
}

#[test]
fn not_writable_fails_even_when_signer() {
    let handle = AccountHandle {
        identity: "A".to_string(),
        is_signer: true,
        is_writable: false,
    };
    let res = WritableSignerAccount::try_from(&handle);
    assert_eq!(
        res.unwrap_err(),
        AccountConstraintError::AccountShouldBeWritable("A".to_string())
    );
}

#[test]
fn not_writable_fails_even_when_not_signer() {
    let handle = AccountHandle {
        identity: "A".to_string(),
        is_signer: false,
        is_writable: false,
    };
    let res = WritableSignerAccount::try_from(&handle);
    assert_eq!(
        res.unwrap_err(),
        AccountConstraintError::AccountShouldBeWritable("A".to_string())
    );
}

#[test]
fn writable_but_not_signer_fails_with_signer_error() {
    let handle = AccountHandle {
        identity: "A".to_string(),
        is_signer: false,
        is_writable: true,
    };
    let res = WritableSignerAccount::try_from(&handle);
    let err = res.unwrap_err();
    assert_eq!(
        err,
        AccountConstraintError::AccountShouldBeSigner("A".to_string())
    );
    assert_eq!(err.error_code(), 1);
}

#[test]
fn not_writable_via_verified_accounts_maps_to_code_two() {
    let handle = AccountHandle {
        identity: "A".to_string(),
        is_signer: true,
        is_writable: false,
    };
    let accounts = vec![handle];
    let err = VerifiedAccounts::new(&accounts).unwrap_err();
    assert_eq!(
        err,
        AccountConstraintError::AccountShouldBeWritable("A".to_string())
    );
    assert_eq!(err.error_code(), 2);
}

#[test]
fn empty_accounts_fail_with_missing_role_code_zero() {
    let accounts: Vec<AccountHandle> = vec![];
    let err = VerifiedAccounts::new(&accounts).unwrap_err();
    assert_eq!(
        err,
        AccountConstraintError::AccountMissing("writable_signer".to_string())
    );
    assert_eq!(err.error_code(), 0);
}

#[test]
fn first_account_predicate_error_masks_missing() {
    let handle = AccountHandle {
        identity: "A".to_string(),
        is_signer: false,
        is_writable: true,
    };
    let accounts = vec![handle];
    let err = VerifiedAccounts::new(&accounts).unwrap_err();
    assert_eq!(
        err,
        AccountConstraintError::AccountShouldBeSigner("A".to_string())
    );
}

#[test]
fn constraint_error_messages() {
    let missing = AccountConstraintError::AccountMissing("writable_signer".to_string());
    assert_eq!(
        missing.message(),
        "Account 'writable_signer' was missing from the accounts array"
    );
    let signer = AccountConstraintError::AccountShouldBeSigner("A".to_string());
    assert_eq!(signer.message(), "Account 'A' should be signer");
    let writable = AccountConstraintError::AccountShouldBeWritable("A".to_string());
    assert_eq!(writable.message(), "Account 'A' should be writable");
}
