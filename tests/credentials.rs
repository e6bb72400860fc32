use mochow_rust_sdk::auth::credentials::Credentials;
use mochow_rust_sdk::error::SdkError;

#[test]
fn check_bce_credentials() {
    let credential = Credentials::new("name", "123456").unwrap();
    println!("{}", credential.token());
    println!("{}", credential.to_string());
    assert_eq!(credential.token(), "account=name&api_key=123456");
    assert_eq!(credential.to_string(), "account: name, api_key: 123456");
}

#[test]
fn credentials_token_depends_on_both_inputs() {
    let a = Credentials::new("acc", "key").unwrap();
    let b = Credentials::new("acc", "key").unwrap();
    let c = Credentials::new("acc", "other").unwrap();
    assert_eq!(a.token(), b.token());
    assert_ne!(a.token(), c.token());
}

#[test]
fn credentials_reject_empty_account() {
    match Credentials::new("", "key") {
        Err(SdkError::ParamsError(m)) => assert_eq!(m, "account should not be empty"),
        _ => panic!("expected a params error"),
    }
}

#[test]
fn credentials_reject_empty_api_key() {
    match Credentials::new("acc", "") {
        Err(SdkError::ParamsError(m)) => assert_eq!(m, "api_key should not be empty"),
        _ => panic!("expected a params error"),
    }
}
