use sgx_quoteverify::error::Quote3Error;
use sgx_quoteverify::quote_enclave::{
    load_policy, set_path, PathKind, RequestPolicy, MAX_PATH_BYTES,
};

#[test]
fn qve_path_succeeds() {
    let call = set_path(PathKind::QuoteVerificationEnclave, b"fake.txt".to_vec())
        .expect("an ordinary path must be accepted");
    assert_eq!(call.path_type_code, 0);
    assert_eq!(call.path, b"fake.txt".to_vec());
}

#[test]
fn qpl_path_succeeds() {
    let call = set_path(PathKind::QuoteProviderLibrary, b"fake.txt".to_vec())
        .expect("an ordinary path must be accepted");
    assert_eq!(call.path_type_code, 1);
    assert_eq!(call.path, b"fake.txt".to_vec());
}

#[test]
fn path_with_0_byte_fails_in_c_string() {
    let result = set_path(PathKind::QuoteVerificationEnclave, b"fake\0.txt".to_vec());
    assert!(matches!(result, Err(Quote3Error::InvalidParameter)));
}

#[test]
fn path_length_at_max_ok() {
    let path = vec![b'a'; MAX_PATH_BYTES];
    let call = set_path(PathKind::QuoteProviderLibrary, path.clone())
        .expect("a path of exactly the maximum length must be accepted");
    assert_eq!(call.path, path);
}

#[test]
fn path_length_exceeded() {
    let path = vec![b'a'; MAX_PATH_BYTES + 1];
    let result = set_path(PathKind::QuoteProviderLibrary, path);
    assert!(matches!(result, Err(Quote3Error::InvalidParameter)));
}

#[test]
fn load_policy_persistent_succeeds() {
    assert_eq!(load_policy(RequestPolicy::Persistent).policy_code, 0);
}

#[test]
fn load_policy_ephemeral_succeeds() {
    assert_eq!(load_policy(RequestPolicy::Ephemeral).policy_code, 1);
}

#[test]
fn default_policy_is_persistent() {
    assert_eq!(RequestPolicy::default(), RequestPolicy::Persistent);
}
