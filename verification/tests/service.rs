use contract_enclave::service::ErrorResponse;

#[test]
fn unreadable_reply_error_message() {
    let e = ErrorResponse::unreadable_reply();
    assert_eq!(e.error, "Error in deserializing the returned data from the enclave.");
}
