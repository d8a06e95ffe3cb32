use newsletter::idempotency::{
    get_saved_response, HeaderPairRecord, IdempotencyKey, IdempotencyKeyError, SavedRecord,
    SavedResponseError,
};

#[test]
fn a_plain_key_is_accepted_and_given_back() {
    let key = IdempotencyKey::try_from("3f1c-retry".to_string()).unwrap();
    assert_eq!(key.as_ref(), "3f1c-retry");
    assert_eq!(String::from(key), "3f1c-retry".to_string());
}

#[test]
fn an_empty_key_is_refused() {
    let r = IdempotencyKey::try_from(String::new());
    let e = r.unwrap_err();
    assert_eq!(e, IdempotencyKeyError::Empty);
    assert_eq!(e.message(), "The idempotency key must not be empty.");
}

#[test]
fn a_key_of_fifty_bytes_is_accepted() {
    let value = "k".repeat(50);
    let key = IdempotencyKey::try_from(value.clone()).unwrap();
    assert_eq!(key.as_ref(), value.as_str());
}

#[test]
fn a_key_of_fifty_one_bytes_is_refused() {
    let r = IdempotencyKey::try_from("k".repeat(51));
    let e = r.unwrap_err();
    assert_eq!(e, IdempotencyKeyError::TooLong);
    assert_eq!(e.message(), "The idempotency key must not be longer than 50 characters.");
}

#[test]
fn key_length_counts_bytes_not_characters() {
    // 25 two-byte characters make 50 bytes; 26 make 52.
    assert!(IdempotencyKey::try_from("é".repeat(25)).is_ok());
    assert_eq!(
        IdempotencyKey::try_from("é".repeat(26)).unwrap_err(),
        IdempotencyKeyError::TooLong
    );
}

fn record(code: i16) -> SavedRecord {
    SavedRecord {
        response_status_code: code,
        response_headers: vec![HeaderPairRecord {
            name: "location".to_string(),
            value: b"/admin/newsletters".to_vec(),
        }],
        response_body: b"done".to_vec(),
    }
}

#[test]
fn no_saved_record_means_no_saved_response() {
    assert!(get_saved_response(None).unwrap().is_none());
}

#[test]
fn a_saved_record_is_replayed() {
    let response = get_saved_response(Some(record(303))).unwrap().unwrap();
    assert_eq!(response.status_code, 303);
    assert_eq!(response.headers.len(), 1);
    assert_eq!(response.headers[0].name, "location");
    assert_eq!(response.headers[0].value, b"/admin/newsletters".to_vec());
    assert_eq!(response.body, b"done".to_vec());
}

#[test]
fn a_negative_saved_status_is_refused() {
    assert_eq!(
        get_saved_response(Some(record(-1))).unwrap_err(),
        SavedResponseError::NegativeStatusCode
    );
}

#[test]
fn saved_status_codes_must_have_three_digits() {
    assert_eq!(
        get_saved_response(Some(record(99))).unwrap_err(),
        SavedResponseError::InvalidStatusCode
    );
    assert_eq!(
        get_saved_response(Some(record(1000))).unwrap_err(),
        SavedResponseError::InvalidStatusCode
    );
    assert_eq!(get_saved_response(Some(record(100))).unwrap().unwrap().status_code, 100);
    assert_eq!(get_saved_response(Some(record(999))).unwrap().unwrap().status_code, 999);
}
