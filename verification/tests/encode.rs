use apollo_client::encode::form_urlencode;
use apollo_client::encode::i64_to_string;
use apollo_client::encode::percent_encode;
use apollo_client::encode::u64_to_string;
use apollo_client::errors::ApolloResponseError;
use apollo_client::sign::signature;

#[test]
fn test_decimal_rendering() {
    assert_eq!(u64_to_string(0), "0");
    assert_eq!(u64_to_string(7), "7");
    assert_eq!(u64_to_string(1669200000000), "1669200000000");
    assert_eq!(i64_to_string(0), "0");
    assert_eq!(i64_to_string(-1), "-1");
    assert_eq!(i64_to_string(100), "100");
    assert_eq!(i64_to_string(i64::MIN), "-9223372036854775808");
    assert_eq!(i64_to_string(i64::MAX), "9223372036854775807");
}

#[test]
fn test_form_urlencode() {
    assert_eq!(form_urlencode("test_app_id"), "test_app_id");
    assert_eq!(form_urlencode("???"), "%3F%3F%3F");
    assert_eq!(form_urlencode("a b"), "a+b");
    assert_eq!(form_urlencode("test-namespace.json"), "test-namespace.json");
    assert_eq!(
        form_urlencode("[{\"namespaceName\":\"test-namespace\",\"notificationId\":-1}]"),
        "%5B%7B%22namespaceName%22%3A%22test-namespace%22%2C%22notificationId%22%3A-1%7D%5D"
    );
    // UTF-8 bytes of non-ASCII characters are percent-encoded one by one.
    assert_eq!(form_urlencode("é"), "%C3%A9");
}

#[test]
fn test_percent_encode() {
    assert_eq!(percent_encode("abc_DEF-0.9~"), "abc_DEF-0.9~");
    assert_eq!(percent_encode("a b"), "a%20b");
    assert_eq!(percent_encode("???"), "%3F%3F%3F");
    assert_eq!(percent_encode("é"), "%C3%A9");
}

#[test]
fn test_signature_headers() {
    let (authorization, timestamp) = signature(
        1669200000000,
        "/notifications/v2",
        &vec![
            ("appId".to_string(), "SampleApp".to_string()),
            ("cluster".to_string(), "default".to_string()),
            (
                "notifications".to_string(),
                "[{\"namespaceName\":\"application\",\"notificationId\":-1}]".to_string(),
            ),
        ],
        "SampleApp",
        "test-access-key",
    );
    assert_eq!(timestamp, "1669200000000");
    assert_eq!(authorization, "Apollo SampleApp:cM3LPtZ5/Fh60sBzKrI5MqQdVR8=");
}

#[test]
fn test_signature_headers_without_queries() {
    let (authorization, timestamp) = signature(
        1669200000000,
        "/configs/SampleApp/default/application",
        &vec![],
        "SampleApp",
        "test-access-key",
    );
    assert_eq!(timestamp, "1669200000000");
    assert_eq!(authorization, "Apollo SampleApp:euRUlwPb+IsVO8PqmPthvbXEPAg=");
}

#[test]
fn test_response_error_from_status() {
    assert!(ApolloResponseError::from_status(200, String::new()).is_ok());
    assert!(ApolloResponseError::from_status(204, String::new()).is_ok());
    let error = ApolloResponseError::from_status(404, "not found".to_string()).unwrap_err();
    assert_eq!(error.status, 404);
    assert_eq!(error.body, "not found");
    let error = ApolloResponseError::from_status(304, String::new()).unwrap_err();
    assert_eq!(error.status, 304);
}
