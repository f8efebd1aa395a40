use bigml::credentials::{redact_query_pairs, url_without_api_key};
use bigml::errors::{classified_failure, Error};
use bigml::wait::WaitStatus;

fn other(message: &str) -> Error {
    Error::Other { message: message.to_owned() }
}

fn http(status: u16) -> Error {
    Error::for_http_status("https://bigml.io/source?api_key=k", status, String::new())
}

#[test]
fn errors_url_without_api_key_is_sanitized() {
    let cleaned = url_without_api_key("https://www.example.com/foo?a=b&api_key=12345")
        .expect("could not parse URL");
    assert_eq!(cleaned, "https://www.example.com/foo?a=b&api_key=*****");
}

#[test]
fn redaction_keeps_other_parameters_and_order() {
    let cleaned =
        url_without_api_key("https://bigml.io/andromeda/source?username=me&api_key=SECRET&limit=5")
            .unwrap();
    assert_eq!(cleaned, "https://bigml.io/andromeda/source?username=me&api_key=*****&limit=5");
    let untouched = url_without_api_key("https://bigml.io/x?z=1&a=2").unwrap();
    assert_eq!(untouched, "https://bigml.io/x?z=1&a=2");
}

#[test]
fn redaction_of_pairs() {
    let pairs = vec![
        ("api_key".to_owned(), "one".to_owned()),
        ("name".to_owned(), "api_key".to_owned()),
        ("api_key".to_owned(), "two".to_owned()),
    ];
    let r = redact_query_pairs(&pairs);
    assert_eq!(
        r,
        vec![
            ("api_key".to_owned(), "*****".to_owned()),
            ("name".to_owned(), "api_key".to_owned()),
            ("api_key".to_owned(), "*****".to_owned()),
        ]
    );
}

#[test]
fn unparsable_url_is_withheld() {
    assert_eq!(url_without_api_key("not a url?api_key=secret"), None);
    match Error::could_not_access_url("not a url?api_key=secret", other("x")) {
        Error::CouldNotAccessUrl { url, .. } => assert_eq!(url, None),
        e => panic!("unexpected {:?}", e),
    }
}

#[test]
fn access_error_hides_credential() {
    let err = Error::could_not_access_url(
        "https://bigml.io/test?username=example&api_key=secret",
        other("Details"),
    );
    match &err {
        Error::CouldNotAccessUrl { url: Some(url), source } => {
            assert!(!url.contains("secret"));
            assert!(url.contains("username=example"));
            assert!(matches!(**source, Error::Other { .. }));
        }
        e => panic!("unexpected {:?}", e),
    }
}

#[test]
fn http_status_errors() {
    match Error::for_http_status("https://bigml.io/a?api_key=secret", 402, "quota".to_owned()) {
        Error::PaymentRequired { url: Some(url), body } => {
            assert_eq!(url, "https://bigml.io/a?api_key=*****");
            assert_eq!(body, "quota");
        }
        e => panic!("unexpected {:?}", e),
    }
    match Error::for_http_status("https://bigml.io/a?api_key=secret", 503, "down".to_owned()) {
        Error::UnexpectedHttpStatus { url: Some(url), status, body } => {
            assert_eq!(url, "https://bigml.io/a?api_key=*****");
            assert_eq!(status, 503);
            assert_eq!(body, "down");
        }
        e => panic!("unexpected {:?}", e),
    }
}

#[test]
fn transient_errors() {
    assert!(http(402).might_be_temporary());
    assert!(http(500).might_be_temporary());
    assert!(http(503).might_be_temporary());
    assert!(http(504).might_be_temporary());
    assert!(!http(404).might_be_temporary());
    assert!(!http(502).might_be_temporary());
    assert!(!Error::Timeout.might_be_temporary());
    assert!(!other("x").might_be_temporary());
    let failed = Error::WaitFailed { id: "execution/1".to_owned(), message: "boom".to_owned() };
    assert!(!failed.might_be_temporary());
    let wrapped = Error::could_not_access_url("https://bigml.io/x", http(503));
    assert!(wrapped.might_be_temporary());
    let wrapped = Error::could_not_get_output("out", http(404));
    assert!(!wrapped.might_be_temporary());
    let wrapped = Error::could_not_read_file("/tmp/f", http(500));
    assert!(wrapped.might_be_temporary());
}

#[test]
fn original_error_under_wrappers() {
    let inner = Error::WaitFailed { id: "execution/1".to_owned(), message: "boom".to_owned() };
    let err = Error::could_not_access_url(
        "https://bigml.io/x",
        Error::could_not_get_output("out", inner),
    );
    match err.original_bigml_error() {
        Error::WaitFailed { message, .. } => assert_eq!(message, "boom"),
        e => panic!("unexpected {:?}", e),
    }
    assert!(matches!(Error::Timeout.original_bigml_error(), Error::Timeout));
}

#[test]
fn error_constructors() {
    match Error::missing_env_var("BIGML_USERNAME") {
        Error::MissingEnvVar { var } => assert_eq!(var, "BIGML_USERNAME"),
        e => panic!("unexpected {:?}", e),
    }
    match Error::could_not_read_file("/data/x.csv", Error::OutputNotAvailable) {
        Error::CouldNotReadFile { path, source } => {
            assert_eq!(path, "/data/x.csv");
            assert!(matches!(*source, Error::OutputNotAvailable));
        }
        e => panic!("unexpected {:?}", e),
    }
    let parse_error = url::Url::parse("https://").unwrap_err();
    match Error::could_not_parse_url_with_domain("", parse_error) {
        Error::CouldNotParseUrlWithDomain { domain, source } => {
            assert_eq!(domain, "");
            assert_eq!(source, parse_error);
        }
        e => panic!("unexpected {:?}", e),
    }
}

#[test]
fn errors_become_wait_outcomes() {
    assert!(matches!(
        WaitStatus::<(), Error>::from(http(504)),
        WaitStatus::FailedTemporarily(Error::UnexpectedHttpStatus { status: 504, .. })
    ));
    assert!(matches!(
        WaitStatus::<(), Error>::from(http(400)),
        WaitStatus::FailedPermanently(Error::UnexpectedHttpStatus { status: 400, .. })
    ));
    assert!(matches!(
        WaitStatus::<(), Error>::from(Error::Timeout),
        WaitStatus::FailedPermanently(Error::Timeout)
    ));
}

#[test]
fn classified_early_return() {
    let t: Result<u8, WaitStatus<(), Error>> = classified_failure(Err(http(503)));
    assert!(matches!(t, Err(WaitStatus::FailedTemporarily(_))));
    let p: Result<u8, WaitStatus<(), Error>> = classified_failure(Err(http(401)));
    assert!(matches!(p, Err(WaitStatus::FailedPermanently(_))));
    let v: Result<u8, WaitStatus<(), Error>> = classified_failure(Ok(9));
    assert!(matches!(v, Ok(9)));
}
