use bigml::status::{ResourceStatusCode, StatusCode};

#[test]
fn status_kinds() {
    let all = [
        StatusCode::Waiting,
        StatusCode::Queued,
        StatusCode::Started,
        StatusCode::InProgress,
        StatusCode::Summarized,
        StatusCode::Finished,
        StatusCode::Faulty,
        StatusCode::Unknown,
    ];
    for code in all {
        let kinds = [code.is_working(), code.is_ready(), code.is_err()];
        assert_eq!(kinds.iter().filter(|k| **k).count(), 1, "{:?}", code);
    }
    assert!(StatusCode::Summarized.is_working());
    assert!(StatusCode::Finished.is_ready());
    assert!(StatusCode::Unknown.is_err());
    assert!(!StatusCode::Finished.is_err());
}

#[test]
fn status_numbers() {
    assert_eq!(StatusCode::from_number(0), Some(StatusCode::Waiting));
    assert_eq!(StatusCode::from_number(5), Some(StatusCode::Finished));
    assert_eq!(StatusCode::from_number(-1), Some(StatusCode::Faulty));
    assert_eq!(StatusCode::from_number(-2), Some(StatusCode::Unknown));
    assert_eq!(StatusCode::from_number(6), None);
    assert_eq!(StatusCode::from_number(-3), None);
    for n in -2..=5 {
        assert_eq!(StatusCode::from_number(n).unwrap().number(), n);
    }
}

#[test]
fn older_status_name() {
    let code: ResourceStatusCode = StatusCode::InProgress;
    assert!(code.is_working());
}
