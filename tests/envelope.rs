use wwsvc_mock::{BuildError, ComResult, ComResultBuilder, MockResourceMethod, ServiceResponse};

#[test]
fn invalid_status_code_service_response() {
    let response = ServiceResponse {
        comresult: ComResult {
            status: 1001,
            code: "1001".to_string(),
            info: "Invalid".to_string(),
            info2: None,
            info3: None,
            errno: None,
            bereich: None,
            errnotxt: None,
        },
        body: (),
    };
    assert_eq!(response.http_status(), 500);
}

#[test]
fn valid_statuses_pass_through() {
    for (status, expected) in [(200u32, 200u16), (404, 404), (100, 100), (999, 999), (99, 500), (0, 500), (65636, 500)] {
        let response = ServiceResponse { comresult: ComResult::new(status, "c", "i"), body: () };
        assert_eq!(response.http_status(), expected);
    }
}

#[test]
fn builder_sets_every_field() {
    let c = ComResultBuilder::with_status(400)
        .bereich("WWSVC")
        .code("400 Bad Request")
        .info("a")
        .info2("b")
        .info3("c")
        .errno("20")
        .errnotxt("d")
        .build()
        .unwrap();
    assert_eq!(c.status, 400);
    assert_eq!(c.code, "400 Bad Request");
    assert_eq!(c.info, "a");
    assert_eq!(c.info2.as_deref(), Some("b"));
    assert_eq!(c.info3.as_deref(), Some("c"));
    assert_eq!(c.errno.as_deref(), Some("20"));
    assert_eq!(c.bereich.as_deref(), Some("WWSVC"));
    assert_eq!(c.errnotxt.as_deref(), Some("d"));
    let plain = ComResultBuilder::new().status(1).code("x").info("y").build().unwrap();
    assert_eq!(plain.info2.is_none() && plain.errno.is_none() && plain.bereich.is_none(), true);
}

#[test]
fn builder_reports_missing_fields() {
    let e = ComResultBuilder::new().code("x").info("y").build().unwrap_err();
    assert_eq!(e, BuildError::MissingStatus);
    assert_eq!(e.message(), "status is required");
    let e = ComResultBuilder::with_status(200).info("y").build().unwrap_err();
    assert_eq!(e, BuildError::MissingCode);
    assert_eq!(e.message(), "code is required");
    let e = ComResultBuilder::with_status(200).code("x").build().unwrap_err();
    assert_eq!(e, BuildError::MissingInfo);
    assert_eq!(e.message(), "info is required");
    let e = ComResultBuilder::new().build().unwrap_err();
    assert_eq!(e, BuildError::MissingStatus);
}

#[test]
fn method_get_to_string() {
    assert_eq!(MockResourceMethod::Get.to_string(), "GET");
}

#[test]
fn method_insert_to_string() {
    assert_eq!(MockResourceMethod::Insert.to_string(), "INSERT");
}

#[test]
fn method_put_to_string() {
    assert_eq!(MockResourceMethod::Put.to_string(), "PUT");
}

#[test]
fn method_delete_to_string() {
    assert_eq!(MockResourceMethod::Delete.to_string(), "DELETE");
}

#[test]
fn method_exec_to_string() {
    assert_eq!(MockResourceMethod::Exec.to_string(), "EXEC");
}

#[test]
fn unknown_method_from_str() {
    assert_eq!(MockResourceMethod::from_str("UNKNOWN").unwrap_err(), "Unknown method: UNKNOWN");
}

#[test]
fn method_tokens_round_trip() {
    for m in [
        MockResourceMethod::Get,
        MockResourceMethod::Insert,
        MockResourceMethod::Put,
        MockResourceMethod::Delete,
        MockResourceMethod::Exec,
    ] {
        assert_eq!(MockResourceMethod::from_str(m.as_str()), Ok(m));
    }
    assert_eq!(MockResourceMethod::from_str("get").is_err(), true);
    assert_eq!(MockResourceMethod::from_str("").unwrap_err(), "Unknown method: ");
}
