use wwsvc_mock::config::hash_of_nibbles;
use wwsvc_mock::service_pass::{
    check_deregister, compute_legacy_hash, deregister_response, parse_revision, verify_deregister,
};
use wwsvc_mock::{
    handle_deregister, handle_register, handle_register_path, AppConfig, CredentialsConfig, DeregisterHeaders,
    DeregisterOutcome, WebservicesConfig, WebwareConfig,
};

const TS: &str = "Mon, 01 Jan 2000 00:00:00 GMT";

fn webware() -> WebwareConfig {
    WebwareConfig {
        webservices: WebservicesConfig {
            vendor_hash: "vendor".to_string(),
            application_hash: "app".to_string(),
            version: 3,
            application_secret: "secret".to_string(),
        },
        credentials: CredentialsConfig {
            service_pass: "pass".to_string(),
            application_id: "abc".to_string(),
        },
    }
}

fn headers(mode: Option<&str>, reqid: Option<&str>, ts: Option<&str>, hash: Option<&str>) -> DeregisterHeaders {
    DeregisterHeaders {
        execute_mode: mode.map(str::to_string),
        request_id: reqid.map(str::to_string),
        timestamp: ts.map(str::to_string),
        hash: hash.map(str::to_string),
    }
}

fn is_hex32(s: &str) -> bool {
    s.len() == 32 && s.chars().all(|c| c.is_ascii_digit() || ('a'..='f').contains(&c))
}

#[test]
fn default_config() {
    let config = AppConfig::default();
    assert_eq!(config.mock_resources.is_empty(), true);
    assert_eq!(config.debug, false);
    assert_eq!(config.webware.credentials.service_pass.len(), 32);
    assert_eq!(config.webware.credentials.application_id.len(), 32);
    assert_eq!(config.webware.webservices.vendor_hash.len(), 32);
    assert_eq!(config.webware.webservices.application_hash.len(), 32);
    assert_eq!(config.webware.webservices.version, 1);
    assert_eq!(config.webware.webservices.application_secret, "1".to_string());
}

#[test]
fn generated_hashes_are_lower_hex() {
    for _ in 0..20 {
        let h = wwsvc_mock::config::generate_hash();
        assert!(is_hex32(&h), "{}", h);
    }
    let a = CredentialsConfig::default();
    assert!(is_hex32(&a.service_pass) && is_hex32(&a.application_id));
    assert_eq!(config_server_is_none(), true);
}

fn config_server_is_none() -> bool {
    AppConfig::default().server.is_none()
}

#[test]
fn register_successfully() {
    let config = webware();
    let r = handle_register(&config, "vendor", "app", "secret", 3);
    assert_eq!(r.http_status(), 200);
    assert_eq!(r.comresult.code, "200 OK");
    assert_eq!(r.comresult.info, "REGISTER OK");
    let pass = r.body.service_pass.unwrap();
    assert_eq!(pass.pass_id, "pass");
    assert_eq!(pass.app_id, "abc");
}

#[test]
fn register_unsuccessfully() {
    let config = webware();
    let r = handle_register(&config, "a", "1", "a", 2);
    assert_eq!(r.http_status(), 406);
    assert_eq!(r.comresult.code, "406 Not Acceptable");
    assert_eq!(r.comresult.info, "REGISTER is not possible");
    assert_eq!(r.body.service_pass.is_none(), true);
}

#[test]
fn register_single_mismatch_refused() {
    let config = webware();
    let cases = [
        ("vendorX", "app", "secret", 3),
        ("vendor", "appX", "secret", 3),
        ("vendor", "app", "secretX", 3),
        ("vendor", "app", "secret", 4),
        ("VENDOR", "app", "secret", 3),
    ];
    for (v, a, s, rev) in cases {
        let r = handle_register(&config, v, a, s, rev);
        assert_eq!(r.comresult.status, 406);
        assert_eq!(r.body.service_pass.is_none(), true);
    }
}

#[test]
fn hash_golden_vector() {
    assert_eq!(compute_legacy_hash("abc", TS), "593db04c709e2b545301da1a962c5710");
    // The euro sign is the single byte 0x80 in Windows-1252.
    assert_eq!(compute_legacy_hash("", "\u{20ac}"), "8d39dd7eef115ea6975446ef4082951f");
}

#[test]
fn deregister_successfully() {
    let config = webware();
    let hash = compute_legacy_hash("abc", TS);
    let h = headers(Some("SYNCHRON"), Some("1"), Some(TS), Some(&hash));
    assert_eq!(verify_deregister(&config.credentials, "pass", &h), DeregisterOutcome::Deregistered);
    let r = handle_deregister(&config, "pass", &h);
    assert_eq!(r.http_status(), 200);
    assert_eq!(r.comresult.info, "SERVICEPASS DEREGISTERED");
    let asyn = headers(Some("ASYNCHRON"), Some("7"), Some(TS), Some("593db04c709e2b545301da1a962c5710"));
    assert_eq!(handle_deregister(&config, "pass", &asyn).comresult.status, 200);
}

#[test]
fn deregister_unsuccessfully() {
    let config = webware();
    let hash = compute_legacy_hash("abc", TS);
    let h = headers(Some("SYNCHRON"), Some("1"), Some(TS), Some(&hash));
    let r = handle_deregister(&config, "a", &h);
    assert_eq!(r.http_status(), 404);
    assert_eq!(r.comresult.info2.as_deref(), Some("wwsvc-mock: ServicePass not known"));
}

#[test]
fn deregister_without_headers() {
    let config = webware();
    let r = handle_deregister(&config, "pass", &headers(None, None, None, None));
    assert_eq!(r.http_status(), 404);
    assert_eq!(r.comresult.info2.as_deref(), Some("wwsvc-mock: Mandatory header missing"));
    let hash = compute_legacy_hash("abc", TS);
    let missing_reqid = headers(Some("SYNCHRON"), None, Some(TS), Some(&hash));
    assert_eq!(
        verify_deregister(&config.credentials, "pass", &missing_reqid),
        DeregisterOutcome::MissingHeader
    );
}

#[test]
fn deregister_with_unknown_execute_mode() {
    let config = webware();
    let r = handle_deregister(&config, "pass", &headers(Some("UNKNOWN"), Some("1"), Some(TS), Some("a")));
    assert_eq!(r.http_status(), 404);
    assert_eq!(r.comresult.info2.as_deref(), Some("wwsvc-mock: Execute mode not known"));
}

#[test]
fn deregister_with_wrong_hash() {
    let config = webware();
    let r = handle_deregister(&config, "pass", &headers(Some("SYNCHRON"), Some("1"), Some(TS), Some("a")));
    assert_eq!(r.http_status(), 404);
    assert_eq!(r.comresult.code, "404 Resource not found");
    assert_eq!(r.comresult.info, "ERROR ServicePass not known");
    assert_eq!(r.comresult.info2.as_deref(), Some("wwsvc-mock: Hash not correct"));
    let upper = "593DB04C709E2B545301DA1A962C5710";
    let r = handle_deregister(&config, "pass", &headers(Some("SYNCHRON"), Some("1"), Some(TS), Some(upper)));
    assert_eq!(r.comresult.status, 404);
}

#[test]
fn deregister_checks_in_order() {
    let creds = webware().credentials;
    let h = headers(Some("UNKNOWN"), None, Some(TS), Some("x"));
    assert_eq!(check_deregister(&creds, "other", &h, "x"), DeregisterOutcome::UnknownServicePass);
    assert_eq!(check_deregister(&creds, "pass", &h, "x"), DeregisterOutcome::MissingHeader);
    let h = headers(Some("UNKNOWN"), Some("1"), Some(TS), Some("x"));
    assert_eq!(check_deregister(&creds, "pass", &h, "x"), DeregisterOutcome::UnknownExecuteMode);
    let h = headers(Some("SYNCHRON"), Some("1"), Some(TS), Some("x"));
    assert_eq!(check_deregister(&creds, "pass", &h, "y"), DeregisterOutcome::WrongHash);
    assert_eq!(check_deregister(&creds, "pass", &h, "x"), DeregisterOutcome::Deregistered);
    for outcome in [
        DeregisterOutcome::UnknownServicePass,
        DeregisterOutcome::MissingHeader,
        DeregisterOutcome::UnknownExecuteMode,
        DeregisterOutcome::WrongHash,
    ] {
        let r = deregister_response(outcome);
        assert_eq!(r.comresult.status, 404);
        assert_eq!(r.comresult.code, "404 Resource not found");
    }
    assert_eq!(deregister_response(DeregisterOutcome::Deregistered).comresult.status, 200);
}

#[test]
fn register_with_invalid_revision() {
    let config = webware();
    let r = handle_register_path(&config, "a", "a", "a", "-1");
    assert_eq!(r.http_status(), 406);
    assert_eq!(r.body.service_pass.is_none(), true);
    let ok = handle_register_path(&config, "vendor", "app", "secret", "3");
    assert_eq!(ok.http_status(), 200);
    let bad = handle_register_path(&config, "vendor", "app", "secret", "3x");
    assert_eq!(bad.http_status(), 406);
}

#[test]
fn revision_parsing() {
    assert_eq!(parse_revision("0"), Some(0));
    assert_eq!(parse_revision("+17"), Some(17));
    assert_eq!(parse_revision("007"), Some(7));
    assert_eq!(parse_revision("4294967295"), Some(u32::MAX));
    assert_eq!(parse_revision("4294967296"), None);
    assert_eq!(parse_revision("99999999999"), None);
    assert_eq!(parse_revision("-1"), None);
    assert_eq!(parse_revision(""), None);
    assert_eq!(parse_revision("+"), None);
    assert_eq!(parse_revision("1 "), None);
    for text in ["0", "+17", "4294967295", "4294967296", "-1", "", "+", "12a"] {
        assert_eq!(parse_revision(text), text.parse::<u32>().ok(), "{}", text);
    }
}

#[test]
fn hash_of_nibbles_gives_their_digits() {
    assert_eq!(hash_of_nibbles(&vec![]), "");
    assert_eq!(hash_of_nibbles(&vec![0, 9, 10, 15]), "09af");
    let draws: Vec<u8> = (0..32).map(|i| (i * 7 % 16) as u8).collect();
    let expected: String = draws.iter().map(|d| "0123456789abcdef".as_bytes()[*d as usize] as char).collect();
    assert_eq!(hash_of_nibbles(&draws), expected);
    assert_eq!(hash_of_nibbles(&draws).len(), 32);
}
