use rocket_json::status::reason_of;
use rocket_json::{Error, Json};

fn num(t: &str) -> Json {
    Json::Number(t.to_string())
}

fn text(t: &str) -> Json {
    Json::String(t.to_string())
}

fn obj(members: Vec<(&str, Json)>) -> Json {
    Json::Object(members.into_iter().map(|(k, v)| (k.to_string(), v)).collect())
}

#[test]
fn not_found_body_and_status() {
    let e = Error::NotFound();
    assert_eq!(e.code, 404);
    assert_eq!(
        e.body(),
        obj(vec![("status", num("404")), ("reason", text("Not Found"))])
    );
}

#[test]
fn extended_service_unavailable_overrides_reason() {
    let e = Error::ServiceUnavailable().extend(obj(vec![("reason", text("Hello, World!"))]));
    assert_eq!(e.code, 503);
    assert_eq!(
        e.body(),
        obj(vec![("status", num("503")), ("reason", text("Hello, World!"))])
    );
}

#[test]
fn extension_adds_detail_field() {
    let e = Error::ServiceUnavailable().extend(obj(vec![("detail", text("upstream down"))]));
    assert_eq!(
        e.body(),
        obj(vec![
            ("status", num("503")),
            ("reason", text("Service Unavailable")),
            ("detail", text("upstream down"))
        ])
    );
}

#[test]
fn extend_keeps_code_and_reason() {
    let e = Error::new(418, "I'm a teapot");
    let x = Error::new(418, "I'm a teapot").extend(Json::Array(vec![num("1")]));
    assert_eq!(x.code, e.code);
    assert_eq!(x.reason, e.reason);
    assert_eq!(x.data, Some(Json::Array(vec![num("1")])));
    assert_eq!(e.data, None);
}

#[test]
fn extend_replaces_earlier_data() {
    let e = Error::Conflict()
        .extend(obj(vec![("a", num("1"))]))
        .extend(obj(vec![("b", num("2"))]));
    assert_eq!(
        e.body(),
        obj(vec![
            ("status", num("409")),
            ("reason", text("Conflict")),
            ("b", num("2"))
        ])
    );
}

#[test]
fn from_status_supported_codes() {
    let cases: Vec<(u16, &str)> = vec![
        (300, "Multiple Choices"),
        (308, "Permanent Redirect"),
        (400, "Bad Request"),
        (401, "Unauthorized"),
        (403, "Forbidden"),
        (404, "Not Found"),
        (409, "Conflict"),
        (418, "I'm a teapot"),
        (429, "Too Many Requests"),
        (451, "Unavailable For Legal Reasons"),
        (500, "Internal Server Error"),
        (502, "Bad Gateway"),
        (503, "Service Unavailable"),
        (504, "Gateway Timeout"),
        (511, "Network Authentication Required"),
    ];
    for (code, reason) in cases {
        let e = Error::from_status(code).unwrap();
        assert_eq!(e.code, code);
        assert_eq!(e.reason, reason);
        assert_eq!(e.data, None);
        assert_eq!(reason_of(code), Some(reason));
    }
}

#[test]
fn from_status_unsupported_codes() {
    for code in [0u16, 200, 299, 306, 309, 399, 419, 420, 425, 509, 512, 600, 65535] {
        assert!(Error::from_status(code).is_none());
        assert_eq!(reason_of(code), None);
    }
}

#[test]
fn named_errors_match_from_status() {
    assert_eq!(Error::NotFound(), Error::from_status(404).unwrap());
    assert_eq!(Error::ImATeapot(), Error::from_status(418).unwrap());
    assert_eq!(Error::MultipleChoices(), Error::from_status(300).unwrap());
    assert_eq!(
        Error::NetworkAuthenticationRequired(),
        Error::from_status(511).unwrap()
    );
}

#[test]
fn every_supported_code_has_a_reason() {
    let mut n: u32 = 0;
    for code in 0u16..=u16::MAX {
        if let Some(e) = Error::from_status(code) {
            assert_eq!(e.code, code);
            assert!(!e.reason.is_empty());
            n += 1;
        }
    }
    assert_eq!(n, 47);
}

#[test]
fn body_status_is_written_in_decimal() {
    assert_eq!(
        Error::MultipleChoices().body(),
        obj(vec![("status", num("300")), ("reason", text("Multiple Choices"))])
    );
    assert_eq!(
        Error::new(7, "Odd").body(),
        obj(vec![("status", num("7")), ("reason", text("Odd"))])
    );
}

fn handler(fail: bool) -> rocket_json::Result<u32> {
    if fail {
        return Err(Error::ServiceUnavailable());
    }
    Ok(42)
}

#[test]
fn result_alias_carries_the_error() {
    assert_eq!(handler(false), Ok(42));
    let e = handler(true).unwrap_err();
    assert_eq!(e.code, 503);
    assert_eq!(e.reason, "Service Unavailable");
}
