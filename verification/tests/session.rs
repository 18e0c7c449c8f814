use instant_meet::error::ApiError;
use instant_meet::event::{new_event, Timestamp};
use instant_meet::session::{
    authorization_header, create_call, create_call_to, delete_call, delete_call_to,
    interpret_create, interpret_delete, path_segment, segment_char, status_is_success, Call,
    CreateEventResponse, Method,
    AUTHORIZATION, CALENDAR_API_URL,
};

fn response(id: &str, link: &str) -> CreateEventResponse {
    CreateEventResponse { id: String::from(id), link: String::from(link) }
}

#[test]
fn authorization_is_bearer_and_token() {
    assert_eq!(authorization_header("abc"), "Bearer abc");
    assert_eq!(authorization_header(""), "Bearer ");
    assert_eq!(authorization_header("ya29.a0 x"), "Bearer ya29.a0 x");
}

#[test]
fn create_call_posts_to_events_with_conference_version() {
    let event = new_event(5, Timestamp { secs: 0, nanos: 0 }).unwrap();
    let call = create_call(event.clone(), "tok").unwrap();
    assert_eq!(
        call.url,
        "https://www.googleapis.com/calendar/v3/calendars/primary/events/?conferenceDataVersion=1"
    );
    assert_eq!(call.authorization, "Bearer tok");
    assert_eq!(call.method, Method::Post);
    assert_eq!(call.body, Some(event));
    assert_eq!(AUTHORIZATION, "Authorization");
}

#[test]
fn create_call_url_is_that_of_the_url_parser() {
    let event = new_event(5, Timestamp { secs: 0, nanos: 0 }).unwrap();
    let call = create_call(event, "tok").unwrap();
    let url =
        reqwest::Url::parse_with_params(CALENDAR_API_URL, &[("conferenceDataVersion", "1")]).unwrap();
    assert_eq!(call.url, url.as_str());
}

#[test]
fn delete_call_addresses_the_event() {
    let call = delete_call("abc", "tok").unwrap();
    assert_eq!(call.url, "https://www.googleapis.com/calendar/v3/calendars/primary/events/abc");
    assert_eq!(call.authorization, "Bearer tok");
    assert_eq!(call.method, Method::Delete);
    assert_eq!(call.body, None);
}

#[test]
fn delete_call_address_is_that_of_the_url_parser() {
    let base = reqwest::Url::parse(CALENDAR_API_URL).unwrap();
    for id in [
        "abc",
        "0123456789abcdefghijklmnopqrstuv",
        "_under-score",
        "abc_20240101T000000Z",
        "a.b",
        "...",
        ".a",
        "a@b",
        "\u{00E9}v\u{00E9}nement",
    ] {
        let call = delete_call(id, "t").unwrap();
        assert_eq!(call.url, base.join(id).unwrap().as_str());
        assert!(call.url.starts_with(CALENDAR_API_URL));
        assert!(!call.url[CALENDAR_API_URL.len()..].contains('/'));
    }
    assert_eq!(
        delete_call("\u{00E9}", "t").unwrap().url,
        "https://www.googleapis.com/calendar/v3/calendars/primary/events/%C3%A9"
    );
}

#[test]
fn delete_call_refuses_what_is_no_single_path_segment() {
    for id in [
        "",
        ".",
        "..",
        "../x",
        "x/y",
        "/x",
        "x/",
        "x\\y",
        "?q",
        "x?q=1",
        "#f",
        "x#f",
        "https://h/",
        "http://[",
        "https://:80",
        "//host/path",
        "mailto:x",
        "x:y",
        "%2e%2e",
        "a%2Fb",
        "a b",
        " abc",
        "abc ",
        "a\tb",
        "abc\n",
        "\u{0000}",
        "a\u{007F}",
    ] {
        assert_eq!(delete_call(id, "t"), Err(ApiError::InvalidUrl), "{:?}", id);
    }
}

#[test]
fn path_segments() {
    assert!(path_segment("abc"));
    assert!(path_segment("..."));
    assert!(path_segment("a.b"));
    assert!(path_segment(".a"));
    assert!(path_segment("\u{00A0}"));
    assert!(!path_segment(""));
    assert!(!path_segment("."));
    assert!(!path_segment(".."));
    assert!(!path_segment("a/b"));
    assert!(!path_segment(" "));
    for c in ['/', '\\', '?', '#', ':', '%', ' ', '\u{0000}', '\u{001F}', '\u{007F}', '\t', '\n', '\r'] {
        assert!(!segment_char(c), "{:?}", c);
        assert!(!path_segment(&format!("a{}b", c)), "{:?}", c);
    }
    for c in ['a', 'Z', '0', '_', '-', '.', '~', '@', '!', '\u{007E}', '\u{0080}', '\u{00E9}'] {
        assert!(segment_char(c), "{:?}", c);
        assert!(path_segment(&format!("a{}b", c)), "{:?}", c);
    }
}

#[test]
fn calls_to_a_given_address() {
    let event = new_event(9, Timestamp { secs: 0, nanos: 0 }).unwrap();
    let call = create_call_to(Some(String::from("https://example.test/")), event.clone(), "k").unwrap();
    assert_eq!(call.url, "https://example.test/");
    assert_eq!(call.authorization, "Bearer k");
    assert_eq!(call.method, Method::Post);
    assert_eq!(call.body, Some(event.clone()));
    assert_eq!(create_call_to(None, event, "k"), Err(ApiError::InvalidUrl));
    assert_eq!(
        delete_call_to(Some(String::from("https://example.test/e")), "k"),
        Ok(Call {
            method: Method::Delete,
            url: String::from("https://example.test/e"),
            authorization: String::from("Bearer k"),
            body: None,
        })
    );
    assert_eq!(delete_call_to(None, "k"), Err(ApiError::InvalidUrl));
}

#[test]
fn success_is_two_hundred_to_two_ninety_nine() {
    assert!(!status_is_success(0));
    assert!(!status_is_success(199));
    assert!(status_is_success(200));
    assert!(status_is_success(204));
    assert!(status_is_success(299));
    assert!(!status_is_success(300));
    assert!(!status_is_success(403));
    assert!(!status_is_success(u16::MAX));
    for code in 100u16..1000 {
        let status = reqwest::StatusCode::from_u16(code).unwrap();
        assert_eq!(status_is_success(code), status.is_success());
    }
}

#[test]
fn create_answer_with_success_and_body_is_the_response() {
    assert_eq!(
        interpret_create(200, Some(response("abc", "https://meet.example/xyz"))),
        Ok(response("abc", "https://meet.example/xyz"))
    );
    assert_eq!(interpret_create(201, Some(response("", ""))), Ok(response("", "")));
}

#[test]
fn create_answer_without_success_is_a_status_error() {
    assert_eq!(interpret_create(403, None), Err(ApiError::Status(403)));
    assert_eq!(interpret_create(403, Some(response("abc", "l"))), Err(ApiError::Status(403)));
    assert_eq!(interpret_create(500, None), Err(ApiError::Status(500)));
    assert_eq!(interpret_create(199, Some(response("abc", "l"))), Err(ApiError::Status(199)));
    assert_eq!(interpret_create(300, Some(response("abc", "l"))), Err(ApiError::Status(300)));
}

#[test]
fn create_answer_with_success_but_no_body_is_malformed() {
    assert_eq!(interpret_create(200, None), Err(ApiError::MalformedBody));
    assert_eq!(interpret_create(299, None), Err(ApiError::MalformedBody));
}

#[test]
fn delete_answer() {
    assert_eq!(interpret_delete(204), Ok(()));
    assert_eq!(interpret_delete(200), Ok(()));
    assert_eq!(interpret_delete(404), Err(ApiError::Status(404)));
    assert_eq!(interpret_delete(410), Err(ApiError::Status(410)));
    assert_eq!(interpret_delete(199), Err(ApiError::Status(199)));
    assert_eq!(interpret_delete(300), Err(ApiError::Status(300)));
}
