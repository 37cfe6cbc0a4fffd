use http::HeaderMap;
use izanami::head::{format_decimal, synthesize_headers, DATE_LIMIT};

fn value_of(headers: &HeaderMap, name: &str) -> Option<Vec<u8>> {
    headers.get(name).map(|v| v.as_bytes().to_vec())
}

#[test]
fn decimal_of_zero_is_one_digit() {
    assert_eq!(format_decimal(0), b"0".to_vec());
}

#[test]
fn decimal_of_small_and_large_numbers() {
    assert_eq!(format_decimal(7), b"7".to_vec());
    assert_eq!(format_decimal(10), b"10".to_vec());
    assert_eq!(format_decimal(42), b"42".to_vec());
    assert_eq!(format_decimal(1000), b"1000".to_vec());
    assert_eq!(format_decimal(u64::MAX), b"18446744073709551615".to_vec());
}

#[test]
fn date_is_added_as_imf_fixdate() {
    let mut headers = HeaderMap::new();
    assert!(synthesize_headers(&mut headers, 784111777, None).is_ok());
    assert_eq!(
        value_of(&headers, "date"),
        Some(b"Sun, 06 Nov 1994 08:49:37 GMT".to_vec())
    );
    assert_eq!(headers.len(), 1);
}

#[test]
fn date_of_the_epoch() {
    let mut headers = HeaderMap::new();
    assert!(synthesize_headers(&mut headers, 0, None).is_ok());
    assert_eq!(
        value_of(&headers, "date"),
        Some(b"Thu, 01 Jan 1970 00:00:00 GMT".to_vec())
    );
}

#[test]
fn date_just_below_the_limit() {
    let mut headers = HeaderMap::new();
    assert!(synthesize_headers(&mut headers, DATE_LIMIT - 1, None).is_ok());
    assert_eq!(
        value_of(&headers, "date"),
        Some(b"Fri, 31 Dec 9999 23:59:59 GMT".to_vec())
    );
}

#[test]
fn date_parses_back_to_the_instant() {
    let now: u64 = 1_475_419_451;
    let mut headers = HeaderMap::new();
    assert!(synthesize_headers(&mut headers, now, None).is_ok());
    let text = String::from_utf8(value_of(&headers, "date").unwrap()).unwrap();
    let parsed = httpdate::parse_http_date(&text).unwrap();
    let secs = parsed
        .duration_since(std::time::UNIX_EPOCH)
        .unwrap()
        .as_secs();
    assert_eq!(secs, now);
}

#[test]
fn content_length_is_added_when_known() {
    let mut headers = HeaderMap::new();
    assert!(synthesize_headers(&mut headers, 784111777, Some(5)).is_ok());
    assert_eq!(value_of(&headers, "content-length"), Some(b"5".to_vec()));
    assert!(headers.contains_key("date"));
    assert_eq!(headers.len(), 2);
}

#[test]
fn content_length_is_left_out_when_unknown() {
    let mut headers = HeaderMap::new();
    assert!(synthesize_headers(&mut headers, 784111777, None).is_ok());
    assert!(!headers.contains_key("content-length"));
}

#[test]
fn fields_of_the_application_are_kept() {
    let mut headers = HeaderMap::new();
    headers.insert("date", "Thu, 01 Jan 1970 00:00:00 GMT".parse().unwrap());
    headers.insert("content-length", "99".parse().unwrap());
    headers.insert("x-kept", "yes".parse().unwrap());
    assert!(synthesize_headers(&mut headers, 784111777, Some(5)).is_ok());
    assert_eq!(
        value_of(&headers, "date"),
        Some(b"Thu, 01 Jan 1970 00:00:00 GMT".to_vec())
    );
    assert_eq!(value_of(&headers, "content-length"), Some(b"99".to_vec()));
    assert_eq!(value_of(&headers, "x-kept"), Some(b"yes".to_vec()));
    assert_eq!(headers.len(), 3);
}

#[test]
fn field_names_are_found_whatever_their_case_was() {
    let mut headers = HeaderMap::new();
    headers.insert(http::header::DATE, "then".parse().unwrap());
    assert!(synthesize_headers(&mut headers, 784111777, None).is_ok());
    assert_eq!(value_of(&headers, "date"), Some(b"then".to_vec()));
    assert_eq!(headers.get_all("date").iter().count(), 1);
}

#[test]
fn full_header_map_refuses_the_added_fields() {
    let mut headers = HeaderMap::new();
    let mut count: usize = 0;
    loop {
        let name = http::header::HeaderName::from_bytes(format!("x-{}", count).as_bytes()).unwrap();
        match headers.try_insert(name, http::HeaderValue::from_static("v")) {
            Ok(_) => count += 1,
            Err(_) => break,
        }
        assert!(count < 100_000);
    }
    assert_eq!(headers.len(), count);
    assert_eq!(
        synthesize_headers(&mut headers, 784111777, Some(5)),
        Err(izanami::head::HeadError::TooManyFields)
    );
    assert_eq!(headers.len(), count);
    assert!(!headers.contains_key("date"));
    assert!(!headers.contains_key("content-length"));
}

#[test]
fn date_is_within_two_seconds_of_the_clock() {
    let clock = std::time::SystemTime::now();
    let now = clock
        .duration_since(std::time::UNIX_EPOCH)
        .unwrap()
        .as_secs();
    assert!(now < DATE_LIMIT);
    let mut headers = HeaderMap::new();
    assert!(synthesize_headers(&mut headers, now, None).is_ok());
    let text = String::from_utf8(value_of(&headers, "date").unwrap()).unwrap();
    assert_eq!(text.len(), 29);
    let parsed = httpdate::parse_http_date(&text).unwrap();
    let apart = match parsed.duration_since(clock) {
        Ok(ahead) => ahead,
        Err(behind) => behind.duration(),
    };
    assert!(apart.as_secs() < 2);
}
