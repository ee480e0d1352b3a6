use chan_image_save::{img_path_2_url, validate_url, UrlError};

#[test]
fn validate_accepts_http_and_https() {
    let u = validate_url("http://chan.org/b/thread/1").unwrap();
    assert_eq!(u.scheme, "http");
    assert_eq!(u.segments, vec!["b".to_string(), "thread".to_string(), "1".to_string()]);
    let u = validate_url("https://chan.org/b/thread/1").unwrap();
    assert_eq!(u.scheme, "https");
    assert_eq!(u.as_str(), "https://chan.org/b/thread/1");
}

#[test]
fn validate_reads_scheme_in_lower_case() {
    let u = validate_url("HTTPS://chan.org/b/thread/1").unwrap();
    assert_eq!(u.scheme, "https");
    assert_eq!(u.as_str(), "https://chan.org/b/thread/1");
}

#[test]
fn validate_refuses_ftp() {
    assert_eq!(validate_url("ftp://chan.org/b/thread/1").err(), Some(UrlError::UnsupportedScheme));
}

#[test]
fn validate_refuses_other_schemes() {
    assert_eq!(validate_url("mailto:someone@chan.org").err(), Some(UrlError::UnsupportedScheme));
    assert_eq!(validate_url("data:text/plain,hi").err(), Some(UrlError::UnsupportedScheme));
}

#[test]
fn validate_refuses_unparseable() {
    assert_eq!(validate_url("not a url").err(), Some(UrlError::Unparseable));
    assert_eq!(validate_url("").err(), Some(UrlError::Unparseable));
    assert_eq!(validate_url("//chan.org/b/1").err(), Some(UrlError::Unparseable));
}

#[test]
fn image_path_gets_https_prefix() {
    let u = img_path_2_url("//i.4cdn.org/b/1.jpg").unwrap();
    assert_eq!(u.as_str(), "https://i.4cdn.org/b/1.jpg");
    assert_eq!(u.scheme, "https");
    assert_eq!(u.segments, vec!["b".to_string(), "1.jpg".to_string()]);
}

#[test]
fn image_path_of_bare_host_has_empty_segment() {
    let u = img_path_2_url("//i.4cdn.org").unwrap();
    assert_eq!(u.as_str(), "https://i.4cdn.org/");
    assert_eq!(u.segments, vec!["".to_string()]);
}

#[test]
fn image_path_that_makes_no_url() {
    assert_eq!(img_path_2_url("//").err(), Some(UrlError::Unparseable));
}

