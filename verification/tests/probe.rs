use uptimed::probe::{process_url, Alert, DownError, TransportOutcome};
use uptimed::status::HttpStatus;

fn status(code: u16) -> HttpStatus {
    HttpStatus::new(code).unwrap()
}

#[test]
fn status_codes_run_from_100_to_999() {
    assert!(HttpStatus::new(0).is_none());
    assert!(HttpStatus::new(99).is_none());
    assert!(HttpStatus::new(1000).is_none());
    assert!(HttpStatus::new(u16::MAX).is_none());
    assert_eq!(HttpStatus::new(100).unwrap().code(), 100);
    assert_eq!(HttpStatus::new(999).unwrap().code(), 999);
    assert_eq!(HttpStatus::new(404).unwrap().code(), 404);
}

#[test]
fn success_is_a_code_from_200_to_299() {
    assert!(!status(100).is_success());
    assert!(!status(199).is_success());
    assert!(status(200).is_success());
    assert!(status(204).is_success());
    assert!(status(299).is_success());
    assert!(!status(300).is_success());
    assert!(!status(404).is_success());
    assert!(!status(503).is_success());
    assert!(!status(999).is_success());
}

#[test]
fn not_found_is_404() {
    assert_eq!(HttpStatus::not_found().code(), 404);
    assert_eq!(HttpStatus::not_found(), status(404));
}

#[test]
fn status_text_is_the_code_and_its_name() {
    assert_eq!(status(200).text(), "200 OK");
    assert_eq!(status(404).text(), "404 Not Found");
    assert_eq!(status(503).text(), "503 Service Unavailable");
    assert_eq!(status(799).text(), "799 <unknown status code>");
}

#[test]
fn status_text_begins_with_the_code() {
    for code in 100..=999u16 {
        let text = status(code).text();
        assert!(text.starts_with(&format!("{} ", code)));
    }
}

#[test]
fn a_response_with_200_is_a_success() {
    let verdict = process_url(
        String::from("https://example.org"),
        TransportOutcome::Response(status(200)),
    );
    assert_eq!(verdict, Ok(()));
}

#[test]
fn a_response_with_503_is_a_failure_with_that_code() {
    let verdict = process_url(
        String::from("https://example.org"),
        TransportOutcome::Response(status(503)),
    );
    assert_eq!(
        verdict,
        Err(DownError { url: String::from("https://example.org"), code: status(503) })
    );
}

#[test]
fn a_redirect_that_was_not_followed_is_a_failure() {
    let verdict = process_url(String::from("u"), TransportOutcome::Response(status(301)));
    assert_eq!(verdict, Err(DownError { url: String::from("u"), code: status(301) }));
}

#[test]
fn a_transport_error_without_status_counts_as_not_found() {
    let verdict = process_url(String::from("http://nowhere"), TransportOutcome::Error(None));
    assert_eq!(
        verdict,
        Err(DownError { url: String::from("http://nowhere"), code: status(404) })
    );
}

#[test]
fn a_transport_error_keeps_the_status_it_names() {
    let verdict =
        process_url(String::from("http://x"), TransportOutcome::Error(Some(status(500))));
    assert_eq!(verdict, Err(DownError { url: String::from("http://x"), code: status(500) }));
    let verdict =
        process_url(String::from("http://x"), TransportOutcome::Error(Some(status(200))));
    assert_eq!(verdict, Err(DownError { url: String::from("http://x"), code: status(200) }));
}

#[test]
fn a_failure_describes_itself() {
    let down = DownError { url: String::from("https://example.org/a"), code: status(503) };
    assert_eq!(
        down.message(),
        "Error downloading https://example.org/a: status code 503 Service Unavailable"
    );
}

#[test]
fn an_alert_names_the_target_and_the_status() {
    let down = DownError { url: String::from("https://example.org/a"), code: status(503) };
    assert_eq!(
        down.alert(),
        Alert {
            summary: String::from("https://example.org/a is down!"),
            body: String::from("Responded with status code: 503 Service Unavailable"),
        }
    );
    let down = DownError { url: String::new(), code: status(404) };
    assert_eq!(
        down.alert(),
        Alert {
            summary: String::from(" is down!"),
            body: String::from("Responded with status code: 404 Not Found"),
        }
    );
}
