use climb_visitor_scraper::fetch::{into_page, site_url, FetchError, FetchOutcome, BASE_URL};

#[test]
fn the_address_is_the_base_with_the_token_behind_it() {
    assert_eq!(
        site_url(BASE_URL, "abc123"),
        "https://www.boulderado.de/boulderadoweb/gym-clientcounter/index.php?mode=get&token=abc123"
    );
    assert_eq!(site_url("http://localhost/?token=", "a b&c"), "http://localhost/?token=a b&c");
    assert_eq!(site_url("", ""), "");
}

#[test]
fn a_successful_answer_carries_its_page() {
    let outcome = FetchOutcome::Answered { status: 200, body: Some("<p>7</p>".to_string()) };
    assert_eq!(into_page(outcome), Ok("<p>7</p>".to_string()));
    let outcome = FetchOutcome::Answered { status: 299, body: Some(String::new()) };
    assert_eq!(into_page(outcome), Ok(String::new()));
}

#[test]
fn a_request_without_an_answer_is_a_network_failure() {
    assert_eq!(into_page(FetchOutcome::Unreachable), Err(FetchError::Network));
}

#[test]
fn a_status_that_is_no_success_is_a_failure() {
    for status in [0, 100, 199, 300, 301, 404, 500, 503, u16::MAX] {
        let outcome = FetchOutcome::Answered { status, body: Some("<p>7</p>".to_string()) };
        assert_eq!(into_page(outcome), Err(FetchError::Status(status)));
    }
    let outcome = FetchOutcome::Answered { status: 404, body: None };
    assert_eq!(into_page(outcome), Err(FetchError::Status(404)));
}

#[test]
fn a_body_that_is_no_text_is_a_failure() {
    let outcome = FetchOutcome::Answered { status: 200, body: None };
    assert_eq!(into_page(outcome), Err(FetchError::Undecodable));
}
