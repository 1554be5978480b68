use apodex::client::fetch_media_result;
use apodex::client::fetch_page_result;
use apodex::client::interpret_response;
use apodex::client::media_request;
use apodex::client::page_request;
use apodex::client::user_agent;
use apodex::client::wants_body;
use apodex::client::ClientError;
use apodex::client::RATE_LIMIT_CAPACITY;
use apodex::client::RATE_LIMIT_INTERVAL_SECS;
use apodex::client::RATE_LIMIT_REFILL;
use apodex::date::ApodDate;
use apodex::media::MediaType;
use apodex::parsing::media_url::MediaUrl;
use apodex::ApodEntry;

#[test]
fn a_page_that_does_not_exist_is_no_failure() {
    assert_eq!(interpret_response(404, b"not here".to_vec()), Ok(None));
    let page = fetch_page_result("u".to_string(), interpret_response(404, vec![]).map_err(|s| s.to_string()));
    assert!(matches!(page, Ok(None)));
}

#[test]
fn success_is_a_status_from_200_to_299() {
    assert_eq!(interpret_response(200, vec![1, 2]), Ok(Some(vec![1, 2])));
    assert_eq!(interpret_response(204, vec![]), Ok(Some(vec![])));
    assert_eq!(interpret_response(299, vec![7]), Ok(Some(vec![7])));
}

#[test]
fn any_other_status_is_a_failure() {
    for status in [100, 199, 300, 301, 400, 403, 405, 500, 503, 599, 600, 0, u16::MAX] {
        assert_eq!(interpret_response(status, vec![1]), Err(status));
    }
}

#[test]
fn the_address_of_a_page() {
    assert_eq!(page_request(ApodDate(199)), Some("https://apod.nasa.gov/apod/ap960101.html".to_string()));
    assert_eq!(page_request(ApodDate(i32::MIN)), None);
}

#[test]
fn the_text_of_a_page() {
    let page = fetch_page_result("u".to_string(), Ok(Some("<p>gr\u{fc}n</p>".as_bytes().to_vec())));
    assert_eq!(page.unwrap(), Some("<p>gr\u{fc}n</p>".to_string()));
    let latin = fetch_page_result("u".to_string(), Ok(Some(vec![b'g', b'r', 0xfc, b'n'])));
    assert_eq!(latin.unwrap(), Some("gr\u{fffd}n".to_string()));
}

#[test]
fn a_transport_failure_names_the_address() {
    let failed = fetch_page_result("https://x/ap.html".to_string(), Err("connection reset".to_string()));
    match failed {
        Err(ClientError::Fetch { source, url }) => {
            assert_eq!(source, "connection reset");
            assert_eq!(url, "https://x/ap.html");
        }
        _ => panic!("the failure should be passed on"),
    }
    let error = ClientError::Fetch { source: "s".to_string(), url: "u".to_string() };
    assert_eq!(error.message(), "Failed to fetch URL 'u': s");
}

#[test]
fn the_address_of_an_entry_s_media() {
    let mut entry = ApodEntry {
        date: ApodDate(1),
        title: String::new(),
        explanation: String::new(),
        media: MediaUrl { url: Some("small".to_string()), hd_url: Some("big".to_string()) },
    };
    assert_eq!(media_request(&entry), Some("big".to_string()));
    entry.media.hd_url = None;
    assert_eq!(media_request(&entry), Some("small".to_string()));
    entry.media.url = None;
    assert_eq!(media_request(&entry), None);
}

#[test]
fn the_media_of_an_entry() {
    let media = fetch_media_result("u".to_string(), Ok(Some(vec![9, 8, 7]))).unwrap().unwrap();
    assert_eq!(media.media_type, MediaType::ImagePNG);
    assert_eq!(media.data, vec![9, 8, 7]);
    assert!(matches!(fetch_media_result("u".to_string(), Ok(None)), Ok(None)));
    assert!(matches!(fetch_media_result("u".to_string(), Err("e".to_string())), Err(_)));
}

#[test]
fn the_name_of_the_client_and_its_pace() {
    assert_eq!(user_agent("0.1.0"), "apodex/0.1.0 (APOD archiving tool)");
    assert_eq!(RATE_LIMIT_CAPACITY, 1);
    assert_eq!(RATE_LIMIT_REFILL, 1);
    assert_eq!(RATE_LIMIT_INTERVAL_SECS, 2);
}

#[test]
fn only_the_body_of_a_success_is_read() {
    assert!(wants_body(200));
    assert!(wants_body(299));
    assert!(!wants_body(199));
    assert!(!wants_body(300));
    assert!(!wants_body(404));
    assert!(!wants_body(500));
}
