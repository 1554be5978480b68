use apodex::client::ClientError;
use apodex::date::ApodDate;
use apodex::media::decode_blob;
use apodex::media::encode_blob;
use apodex::media::fetcher::ApodMedia;
use apodex::media::fetcher::MediaStep;
use apodex::media::fetcher::TextureAnswer;
use apodex::media::fetcher::TextureStep;
use apodex::media::handles::HandleCache;
use apodex::media::store_key;
use apodex::media::BlobError;
use apodex::media::MediaEntry;
use apodex::media::MediaType;
use apodex::parsing::media_url::MediaUrl;
use apodex::ApodEntry;

fn entry(day: i32) -> ApodEntry {
    ApodEntry {
        date: ApodDate(day),
        title: format!("title {}", day),
        explanation: String::new(),
        media: MediaUrl { url: Some(format!("https://x/{}.png", day)), hd_url: None },
    }
}

#[test]
fn a_blob_decodes_to_what_was_stored() {
    let bytes: Vec<u8> = (0..=255u8).cycle().take(5000).collect();
    let stored = encode_blob(&bytes, MediaType::ImagePNG);
    assert_ne!(stored, bytes);
    let back = decode_blob(&stored).unwrap();
    assert_eq!(back.media_type, MediaType::ImagePNG);
    assert_eq!(back.data, bytes);
}

#[test]
fn an_empty_blob_round_trips() {
    let back = decode_blob(&encode_blob(&[], MediaType::ImagePNG)).unwrap();
    assert_eq!(back.media_type, MediaType::ImagePNG);
    assert!(back.data.is_empty());
}

#[test]
fn bytes_that_hold_no_blob() {
    assert!(matches!(decode_blob(&[]), Err(BlobError::Codec(_))));
    assert!(matches!(decode_blob(&[1, 2, 3, 4, 5, 6, 7]), Err(BlobError::Codec(_))));
    let unknown = bitcode::encode(&(7u8, vec![1u8, 2, 3]));
    assert!(matches!(decode_blob(&unknown), Err(BlobError::UnknownKind(7))));
}

#[test]
fn kinds_and_tags() {
    assert_eq!(MediaType::ImagePNG.tag(), 0);
    assert_eq!(MediaType::from_tag(0), Some(MediaType::ImagePNG));
    assert_eq!(MediaType::from_tag(1), None);
    assert_eq!(store_key(ApodDate(77)), 77);
    assert_eq!(store_key(ApodDate(-1)), -1);
}

#[test]
fn handles_are_kept_and_found() {
    let mut cache = HandleCache::new(3);
    assert_eq!(cache.len(), 0);
    assert_eq!(cache.get(ApodDate(1)), None);
    assert_eq!(cache.put(ApodDate(1), 11), None);
    assert_eq!(cache.put(ApodDate(2), 22), None);
    assert_eq!(cache.len(), 2);
    assert!(cache.contains(ApodDate(1)));
    assert!(!cache.contains(ApodDate(3)));
    assert_eq!(cache.get(ApodDate(1)), Some(11));
    assert_eq!(cache.get(ApodDate(2)), Some(22));
}

#[test]
fn a_new_handle_for_a_day_takes_the_place_of_the_old() {
    let mut cache = HandleCache::new(2);
    cache.put(ApodDate(1), 11);
    assert_eq!(cache.put(ApodDate(1), 12), Some((ApodDate(1), 11)));
    assert_eq!(cache.len(), 1);
    assert_eq!(cache.get(ApodDate(1)), Some(12));
}

#[test]
fn a_full_cache_lets_go_of_the_handle_used_longest_ago() {
    let mut cache = HandleCache::new(2);
    cache.put(ApodDate(1), 11);
    cache.put(ApodDate(2), 22);
    assert_eq!(cache.put(ApodDate(3), 33), Some((ApodDate(1), 11)));
    assert_eq!(cache.len(), 2);
    assert!(!cache.contains(ApodDate(1)));
    assert_eq!(cache.get(ApodDate(2)), Some(22));
    assert_eq!(cache.put(ApodDate(4), 44), Some((ApodDate(3), 33)));
    assert!(cache.contains(ApodDate(2)));
    assert!(cache.contains(ApodDate(4)));
}

#[test]
fn getting_counts_as_use_and_looking_does_not() {
    let mut cache = HandleCache::new(2);
    cache.put(ApodDate(1), 11);
    cache.put(ApodDate(2), 22);
    assert!(cache.contains(ApodDate(1)));
    assert_eq!(cache.put(ApodDate(3), 33), Some((ApodDate(1), 11)));

    let mut cache = HandleCache::new(2);
    cache.put(ApodDate(1), 11);
    cache.put(ApodDate(2), 22);
    assert_eq!(cache.get(ApodDate(1)), Some(11));
    assert_eq!(cache.put(ApodDate(3), 33), Some((ApodDate(2), 22)));
}

#[test]
fn the_cache_never_holds_more_than_its_capacity() {
    let mut cache = HandleCache::new(100);
    for day in 0..1000 {
        cache.put(ApodDate(day), day as u64);
        assert!(cache.len() <= 100);
    }
    assert_eq!(cache.len(), 100);
    assert!(!cache.contains(ApodDate(899)));
    assert!(cache.contains(ApodDate(900)));
    let mut one = HandleCache::new(1);
    one.put(ApodDate(1), 1);
    assert_eq!(one.put(ApodDate(2), 2), Some((ApodDate(1), 1)));
    assert_eq!(one.len(), 1);
}

#[test]
fn media_fetching_starts_idle() {
    let mut media = ApodMedia::new();
    assert!(!media.is_busy());
    assert_eq!(media.status(), None);
    assert_eq!(media.queue_len(), 0);
    assert!(matches!(media.update(), MediaStep::Idle));
    assert_eq!(media.get_texture(ApodDate(1)), None);
}

#[test]
fn a_request_is_queued_once() {
    let mut media = ApodMedia::with_capacity(4);
    assert!(media.request(&entry(1)));
    assert!(!media.request(&entry(1)));
    assert!(media.request(&entry(2)));
    assert_eq!(media.queue_len(), 2);
    let step = media.update();
    let ticket = match step {
        MediaStep::Fetch { ticket, entry: e } => {
            assert!(e.same_as(&entry(1)));
            ticket
        }
        _ => panic!("a fetch should begin"),
    };
    assert!(media.is_busy());
    assert_eq!(media.queue_len(), 1);
    assert!(!media.request(&entry(1)));
    assert!(matches!(media.update(), MediaStep::Waiting));
    assert!(media.set_status(ticket, "Fetching media for 1995-06-17".to_string()));
    assert_eq!(media.status(), Some("Fetching media for 1995-06-17".to_string()));
}

#[test]
fn fetched_media_is_handed_out_once() {
    let mut media = ApodMedia::with_capacity(4);
    media.request(&entry(1));
    media.request(&entry(2));
    let ticket = match media.update() {
        MediaStep::Fetch { ticket, .. } => ticket,
        _ => panic!("a fetch should begin"),
    };
    let blob = MediaEntry { media_type: MediaType::ImagePNG, data: vec![1, 2, 3] };
    assert!(!media.complete(ticket.wrapping_add(1), Ok(None)));
    assert!(media.complete(ticket, Ok(Some(blob))));
    assert!(!media.complete(ticket, Ok(None)));
    match media.update() {
        MediaStep::Fetched { date, media: got } => {
            assert_eq!(date, ApodDate(1));
            assert_eq!(got.data, vec![1, 2, 3]);
        }
        _ => panic!("the media should be handed out"),
    }
    assert!(!media.is_busy());
    assert_eq!(media.keep_texture(ApodDate(1), 500), None);
    assert_eq!(media.get_texture(ApodDate(1)), Some(500));
    assert!(media.request(&entry(1)));
    match media.update() {
        MediaStep::Fetch { entry: e, .. } => assert_eq!(e.date, ApodDate(2)),
        _ => panic!("the next fetch should begin"),
    }
}

#[test]
fn media_that_is_absent_or_fails() {
    let mut media = ApodMedia::with_capacity(4);
    media.request(&entry(8));
    let ticket = match media.update() {
        MediaStep::Fetch { ticket, .. } => ticket,
        _ => panic!("a fetch should begin"),
    };
    media.complete(ticket, Ok(None));
    assert!(matches!(media.update(), MediaStep::NotFound { date } if date == ApodDate(8)));
    assert!(matches!(media.update(), MediaStep::Idle));

    media.request(&entry(9));
    let ticket = match media.update() {
        MediaStep::Fetch { ticket, .. } => ticket,
        _ => panic!("a fetch should begin"),
    };
    let error = ClientError::Fetch { source: "timed out".to_string(), url: "https://x/9.png".to_string() };
    media.complete(ticket, Err(error));
    match media.update() {
        MediaStep::Failed { date, error } => {
            assert_eq!(date, ApodDate(9));
            assert_eq!(error.message(), "Failed to fetch URL 'https://x/9.png': timed out");
        }
        _ => panic!("the failure should be handed out"),
    }
    assert!(!media.is_busy());
}

#[test]
fn the_volatile_tier_is_asked_before_the_store() {
    let mut media = ApodMedia::with_capacity(2);
    assert_eq!(media.find_texture(ApodDate(1)), TextureStep::AskStore);
    assert_eq!(
        media.store_answered(&entry(1), Some(70)),
        TextureAnswer::Show { handle: 70, displaced: None }
    );
    assert_eq!(media.find_texture(ApodDate(1)), TextureStep::Show(70));
    assert_eq!(media.queue_len(), 0);
}

#[test]
fn media_that_the_store_lacks_is_queued_once() {
    let mut media = ApodMedia::with_capacity(2);
    assert_eq!(media.find_texture(ApodDate(5)), TextureStep::AskStore);
    assert_eq!(media.store_answered(&entry(5), None), TextureAnswer::Wait { queued: true });
    assert_eq!(media.store_answered(&entry(5), None), TextureAnswer::Wait { queued: false });
    assert_eq!(media.queue_len(), 1);
    assert_eq!(media.find_texture(ApodDate(5)), TextureStep::AskStore);
}

#[test]
fn a_handle_from_the_store_may_push_out_another() {
    let mut media = ApodMedia::with_capacity(2);
    media.store_answered(&entry(1), Some(10));
    media.store_answered(&entry(2), Some(20));
    assert_eq!(media.find_texture(ApodDate(1)), TextureStep::Show(10));
    assert_eq!(
        media.store_answered(&entry(3), Some(30)),
        TextureAnswer::Show { handle: 30, displaced: Some((ApodDate(2), 20)) }
    );
    assert_eq!(media.find_texture(ApodDate(2)), TextureStep::AskStore);
    assert_eq!(media.find_texture(ApodDate(3)), TextureStep::Show(30));
}

#[test]
fn a_lost_media_fetch_lets_the_entry_be_asked_for_again() {
    let mut media = ApodMedia::with_capacity(2);
    media.request(&entry(4));
    media.request(&entry(6));
    let ticket = match media.update() {
        MediaStep::Fetch { ticket, .. } => ticket,
        _ => panic!("a fetch should begin"),
    };
    assert!(!media.request(&entry(4)));
    assert!(!media.lose(ticket.wrapping_add(1)));
    assert!(media.lose(ticket));
    assert!(!media.is_busy());
    assert_eq!(media.queue_len(), 1);
    assert!(!media.complete(ticket, Ok(None)));
    assert!(media.request(&entry(4)));
    assert!(matches!(media.update(), MediaStep::Fetch { entry: e, .. } if e.date == ApodDate(6)));
}
