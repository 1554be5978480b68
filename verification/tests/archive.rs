use apodex::archiving::html::ArchiveHtml;
use apodex::archiving::Archive;
use apodex::archiving::ArchiveEntry;
use apodex::archiving::ArchiveError;
use apodex::archiving::FAST_COMPRESSION_LEVEL;
use apodex::archiving::MAX_COMPRESSION_LEVEL;
use apodex::date::ApodDate;
use apodex::parsing::media_url::MediaUrl;
use apodex::ApodEntry;

fn doc(day: i32, html: &str) -> ArchiveHtml {
    ArchiveHtml::new(ApodDate(day), html.to_string())
}

fn entry(day: i32, title: &str) -> ApodEntry {
    ApodEntry {
        date: ApodDate(day),
        title: title.to_string(),
        explanation: format!("about {}", title),
        media: MediaUrl { url: Some(format!("u{}", day)), hd_url: None },
    }
}

fn pairs(archive: &Archive<ArchiveHtml>) -> Vec<(i32, String)> {
    let mut v: Vec<(i32, String)> = archive
        .dates()
        .into_iter()
        .map(|d| (d.days(), archive.get(d).unwrap().html.clone()))
        .collect();
    v.sort();
    v
}

#[test]
fn an_empty_archive() {
    let archive: Archive<ArchiveHtml> = Archive::default();
    assert_eq!(archive.len(), 0);
    assert!(archive.is_empty());
    assert_eq!(archive.latest_date(), None);
    assert!(!archive.has_date(ApodDate(0)));
    assert!(archive.get(ApodDate(0)).is_none());
    assert!(archive.dates().is_empty());
    assert!(archive.values().is_empty());
}

#[test]
fn push_upserts_by_day() {
    let mut archive = Archive::empty();
    archive.push(doc(3, "three"));
    archive.push(doc(1, "one"));
    archive.push(doc(3, "three again"));
    assert_eq!(archive.len(), 2);
    assert!(!archive.is_empty());
    assert!(archive.has_date(ApodDate(3)));
    assert!(!archive.has_date(ApodDate(2)));
    assert_eq!(archive.get(ApodDate(3)).unwrap().html, "three again");
    assert_eq!(archive.get(ApodDate(1)).unwrap().html, "one");
    assert_eq!(archive.get(ApodDate(1)).unwrap().date(), ApodDate(1));
    assert_eq!(archive.latest_date(), Some(ApodDate(3)));
}

#[test]
fn latest_date_is_the_greatest_day() {
    let mut archive = Archive::empty();
    for day in [5, -2, 9000, 17, 8999] {
        archive.push(doc(day, "x"));
    }
    assert_eq!(archive.latest_date(), Some(ApodDate(9000)));
    let negative = Archive::new(vec![doc(-5, "a"), doc(-9, "b")]);
    assert_eq!(negative.latest_date(), Some(ApodDate(-5)));
}

#[test]
fn remove_and_clear() {
    let mut archive = Archive::new(vec![doc(1, "one"), doc(2, "two")]);
    assert_eq!(archive.remove(ApodDate(1)).map(|d| d.html), Some("one".to_string()));
    assert!(archive.remove(ApodDate(1)).is_none());
    assert_eq!(archive.len(), 1);
    archive.clear();
    assert!(archive.is_empty());
    assert_eq!(archive.latest_date(), None);
}

#[test]
fn a_list_with_a_day_twice_keeps_the_later_entry() {
    let archive = Archive::new(vec![doc(1, "first"), doc(2, "two"), doc(1, "second")]);
    assert_eq!(pairs(&archive), vec![(1, "second".to_string()), (2, "two".to_string())]);
}

#[test]
fn dates_and_values_cover_the_archive_once() {
    let archive = Archive::new(vec![doc(4, "d"), doc(2, "b"), doc(7, "g")]);
    let mut dates: Vec<i32> = archive.dates().iter().map(|d| d.days()).collect();
    dates.sort();
    assert_eq!(dates, vec![2, 4, 7]);
    let mut values: Vec<(i32, String)> =
        archive.values().into_iter().map(|v| (v.date.days(), v.html)).collect();
    values.sort();
    assert_eq!(values, pairs(&archive));
    assert_eq!(pairs(&archive.duplicate()), pairs(&archive));
}

#[test]
fn decode_inverts_encode() {
    let archive = Archive::new(vec![doc(0, "<html>zero</html>"), doc(9126, "ü→\u{1F600}"), doc(-3, "")]);
    let bytes = archive.encode();
    assert!(!bytes.is_empty());
    let back: Archive<ArchiveHtml> = Archive::decode(&bytes).unwrap();
    assert_eq!(pairs(&back), pairs(&archive));
    assert_eq!(back.len(), 3);
}

#[test]
fn decode_inverts_encode_whatever_the_order_of_insertion() {
    let mut a = Archive::empty();
    let mut b = Archive::empty();
    for day in 0..200 {
        a.push(doc(day, &format!("page {}", day)));
    }
    for day in (0..200).rev() {
        b.push(doc(day, "stale"));
        b.push(doc(day, &format!("page {}", day)));
    }
    let back_a: Archive<ArchiveHtml> = Archive::decode(&a.encode()).unwrap();
    let back_b: Archive<ArchiveHtml> = Archive::decode(&b.encode()).unwrap();
    assert_eq!(pairs(&back_a), pairs(&a));
    assert_eq!(pairs(&back_b), pairs(&a));
}

#[test]
fn an_empty_archive_round_trips() {
    let archive: Archive<ArchiveHtml> = Archive::empty();
    let back: Archive<ArchiveHtml> = Archive::decode(&archive.encode()).unwrap();
    assert!(back.is_empty());
    let stream = archive.compress(FAST_COMPRESSION_LEVEL).unwrap();
    assert!(Archive::<ArchiveHtml>::decompress(&stream).unwrap().is_empty());
}

#[test]
fn entries_round_trip() {
    let mut with_both = entry(5, "five");
    with_both.media = MediaUrl { url: Some("a".to_string()), hd_url: Some("b".to_string()) };
    let mut with_none = entry(6, "six");
    with_none.media = MediaUrl { url: None, hd_url: None };
    let archive = Archive::new(vec![entry(1, "one"), with_both.clone(), with_none.clone()]);
    let back: Archive<ApodEntry> = Archive::decode(&archive.encode()).unwrap();
    assert_eq!(back.len(), 3);
    assert!(back.get(ApodDate(1)).unwrap().same_as(&entry(1, "one")));
    assert!(back.get(ApodDate(5)).unwrap().same_as(&with_both));
    assert!(back.get(ApodDate(6)).unwrap().same_as(&with_none));
    let stream = archive.compress(3).unwrap();
    let again: Archive<ApodEntry> = Archive::decompress(&stream).unwrap();
    assert!(again.get(ApodDate(5)).unwrap().same_as(&with_both));
}

#[test]
fn decompress_inverts_compress_at_every_level() {
    let mut archive = Archive::empty();
    for day in 0..50 {
        archive.push(doc(day, &"<p>repetitive</p>".repeat(day as usize + 1)));
    }
    for level in [-5, 0, 1, FAST_COMPRESSION_LEVEL, 3, 10, 19, MAX_COMPRESSION_LEVEL] {
        let stream = archive.compress(level).unwrap();
        let back: Archive<ArchiveHtml> = Archive::decompress(&stream).unwrap();
        assert_eq!(pairs(&back), pairs(&archive), "level {}", level);
    }
}

#[test]
fn compressing_makes_repetitive_archives_smaller() {
    let archive = Archive::new(vec![doc(1, &"abc".repeat(10_000))]);
    let plain = archive.encode();
    let stream = archive.compress(MAX_COMPRESSION_LEVEL).unwrap();
    assert!(stream.len() < plain.len() / 10);
    assert_ne!(stream, plain);
}

#[test]
fn bytes_that_hold_no_archive() {
    let garbage = [0xffu8, 0x00, 0x13, 0x37, 0x42];
    assert!(matches!(Archive::<ArchiveHtml>::decode(&garbage), Err(ArchiveError::Codec(_))));
    assert!(matches!(Archive::<ArchiveHtml>::decompress(&garbage), Err(ArchiveError::IO(_))));
    let stream = zstd::encode_all(&garbage[..], 3).unwrap();
    assert!(matches!(Archive::<ArchiveHtml>::decompress(&stream), Err(ArchiveError::Codec(_))));
}

#[test]
fn an_archive_of_one_kind_is_no_archive_of_the_other() {
    let entries = Archive::new(vec![entry(1, "one"), entry(2, "two")]);
    let bytes = entries.encode();
    assert!(Archive::<ArchiveHtml>::decode(&bytes).is_err());
}

#[test]
fn lists_encode_and_decode() {
    let list = vec![doc(2, "b"), doc(1, "a"), doc(2, "c")];
    let bytes = ArchiveHtml::encode_list(&list);
    let back = ArchiveHtml::decode_list(&bytes).unwrap();
    let seen: Vec<(i32, String)> = back.into_iter().map(|d| (d.date.days(), d.html)).collect();
    assert_eq!(seen, vec![(2, "b".to_string()), (1, "a".to_string()), (2, "c".to_string())]);
    assert_eq!(doc(4, "x").duplicate().html, "x");
    assert_eq!(doc(4, "x").clone().date, ApodDate(4));
}

#[test]
fn the_level_decides_the_stream() {
    let archive = Archive::new(vec![doc(1, &"some text that repeats, ".repeat(2_000))]);
    let fast = archive.compress(FAST_COMPRESSION_LEVEL).unwrap();
    let small = archive.compress(MAX_COMPRESSION_LEVEL).unwrap();
    assert_eq!(archive.compress(FAST_COMPRESSION_LEVEL).unwrap(), fast);
    assert_eq!(archive.compress(MAX_COMPRESSION_LEVEL).unwrap(), small);
    assert_ne!(fast, small);
    assert_eq!(fast, zstd::encode_all(&archive.encode()[..], FAST_COMPRESSION_LEVEL).unwrap());
}
