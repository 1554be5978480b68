use apodex::archiving::html::ArchiveHtml;
use apodex::archiving::Archive;
use apodex::archiving::ArchiveError;
use apodex::data::ApodData;
use apodex::data::LoadedHtmlArchive;
use apodex::date::ApodDate;
use apodex::parsing::quality_control::QualityWarning;
use apodex::parsing::ParseError;

const GOOD: &str = "<title>Day - Good Title</title><p>Explanation: Good text.</p>";
const ODD: &str = "<title>Day - A &lt; B</title><p>Explanation: Odd text.</p>";
const BAD: &str = "<title>Day - Title</title><p>no marker</p>";

fn garbage_error() -> ArchiveError {
    match Archive::<ArchiveHtml>::decode(&[0xff, 0x13, 0x37]) {
        Err(e) => e,
        Ok(_) => panic!("garbage should not decode"),
    }
}

#[test]
fn a_document_gives_an_entry_or_an_error() {
    let mut loaded = LoadedHtmlArchive::new();
    loaded.insert_html(ApodDate(10), GOOD.to_string());
    loaded.insert_html(ApodDate(11), BAD.to_string());
    loaded.insert_html(ApodDate(12), ODD.to_string());

    assert_eq!(loaded.get_entry(ApodDate(10)).map(|e| e.title.as_str()), Some("Good Title"));
    assert_eq!(loaded.get_error(ApodDate(10)), None);
    assert_eq!(loaded.get_warnings(ApodDate(10)), None);

    assert!(loaded.get_entry(ApodDate(11)).is_none());
    assert_eq!(loaded.get_error(ApodDate(11)), Some(ParseError::ExplanationNotFound));
    assert_eq!(loaded.get_warnings(ApodDate(11)), None);

    assert_eq!(loaded.get_entry(ApodDate(12)).map(|e| e.title.as_str()), Some("A < B"));
    assert_eq!(
        loaded.get_warnings(ApodDate(12)).map(|w| w.to_vec()),
        Some(vec![QualityWarning::ContainsHtml])
    );

    assert!(loaded.get_html(ApodDate(13)).is_none());
    assert!(loaded.get_entry(ApodDate(13)).is_none());
    assert_eq!(loaded.get_error(ApodDate(13)), None);
    assert_eq!(loaded.get_html(ApodDate(11)).map(|d| d.html.as_str()), Some(BAD));
    assert_eq!(loaded.len(), 3);
}

#[test]
fn a_later_document_replaces_what_the_earlier_one_gave() {
    let mut loaded = LoadedHtmlArchive::new();
    loaded.insert_html(ApodDate(5), BAD.to_string());
    assert_eq!(loaded.get_error(ApodDate(5)), Some(ParseError::ExplanationNotFound));
    loaded.insert_html(ApodDate(5), ODD.to_string());
    assert_eq!(loaded.get_error(ApodDate(5)), None);
    assert!(loaded.get_entry(ApodDate(5)).is_some());
    assert!(loaded.get_warnings(ApodDate(5)).is_some());
    loaded.insert_html(ApodDate(5), GOOD.to_string());
    assert_eq!(loaded.get_warnings(ApodDate(5)), None);
    assert_eq!(loaded.get_entry(ApodDate(5)).map(|e| e.title.as_str()), Some("Good Title"));
    loaded.insert_html(ApodDate(5), "<p>nothing</p>".to_string());
    assert!(loaded.get_entry(ApodDate(5)).is_none());
    assert_eq!(loaded.get_error(ApodDate(5)), Some(ParseError::TitleNotFound));
    assert_eq!(loaded.len(), 1);
    assert_eq!(loaded.entry_archive().len(), 0);
}

#[test]
fn loading_an_archive_extracts_every_document() {
    let mut archive = Archive::empty();
    for day in 0..40 {
        let html = if day % 4 == 0 { BAD } else if day % 4 == 1 { ODD } else { GOOD };
        archive.push(ArchiveHtml::new(ApodDate(day), html.to_string()));
    }
    let loaded = LoadedHtmlArchive::load_html(&archive);
    assert_eq!(loaded.len(), 40);
    assert_eq!(loaded.entry_archive().len(), 30);
    assert_eq!(loaded.html_archive().len(), 40);
    for day in 0..40 {
        let date = ApodDate(day);
        assert_eq!(loaded.get_entry(date).is_some(), day % 4 != 0);
        assert_eq!(loaded.get_error(date).is_some(), day % 4 == 0);
        assert_eq!(loaded.get_warnings(date).is_some(), day % 4 == 1);
        assert_eq!(loaded.get_entry(date).map(|e| e.date), loaded.get_entry(date).map(|_| date));
    }
    assert_eq!(loaded.latest_html_date(), Some(ApodDate(39)));
    assert_eq!(loaded.latest_entry_date(), Some(ApodDate(39)));
}

#[test]
fn latest_days() {
    let mut loaded = LoadedHtmlArchive::new();
    assert_eq!(loaded.latest_html_date(), None);
    assert_eq!(loaded.latest_entry_date(), None);
    loaded.insert_html(ApodDate(3), GOOD.to_string());
    loaded.insert_html(ApodDate(8), BAD.to_string());
    assert_eq!(loaded.latest_html_date(), Some(ApodDate(8)));
    assert_eq!(loaded.latest_entry_date(), Some(ApodDate(3)));
}

#[test]
fn missing_days() {
    let mut loaded = LoadedHtmlArchive::new();
    loaded.insert_html(ApodDate(0), GOOD.to_string());
    loaded.insert_html(ApodDate(5), GOOD.to_string());
    let missing: Vec<i32> = loaded.iter_missing(ApodDate(8)).iter().map(|d| d.days()).collect();
    assert_eq!(missing, vec![4, 6, 7, 8]);
    assert_eq!(loaded.missing_count(ApodDate(8)), 3);
    assert!(loaded.has_missing(ApodDate(8)));
    assert!(!loaded.has_missing(ApodDate(5)));
    assert_eq!(loaded.missing_count(ApodDate(5)), 0);
    assert_eq!(loaded.missing_count(ApodDate(3)), 0);
    assert_eq!(loaded.missing_count(ApodDate(9127)), 9124 - 2);
    assert!(loaded.iter_missing(ApodDate(-1)).is_empty());
}

#[test]
fn data_starts_empty_and_idle() {
    let mut data = ApodData::default();
    assert!(!data.load_busy());
    assert!(!data.save_busy());
    assert_eq!(data.load_status(), None);
    assert_eq!(data.save_status(), None);
    assert!(data.poll_load_html().is_none());
    assert!(data.poll_save_html().is_none());
    assert_eq!(data.latest_html_date(), None);
    assert_eq!(data.loaded().len(), 0);
}

#[test]
fn a_loaded_archive_replaces_what_was_held_all_at_once() {
    let mut data = ApodData::new();
    data.insert_html(ApodDate(1), BAD.to_string());
    let ticket = data.start_load_html();
    assert!(data.load_busy());
    assert!(data.set_load_status(ticket, "Loading HTML archive...".to_string()));
    assert_eq!(data.load_status(), Some("Loading HTML archive...".to_string()));
    assert!(data.poll_load_html().is_none());
    assert_eq!(data.get_error(ApodDate(1)), Some(ParseError::ExplanationNotFound));

    let archive = Archive::new(vec![ArchiveHtml::new(ApodDate(2), GOOD.to_string())]);
    assert!(data.complete_load(ticket, Ok(LoadedHtmlArchive::load_html(&archive))));
    assert!(data.get_html(ApodDate(1)).is_some());
    assert!(matches!(data.poll_load_html(), Some(Ok(()))));
    assert!(!data.load_busy());
    assert!(data.get_html(ApodDate(1)).is_none());
    assert_eq!(data.get_error(ApodDate(1)), None);
    assert_eq!(data.get_entry(ApodDate(2)).map(|e| e.title.as_str()), Some("Good Title"));
    assert_eq!(data.get_warnings(ApodDate(2)), None);
    assert_eq!(data.latest_html_date(), Some(ApodDate(2)));
    assert_eq!(data.latest_entry_date(), Some(ApodDate(2)));
    assert!(data.poll_load_html().is_none());
}

#[test]
fn a_failed_load_leaves_what_was_held() {
    let mut data = ApodData::new();
    data.insert_html(ApodDate(1), GOOD.to_string());
    let ticket = data.start_load_html();
    assert!(data.complete_load(ticket, Err(garbage_error())));
    assert!(matches!(data.poll_load_html(), Some(Err(ArchiveError::Codec(_)))));
    assert!(!data.load_busy());
    assert_eq!(data.get_entry(ApodDate(1)).map(|e| e.title.as_str()), Some("Good Title"));
}

#[test]
fn a_newer_load_supersedes_the_older() {
    let mut data = ApodData::new();
    let first = data.start_load_html();
    let second = data.start_load_html();
    let a = Archive::new(vec![ArchiveHtml::new(ApodDate(1), GOOD.to_string())]);
    let b = Archive::new(vec![ArchiveHtml::new(ApodDate(2), GOOD.to_string())]);
    assert!(!data.complete_load(first, Ok(LoadedHtmlArchive::load_html(&a))));
    assert!(data.poll_load_html().is_none());
    assert!(data.complete_load(second, Ok(LoadedHtmlArchive::load_html(&b))));
    assert!(matches!(data.poll_load_html(), Some(Ok(()))));
    assert!(data.get_html(ApodDate(1)).is_none());
    assert!(data.get_html(ApodDate(2)).is_some());
}

#[test]
fn saving_works_on_a_copy_of_the_archive() {
    let mut data = ApodData::new();
    data.insert_html(ApodDate(1), GOOD.to_string());
    let (ticket, snapshot) = data.start_save_html();
    assert!(data.save_busy());
    data.insert_html(ApodDate(2), GOOD.to_string());
    assert_eq!(snapshot.len(), 1);
    assert_eq!(snapshot.get(ApodDate(1)).map(|d| d.html.as_str()), Some(GOOD));
    assert!(data.set_save_status(ticket, "Compressing...".to_string()));
    assert_eq!(data.save_status(), Some("Compressing...".to_string()));
    let stream = snapshot.compress(22).unwrap();
    assert!(Archive::<ArchiveHtml>::decompress(&stream).unwrap().has_date(ApodDate(1)));
    assert!(data.complete_save(ticket, Ok(())));
    assert!(matches!(data.poll_save_html(), Some(Ok(()))));
    assert!(!data.save_busy());
    assert!(data.poll_save_html().is_none());
    assert_eq!(data.missing_count(ApodDate(6)), 1);
    assert!(data.has_missing(ApodDate(6)));
    assert_eq!(data.iter_missing(ApodDate(5)), vec![ApodDate(0), ApodDate(4), ApodDate(5)]);
}

#[test]
fn a_lost_load_or_save_leaves_what_is_held() {
    let mut data = ApodData::new();
    data.insert_html(ApodDate(1), GOOD.to_string());
    let load = data.start_load_html();
    assert!(!data.lose_load(load.wrapping_add(1)));
    assert!(data.lose_load(load));
    assert!(!data.load_busy());
    assert!(data.poll_load_html().is_none());
    assert!(!data.complete_load(load, Ok(LoadedHtmlArchive::new())));
    assert!(data.get_html(ApodDate(1)).is_some());
    let (save, _snapshot) = data.start_save_html();
    assert!(data.lose_save(save));
    assert!(!data.save_busy());
    assert!(!data.complete_save(save, Ok(())));
    assert!(data.poll_save_html().is_none());
}
