//! The extractor: from the text of a page to its entry.

use crate::date::ApodDate;
use crate::parsing::document::Document;
use crate::parsing::explanation::parse_explanation;
use crate::parsing::explanation::parsed_explanation;
use crate::parsing::media_url::parse_media;
use crate::parsing::media_url::parsed_media;
use crate::parsing::title::parse_title;
use crate::parsing::title::parsed_title;
use crate::ApodEntry;
use crate::ApodEntryView;
use vstd::prelude::*;

pub mod document;
pub mod explanation;
pub mod media_url;
pub mod quality_control;
pub mod title;
pub mod verbose;

verus! {

/// Why a page yields no entry.
#[derive(Debug, Copy, Clone, PartialEq, Eq, Structural)]
pub enum ParseError {
    ExplanationNotFound,
    TitleNotFound,
}

impl ParseError {
    /// The error in words.
    pub fn message(&self) -> (r: &'static str)
        ensures
            r@ == match self {
                ParseError::ExplanationNotFound => "Explanation not found"@,
                ParseError::TitleNotFound => "Title not found"@,
            },
    {
        match self {
            ParseError::ExplanationNotFound => "Explanation not found",
            ParseError::TitleNotFound => "Title not found",
        }
    }
}

/// The view of text or an error.
pub open spec fn text_result_view(r: Result<String, ParseError>) -> Result<Seq<char>, ParseError> {
    match r {
        Ok(text) => Ok(text@),
        Err(e) => Err(e),
    }
}

/// The view of an entry or an error.
pub open spec fn entry_result_view(r: Result<ApodEntry, ParseError>) -> Result<
    ApodEntryView,
    ParseError,
> {
    match r {
        Ok(entry) => Ok(entry@),
        Err(e) => Err(e),
    }
}

/// The entry of day `date` that the page `html` gives: its title, its
/// explanation and its media, or the error of the first of title and
/// explanation that is not found.
pub open spec fn parsed_entry(date: ApodDate, html: Seq<char>) -> Result<ApodEntryView, ParseError> {
    match parsed_title(html) {
        Ok(title) => match parsed_explanation(html) {
            Ok(explanation) => Ok(
                ApodEntryView { date, title, explanation, media: parsed_media(html) },
            ),
            Err(e) => Err(e),
        },
        Err(e) => Err(e),
    }
}

/// Extracts the entry of day `date` from the text of its page. The result,
/// entry or error, is a function of the two arguments alone.
pub fn parse_html(date: ApodDate, html: &str) -> (r: Result<ApodEntry, ParseError>)
    ensures
        entry_result_view(r) == parsed_entry(date, html@),
{
    let doc = Document::parse(html);
    let title = match parse_title(&doc) {
        Ok(title) => title,
        Err(e) => {
            return Err(e);
        },
    };
    let explanation = match parse_explanation(&doc) {
        Ok(explanation) => explanation,
        Err(e) => {
            return Err(e);
        },
    };
    let media = match parse_media(&doc) {
        Ok(media) => media,
        Err(e) => {
            return Err(e);
        },
    };
    Ok(ApodEntry { date, title, explanation, media })
}

/// Extraction is a function of the day and the text alone: two extractions
/// from the same give the same, entry or error.
pub proof fn law_extraction_is_deterministic(
    date: ApodDate,
    html: Seq<char>,
    first: Result<ApodEntryView, ParseError>,
    second: Result<ApodEntryView, ParseError>,
)
    requires
        first == parsed_entry(date, html),
        second == parsed_entry(date, html),
    ensures
        first == second,
{
}

} // verus!
