//! Extraction together with quality control.

use crate::date::ApodDate;
use crate::parsing::parse_html;
use crate::parsing::parsed_entry;
use crate::parsing::quality_control::quality_control;
use crate::parsing::quality_control::title_warnings;
use crate::parsing::quality_control::QualityWarning;
use crate::parsing::quality_control::WarningSet;
use crate::parsing::ParseError;
use crate::ApodEntry;
use crate::ApodEntryView;
use vstd::prelude::*;

verus! {

/// What a page gives: an entry with the findings about it, or an error.
#[derive(Debug)]
pub struct VerboseParseResult {
    pub entry: Option<ApodEntry>,
    pub warnings: WarningSet,
    pub error: Option<ParseError>,
}

/// What a page gives, as values.
pub struct VerboseParseView {
    pub entry: Option<ApodEntryView>,
    pub warnings: Set<QualityWarning>,
    pub error: Option<ParseError>,
}

impl View for VerboseParseResult {
    type V = VerboseParseView;

    open spec fn view(&self) -> VerboseParseView {
        VerboseParseView {
            entry: match self.entry {
                Some(entry) => Some(entry@),
                None => None,
            },
            warnings: self.warnings@,
            error: self.error,
        }
    }
}

/// What an extraction gives, with the findings about the entry.
pub open spec fn verbose_view(outcome: Result<ApodEntryView, ParseError>) -> VerboseParseView {
    match outcome {
        Ok(entry) => VerboseParseView {
            entry: Some(entry),
            warnings: title_warnings(entry.title),
            error: None,
        },
        Err(error) => VerboseParseView {
            entry: None,
            warnings: Set::empty(),
            error: Some(error),
        },
    }
}

/// Extracts the entry of a page and inspects it. The result holds either an
/// entry, with the findings about it, or an error, never both.
pub fn parse_html_verbose(date: ApodDate, html: &str) -> (r: VerboseParseResult)
    ensures
        r@ == verbose_view(parsed_entry(date, html@)),
        r.entry is Some <==> r.error is None,
{
    match parse_html(date, html) {
        Ok(entry) => {
            let warnings = quality_control(&entry);
            VerboseParseResult { warnings, entry: Some(entry), error: None }
        },
        Err(error) => VerboseParseResult {
            entry: None,
            warnings: WarningSet::new(),
            error: Some(error),
        },
    }
}

} // verus!
