//! Entries of a day-by-day publication: fetched, extracted, inspected,
//! archived and cached.

use crate::date::ApodDate;
use crate::parsing::media_url::MediaUrl;
use crate::parsing::media_url::MediaUrlView;
use vstd::prelude::*;

pub mod archiving;
pub mod calendar;
pub mod client;
pub mod codec;
pub mod data;
pub mod date;
pub mod media;
pub mod parsing;
pub mod scraping;
pub mod task;
pub mod text;

verus! {

/// Root of every page and media address of the publication.
pub const APOD_BASE_URL: &'static str = "https://apod.nasa.gov/apod";

/// What one day's page holds.
#[derive(Debug)]
pub struct ApodEntry {
    pub date: ApodDate,
    pub title: String,
    pub explanation: String,
    pub media: MediaUrl,
}

/// What one day's page holds, as values.
pub struct ApodEntryView {
    pub date: ApodDate,
    pub title: Seq<char>,
    pub explanation: Seq<char>,
    pub media: MediaUrlView,
}

impl View for ApodEntry {
    type V = ApodEntryView;

    open spec fn view(&self) -> ApodEntryView {
        ApodEntryView {
            date: self.date,
            title: self.title@,
            explanation: self.explanation@,
            media: self.media@,
        }
    }
}

impl Clone for ApodEntry {
    fn clone(&self) -> (r: Self)
        ensures
            r@ == self@,
    {
        ApodEntry {
            date: self.date,
            title: self.title.clone(),
            explanation: self.explanation.clone(),
            media: self.media.clone(),
        }
    }
}

impl ApodEntry {
    /// The day of the entry.
    pub fn date(&self) -> (r: ApodDate)
        ensures
            r == self.date,
    {
        self.date
    }

    /// The address of the entry's page; `None` where its day lies before
    /// the first one.
    pub fn link(&self) -> (r: Option<String>)
        ensures
            r.deep_view() == if self.date.0 < 0 {
                None
            } else {
                self.date.page_url_spec()
            },
    {
        self.date.link()
    }

    /// Whether two entries hold the same.
    pub fn same_as(&self, other: &ApodEntry) -> (r: bool)
        ensures
            r == (self@ == other@),
    {
        self.date == other.date && self.title == other.title && self.explanation
            == other.explanation && self.media.same_as(&other.media)
    }
}

} // verus!
