//! Raw documents: a day and the text of its page.

use crate::archiving::views;
use crate::archiving::ArchiveEntry;
use crate::codec::decode_documents;
use crate::codec::decoded_documents;
use crate::codec::encode_documents;
use crate::date::ApodDate;
use vstd::prelude::*;

verus! {

/// The text of one day's page, as fetched.
#[derive(Debug)]
pub struct ArchiveHtml {
    pub date: ApodDate,
    pub html: String,
}

/// The text of one day's page, as values.
pub struct ArchiveHtmlView {
    pub date: ApodDate,
    pub html: Seq<char>,
}

impl View for ArchiveHtml {
    type V = ArchiveHtmlView;

    open spec fn view(&self) -> ArchiveHtmlView {
        ArchiveHtmlView { date: self.date, html: self.html@ }
    }
}

impl Clone for ArchiveHtml {
    fn clone(&self) -> (r: Self)
        ensures
            r@ == self@,
    {
        ArchiveHtml { date: self.date, html: self.html.clone() }
    }
}

/// The raw documents that a list of pairs stands for.
pub open spec fn documents_from(records: Seq<(i32, Seq<char>)>) -> Seq<ArchiveHtmlView> {
    Seq::new(
        records.len(),
        |i: int| ArchiveHtmlView { date: ApodDate(records[i].0), html: records[i].1 },
    )
}

impl ArchiveHtml {
    pub fn new(date: ApodDate, html: String) -> (r: Self)
        ensures
            r@ == (ArchiveHtmlView { date, html: html@ }),
    {
        Self { date, html }
    }
}

impl ArchiveEntry for ArchiveHtml {
    open spec fn day_of(v: ArchiveHtmlView) -> ApodDate {
        v.date
    }

    open spec fn decoded(data: Seq<u8>) -> Option<Seq<ArchiveHtmlView>> {
        match decoded_documents(data) {
            Some(records) => Some(documents_from(records)),
            None => None,
        }
    }

    fn date(&self) -> (d: ApodDate) {
        self.date
    }

    fn duplicate(&self) -> (r: Self) {
        self.clone()
    }

    fn encode_list(entries: &Vec<Self>) -> (data: Vec<u8>) {
        let mut records: Vec<(i32, String)> = Vec::new();
        let mut i: usize = 0;
        while i < entries.len()
            invariant
                i <= entries.len(),
                records.len() == i,
                forall|k: int|
                    0 <= k < i ==> (#[trigger] records[k]).0 == entries[k].date.0 && records[k].1@
                        == entries[k].html@,
            decreases entries.len() - i,
        {
            records.push((entries[i].date.0, entries[i].html.clone()));
            i += 1;
        }
        assert(documents_from(records.deep_view()) =~= views::<Self>(entries@));
        encode_documents(&records)
    }

    fn decode_list(data: &[u8]) -> (r: Result<Vec<Self>, bitcode::Error>) {
        match decode_documents(data) {
            Ok(records) => {
                let mut entries: Vec<ArchiveHtml> = Vec::new();
                let ghost all = records@;
                for record in it: records
                    invariant
                        it.seq() == all,
                        entries.len() == it.index(),
                        forall|k: int|
                            0 <= k < it.index() ==> (#[trigger] entries[k]).date.0 == all[k].0
                                && entries[k].html@ == all[k].1@,
                {
                    let (days, html) = record;
                    entries.push(ArchiveHtml { date: ApodDate(days), html });
                }
                assert(documents_from(records.deep_view()) =~= views::<Self>(entries@));
                Ok(entries)
            },
            Err(e) => Err(e),
        }
    }
}

} // verus!
