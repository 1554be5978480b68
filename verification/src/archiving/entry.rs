//! Entries as archive values.

use crate::archiving::views;
use crate::archiving::ArchiveEntry;
use crate::codec::decode_entries;
use crate::codec::decoded_entries;
use crate::codec::encode_entries;
use crate::date::ApodDate;
use crate::parsing::media_url::MediaUrl;
use crate::parsing::media_url::MediaUrlView;
use crate::ApodEntry;
use crate::ApodEntryView;
use vstd::prelude::*;

verus! {

/// The entry that a record stands for.
pub open spec fn entry_of(
    record: (i32, Seq<char>, Seq<char>, Option<Seq<char>>, Option<Seq<char>>),
) -> ApodEntryView {
    ApodEntryView {
        date: ApodDate(record.0),
        title: record.1,
        explanation: record.2,
        media: MediaUrlView { url: record.3, hd_url: record.4 },
    }
}

/// The entries that a list of records stands for.
pub open spec fn entries_of(
    records: Seq<(i32, Seq<char>, Seq<char>, Option<Seq<char>>, Option<Seq<char>>)>,
) -> Seq<ApodEntryView> {
    Seq::new(records.len(), |i: int| entry_of(records[i]))
}

impl ArchiveEntry for ApodEntry {
    open spec fn day_of(v: ApodEntryView) -> ApodDate {
        v.date
    }

    open spec fn decoded(data: Seq<u8>) -> Option<Seq<ApodEntryView>> {
        match decoded_entries(data) {
            Some(records) => Some(entries_of(records)),
            None => None,
        }
    }

    fn date(&self) -> (d: ApodDate) {
        self.date
    }

    fn duplicate(&self) -> (r: Self) {
        self.clone()
    }

    fn encode_list(entries: &Vec<Self>) -> (data: Vec<u8>) {
        let mut records: Vec<(i32, String, String, Option<String>, Option<String>)> = Vec::new();
        let mut i: usize = 0;
        while i < entries.len()
            invariant
                i <= entries.len(),
                records.len() == i,
                forall|k: int| 0 <= k < i ==> entry_of((#[trigger] records[k]).deep_view()) == entries[k]@,
            decreases entries.len() - i,
        {
            let entry = &entries[i];
            let record = (
                entry.date.0,
                entry.title.clone(),
                entry.explanation.clone(),
                entry.media.url.clone(),
                entry.media.hd_url.clone(),
            );
            assert(entry_of(record.deep_view()) == entry@);
            records.push(record);
            i += 1;
        }
        assert(entries_of(records.deep_view()) =~= views::<Self>(entries@));
        encode_entries(&records)
    }

    fn decode_list(data: &[u8]) -> (r: Result<Vec<Self>, bitcode::Error>) {
        match decode_entries(data) {
            Ok(records) => {
                let mut entries: Vec<ApodEntry> = Vec::new();
                let ghost all = records@;
                for record in it: records
                    invariant
                        it.seq() == all,
                        entries.len() == it.index(),
                        forall|k: int|
                            0 <= k < it.index() ==> (#[trigger] entries[k])@ == entry_of(
                                all[k].deep_view(),
                            ),
                {
                    let (days, title, explanation, url, hd_url) = record;
                    entries.push(
                        ApodEntry {
                            date: ApodDate(days),
                            title,
                            explanation,
                            media: MediaUrl { url, hd_url },
                        },
                    );
                }
                assert(entries_of(records.deep_view()) =~= views::<Self>(entries@));
                Ok(entries)
            },
            Err(e) => Err(e),
        }
    }
}

} // verus!
