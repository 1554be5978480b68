//! What is loaded: the raw documents, and what extraction and quality
//! control make of each.
//!
//! Entries, findings and errors are never set on their own. They are what
//! the documents give, for every day, after every change.

use crate::archiving::html::ArchiveHtml;
use crate::archiving::html::ArchiveHtmlView;
use crate::archiving::Archive;
use crate::archiving::ArchiveError;
use crate::date::valid_day_count;
use crate::date::valid_days;
use crate::date::ApodDate;
use crate::parsing::parsed_entry;
use crate::parsing::quality_control::QualityWarning;
use crate::parsing::quality_control::WarningSet;
use crate::parsing::verbose::parse_html_verbose;
use crate::parsing::verbose::verbose_view;
use crate::parsing::verbose::VerboseParseView;
use crate::parsing::ParseError;
use crate::task::accepts;
use crate::task::after_poll;
use crate::task::idle;
use crate::task::poll_result;
use crate::task::shown_status;
use crate::task::started;
use crate::task::stopped;
use crate::task::TaskHandler;
use crate::task::TaskView;
use crate::ApodEntry;
use crate::ApodEntryView;
use std::collections::HashMap;
use vstd::prelude::*;

verus! {

broadcast use vstd::std_specs::hash::group_hash_axioms;

/// What the document of a day gives; `None` where there is no document
/// for the day.
pub open spec fn outcome_for(documents: Map<ApodDate, Seq<char>>, date: ApodDate) -> Option<
    VerboseParseView,
> {
    if documents.contains_key(date) {
        Some(verbose_view(parsed_entry(date, documents[date])))
    } else {
        None
    }
}

/// The entry of a day: what extraction makes of the day's document.
pub open spec fn entry_for(documents: Map<ApodDate, Seq<char>>, date: ApodDate) -> Option<
    ApodEntryView,
> {
    match outcome_for(documents, date) {
        Some(outcome) => outcome.entry,
        None => None,
    }
}

/// The findings of a day: what quality control finds about the day's
/// entry; `None` where it finds nothing.
pub open spec fn warnings_for(documents: Map<ApodDate, Seq<char>>, date: ApodDate) -> Option<
    Set<QualityWarning>,
> {
    match outcome_for(documents, date) {
        Some(outcome) => if outcome.warnings == Set::<QualityWarning>::empty() {
            None
        } else {
            Some(outcome.warnings)
        },
        None => None,
    }
}

/// The error of a day: why extraction makes no entry of the day's
/// document.
pub open spec fn error_for(documents: Map<ApodDate, Seq<char>>, date: ApodDate) -> Option<
    ParseError,
> {
    match outcome_for(documents, date) {
        Some(outcome) => outcome.error,
        None => None,
    }
}

/// The texts that an archive of raw documents holds, day by day.
pub open spec fn documents_of(archive: Map<ApodDate, ArchiveHtmlView>) -> Map<ApodDate, Seq<char>> {
    Map::new(|d: ApodDate| archive.contains_key(d), |d: ApodDate| archive[d].html)
}

/// After extraction, a day that has a document has an entry or an error,
/// never both and never neither; a day without a document has neither.
pub proof fn law_entry_or_error(documents: Map<ApodDate, Seq<char>>, date: ApodDate)
    ensures
        documents.contains_key(date) ==> (entry_for(documents, date) is Some <==> error_for(
            documents,
            date,
        ) is None),
        !documents.contains_key(date) ==> entry_for(documents, date) is None && error_for(
            documents,
            date,
        ) is None && warnings_for(documents, date) is None,
        warnings_for(documents, date) is Some ==> entry_for(documents, date) is Some,
{
}

/// The raw documents with what extraction and quality control make of
/// them.
pub struct LoadedHtmlArchive {
    html_archive: Archive<ArchiveHtml>,
    entry_archive: Archive<ApodEntry>,
    parse_warnings: HashMap<i32, WarningSet>,
    parse_errors: HashMap<i32, ParseError>,
}

impl View for LoadedHtmlArchive {
    type V = Map<ApodDate, Seq<char>>;

    /// The text of the document of each day.
    closed spec fn view(&self) -> Map<ApodDate, Seq<char>> {
        documents_of(self.html_archive@)
    }
}

impl LoadedHtmlArchive {
    /// Entries, findings and errors are what the documents give.
    #[verifier::type_invariant]
    spec fn derived(self) -> bool {
        let documents = documents_of(self.html_archive@);
        &&& forall|d: ApodDate| #[trigger]
            self.entry_archive@.contains_key(d) <==> entry_for(documents, d) is Some
        &&& forall|d: ApodDate| #[trigger]
            self.entry_archive@.contains_key(d) ==> Some(self.entry_archive@[d]) == entry_for(
                documents,
                d,
            )
        &&& forall|k: i32| #[trigger]
            self.parse_warnings@.contains_key(k) <==> warnings_for(documents, ApodDate(k)) is Some
        &&& forall|k: i32| #[trigger]
            self.parse_warnings@.contains_key(k) ==> Some(self.parse_warnings@[k]@) == warnings_for(
                documents,
                ApodDate(k),
            )
        &&& forall|k: i32| #[trigger]
            self.parse_errors@.contains_key(k) <==> error_for(documents, ApodDate(k)) is Some
        &&& forall|k: i32| #[trigger]
            self.parse_errors@.contains_key(k) ==> Some(self.parse_errors@[k]) == error_for(
                documents,
                ApodDate(k),
            )
    }

    /// No documents.
    pub fn new() -> (r: Self)
        ensures
            r@ == Map::<ApodDate, Seq<char>>::empty(),
    {
        let r = LoadedHtmlArchive {
            html_archive: Archive::empty(),
            entry_archive: Archive::empty(),
            parse_warnings: HashMap::new(),
            parse_errors: HashMap::new(),
        };
        assert(r@ =~= Map::<ApodDate, Seq<char>>::empty());
        r
    }

    /// Takes in the document of a day, in place of the one it had, and
    /// with it what extraction and quality control make of it.
    pub fn insert_html(&mut self, date: ApodDate, html: String)
        ensures
            final(self)@ == old(self)@.insert(date, html@),
    {
        proof {
            use_type_invariant(&*self);
        }
        let mut held = LoadedHtmlArchive::new();
        std::mem::swap(self, &mut held);
        let LoadedHtmlArchive {
            mut html_archive,
            mut entry_archive,
            mut parse_warnings,
            mut parse_errors,
        } = held;
        let ghost before = documents_of(html_archive@);
        let result = parse_html_verbose(date, html.as_str());
        let warnings = result.warnings;
        let error = result.error;
        match result.entry {
            Some(entry) => {
                entry_archive.push(entry);
            },
            None => {
                entry_archive.remove(date);
            },
        }
        if warnings.is_empty() {
            parse_warnings.remove(&date.0);
        } else {
            parse_warnings.insert(date.0, warnings);
        }
        match error {
            Some(e) => {
                parse_errors.insert(date.0, e);
            },
            None => {
                parse_errors.remove(&date.0);
            },
        }
        html_archive.push(ArchiveHtml { date, html });
        proof {
            let after = documents_of(html_archive@);
            assert(after =~= before.insert(date, html@));
            assert forall|d: ApodDate| d != date implies outcome_for(after, d) == outcome_for(
                before,
                d,
            ) by {}
            assert forall|d: ApodDate| #[trigger]
                entry_archive@.contains_key(d) <==> entry_for(after, d) is Some by {
                if d != date {
                    assert(outcome_for(after, d) == outcome_for(before, d));
                }
            }
            assert forall|d: ApodDate| #[trigger] entry_archive@.contains_key(d) implies Some(
                entry_archive@[d],
            ) == entry_for(after, d) by {
                if d != date {
                    assert(outcome_for(after, d) == outcome_for(before, d));
                }
            }
            assert forall|k: i32| #[trigger]
                parse_warnings@.contains_key(k) <==> warnings_for(after, ApodDate(k)) is Some by {
                if k != date.0 {
                    assert(outcome_for(after, ApodDate(k)) == outcome_for(before, ApodDate(k)));
                }
            }
            assert forall|k: i32| #[trigger] parse_warnings@.contains_key(k) implies Some(
                parse_warnings@[k]@,
            ) == warnings_for(after, ApodDate(k)) by {
                if k != date.0 {
                    assert(outcome_for(after, ApodDate(k)) == outcome_for(before, ApodDate(k)));
                }
            }
            assert forall|k: i32| #[trigger]
                parse_errors@.contains_key(k) <==> error_for(after, ApodDate(k)) is Some by {
                if k != date.0 {
                    assert(outcome_for(after, ApodDate(k)) == outcome_for(before, ApodDate(k)));
                }
            }
            assert forall|k: i32| #[trigger] parse_errors@.contains_key(k) implies Some(
                parse_errors@[k],
            ) == error_for(after, ApodDate(k)) by {
                if k != date.0 {
                    assert(outcome_for(after, ApodDate(k)) == outcome_for(before, ApodDate(k)));
                }
            }
        }
        *self = LoadedHtmlArchive { html_archive, entry_archive, parse_warnings, parse_errors };
    }

    /// Extracts and inspects every document of an archive. A document that
    /// gives no entry does not stop the others.
    pub fn load_html(archive: &Archive<ArchiveHtml>) -> (r: Self)
        ensures
            r@ == documents_of(archive@),
    {
        let mut loaded = LoadedHtmlArchive::new();
        let dates = archive.dates();
        let mut i: usize = 0;
        while i < dates.len()
            invariant
                i <= dates.len(),
                dates@.to_set() == archive@.dom(),
                forall|d: ApodDate| #[trigger]
                    loaded@.contains_key(d) <==> exists|k: int| 0 <= k < i && dates@[k] == d,
                forall|d: ApodDate| #[trigger]
                    loaded@.contains_key(d) ==> loaded@[d] == archive@[d].html,
            decreases dates.len() - i,
        {
            let date = dates[i];
            assert(dates@.to_set().contains(date));
            let ghost before = loaded@;
            match archive.get(date) {
                Some(document) => {
                    loaded.insert_html(date, document.html.clone());
                },
                None => {},
            }
            proof {
                assert forall|d: ApodDate| #[trigger]
                    loaded@.contains_key(d) <==> exists|k: int|
                        0 <= k < i + 1 && dates@[k] == d by {
                    if d != date && before.contains_key(d) {
                        let k = choose|k: int| 0 <= k < i && dates@[k] == d;
                        assert(0 <= k < i + 1 && dates@[k] == d);
                    }
                    if exists|k: int| 0 <= k < i + 1 && dates@[k] == d {
                        let k = choose|k: int| 0 <= k < i + 1 && dates@[k] == d;
                        if k < i {
                            assert(before.contains_key(d));
                        }
                    }
                }
            }
            i += 1;
        }
        proof {
            assert forall|d: ApodDate| loaded@.contains_key(d) == archive@.contains_key(d) by {
                if archive@.contains_key(d) {
                    assert(dates@.to_set().contains(d));
                    let k = choose|k: int| 0 <= k < dates@.len() && dates@[k] == d;
                    assert(0 <= k < i && dates@[k] == d);
                }
                if loaded@.contains_key(d) {
                    let k = choose|k: int| 0 <= k < i && dates@[k] == d;
                    assert(dates@.to_set().contains(dates@[k]));
                }
            }
            assert(loaded@ =~= documents_of(archive@));
        }
        loaded
    }

    /// The archive of the raw documents.
    pub fn html_archive(&self) -> (r: &Archive<ArchiveHtml>)
        ensures
            documents_of(r@) == self@,
    {
        &self.html_archive
    }

    /// The archive of the entries: one for each day whose document gives
    /// one.
    pub fn entry_archive(&self) -> (r: &Archive<ApodEntry>)
        ensures
            forall|d: ApodDate| #[trigger] r@.contains_key(d) <==> entry_for(self@, d) is Some,
            forall|d: ApodDate| #[trigger]
                r@.contains_key(d) ==> Some(r@[d]) == entry_for(self@, d),
    {
        proof {
            use_type_invariant(self);
        }
        &self.entry_archive
    }

    /// The raw document of a day.
    pub fn get_html(&self, date: ApodDate) -> (r: Option<&ArchiveHtml>)
        ensures
            match r {
                Some(document) => self@.contains_key(date) && self@[date] == document@.html,
                None => !self@.contains_key(date),
            },
    {
        self.html_archive.get(date)
    }

    /// The entry of a day.
    pub fn get_entry(&self, date: ApodDate) -> (r: Option<&ApodEntry>)
        ensures
            entry_for(self@, date) == match r {
                Some(entry) => Some(entry@),
                None => None,
            },
    {
        proof {
            use_type_invariant(self);
        }
        let r = self.entry_archive.get(date);
        proof {
            if r is Some {
                assert(self.entry_archive@.contains_key(date));
            } else {
                assert(!self.entry_archive@.contains_key(date));
            }
        }
        r
    }

    /// The findings about the entry of a day; `None` where there are none.
    pub fn get_warnings(&self, date: ApodDate) -> (r: Option<WarningSet>)
        ensures
            warnings_for(self@, date) == match r {
                Some(warnings) => Some(warnings@),
                None => None,
            },
    {
        proof {
            use_type_invariant(self);
        }
        match self.parse_warnings.get(&date.0) {
            Some(warnings) => {
                assert(self.parse_warnings@.contains_key(date.0));
                Some(*warnings)
            },
            None => {
                assert(!self.parse_warnings@.contains_key(date.0));
                None
            },
        }
    }

    /// The error of a day.
    pub fn get_error(&self, date: ApodDate) -> (r: Option<ParseError>)
        ensures
            r == error_for(self@, date),
    {
        proof {
            use_type_invariant(self);
        }
        match self.parse_errors.get(&date.0) {
            Some(error) => {
                assert(self.parse_errors@.contains_key(date.0));
                Some(*error)
            },
            None => {
                assert(!self.parse_errors@.contains_key(date.0));
                None
            },
        }
    }

    /// The latest day that has a document.
    pub fn latest_html_date(&self) -> (r: Option<ApodDate>)
        ensures
            r is None <==> self@ == Map::<ApodDate, Seq<char>>::empty(),
            r matches Some(latest) ==> self@.contains_key(latest) && forall|d: ApodDate|
                self@.contains_key(d) ==> d.0 <= latest.0,
    {
        let r = self.html_archive.latest_date();
        proof {
            if r is None {
                assert(self@ =~= Map::<ApodDate, Seq<char>>::empty());
            } else {
                assert(self@.contains_key(r.unwrap()));
            }
        }
        r
    }

    /// The latest day that has an entry.
    pub fn latest_entry_date(&self) -> (r: Option<ApodDate>)
        ensures
            r is None <==> forall|d: ApodDate| entry_for(self@, d) is None,
            r matches Some(latest) ==> entry_for(self@, latest) is Some && forall|d: ApodDate|
                entry_for(self@, d) is Some ==> d.0 <= latest.0,
    {
        proof {
            use_type_invariant(self);
        }
        let r = self.entry_archive.latest_date();
        proof {
            match r {
                Some(latest) => {
                    assert(self.entry_archive@.contains_key(latest));
                    assert forall|d: ApodDate| entry_for(self@, d) is Some implies d.0
                        <= latest.0 by {
                        assert(self.entry_archive@.contains_key(d));
                    }
                },
                None => {
                    assert forall|d: ApodDate| entry_for(self@, d) is None by {
                        assert(!self.entry_archive@.contains_key(d));
                    }
                },
            }
        }
        r
    }

    /// For how many days there is a document.
    pub fn len(&self) -> (r: usize)
        ensures
            self@.dom().finite(),
            r == self@.dom().len(),
    {
        let r = self.html_archive.len();
        assert(self@.dom() =~= self.html_archive@.dom());
        r
    }

    /// The days up to `today` that should have a document and have none,
    /// in ascending order.
    pub fn iter_missing(&self, today: ApodDate) -> (r: Vec<ApodDate>)
        ensures
            r@ == valid_days(today.0 as int).filter(|d: ApodDate| !self@.contains_key(d)),
    {
        let days = ApodDate::days_until(today);
        let mut r: Vec<ApodDate> = Vec::new();
        let ghost absent = |d: ApodDate| !self@.contains_key(d);
        let mut i: usize = 0;
        assert(days@.take(0) =~= Seq::<ApodDate>::empty());
        while i < days.len()
            invariant
                i <= days.len(),
                days@ == valid_days(today.0 as int),
                absent == |d: ApodDate| !self@.contains_key(d),
                r@ == days@.take(i as int).filter(absent),
            decreases days.len() - i,
        {
            proof {
                let head = days@.take(i as int);
                assert(days@.take(i as int + 1) =~= head.push(days@[i as int]));
                head.lemma_filter_push(days@[i as int], absent);
            }
            if !self.html_archive.has_date(days[i]) {
                r.push(days[i]);
            }
            i += 1;
        }
        assert(days@.take(days.len() as int) =~= days@);
        r
    }

    /// How many days up to `today` should have a document and have none,
    /// counted as the days there should be less the documents there are;
    /// zero where there are more documents than that.
    pub fn missing_count(&self, today: ApodDate) -> (r: usize)
        ensures
            r == if valid_day_count(today.0 as int) >= self@.dom().len() {
                valid_day_count(today.0 as int) - self@.dom().len()
            } else {
                0
            },
    {
        let total = ApodDate::count_until(today) as usize;
        let held = self.len();
        if total >= held {
            total - held
        } else {
            0
        }
    }

    /// Whether there are fewer documents than days up to `today` that
    /// should have one.
    pub fn has_missing(&self, today: ApodDate) -> (r: bool)
        ensures
            r == (self@.dom().len() < valid_day_count(today.0 as int)),
    {
        let total = ApodDate::count_until(today) as usize;
        self.len() < total
    }
}

/// What is loaded and what is under way, as values.
pub struct ApodDataView {
    /// The text of the document of each day.
    pub documents: Map<ApodDate, Seq<char>>,
    /// The loading of an archive.
    pub load: TaskView<Result<LoadedHtmlArchive, ArchiveError>>,
    /// The saving of the archive.
    pub save: TaskView<Result<(), ArchiveError>>,
}

/// What is loaded, with the loading and the saving that may be under way.
pub struct ApodData {
    loaded: LoadedHtmlArchive,
    load_html_task: TaskHandler<Result<LoadedHtmlArchive, ArchiveError>>,
    save_html_task: TaskHandler<Result<(), ArchiveError>>,
}

impl View for ApodData {
    type V = ApodDataView;

    closed spec fn view(&self) -> ApodDataView {
        ApodDataView {
            documents: self.loaded@,
            load: self.load_html_task@,
            save: self.save_html_task@,
        }
    }
}

/// What a poll for a loaded archive hands out: whether loading succeeded.
pub open spec fn load_outcome(data: ApodDataView) -> Option<Result<(), ArchiveError>> {
    match poll_result(data.load) {
        Some(Ok(_)) => Some(Ok(())),
        Some(Err(e)) => Some(Err(e)),
        None => None,
    }
}

/// The documents after a poll for a loaded archive: those of the archive
/// where loading succeeded, else those held before.
pub open spec fn documents_after_load(data: ApodDataView) -> Map<ApodDate, Seq<char>> {
    match poll_result(data.load) {
        Some(Ok(loaded)) => loaded@,
        _ => data.documents,
    }
}

impl Default for ApodData {
    fn default() -> (r: Self)
        ensures
            r@ == (ApodDataView { documents: Map::empty(), load: idle(), save: idle() }),
    {
        ApodData::new()
    }
}

impl ApodData {
    pub fn new() -> (r: Self)
        ensures
            r@ == (ApodDataView { documents: Map::empty(), load: idle(), save: idle() }),
    {
        ApodData {
            loaded: LoadedHtmlArchive::new(),
            load_html_task: TaskHandler::new(),
            save_html_task: TaskHandler::new(),
        }
    }

    /// What is loaded.
    pub fn loaded(&self) -> (r: &LoadedHtmlArchive)
        ensures
            r@ == self@.documents,
    {
        &self.loaded
    }

    /// Takes in the document of a day, in place of the one it had.
    pub fn insert_html(&mut self, date: ApodDate, html: String)
        ensures
            final(self)@ == (ApodDataView {
                documents: old(self)@.documents.insert(date, html@),
                ..old(self)@
            }),
    {
        self.loaded.insert_html(date, html);
    }

    /// Begins the loading of an archive, in place of one that may be under
    /// way, and hands out its ticket.
    pub fn start_load_html(&mut self) -> (ticket: u64)
        ensures
            ticket == old(self)@.load.next,
            final(self)@ == (ApodDataView { load: started(old(self)@.load), ..old(self)@ }),
            old(self)@.load.running matches Some(previous) ==> !accepts(final(self)@.load, previous),
    {
        self.load_html_task.spawn()
    }

    /// Hands in what the loading `ticket` gave. It is taken in only where
    /// that loading is the one under way.
    pub fn complete_load(&mut self, ticket: u64, result: Result<LoadedHtmlArchive, ArchiveError>) -> (accepted:
        bool)
        ensures
            accepted == accepts(old(self)@.load, ticket),
            final(self)@ == (ApodDataView {
                load: if accepted {
                    TaskView { result: Some(result), ..old(self)@.load }
                } else {
                    old(self)@.load
                },
                ..old(self)@
            }),
    {
        self.load_html_task.complete(ticket, result)
    }

    /// Reports that the loading `ticket` has ended without a result. Where
    /// that loading is the one under way, nothing is under way any more;
    /// what is held stays as it was.
    pub fn lose_load(&mut self, ticket: u64) -> (accepted: bool)
        ensures
            accepted == accepts(old(self)@.load, ticket),
            final(self)@ == (ApodDataView {
                load: if accepted {
                    stopped(old(self)@.load)
                } else {
                    old(self)@.load
                },
                ..old(self)@
            }),
    {
        self.load_html_task.lose(ticket)
    }

    /// Publishes progress of the loading `ticket`.
    pub fn set_load_status(&mut self, ticket: u64, text: String) -> (accepted: bool)
        ensures
            accepted == accepts(old(self)@.load, ticket),
            final(self)@ == (ApodDataView {
                load: if accepted {
                    TaskView { status: Some(text@), ..old(self)@.load }
                } else {
                    old(self)@.load
                },
                ..old(self)@
            }),
    {
        self.load_html_task.set_status(ticket, text)
    }

    /// Whether loading has ended, and how. Where it succeeded, what was
    /// loaded takes the place of what was held, all of it at once; where
    /// it failed, what was held stays as it was.
    pub fn poll_load_html(&mut self) -> (r: Option<Result<(), ArchiveError>>)
        ensures
            r == load_outcome(old(self)@),
            final(self)@ == (ApodDataView {
                documents: documents_after_load(old(self)@),
                load: after_poll(old(self)@.load),
                save: old(self)@.save,
            }),
    {
        match self.load_html_task.poll() {
            Some(Ok(loaded)) => {
                self.loaded = loaded;
                Some(Ok(()))
            },
            Some(Err(e)) => Some(Err(e)),
            None => None,
        }
    }

    /// Begins the saving of the archive, in place of one that may be under
    /// way, and hands out its ticket with a copy of the archive as it is
    /// now.
    pub fn start_save_html(&mut self) -> (r: (u64, Archive<ArchiveHtml>))
        ensures
            r.0 == old(self)@.save.next,
            final(self)@ == (ApodDataView { save: started(old(self)@.save), ..old(self)@ }),
            documents_of(r.1@) == old(self)@.documents,
            old(self)@.save.running matches Some(previous) ==> !accepts(final(self)@.save, previous),
    {
        let archive = self.loaded.html_archive().duplicate();
        let ticket = self.save_html_task.spawn();
        (ticket, archive)
    }

    /// Hands in what the saving `ticket` gave. It is taken in only where
    /// that saving is the one under way.
    pub fn complete_save(&mut self, ticket: u64, result: Result<(), ArchiveError>) -> (accepted: bool)
        ensures
            accepted == accepts(old(self)@.save, ticket),
            final(self)@ == (ApodDataView {
                save: if accepted {
                    TaskView { result: Some(result), ..old(self)@.save }
                } else {
                    old(self)@.save
                },
                ..old(self)@
            }),
    {
        self.save_html_task.complete(ticket, result)
    }

    /// Reports that the saving `ticket` has ended without a result. Where
    /// that saving is the one under way, nothing is under way any more.
    pub fn lose_save(&mut self, ticket: u64) -> (accepted: bool)
        ensures
            accepted == accepts(old(self)@.save, ticket),
            final(self)@ == (ApodDataView {
                save: if accepted {
                    stopped(old(self)@.save)
                } else {
                    old(self)@.save
                },
                ..old(self)@
            }),
    {
        self.save_html_task.lose(ticket)
    }

    /// Publishes progress of the saving `ticket`.
    pub fn set_save_status(&mut self, ticket: u64, text: String) -> (accepted: bool)
        ensures
            accepted == accepts(old(self)@.save, ticket),
            final(self)@ == (ApodDataView {
                save: if accepted {
                    TaskView { status: Some(text@), ..old(self)@.save }
                } else {
                    old(self)@.save
                },
                ..old(self)@
            }),
    {
        self.save_html_task.set_status(ticket, text)
    }

    /// Whether saving has ended, and how.
    pub fn poll_save_html(&mut self) -> (r: Option<Result<(), ArchiveError>>)
        ensures
            r == poll_result(old(self)@.save),
            final(self)@ == (ApodDataView { save: after_poll(old(self)@.save), ..old(self)@ }),
    {
        self.save_html_task.poll()
    }

    pub fn load_busy(&self) -> (r: bool)
        ensures
            r == self@.load.running is Some,
    {
        self.load_html_task.is_busy()
    }

    pub fn load_status(&self) -> (r: Option<String>)
        ensures
            r.deep_view() == shown_status(self@.load),
    {
        self.load_html_task.status()
    }

    pub fn save_busy(&self) -> (r: bool)
        ensures
            r == self@.save.running is Some,
    {
        self.save_html_task.is_busy()
    }

    pub fn save_status(&self) -> (r: Option<String>)
        ensures
            r.deep_view() == shown_status(self@.save),
    {
        self.save_html_task.status()
    }

    /// The raw document of a day.
    pub fn get_html(&self, date: ApodDate) -> (r: Option<&ArchiveHtml>)
        ensures
            match r {
                Some(document) => self@.documents.contains_key(date) && self@.documents[date]
                    == document@.html,
                None => !self@.documents.contains_key(date),
            },
    {
        self.loaded.get_html(date)
    }

    /// The entry of a day.
    pub fn get_entry(&self, date: ApodDate) -> (r: Option<&ApodEntry>)
        ensures
            entry_for(self@.documents, date) == match r {
                Some(entry) => Some(entry@),
                None => None,
            },
    {
        self.loaded.get_entry(date)
    }

    /// The findings about the entry of a day; `None` where there are none.
    pub fn get_warnings(&self, date: ApodDate) -> (r: Option<WarningSet>)
        ensures
            warnings_for(self@.documents, date) == match r {
                Some(warnings) => Some(warnings@),
                None => None,
            },
    {
        self.loaded.get_warnings(date)
    }

    /// The error of a day.
    pub fn get_error(&self, date: ApodDate) -> (r: Option<ParseError>)
        ensures
            r == error_for(self@.documents, date),
    {
        self.loaded.get_error(date)
    }

    /// The latest day that has a document.
    pub fn latest_html_date(&self) -> (r: Option<ApodDate>)
        ensures
            r is None <==> self@.documents == Map::<ApodDate, Seq<char>>::empty(),
            r matches Some(latest) ==> self@.documents.contains_key(latest) && forall|d: ApodDate|
                self@.documents.contains_key(d) ==> d.0 <= latest.0,
    {
        self.loaded.latest_html_date()
    }

    /// The latest day that has an entry.
    pub fn latest_entry_date(&self) -> (r: Option<ApodDate>)
        ensures
            r is None <==> forall|d: ApodDate| entry_for(self@.documents, d) is None,
            r matches Some(latest) ==> entry_for(self@.documents, latest) is Some
                && forall|d: ApodDate|
                entry_for(self@.documents, d) is Some ==> d.0 <= latest.0,
    {
        self.loaded.latest_entry_date()
    }

    /// Whether there are fewer documents than days up to `today` that
    /// should have one.
    pub fn has_missing(&self, today: ApodDate) -> (r: bool)
        ensures
            r == (self@.documents.dom().len() < valid_day_count(today.0 as int)),
    {
        self.loaded.has_missing(today)
    }

    /// How many days up to `today` should have a document and have none,
    /// counted as the days there should be less the documents there are.
    pub fn missing_count(&self, today: ApodDate) -> (r: usize)
        ensures
            r == if valid_day_count(today.0 as int) >= self@.documents.dom().len() {
                valid_day_count(today.0 as int) - self@.documents.dom().len()
            } else {
                0
            },
    {
        self.loaded.missing_count(today)
    }

    /// The days up to `today` that should have a document and have none,
    /// in ascending order.
    pub fn iter_missing(&self, today: ApodDate) -> (r: Vec<ApodDate>)
        ensures
            r@ == valid_days(today.0 as int).filter(|d: ApodDate| !self@.documents.contains_key(d)),
    {
        self.loaded.iter_missing(today)
    }
}

} // verus!
