//! The explanation text of a page.

use crate::parsing::document::root_text;
use crate::parsing::document::texts_of;
use crate::parsing::document::Document;
use crate::parsing::text_result_view;
use crate::parsing::ParseError;
use crate::text::chars_of;
use crate::text::collapse_whitespace;
use crate::text::collapsed;
use crate::text::contains;
use crate::text::contains_text;
use crate::text::copy_range;
use crate::text::find;
use crate::text::first_occurrence;
use crate::text::is_tidy;
use crate::text::lemma_collapsed_is_tidy;
use crate::text::lemma_first_occurrence;
use crate::text::lemma_stretch_of_tidy;
use crate::text::lemma_trimmed_is_stretch;
use crate::text::second_segment;
use crate::text::string_of;
use crate::text::take_second_segment;
use crate::text::trim;
use crate::text::trimmed;
use vstd::prelude::*;

verus! {

/// The marker that stands before the explanation.
pub open spec fn explanation_marker() -> Seq<char> {
    "Explanation:"@
}

/// The markers of what follows an explanation on a page, in the order in
/// which they are tried.
pub open spec fn end_markers() -> Seq<Seq<char>> {
    seq![
        "Tomorrow's picture"@,
        "Tomorrow's Picture"@,
        "Authors & editors"@,
        "Author:"@,
        "We keep an archive file."@,
    ]
}

/// What a text gives as explanation: what stands between the marker and
/// the next marker or the end, trimmed; `None` where the text has no marker
/// or nothing but whitespace follows it.
pub open spec fn explanation_in_text(text: Seq<char>) -> Option<Seq<char>> {
    match second_segment(text, explanation_marker()) {
        Some(found) => if trimmed(found).len() > 0 {
            Some(trimmed(found))
        } else {
            None
        },
        None => None,
    }
}

/// What the texts of a kind of element give as explanation: what the first
/// text that holds the marker gives.
pub open spec fn explanation_in(texts: Seq<Seq<char>>) -> Option<Seq<char>>
    decreases texts.len(),
{
    if texts.len() == 0 {
        None
    } else if contains_text(texts[0], explanation_marker()) {
        explanation_in_text(texts[0])
    } else {
        explanation_in(texts.drop_first())
    }
}

/// `text`, cut before the first of `markers`, taken in their order, that
/// stands in it.
pub open spec fn cut_at_markers(text: Seq<char>, markers: Seq<Seq<char>>) -> Seq<char>
    decreases markers.len(),
{
    if markers.len() == 0 {
        text
    } else {
        match first_occurrence(text, markers[0]) {
            Some(i) => text.take(i),
            None => cut_at_markers(text, markers.drop_first()),
        }
    }
}

/// A raw explanation, cleaned: whitespace collapsed, cut before what
/// follows an explanation on a page, and trimmed.
pub open spec fn cleaned_explanation(raw: Seq<char>) -> Seq<char> {
    trimmed(cut_at_markers(collapsed(raw), end_markers()))
}

/// The explanation that the three sources give: the first of table cells,
/// paragraphs and whole text that gives one, cleaned.
pub open spec fn explanation_from_sources(
    cells: Seq<Seq<char>>,
    paragraphs: Seq<Seq<char>>,
    whole: Seq<char>,
) -> Result<Seq<char>, ParseError> {
    match explanation_in(cells) {
        Some(text) => Ok(cleaned_explanation(text)),
        None => match explanation_in(paragraphs) {
            Some(text) => Ok(cleaned_explanation(text)),
            None => match explanation_in_text(whole) {
                Some(text) => Ok(cleaned_explanation(text)),
                None => Err(ParseError::ExplanationNotFound),
            },
        },
    }
}

/// The explanation of the page `html`.
pub open spec fn parsed_explanation(html: Seq<char>) -> Result<Seq<char>, ParseError> {
    explanation_from_sources(texts_of(html, "td"@), texts_of(html, "p"@), root_text(html))
}

/// What a text gives as explanation.
pub fn find_explanation_in_text(text: &str) -> (r: Option<String>)
    ensures
        r.deep_view() == explanation_in_text(text@),
{
    let chars = chars_of(text);
    let marker = chars_of("Explanation:");
    match take_second_segment(chars.as_slice(), marker.as_slice()) {
        Some(found) => {
            assert(found.deep_view() =~= found@);
            let t = trim(found.as_slice());
            if t.len() > 0 {
                Some(string_of(t.as_slice()))
            } else {
                None
            }
        },
        None => None,
    }
}

/// What the texts of a kind of element give as explanation.
pub fn find_explanation_in(texts: &Vec<String>) -> (r: Option<String>)
    ensures
        r.deep_view() == explanation_in(texts.deep_view()),
{
    let marker = chars_of("Explanation:");
    let mut i: usize = 0;
    assert(texts.deep_view().skip(0) =~= texts.deep_view());
    while i < texts.len()
        invariant
            i <= texts.len(),
            marker@ == explanation_marker(),
            explanation_in(texts.deep_view()) == explanation_in(texts.deep_view().skip(i as int)),
        decreases texts.len() - i,
    {
        let chars = chars_of(texts[i].as_str());
        assert(texts.deep_view().skip(i as int)[0] == texts[i as int]@);
        if contains(chars.as_slice(), marker.as_slice()) {
            return find_explanation_in_text(texts[i].as_str());
        }
        assert(texts.deep_view().skip(i as int).drop_first() =~= texts.deep_view().skip(
            i as int + 1,
        ));
        i += 1;
    }
    None
}

pub fn extract_explanation_from_td(document: &Document) -> (r: Option<String>)
    ensures
        r.deep_view() == explanation_in(texts_of(document@, "td"@)),
{
    let cells = document.texts("td");
    find_explanation_in(&cells)
}

pub fn extract_explanation_from_p(document: &Document) -> (r: Option<String>)
    ensures
        r.deep_view() == explanation_in(texts_of(document@, "p"@)),
{
    let paragraphs = document.texts("p");
    find_explanation_in(&paragraphs)
}

pub fn extract_explanation_from_text(document: &Document) -> (r: Option<String>)
    ensures
        r.deep_view() == explanation_in_text(root_text(document@)),
{
    let whole = document.full_text();
    find_explanation_in_text(whole.as_str())
}

/// The markers of what follows an explanation, in the order in which they
/// are tried.
fn end_marker_list() -> (r: Vec<Vec<char>>)
    ensures
        r.deep_view() == end_markers(),
{
    let mut r: Vec<Vec<char>> = Vec::new();
    r.push(chars_of("Tomorrow's picture"));
    r.push(chars_of("Tomorrow's Picture"));
    r.push(chars_of("Authors & editors"));
    r.push(chars_of("Author:"));
    r.push(chars_of("We keep an archive file."));
    assert(r.deep_view() =~= end_markers()) by {
        assert forall|i: int| 0 <= i < 5 implies #[trigger] r.deep_view()[i] == end_markers()[i] by {
            assert(r[i].deep_view() =~= r[i]@);
        }
    }
    r
}

/// `text`, cut before the first of `markers`, taken in their order, that
/// stands in it.
pub fn cut_at(text: &[char], markers: &Vec<Vec<char>>) -> (r: Vec<char>)
    ensures
        r@ == cut_at_markers(text@, markers.deep_view()),
{
    let mut i: usize = 0;
    assert(markers.deep_view().skip(0) =~= markers.deep_view());
    while i < markers.len()
        invariant
            i <= markers.len(),
            cut_at_markers(text@, markers.deep_view()) == cut_at_markers(
                text@,
                markers.deep_view().skip(i as int),
            ),
        decreases markers.len() - i,
    {
        assert(markers.deep_view().skip(i as int)[0] == markers[i as int].deep_view());
        assert(markers[i as int].deep_view() =~= markers[i as int]@);
        match find(text, markers[i].as_slice()) {
            Some(pos) => {
                return copy_range(text, 0, pos);
            },
            None => {},
        }
        assert(markers.deep_view().skip(i as int).drop_first() =~= markers.deep_view().skip(
            i as int + 1,
        ));
        i += 1;
    }
    let r = copy_range(text, 0, text.len());
    assert(r@ == text@);
    r
}

/// A raw explanation, cleaned.
pub fn clean_explanation(text: &str) -> (r: String)
    ensures
        r@ == cleaned_explanation(text@),
{
    let chars = chars_of(text);
    let collapsed_text = collapse_whitespace(chars.as_slice());
    let markers = end_marker_list();
    let cut = cut_at(collapsed_text.as_slice(), &markers);
    let t = trim(cut.as_slice());
    string_of(t.as_slice())
}

/// The explanation that the three sources give: the first of table cells,
/// paragraphs and whole text that gives one, cleaned;
/// `ExplanationNotFound` where none does.
pub fn explanation_from(cells: &Vec<String>, paragraphs: &Vec<String>, whole: &str) -> (r: Result<
    String,
    ParseError,
>)
    ensures
        text_result_view(r) == explanation_from_sources(
            cells.deep_view(),
            paragraphs.deep_view(),
            whole@,
        ),
{
    match find_explanation_in(cells) {
        Some(text) => Ok(clean_explanation(text.as_str())),
        None => match find_explanation_in(paragraphs) {
            Some(text) => Ok(clean_explanation(text.as_str())),
            None => match find_explanation_in_text(whole) {
                Some(text) => Ok(clean_explanation(text.as_str())),
                None => Err(ParseError::ExplanationNotFound),
            },
        },
    }
}

/// The explanation of a page: from a table cell, a paragraph or, failing
/// both, the whole text.
pub fn parse_explanation(doc: &Document) -> (r: Result<String, ParseError>)
    ensures
        text_result_view(r) == parsed_explanation(doc@),
{
    match extract_explanation_from_td(doc) {
        Some(text) => Ok(clean_explanation(text.as_str())),
        None => match extract_explanation_from_p(doc) {
            Some(text) => Ok(clean_explanation(text.as_str())),
            None => match extract_explanation_from_text(doc) {
                Some(text) => Ok(clean_explanation(text.as_str())),
                None => Err(ParseError::ExplanationNotFound),
            },
        },
    }
}

/// Text cut at markers is the text up to some place.
pub proof fn lemma_cut_is_prefix(text: Seq<char>, markers: Seq<Seq<char>>)
    ensures
        exists|to: int|
            0 <= to <= text.len() && cut_at_markers(text, markers) == #[trigger] text.take(to),
    decreases markers.len(),
{
    if markers.len() == 0 {
        assert(text.take(text.len() as int) =~= text);
    } else {
        match first_occurrence(text, markers[0]) {
            Some(i) => {
                lemma_first_occurrence(text, markers[0]);
                assert(cut_at_markers(text, markers) == text.take(i));
            },
            None => {
                lemma_cut_is_prefix(text, markers.drop_first());
            },
        }
    }
}

/// A cleaned explanation is tidy: no whitespace at either end, none side by
/// side, none but the space.
pub proof fn law_cleaned_explanation_is_tidy(raw: Seq<char>)
    ensures
        is_tidy(cleaned_explanation(raw)),
{
    let text = collapsed(raw);
    lemma_collapsed_is_tidy(raw);
    lemma_cut_is_prefix(text, end_markers());
    let to = choose|to: int|
        0 <= to <= text.len() && cut_at_markers(text, end_markers()) == #[trigger] text.take(to);
    let cut = text.take(to);
    lemma_trimmed_is_stretch(cut);
    let (a, b) = choose|a: int, b: int|
        0 <= a <= b <= cut.len() && trimmed(cut) == #[trigger] cut.subrange(a, b);
    assert(cut.subrange(a, b) =~= text.subrange(a, b));
    lemma_stretch_of_tidy(text, a, b);
}

} // verus!
