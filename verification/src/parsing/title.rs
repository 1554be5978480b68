//! The title of a page.

use crate::parsing::document::nested_texts_of;
use crate::parsing::document::texts_of;
use crate::parsing::document::Document;
use crate::parsing::text_result_view;
use crate::parsing::ParseError;
use crate::text::before_first;
use crate::text::chars_of;
use crate::text::collapse_whitespace;
use crate::text::collapsed;
use crate::text::first_line;
use crate::text::is_multiline;
use crate::text::is_tidy;
use crate::text::last_segment;
use crate::text::lemma_collapsed_is_tidy;
use crate::text::lemma_tidy_is_one_line;
use crate::text::string_of;
use crate::text::take_before;
use crate::text::take_first_line;
use crate::text::take_last_segment;
use crate::text::trim;
use crate::text::trimmed;
use vstd::prelude::*;

verus! {

/// The title candidate of the centered blocks: given, for each centered
/// block, the texts of its bold runs, the first bold run of the second
/// block where there are exactly two blocks, else of the first block.
pub open spec fn center_title(groups: Seq<Seq<Seq<char>>>) -> Option<Seq<char>> {
    let idx: int = if groups.len() == 2 {
        1
    } else {
        0
    };
    if idx < groups.len() && groups[idx].len() > 0 {
        Some(groups[idx][0])
    } else {
        None
    }
}

/// The title candidate of the page's title elements: what follows the last
/// `" - "` in the first of them.
pub open spec fn title_tag_title(titles: Seq<Seq<char>>) -> Option<Seq<char>> {
    if titles.len() > 0 {
        Some(last_segment(titles[0], " - "@))
    } else {
        None
    }
}

/// A candidate, trimmed; `None` where nothing but whitespace is in it.
pub open spec fn usable(candidate: Option<Seq<char>>) -> Option<Seq<char>> {
    match candidate {
        Some(text) => if trimmed(text).len() > 0 {
            Some(trimmed(text))
        } else {
            None
        },
        None => None,
    }
}

/// A raw title, cleaned: its first line, up to a credit note, with
/// whitespace collapsed.
pub open spec fn cleaned_title(raw: Seq<char>) -> Seq<char> {
    collapsed(before_first(first_line(raw), "Credit:"@))
}

/// The title that two candidates give: the first usable one, cleaned.
pub open spec fn title_from_candidates(center: Option<Seq<char>>, tag: Option<Seq<char>>) -> Result<
    Seq<char>,
    ParseError,
> {
    match usable(center) {
        Some(text) => Ok(cleaned_title(text)),
        None => match usable(tag) {
            Some(text) => Ok(cleaned_title(text)),
            None => Err(ParseError::TitleNotFound),
        },
    }
}

/// The title of the page `html`.
pub open spec fn parsed_title(html: Seq<char>) -> Result<Seq<char>, ParseError> {
    title_from_candidates(
        center_title(nested_texts_of(html, "center"@, "b"@)),
        title_tag_title(texts_of(html, "title"@)),
    )
}

/// The title candidate of the centered blocks, given the texts of the bold
/// runs of each.
pub fn pick_center_title(groups: &Vec<Vec<String>>) -> (r: Option<String>)
    ensures
        r.deep_view() == center_title(groups.deep_view()),
{
    let idx: usize = if groups.len() == 2 {
        1
    } else {
        0
    };
    if idx < groups.len() && groups[idx].len() > 0 {
        assert(groups.deep_view()[idx as int] == groups[idx as int].deep_view());
        assert(groups[idx as int].deep_view()[0] == groups[idx as int][0]@);
        Some(groups[idx][0].clone())
    } else {
        if idx < groups.len() {
            assert(groups.deep_view()[idx as int] == groups[idx as int].deep_view());
        }
        None
    }
}

/// The title candidate of the page's title elements, given their texts.
pub fn pick_title_tag_title(titles: &Vec<String>) -> (r: Option<String>)
    ensures
        r.deep_view() == title_tag_title(titles.deep_view()),
{
    if titles.len() > 0 {
        let text = chars_of(titles[0].as_str());
        let separator = chars_of(" - ");
        let last = take_last_segment(text.as_slice(), separator.as_slice());
        assert(titles.deep_view()[0] == titles[0]@);
        Some(string_of(last.as_slice()))
    } else {
        None
    }
}

pub fn extract_from_center(document: &Document) -> (r: Option<String>)
    ensures
        r.deep_view() == center_title(nested_texts_of(document@, "center"@, "b"@)),
{
    let groups = document.nested_texts("center", "b");
    pick_center_title(&groups)
}

pub fn extract_from_title_tag(document: &Document) -> (r: Option<String>)
    ensures
        r.deep_view() == title_tag_title(texts_of(document@, "title"@)),
{
    let titles = document.texts("title");
    pick_title_tag_title(&titles)
}

/// A raw title, cleaned.
pub fn clean_title(raw: &str) -> (r: String)
    ensures
        r@ == cleaned_title(raw@),
{
    let text = chars_of(raw);
    let cleaned = clean_title_chars(text.as_slice());
    string_of(cleaned.as_slice())
}

fn clean_title_chars(raw: &[char]) -> (r: Vec<char>)
    ensures
        r@ == cleaned_title(raw@),
{
    let line = take_first_line(raw);
    let credit = chars_of("Credit:");
    let head = take_before(line.as_slice(), credit.as_slice());
    collapse_whitespace(head.as_slice())
}

/// A candidate, trimmed; `None` where nothing but whitespace is in it.
fn usable_text(candidate: &Option<String>) -> (r: Option<Vec<char>>)
    ensures
        r.deep_view() == usable(candidate.deep_view()),
{
    match candidate {
        Some(text) => {
            let chars = chars_of(text.as_str());
            let t = trim(chars.as_slice());
            if t.len() > 0 {
                assert(t.deep_view() =~= t@);
                Some(t)
            } else {
                None
            }
        },
        None => None,
    }
}

/// The title that two candidates give: the first one that holds more than
/// whitespace, cleaned; `TitleNotFound` where neither does.
pub fn title_from(center: &Option<String>, tag: &Option<String>) -> (r: Result<String, ParseError>)
    ensures
        text_result_view(r) == title_from_candidates(center.deep_view(), tag.deep_view()),
{
    match usable_text(center) {
        Some(text) => {
            assert(text.deep_view() =~= text@);
            let cleaned = clean_title_chars(text.as_slice());
            Ok(string_of(cleaned.as_slice()))
        },
        None => match usable_text(tag) {
            Some(text) => {
                assert(text.deep_view() =~= text@);
                let cleaned = clean_title_chars(text.as_slice());
                Ok(string_of(cleaned.as_slice()))
            },
            None => Err(ParseError::TitleNotFound),
        },
    }
}

/// The title of a page: from the centered blocks or, failing that, from
/// the title element.
pub fn parse_title(doc: &Document) -> (r: Result<String, ParseError>)
    ensures
        text_result_view(r) == parsed_title(doc@),
{
    let center = extract_from_center(doc);
    match usable_text(&center) {
        Some(text) => {
            assert(text.deep_view() =~= text@);
            let cleaned = clean_title_chars(text.as_slice());
            Ok(string_of(cleaned.as_slice()))
        },
        None => {
            let tag = extract_from_title_tag(doc);
            title_from(&None, &tag)
        },
    }
}

/// A cleaned title is tidy and holds one line: no whitespace at either
/// end, none side by side, none but the space.
pub proof fn law_cleaned_title_is_tidy(raw: Seq<char>)
    ensures
        is_tidy(cleaned_title(raw)),
        !is_multiline(cleaned_title(raw)),
{
    lemma_collapsed_is_tidy(before_first(first_line(raw), "Credit:"@));
    lemma_tidy_is_one_line(cleaned_title(raw));
}

} // verus!
