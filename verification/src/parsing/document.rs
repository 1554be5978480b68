//! A parsed page, and the questions the extractor asks of it.
//!
//! Parsing and selecting are the work of `scraper`. A `Document` stands for
//! the text it was parsed from, and every answer is named as a function of
//! that text and of the selectors.

use scraper::Html;
use scraper::Selector;
use vstd::prelude::*;

verus! {

/// `scraper::Html`: the tree of a parsed page. Nothing is read from it
/// here but through the calls below.
#[verifier::external_type_specification]
#[verifier::external_body]
pub struct ExHtml(scraper::Html);

/// The text that a tree was parsed from.
pub uninterp spec fn parsed_source(tree: Html) -> Seq<char>;

/// For each element of the page `html` that matches `selector`, in the
/// order in which `scraper` selects from a document, the text inside it;
/// `None` where `selector` is no selector.
pub uninterp spec fn selected_texts(html: Seq<char>, selector: Seq<char>) -> Option<
    Seq<Seq<char>>,
>;

/// For each element of the page `html` that matches `selector`, the value
/// of its attribute `attribute`, where it has one; `None` where `selector`
/// is no selector.
pub uninterp spec fn selected_attributes(
    html: Seq<char>,
    selector: Seq<char>,
    attribute: Seq<char>,
) -> Option<Seq<Option<Seq<char>>>>;

/// For each element of the page `html` that matches `outer`, the texts of
/// the elements below it that match `inner`, in document order; `None`
/// where either is no selector.
pub uninterp spec fn selected_nested_texts(
    html: Seq<char>,
    outer: Seq<char>,
    inner: Seq<char>,
) -> Option<Seq<Seq<Seq<char>>>>;

/// For each element of the page `html` that matches `outer`, the values of
/// the attribute `attribute` of the elements below it that match `inner`,
/// in document order; `None` where either is no selector.
pub uninterp spec fn selected_nested_attributes(
    html: Seq<char>,
    outer: Seq<char>,
    inner: Seq<char>,
    attribute: Seq<char>,
) -> Option<Seq<Seq<Option<Seq<char>>>>>;

/// All the text inside the root element of the page `html`.
pub uninterp spec fn root_text(html: Seq<char>) -> Seq<char>;

/// The texts of the elements that match `selector`; none where `selector`
/// is no selector.
pub open spec fn texts_of(html: Seq<char>, selector: Seq<char>) -> Seq<Seq<char>> {
    match selected_texts(html, selector) {
        Some(texts) => texts,
        None => Seq::empty(),
    }
}

/// The attribute values of the elements that match `selector`; none where
/// `selector` is no selector.
pub open spec fn attributes_of(html: Seq<char>, selector: Seq<char>, attribute: Seq<char>) -> Seq<
    Option<Seq<char>>,
> {
    match selected_attributes(html, selector, attribute) {
        Some(values) => values,
        None => Seq::empty(),
    }
}

/// The texts found below each element that matches `outer`; none where a
/// selector is none.
pub open spec fn nested_texts_of(html: Seq<char>, outer: Seq<char>, inner: Seq<char>) -> Seq<
    Seq<Seq<char>>,
> {
    match selected_nested_texts(html, outer, inner) {
        Some(groups) => groups,
        None => Seq::empty(),
    }
}

/// The attribute values found below each element that matches `outer`;
/// none where a selector is none.
pub open spec fn nested_attributes_of(
    html: Seq<char>,
    outer: Seq<char>,
    inner: Seq<char>,
    attribute: Seq<char>,
) -> Seq<Seq<Option<Seq<char>>>> {
    match selected_nested_attributes(html, outer, inner, attribute) {
        Some(groups) => groups,
        None => Seq::empty(),
    }
}

/// `scraper::Html::parse_document`: the tree of the page `html`.
#[verifier::external_body]
fn parse_tree(html: &str) -> (tree: Html)
    ensures
        parsed_source(tree) == html@,
{
    Html::parse_document(html)
}

/// `scraper::Html::select` under the selector that
/// `scraper::Selector::parse` reads from `selector`, with
/// `scraper::ElementRef::text` gathered for each element selected.
#[verifier::external_body]
fn select_texts(tree: &Html, selector: &str) -> (r: Option<Vec<String>>)
    ensures
        r.deep_view() == selected_texts(parsed_source(*tree), selector@),
{
    let selector = Selector::parse(selector).ok()?;
    Some(tree.select(&selector).map(|e| e.text().collect::<String>()).collect())
}

/// `scraper::Html::select` under the selector read from `selector`, with
/// `scraper::ElementRef::attr` asked of each element selected.
#[verifier::external_body]
fn select_attributes(tree: &Html, selector: &str, attribute: &str) -> (r: Option<
    Vec<Option<String>>,
>)
    ensures
        r.deep_view() == selected_attributes(parsed_source(*tree), selector@, attribute@),
{
    let selector = Selector::parse(selector).ok()?;
    Some(tree.select(&selector).map(|e| e.attr(attribute).map(String::from)).collect())
}

/// `scraper::Html::select` under `outer`, and for each element selected
/// `scraper::ElementRef::select` under `inner`, with the text gathered for
/// each element found there.
#[verifier::external_body]
fn select_nested_texts(tree: &Html, outer: &str, inner: &str) -> (r: Option<Vec<Vec<String>>>)
    ensures
        r.deep_view() == selected_nested_texts(parsed_source(*tree), outer@, inner@),
{
    let outer = Selector::parse(outer).ok()?;
    let inner = Selector::parse(inner).ok()?;
    Some(
        tree.select(&outer).map(
            |e| e.select(&inner).map(|i| i.text().collect::<String>()).collect(),
        ).collect(),
    )
}

/// `scraper::Html::select` under `outer`, and for each element selected
/// `scraper::ElementRef::select` under `inner`, with the attribute asked of
/// each element found there.
#[verifier::external_body]
fn select_nested_attributes(tree: &Html, outer: &str, inner: &str, attribute: &str) -> (r: Option<
    Vec<Vec<Option<String>>>,
>)
    ensures
        r.deep_view() == selected_nested_attributes(
            parsed_source(*tree),
            outer@,
            inner@,
            attribute@,
        ),
{
    let outer = Selector::parse(outer).ok()?;
    let inner = Selector::parse(inner).ok()?;
    Some(
        tree.select(&outer).map(
            |e| e.select(&inner).map(|i| i.attr(attribute).map(String::from)).collect(),
        ).collect(),
    )
}

/// `scraper::Html::root_element`, with its text gathered. A tree that was
/// parsed from a page always has a root element.
#[verifier::external_body]
fn select_root_text(tree: &Html) -> (r: String)
    ensures
        r@ == root_text(parsed_source(*tree)),
{
    tree.root_element().text().collect::<String>()
}

/// A page, parsed.
pub struct Document {
    tree: Html,
}

impl View for Document {
    type V = Seq<char>;

    /// The text of the page.
    closed spec fn view(&self) -> Seq<char> {
        parsed_source(self.tree)
    }
}

impl Document {
    /// Parses the page `html`. Parsing never fails: markup that is not well
    /// formed is read as a browser would read it.
    pub fn parse(html: &str) -> (doc: Document)
        ensures
            doc@ == html@,
    {
        Document { tree: parse_tree(html) }
    }

    /// The text inside each element that matches `selector`.
    pub fn texts(&self, selector: &str) -> (r: Vec<String>)
        ensures
            r.deep_view() == texts_of(self@, selector@),
    {
        match select_texts(&self.tree, selector) {
            Some(texts) => texts,
            None => {
                let r: Vec<String> = Vec::new();
                assert(r.deep_view() =~= Seq::empty());
                r
            },
        }
    }

    /// The value of `attribute` on each element that matches `selector`.
    pub fn attributes(&self, selector: &str, attribute: &str) -> (r: Vec<Option<String>>)
        ensures
            r.deep_view() == attributes_of(self@, selector@, attribute@),
    {
        match select_attributes(&self.tree, selector, attribute) {
            Some(values) => values,
            None => {
                let r: Vec<Option<String>> = Vec::new();
                assert(r.deep_view() =~= Seq::empty());
                r
            },
        }
    }

    /// For each element that matches `outer`, the texts of the elements
    /// below it that match `inner`.
    pub fn nested_texts(&self, outer: &str, inner: &str) -> (r: Vec<Vec<String>>)
        ensures
            r.deep_view() == nested_texts_of(self@, outer@, inner@),
    {
        match select_nested_texts(&self.tree, outer, inner) {
            Some(groups) => groups,
            None => {
                let r: Vec<Vec<String>> = Vec::new();
                assert(r.deep_view() =~= Seq::empty());
                r
            },
        }
    }

    /// For each element that matches `outer`, the values of `attribute` on
    /// the elements below it that match `inner`.
    pub fn nested_attributes(&self, outer: &str, inner: &str, attribute: &str) -> (r: Vec<
        Vec<Option<String>>,
    >)
        ensures
            r.deep_view() == nested_attributes_of(self@, outer@, inner@, attribute@),
    {
        match select_nested_attributes(&self.tree, outer, inner, attribute) {
            Some(groups) => groups,
            None => {
                let r: Vec<Vec<Option<String>>> = Vec::new();
                assert(r.deep_view() =~= Seq::empty());
                r
            },
        }
    }

    /// All the text of the page.
    pub fn full_text(&self) -> (r: String)
        ensures
            r@ == root_text(self@),
    {
        select_root_text(&self.tree)
    }
}

} // verus!
