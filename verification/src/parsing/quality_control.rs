//! Quality control: what is odd about the fields of an entry.

use crate::text::chars_of;
use crate::text::has_adjacent_whitespace;
use crate::text::has_multiple_whitespaces;
use crate::text::has_several_lines;
use crate::text::is_multiline;
use crate::text::is_tidy;
use crate::text::is_whitespace;
use crate::text::is_whitespace_spec;
use crate::text::lemma_tidy_is_one_line;
use crate::ApodEntry;
use crate::ApodEntryView;
use vstd::prelude::*;

verus! {

/// A finding about the text of a field. None of them stops extraction.
#[derive(Debug, Copy, Clone, PartialEq, Eq, Structural, Hash)]
pub enum QualityWarning {
    ContainsHtml,
    EmptyField,
    LeadingWhitespace,
    MultiWhitespace,
    TrailingWhitespace,
    TitleMultiline,
}

/// A set of findings.
#[derive(Debug, Copy, Clone, PartialEq, Eq, Structural, Hash)]
pub struct WarningSet {
    pub contains_html: bool,
    pub empty_field: bool,
    pub leading_whitespace: bool,
    pub multi_whitespace: bool,
    pub trailing_whitespace: bool,
    pub title_multiline: bool,
}

impl View for WarningSet {
    type V = Set<QualityWarning>;

    open spec fn view(&self) -> Set<QualityWarning> {
        Set::new(|w: QualityWarning| self.has(w))
    }
}

impl Default for WarningSet {
    fn default() -> (r: Self)
        ensures
            r@ == Set::<QualityWarning>::empty(),
    {
        WarningSet::new()
    }
}

/// Whether a finding holds of the text of a field.
pub open spec fn string_warns(s: Seq<char>, w: QualityWarning) -> bool {
    match w {
        QualityWarning::ContainsHtml => s.contains('<') || s.contains('>'),
        QualityWarning::EmptyField => s.len() == 0,
        QualityWarning::LeadingWhitespace => s.len() > 0 && is_whitespace_spec(s[0]),
        QualityWarning::MultiWhitespace => has_adjacent_whitespace(s),
        QualityWarning::TrailingWhitespace => s.len() > 0 && is_whitespace_spec(s.last()),
        QualityWarning::TitleMultiline => false,
    }
}

/// Whether a finding holds of a title.
pub open spec fn title_warns(s: Seq<char>, w: QualityWarning) -> bool {
    match w {
        QualityWarning::TitleMultiline => is_multiline(s),
        _ => string_warns(s, w),
    }
}

/// The findings about the text of a field.
pub open spec fn string_warnings(s: Seq<char>) -> Set<QualityWarning> {
    Set::new(|w: QualityWarning| string_warns(s, w))
}

/// The findings about a title.
pub open spec fn title_warnings(s: Seq<char>) -> Set<QualityWarning> {
    Set::new(|w: QualityWarning| title_warns(s, w))
}

/// One where `b` holds, else zero.
pub open spec fn one_if(b: bool) -> nat {
    if b {
        1
    } else {
        0
    }
}

/// The one finding `w` where `b` holds, else none.
pub open spec fn listed_if(b: bool, w: QualityWarning) -> Seq<QualityWarning> {
    if b {
        seq![w]
    } else {
        Seq::empty()
    }
}

impl WarningSet {
    /// Whether a finding is in the set.
    pub open spec fn has(self, w: QualityWarning) -> bool {
        match w {
            QualityWarning::ContainsHtml => self.contains_html,
            QualityWarning::EmptyField => self.empty_field,
            QualityWarning::LeadingWhitespace => self.leading_whitespace,
            QualityWarning::MultiWhitespace => self.multi_whitespace,
            QualityWarning::TrailingWhitespace => self.trailing_whitespace,
            QualityWarning::TitleMultiline => self.title_multiline,
        }
    }

    /// How many findings a set of flags holds.
    pub open spec fn count(self) -> nat {
        one_if(self.contains_html) + one_if(self.empty_field) + one_if(self.leading_whitespace)
            + one_if(self.multi_whitespace) + one_if(self.trailing_whitespace) + one_if(
            self.title_multiline,
        )
    }

    /// The empty set.
    pub fn new() -> (r: Self)
        ensures
            r@ == Set::<QualityWarning>::empty(),
            forall|w: QualityWarning| !r.has(w),
    {
        let r = WarningSet {
            contains_html: false,
            empty_field: false,
            leading_whitespace: false,
            multi_whitespace: false,
            trailing_whitespace: false,
            title_multiline: false,
        };
        assert(r@ =~= Set::<QualityWarning>::empty());
        r
    }

    /// Adds a finding; `true` where it was not in the set before.
    pub fn insert(&mut self, w: QualityWarning) -> (fresh: bool)
        ensures
            final(self)@ == old(self)@.insert(w),
            forall|v: QualityWarning| final(self).has(v) == (v == w || old(self).has(v)),
            fresh == !old(self).has(w),
            final(self).count() == old(self).count() + one_if(fresh),
    {
        let fresh = !self.contains(w);
        match w {
            QualityWarning::ContainsHtml => {
                self.contains_html = true;
            },
            QualityWarning::EmptyField => {
                self.empty_field = true;
            },
            QualityWarning::LeadingWhitespace => {
                self.leading_whitespace = true;
            },
            QualityWarning::MultiWhitespace => {
                self.multi_whitespace = true;
            },
            QualityWarning::TrailingWhitespace => {
                self.trailing_whitespace = true;
            },
            QualityWarning::TitleMultiline => {
                self.title_multiline = true;
            },
        }
        assert(self@ =~= old(self)@.insert(w));
        fresh
    }

    /// Whether a finding is in the set.
    pub fn contains(&self, w: QualityWarning) -> (r: bool)
        ensures
            r == self.has(w),
            r == self@.contains(w),
    {
        match w {
            QualityWarning::ContainsHtml => self.contains_html,
            QualityWarning::EmptyField => self.empty_field,
            QualityWarning::LeadingWhitespace => self.leading_whitespace,
            QualityWarning::MultiWhitespace => self.multi_whitespace,
            QualityWarning::TrailingWhitespace => self.trailing_whitespace,
            QualityWarning::TitleMultiline => self.title_multiline,
        }
    }

    /// How many findings are in the set.
    pub fn len(&self) -> (r: usize)
        ensures
            r == self.count(),
            r == 0 <==> self@ == Set::<QualityWarning>::empty(),
    {
        let mut r: usize = 0;
        if self.contains_html {
            r += 1;
        }
        if self.empty_field {
            r += 1;
        }
        if self.leading_whitespace {
            r += 1;
        }
        if self.multi_whitespace {
            r += 1;
        }
        if self.trailing_whitespace {
            r += 1;
        }
        if self.title_multiline {
            r += 1;
        }
        proof {
            self.lemma_empty();
        }
        r
    }

    /// Whether the set holds no finding.
    pub fn is_empty(&self) -> (r: bool)
        ensures
            r == (self@ == Set::<QualityWarning>::empty()),
            r == forall|w: QualityWarning| !self.has(w),
    {
        proof {
            self.lemma_empty();
        }
        self.len() == 0
    }

    /// The findings of the set, in the order in which the kinds are declared.
    pub open spec fn listed(self) -> Seq<QualityWarning> {
        listed_if(self.contains_html, QualityWarning::ContainsHtml) + listed_if(
            self.empty_field,
            QualityWarning::EmptyField,
        ) + listed_if(self.leading_whitespace, QualityWarning::LeadingWhitespace) + listed_if(
            self.multi_whitespace,
            QualityWarning::MultiWhitespace,
        ) + listed_if(self.trailing_whitespace, QualityWarning::TrailingWhitespace) + listed_if(
            self.title_multiline,
            QualityWarning::TitleMultiline,
        )
    }

    /// The findings of the set, in the order in which the kinds are declared.
    pub fn to_vec(&self) -> (r: Vec<QualityWarning>)
        ensures
            r@ == self.listed(),
    {
        let mut r: Vec<QualityWarning> = Vec::new();
        if self.contains_html {
            r.push(QualityWarning::ContainsHtml);
        }
        if self.empty_field {
            r.push(QualityWarning::EmptyField);
        }
        if self.leading_whitespace {
            r.push(QualityWarning::LeadingWhitespace);
        }
        if self.multi_whitespace {
            r.push(QualityWarning::MultiWhitespace);
        }
        if self.trailing_whitespace {
            r.push(QualityWarning::TrailingWhitespace);
        }
        if self.title_multiline {
            r.push(QualityWarning::TitleMultiline);
        }
        assert(r@ =~= self.listed());
        r
    }

    /// A set of flags holds no finding just when it counts none.
    pub proof fn lemma_empty(self)
        ensures
            self.count() == 0 <==> self@ == Set::<QualityWarning>::empty(),
            self.count() == 0 <==> forall|w: QualityWarning| !self.has(w),
    {
        if self.count() == 0 {
            assert(self@ =~= Set::<QualityWarning>::empty());
        } else {
            let w = if self.contains_html {
                QualityWarning::ContainsHtml
            } else if self.empty_field {
                QualityWarning::EmptyField
            } else if self.leading_whitespace {
                QualityWarning::LeadingWhitespace
            } else if self.multi_whitespace {
                QualityWarning::MultiWhitespace
            } else if self.trailing_whitespace {
                QualityWarning::TrailingWhitespace
            } else {
                QualityWarning::TitleMultiline
            };
            assert(self.has(w));
            assert(self@.contains(w));
        }
        if forall|w: QualityWarning| !self.has(w) {
            assert(!self.has(QualityWarning::ContainsHtml));
            assert(!self.has(QualityWarning::EmptyField));
            assert(!self.has(QualityWarning::LeadingWhitespace));
            assert(!self.has(QualityWarning::MultiWhitespace));
            assert(!self.has(QualityWarning::TrailingWhitespace));
            assert(!self.has(QualityWarning::TitleMultiline));
        }
    }
}

/// Whether `c` stands in `s`.
fn has_char(s: &[char], c: char) -> (r: bool)
    ensures
        r == s@.contains(c),
{
    let mut i: usize = 0;
    while i < s.len()
        invariant
            i <= s.len(),
            forall|k: int| 0 <= k < i ==> s[k] != c,
        decreases s.len() - i,
    {
        if s[i] == c {
            return true;
        }
        i += 1;
    }
    false
}

/// Adds to `warnings` what is odd about the text of a field: markup left in
/// it, emptiness, whitespace at either end, whitespace side by side.
pub fn quality_control_string(string: &str, warnings: &mut WarningSet)
    ensures
        final(warnings)@ == old(warnings)@.union(string_warnings(string@)),
        forall|w: QualityWarning|
            final(warnings).has(w) == (old(warnings).has(w) || string_warns(string@, w)),
{
    let s = chars_of(string);
    if has_char(s.as_slice(), '<') || has_char(s.as_slice(), '>') {
        warnings.insert(QualityWarning::ContainsHtml);
    }
    if s.len() == 0 {
        warnings.insert(QualityWarning::EmptyField);
    }
    if s.len() > 0 && is_whitespace(s[0]) {
        warnings.insert(QualityWarning::LeadingWhitespace);
    }
    if s.len() > 0 && is_whitespace(s[s.len() - 1]) {
        warnings.insert(QualityWarning::TrailingWhitespace);
    }
    if has_multiple_whitespaces(s.as_slice()) {
        warnings.insert(QualityWarning::MultiWhitespace);
    }
    assert forall|w: QualityWarning|
        warnings.has(w) == (old(warnings).has(w) || string_warns(string@, w)) by {
        match w {
            QualityWarning::ContainsHtml => {},
            QualityWarning::EmptyField => {},
            QualityWarning::LeadingWhitespace => {},
            QualityWarning::MultiWhitespace => {},
            QualityWarning::TrailingWhitespace => {},
            QualityWarning::TitleMultiline => {},
        }
    }
    assert(warnings@ =~= old(warnings)@.union(string_warnings(string@)));
}

/// Adds to `warnings` what is odd about a title: what is odd about any
/// text, and a title of more than one line.
pub fn quality_control_title(title: &str, warnings: &mut WarningSet)
    ensures
        final(warnings)@ == old(warnings)@.union(title_warnings(title@)),
        forall|w: QualityWarning|
            final(warnings).has(w) == (old(warnings).has(w) || title_warns(title@, w)),
{
    quality_control_string(title, warnings);
    let s = chars_of(title);
    if has_several_lines(s.as_slice()) {
        warnings.insert(QualityWarning::TitleMultiline);
    }
    assert forall|w: QualityWarning|
        warnings.has(w) == (old(warnings).has(w) || title_warns(title@, w)) by {
        match w {
            QualityWarning::ContainsHtml => {},
            QualityWarning::EmptyField => {},
            QualityWarning::LeadingWhitespace => {},
            QualityWarning::MultiWhitespace => {},
            QualityWarning::TrailingWhitespace => {},
            QualityWarning::TitleMultiline => {},
        }
    }
    assert(warnings@ =~= old(warnings)@.union(title_warnings(title@)));
}

/// What is odd about an entry: the findings about its title. The other
/// fields are not inspected. The result depends on the title alone, so two
/// inspections of one entry give the same set.
pub fn quality_control(entry: &ApodEntry) -> (r: WarningSet)
    ensures
        r@ == title_warnings(entry@.title),
        forall|w: QualityWarning| r.has(w) == title_warns(entry@.title, w),
{
    let mut warnings = WarningSet::new();
    quality_control_title(entry.title.as_str(), &mut warnings);
    assert(warnings@ =~= title_warnings(entry@.title));
    warnings
}

/// About tidy text, quality control can find only that it is empty or
/// holds markup: nothing about its whitespace or its lines.
pub proof fn law_tidy_text_draws_no_whitespace_finding(s: Seq<char>, w: QualityWarning)
    requires
        is_tidy(s),
        title_warns(s, w) || string_warns(s, w),
    ensures
        w == QualityWarning::ContainsHtml || w == QualityWarning::EmptyField,
{
    lemma_tidy_is_one_line(s);
}

/// Quality control is pure: two inspections of entries that hold the same
/// give the same set of findings.
pub proof fn law_inspection_is_pure(
    first: ApodEntryView,
    second: ApodEntryView,
    found_first: Set<QualityWarning>,
    found_second: Set<QualityWarning>,
)
    requires
        first == second,
        found_first == title_warnings(first.title),
        found_second == title_warnings(second.title),
    ensures
        found_first == found_second,
{
}

} // verus!
