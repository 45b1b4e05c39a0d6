//! Reading the sunrise and sunset times out of a solar report.
use crate::text::{
    chars_of, has_prefix, lemma_squeezed_keeps_prefix, lemma_squeezed_tokens, lines, nth_token,
    single_spaced, split_lines, squeezed, starts_with, string_of, tokens,
};
use vstd::prelude::*;

verus! {

/// The start of the report line that gives the sunrise.
pub open spec fn sunrise_marker() -> Seq<char> {
    seq!['S', 'u', 'n', 'r', 'i', 's', 'e', ' ', 'i', 's', ' ', 'a', 't', ':']
}

/// The start of the report line that gives the sunset.
pub open spec fn sunset_marker() -> Seq<char> {
    seq!['S', 'u', 'n', 's', 'e', 't', ' ', 'i', 's', ' ', 'a', 't', ':']
}

/// Position of the time among the tokens of a report line:
/// `Sunrise is at: <date> <time> <offset>`.
pub open spec fn time_slot() -> int {
    4
}

/// What the report says of one field, as a value.
pub enum FieldView {
    /// No line of the report starts with the field's marker.
    Missing,
    /// The last line with the marker has no token at the time's position.
    Malformed,
    /// The time token of the last line with the marker.
    Time(Seq<char>),
}

/// What the report says of one field.
pub enum Field {
    Missing,
    Malformed,
    Time(String),
}

impl View for Field {
    type V = FieldView;

    open spec fn view(&self) -> FieldView {
        match self {
            Field::Missing => FieldView::Missing,
            Field::Malformed => FieldView::Malformed,
            Field::Time(t) => FieldView::Time(t@),
        }
    }
}

/// The time read from a line that carries a marker.
pub open spec fn time_of(line: Seq<char>) -> FieldView {
    if tokens(line).len() > time_slot() {
        FieldView::Time(tokens(line)[time_slot()])
    } else {
        FieldView::Malformed
    }
}

/// The field given by the last of `ls` that starts with `marker`.
pub open spec fn scan_field(ls: Seq<Seq<char>>, marker: Seq<char>) -> FieldView
    decreases ls.len(),
{
    if ls.len() == 0 {
        FieldView::Missing
    } else if starts_with(ls.last(), marker) {
        time_of(ls.last())
    } else {
        scan_field(ls.drop_last(), marker)
    }
}

/// The text that stands for a field in the output: the time, or nothing.
pub open spec fn field_text(f: FieldView) -> Seq<char> {
    match f {
        FieldView::Time(t) => t,
        _ => seq![],
    }
}

/// The sunrise field of a report text.
pub open spec fn sunrise_of(report: Seq<char>) -> FieldView {
    scan_field(lines(report), sunrise_marker())
}

/// The sunset field of a report text.
pub open spec fn sunset_of(report: Seq<char>) -> FieldView {
    scan_field(lines(report), sunset_marker())
}

proof fn lemma_markers_single_spaced()
    ensures
        single_spaced(sunrise_marker()),
        single_spaced(sunset_marker()),
{
    assert(single_spaced(sunrise_marker()));
    assert(single_spaced(sunset_marker()));
}

/// Runs of whitespace read as one space: a report line that carries a marker
/// still carries it, and gives the same time, once every run of whitespace in
/// it is squeezed into a single space.
pub proof fn lemma_whitespace_runs_read_as_one(line: Seq<char>, marker: Seq<char>)
    requires
        marker == sunrise_marker() || marker == sunset_marker(),
        starts_with(line, marker),
    ensures
        starts_with(squeezed(line), marker),
        time_of(squeezed(line)) == time_of(line),
{
    lemma_markers_single_spaced();
    lemma_squeezed_keeps_prefix(line, marker);
    lemma_squeezed_tokens(line);
}

/// A report with no sunrise line gives no sunrise time, whatever its other
/// lines say.
pub proof fn lemma_no_sunrise_line(report: Seq<char>)
    requires
        forall|i: int| 0 <= i < lines(report).len() ==> !starts_with(#[trigger] lines(report)[i], sunrise_marker()),
    ensures
        sunrise_of(report) == FieldView::Missing,
        field_text(sunrise_of(report)) == Seq::<char>::empty(),
{
    lemma_scan_without_marker(lines(report), sunrise_marker());
}

proof fn lemma_scan_without_marker(ls: Seq<Seq<char>>, marker: Seq<char>)
    requires
        forall|i: int| 0 <= i < ls.len() ==> !starts_with(#[trigger] ls[i], marker),
    ensures
        scan_field(ls, marker) == FieldView::Missing,
    decreases ls.len(),
{
    if ls.len() > 0 {
        assert(!starts_with(ls[ls.len() - 1], marker));
        lemma_scan_without_marker(ls.drop_last(), marker);
    }
}

impl Field {
    /// The output text of the field: the time, or an empty string.
    pub fn text(&self) -> (r: String)
        ensures
            r@ == field_text(self@),
    {
        match self {
            Field::Time(t) => t.clone(),
            _ => String::new(),
        }
    }

    /// Whether a line carried the field's marker without a time.
    pub fn is_malformed(&self) -> (r: bool)
        ensures
            r == (self@ is Malformed),
    {
        match self {
            Field::Malformed => true,
            _ => false,
        }
    }
}

/// The two fields read from one report.
pub struct Extraction {
    pub sunrise: Field,
    pub sunset: Field,
}

fn sunrise_marker_chars() -> (r: Vec<char>)
    ensures
        r@ == sunrise_marker(),
{
    let r = vec!['S', 'u', 'n', 'r', 'i', 's', 'e', ' ', 'i', 's', ' ', 'a', 't', ':'];
    assert(r@ == sunrise_marker());
    r
}

fn sunset_marker_chars() -> (r: Vec<char>)
    ensures
        r@ == sunset_marker(),
{
    let r = vec!['S', 'u', 'n', 's', 'e', 't', ' ', 'i', 's', ' ', 'a', 't', ':'];
    assert(r@ == sunset_marker());
    r
}

/// The field that a line with a marker gives.
fn read_time(line: &Vec<char>) -> (r: Field)
    ensures
        r@ == time_of(line@),
{
    match nth_token(line, 4) {
        Some(t) => Field::Time(string_of(&t)),
        None => Field::Malformed,
    }
}

/// Extracts the sunrise and sunset fields from a report text: for each, the
/// last line that starts with its marker decides.
pub fn extract_report(report: &str) -> (r: Extraction)
    ensures
        r.sunrise@ == sunrise_of(report@),
        r.sunset@ == sunset_of(report@),
{
    let chars = chars_of(report);
    let ls = split_lines(&chars);
    let ghost lv = ls@.map_values(|l: Vec<char>| l@);
    let rise_marker = sunrise_marker_chars();
    let set_marker = sunset_marker_chars();
    let mut sunrise = Field::Missing;
    let mut sunset = Field::Missing;
    let mut i: usize = 0;
    while i < ls.len()
        invariant
            i <= ls.len(),
            lv == ls@.map_values(|l: Vec<char>| l@),
            lv == lines(report@),
            rise_marker@ == sunrise_marker(),
            set_marker@ == sunset_marker(),
            sunrise@ == scan_field(lv.take(i as int), sunrise_marker()),
            sunset@ == scan_field(lv.take(i as int), sunset_marker()),
        decreases ls.len() - i,
    {
        let line = &ls[i];
        assert(lv.take(i + 1).drop_last() == lv.take(i as int));
        assert(lv.take(i + 1).last() == line@);
        if has_prefix(line, &rise_marker) {
            sunrise = read_time(line);
        }
        if has_prefix(line, &set_marker) {
            sunset = read_time(line);
        }
        i += 1;
    }
    assert(lv.take(ls.len() as int) == lv);
    Extraction { sunrise, sunset }
}

} // verus!
