//! What one run of the report tool comes to.
use crate::report::{extract_report, field_text, sunrise_of, sunset_of, Extraction};
use vstd::prelude::*;
use vstd::utf8::{decode_utf8, valid_utf8};

verus! {

/// The text that `String::from_utf8_lossy` makes of a byte sequence.
pub uninterp spec fn utf8_lossy(b: Seq<u8>) -> Seq<char>;

/// Relies on `String::from_utf8_lossy`: it decodes `b` as UTF-8, putting
/// U+FFFD in place of each invalid sequence, so valid input decodes as is.
#[verifier::external_body]
fn decode_lossy(b: &[u8]) -> (r: String)
    ensures
        r@ == utf8_lossy(b@),
        valid_utf8(b@) ==> r@ == decode_utf8(b@),
{
    String::from_utf8_lossy(b).into_owned()
}

/// Extracts the sunrise and sunset fields from a report's raw bytes.
pub fn extract_report_bytes(stdout: &[u8]) -> (r: Extraction)
    ensures
        r.sunrise@ == sunrise_of(utf8_lossy(stdout@)),
        r.sunset@ == sunset_of(utf8_lossy(stdout@)),
{
    let text = decode_lossy(stdout);
    extract_report(text.as_str())
}

/// The pair of output texts that a run gives: the sunrise and sunset times of
/// its report when it succeeded, two empty texts when it failed.
pub open spec fn day_fields(success: bool, stdout: Seq<u8>) -> (Seq<char>, Seq<char>) {
    if success {
        (
            field_text(sunrise_of(utf8_lossy(stdout))),
            field_text(sunset_of(utf8_lossy(stdout))),
        )
    } else {
        (seq![], seq![])
    }
}

/// A failed run gives two empty texts, whatever its output held.
pub proof fn lemma_failed_run_gives_empty_fields(stdout: Seq<u8>)
    ensures
        day_fields(false, stdout) == (Seq::<char>::empty(), Seq::<char>::empty()),
{
}

/// The meaning of one finished run of the report tool.
pub enum ReportOutcome {
    /// The tool succeeded; the fields read from its report.
    Extracted(Extraction),
    /// The tool failed; its error output, to be passed on as it is.
    Failed(Vec<u8>),
}

impl ReportOutcome {
    pub open spec fn spec_day_start(&self) -> Seq<char> {
        match self {
            ReportOutcome::Extracted(e) => field_text(e.sunrise@),
            ReportOutcome::Failed(_) => seq![],
        }
    }

    pub open spec fn spec_day_end(&self) -> Seq<char> {
        match self {
            ReportOutcome::Extracted(e) => field_text(e.sunset@),
            ReportOutcome::Failed(_) => seq![],
        }
    }

    pub open spec fn spec_error_text(&self) -> Seq<u8> {
        match self {
            ReportOutcome::Extracted(_) => seq![],
            ReportOutcome::Failed(err) => err@,
        }
    }

    /// The sunrise time, or an empty string.
    pub fn day_start(&self) -> (r: String)
        ensures
            r@ == self.spec_day_start(),
    {
        match self {
            ReportOutcome::Extracted(e) => e.sunrise.text(),
            ReportOutcome::Failed(_) => String::new(),
        }
    }

    /// The sunset time, or an empty string.
    pub fn day_end(&self) -> (r: String)
        ensures
            r@ == self.spec_day_end(),
    {
        match self {
            ReportOutcome::Extracted(e) => e.sunset.text(),
            ReportOutcome::Failed(_) => String::new(),
        }
    }

    /// The error output to surface: the failed tool's, or nothing.
    pub fn error_text(&self) -> (r: Vec<u8>)
        ensures
            r@ == self.spec_error_text(),
    {
        match self {
            ReportOutcome::Extracted(_) => Vec::new(),
            ReportOutcome::Failed(err) => err.clone(),
        }
    }
}

/// A vector holding the bytes of `b`.
fn copy_bytes(b: &[u8]) -> (r: Vec<u8>)
    ensures
        r@ == b@,
{
    let mut r: Vec<u8> = Vec::new();
    let mut i: usize = 0;
    while i < b.len()
        invariant
            i <= b@.len(),
            r@ == b@.take(i as int),
        decreases b@.len() - i,
    {
        r.push(b[i]);
        i += 1;
        assert(b@.take(i as int) == b@.take(i - 1).push(b@[i - 1]));
    }
    assert(b@.take(b@.len() as int) == b@);
    r
}

/// Decides what a finished run means from its exit status and its captured
/// standard output and standard error.
pub fn interpret_report(success: bool, stdout: &[u8], stderr: &[u8]) -> (r: ReportOutcome)
    ensures
        success <==> r is Extracted,
        r matches ReportOutcome::Extracted(e) ==> e.sunrise@ == sunrise_of(utf8_lossy(stdout@))
            && e.sunset@ == sunset_of(utf8_lossy(stdout@)),
        (r.spec_day_start(), r.spec_day_end()) == day_fields(success, stdout@),
        r.spec_error_text() == if success {
            seq![]
        } else {
            stderr@
        },
{
    if success {
        ReportOutcome::Extracted(extract_report_bytes(stdout))
    } else {
        ReportOutcome::Failed(copy_bytes(stderr))
    }
}

} // verus!
