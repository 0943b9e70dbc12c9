//! The engine's merge analysis and the one verdict that a pull reads off it.
use vstd::prelude::*;

verus! {

/// The flag of an analysis that found no merge possible. It has no bit.
pub const ANALYSIS_NONE: u32 = 0;

/// The flag of histories that have diverged and need a real merge.
pub const ANALYSIS_NORMAL: u32 = 1;

/// The flag of a branch that already holds everything of the other side.
pub const ANALYSIS_UP_TO_DATE: u32 = 2;

/// The flag of a branch that can be moved forward to the other side.
pub const ANALYSIS_FASTFORWARD: u32 = 4;

/// The flag of a branch that has no commit yet.
pub const ANALYSIS_UNBORN: u32 = 8;

/// Whether an analysis with these bits has a bit of `flag` set.
pub open spec fn intersects(bits: u32, flag: u32) -> bool {
    bits & flag != 0
}

/// Calls `git2::MergeAnalysis::is_none` on the analysis made of `bits`. The
/// claim: it answers whether the analysis shares a bit with the flag
/// `ANALYSIS_NONE`, and bits that belong to no flag do not count.
#[verifier::external_body]
fn analysis_is_none(bits: u32) -> (r: bool)
    ensures
        r == intersects(bits, ANALYSIS_NONE),
{
    git2::MergeAnalysis::from_bits_truncate(bits).is_none()
}

/// Calls `git2::MergeAnalysis::is_normal` on the analysis made of `bits`. The
/// claim: it answers whether the analysis shares a bit with the flag
/// `ANALYSIS_NORMAL`, and bits that belong to no flag do not count.
#[verifier::external_body]
fn analysis_is_normal(bits: u32) -> (r: bool)
    ensures
        r == intersects(bits, ANALYSIS_NORMAL),
{
    git2::MergeAnalysis::from_bits_truncate(bits).is_normal()
}

/// Calls `git2::MergeAnalysis::is_up_to_date` on the analysis made of `bits`.
/// The claim: it answers whether the analysis shares a bit with the flag
/// `ANALYSIS_UP_TO_DATE`, and bits that belong to no flag do not count.
#[verifier::external_body]
fn analysis_is_up_to_date(bits: u32) -> (r: bool)
    ensures
        r == intersects(bits, ANALYSIS_UP_TO_DATE),
{
    git2::MergeAnalysis::from_bits_truncate(bits).is_up_to_date()
}

/// Calls `git2::MergeAnalysis::is_fast_forward` on the analysis made of
/// `bits`. The claim: it answers whether the analysis shares a bit with the
/// flag `ANALYSIS_FASTFORWARD`, and bits that belong to no flag do not count.
#[verifier::external_body]
fn analysis_is_fast_forward(bits: u32) -> (r: bool)
    ensures
        r == intersects(bits, ANALYSIS_FASTFORWARD),
{
    git2::MergeAnalysis::from_bits_truncate(bits).is_fast_forward()
}

/// Calls `git2::MergeAnalysis::is_unborn` on the analysis made of `bits`. The
/// claim: it answers whether the analysis shares a bit with the flag
/// `ANALYSIS_UNBORN`, and bits that belong to no flag do not count.
#[verifier::external_body]
fn analysis_is_unborn(bits: u32) -> (r: bool)
    ensures
        r == intersects(bits, ANALYSIS_UNBORN),
{
    git2::MergeAnalysis::from_bits_truncate(bits).is_unborn()
}

/// What a pull makes of an analysis.
#[derive(Clone, Copy, Debug, PartialEq, Eq, Structural)]
pub enum Verdict {
    /// No merge is possible.
    NoMerge,
    /// The histories have diverged; a real merge is needed.
    Normal,
    /// The branch holds everything of its upstream.
    UpToDate,
    /// The branch can be moved forward to its upstream.
    FastForward,
    /// The branch has no commit yet.
    Unborn,
}

/// The result of a merge analysis: a combination of flags, several of which
/// can be set at once.
#[derive(Clone, Copy, Debug, PartialEq, Eq, Structural)]
pub struct MergeAnalysis {
    pub bits: u32,
}

impl MergeAnalysis {
    /// The verdict of the analysis. The flags are asked in a fixed order and
    /// the first that is set decides: none, normal, up to date, fast-forward,
    /// unborn. An analysis with none of them has no verdict.
    pub open spec fn verdict(self) -> Option<Verdict> {
        if intersects(self.bits, ANALYSIS_NONE) {
            Some(Verdict::NoMerge)
        } else if intersects(self.bits, ANALYSIS_NORMAL) {
            Some(Verdict::Normal)
        } else if intersects(self.bits, ANALYSIS_UP_TO_DATE) {
            Some(Verdict::UpToDate)
        } else if intersects(self.bits, ANALYSIS_FASTFORWARD) {
            Some(Verdict::FastForward)
        } else if intersects(self.bits, ANALYSIS_UNBORN) {
            Some(Verdict::Unborn)
        } else {
            None
        }
    }

    /// Reads the verdict off the analysis.
    pub fn classify(&self) -> (r: Option<Verdict>)
        ensures
            r == self.verdict(),
    {
        if analysis_is_none(self.bits) {
            Some(Verdict::NoMerge)
        } else if analysis_is_normal(self.bits) {
            Some(Verdict::Normal)
        } else if analysis_is_up_to_date(self.bits) {
            Some(Verdict::UpToDate)
        } else if analysis_is_fast_forward(self.bits) {
            Some(Verdict::FastForward)
        } else if analysis_is_unborn(self.bits) {
            Some(Verdict::Unborn)
        } else {
            None
        }
    }
}

/// The table of verdicts leaves no analysis out and gives none two verdicts.
/// The lowest flag that is set decides, whatever else is set: normal before up
/// to date, before fast-forward, before unborn. An analysis has a verdict
/// exactly if one of these four flags is set, and the flag without a bit never
/// decides.
pub proof fn verdict_follows_the_first_flag(analysis: MergeAnalysis)
    ensures
        analysis.verdict() != Some(Verdict::NoMerge),
        analysis.verdict() == Some(Verdict::Normal) <==> analysis.bits & 1 != 0,
        analysis.verdict() == Some(Verdict::UpToDate) <==> analysis.bits & 3 == 2,
        analysis.verdict() == Some(Verdict::FastForward) <==> analysis.bits & 7 == 4,
        analysis.verdict() == Some(Verdict::Unborn) <==> analysis.bits & 15 == 8,
        analysis.verdict() is None <==> analysis.bits & 15 == 0,
{
    let bits = analysis.bits;
    assert(bits & 0 == 0) by (bit_vector);
    assert((bits & 3 == 2) <==> (bits & 1 == 0 && bits & 2 != 0)) by (bit_vector);
    assert((bits & 7 == 4) <==> (bits & 1 == 0 && bits & 2 == 0 && bits & 4 != 0))
        by (bit_vector);
    assert((bits & 15 == 8) <==> (bits & 1 == 0 && bits & 2 == 0 && bits & 4 == 0 && bits & 8
        != 0)) by (bit_vector);
    assert((bits & 15 == 0) <==> (bits & 1 == 0 && bits & 2 == 0 && bits & 4 == 0 && bits & 8
        == 0)) by (bit_vector);
}

} // verus!
