//! The pass over every source that exists when the watcher starts.

use vstd::prelude::*;
use crate::aux_files::{is_source, is_svg_file};
use crate::error::AppError;
use crate::text::texts;

verus! {

/// One entry that the pass over the watch root came upon.
#[derive(Debug, Clone, PartialEq, Eq)]
pub struct Found {
    pub path: String,
    pub is_dir: bool,
}

/// How the startup pass went.
#[derive(Debug, Clone, Copy, PartialEq, Eq, Structural)]
pub struct BatchReport {
    /// How many sources were tried.
    pub attempted: usize,
    /// How many of them failed.
    pub failed: usize,
}

/// The paths of the sources among the first `n` entries, in the order of
/// the entries.
pub open spec fn sources_among(entries: Seq<Found>, n: int) -> Seq<Seq<char>>
    decreases n,
{
    if n <= 0 {
        Seq::empty()
    } else {
        let rest = sources_among(entries, n - 1);
        if is_source(entries[n - 1].path@, entries[n - 1].is_dir) {
            rest.push(entries[n - 1].path@)
        } else {
            rest
        }
    }
}

/// How many of the first `n` outcomes are failures.
pub open spec fn failures_among(outcomes: Seq<Result<bool, AppError>>, n: int) -> int
    decreases n,
{
    if n <= 0 {
        0
    } else {
        failures_among(outcomes, n - 1) + if outcomes[n - 1] is Err {
            1int
        } else {
            0int
        }
    }
}

/// Picks the sources to render out of what the pass came upon: every
/// entry that is a source, once, in the order in which it was found. Each
/// is then rendered by itself, whatever becomes of the others.
pub fn regenerate_all_aux_files(entries: &Vec<Found>) -> (sources: Vec<String>)
    ensures
        texts(sources@) == sources_among(entries@, entries@.len() as int),
{
    let mut sources: Vec<String> = Vec::new();
    let mut i: usize = 0;
    while i < entries.len()
        invariant
            i <= entries.len(),
            texts(sources@) == sources_among(entries@, i as int),
        decreases entries.len() - i,
    {
        let entry = &entries[i];
        if is_svg_file(entry.path.as_str(), entry.is_dir) {
            sources.push(entry.path.clone());
            assert(texts(sources@) =~= sources_among(entries@, i as int).push(entry.path@));
        }
        i += 1;
    }
    sources
}

/// Sums up the pass once every source was tried: how many there were, and
/// how many failed. No failure stands for the others.
pub fn batch_report(outcomes: &Vec<Result<bool, AppError>>) -> (report: BatchReport)
    ensures
        report.attempted == outcomes@.len(),
        report.failed == failures_among(outcomes@, outcomes@.len() as int),
{
    let mut failed: usize = 0;
    let mut i: usize = 0;
    while i < outcomes.len()
        invariant
            i <= outcomes.len(),
            failed <= i,
            failed == failures_among(outcomes@, i as int),
        decreases outcomes.len() - i,
    {
        if outcomes[i].is_err() {
            failed += 1;
        }
        i += 1;
    }
    BatchReport { attempted: outcomes.len(), failed }
}

/// Every source that is picked is one of the entries, and no entry that
/// is a source is left out.
pub proof fn lemma_sources_are_the_source_entries(entries: Seq<Found>, n: int)
    requires
        0 <= n <= entries.len(),
    ensures
        forall|k: int|
            0 <= k < n && is_source(entries[k].path@, entries[k].is_dir) ==> sources_among(
                entries,
                n,
            ).contains(#[trigger] entries[k].path@),
        forall|p: Seq<char>| #[trigger]
            sources_among(entries, n).contains(p) ==> exists|k: int|
                0 <= k < n && is_source(#[trigger] entries[k].path@, entries[k].is_dir)
                    && entries[k].path@ == p,
    decreases n,
{
    if n > 0 {
        lemma_sources_are_the_source_entries(entries, n - 1);
        let rest = sources_among(entries, n - 1);
        let last = entries[n - 1];
        assert forall|k: int|
            0 <= k < n && is_source(entries[k].path@, entries[k].is_dir) implies sources_among(
            entries,
            n,
        ).contains(#[trigger] entries[k].path@) by {
            if k < n - 1 {
                let j = choose|j: int| 0 <= j < rest.len() && rest[j] == entries[k].path@;
                assert(sources_among(entries, n)[j] == entries[k].path@);
            } else {
                assert(sources_among(entries, n) == rest.push(last.path@));
                assert(rest.push(last.path@)[rest.len() as int] == last.path@);
            }
        }
        assert forall|p: Seq<char>| #[trigger]
            sources_among(entries, n).contains(p) implies exists|k: int|
            0 <= k < n && is_source(#[trigger] entries[k].path@, entries[k].is_dir)
                && entries[k].path@ == p by {
            let j = choose|j: int|
                0 <= j < sources_among(entries, n).len() && sources_among(entries, n)[j] == p;
            if j < rest.len() {
                assert(rest[j] == p);
                assert(rest.contains(p));
            } else {
                assert(is_source(last.path@, last.is_dir));
                assert(entries[n - 1].path@ == p);
            }
        }
    }
}

} // verus!
