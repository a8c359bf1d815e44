//! One row's work: pull the URL fields a record holds at the selected
//! columns, and append one outcome label per probed column to a copy of the
//! record. A failed probe contributes its label like a successful one; no
//! probe aborts the row.

use vstd::prelude::*;

use crate::outcome::{spec_label, ProbeOutcome};

verus! {

/// The URLs a record holds at the selected columns, in selector order.
pub fn extract_urls(record: &Vec<String>, sel: &Vec<usize>) -> (urls: Vec<String>)
    requires
        forall|k: int| 0 <= k < sel@.len() ==> (sel@[k] as int) < record@.len(),
    ensures
        urls.deep_view() == sel@.map_values(|u: usize| record.deep_view()[u as int]),
{
    let mut urls: Vec<String> = Vec::new();
    let mut k: usize = 0;
    while k < sel.len()
        invariant
            k <= sel@.len(),
            forall|j: int| 0 <= j < sel@.len() ==> (sel@[j] as int) < record@.len(),
            urls.deep_view() =~= sel@.subrange(0, k as int).map_values(
                |u: usize| record.deep_view()[u as int],
            ),
        decreases sel@.len() - k,
    {
        let ghost urls0 = urls.deep_view();
        let idx = sel[k];
        urls.push(record[idx].clone());
        proof {
            assert(urls.deep_view() =~= urls0.push(record.deep_view()[sel@[k as int] as int]));
            assert(sel@.subrange(0, k as int + 1).map_values(
                |u: usize| record.deep_view()[u as int],
            ) =~= sel@.subrange(0, k as int).map_values(
                |u: usize| record.deep_view()[u as int],
            ).push(record.deep_view()[sel@[k as int] as int]));
        }
        k += 1;
    }
    proof {
        assert(sel@.subrange(0, sel@.len() as int) =~= sel@);
    }
    urls
}

/// An Augmented Record: the record's fields followed by the outcome labels,
/// one per probed column, in selector order.
pub open spec fn spec_augmented(record: Seq<Seq<char>>, outcomes: Seq<ProbeOutcome>) -> Seq<
    Seq<char>,
> {
    record + outcomes.map_values(|o: ProbeOutcome| spec_label(o))
}

/// Append one outcome label per probed column to a copy of `record`. The
/// caller's record is left untouched; the result always has exactly
/// `record.len() + outcomes.len()` fields.
pub fn augment(record: &Vec<String>, outcomes: &Vec<ProbeOutcome>) -> (out: Vec<String>)
    ensures
        out.deep_view() == spec_augmented(record.deep_view(), outcomes@),
        out@.len() == record@.len() + outcomes@.len(),
{
    let mut out: Vec<String> = Vec::new();
    let mut i: usize = 0;
    while i < record.len()
        invariant
            i <= record@.len(),
            out.deep_view() =~= record.deep_view().subrange(0, i as int),
        decreases record@.len() - i,
    {
        let ghost out0 = out.deep_view();
        out.push(record[i].clone());
        proof {
            assert(out.deep_view() =~= out0.push(record.deep_view()[i as int]));
            assert(record.deep_view().subrange(0, i as int + 1) =~= record.deep_view().subrange(
                0,
                i as int,
            ).push(record.deep_view()[i as int]));
        }
        i += 1;
    }
    proof {
        assert(out.deep_view() =~= record.deep_view());
    }
    let mut k: usize = 0;
    while k < outcomes.len()
        invariant
            k <= outcomes@.len(),
            out.deep_view() =~= record.deep_view() + outcomes@.subrange(0, k as int).map_values(
                |o: ProbeOutcome| spec_label(o),
            ),
        decreases outcomes@.len() - k,
    {
        let ghost out0 = out.deep_view();
        out.push(outcomes[k].label());
        proof {
            assert(out.deep_view() =~= out0.push(spec_label(outcomes@[k as int])));
            assert(outcomes@.subrange(0, k as int + 1).map_values(
                |o: ProbeOutcome| spec_label(o),
            ) =~= outcomes@.subrange(0, k as int).map_values(|o: ProbeOutcome| spec_label(o)).push(
                spec_label(outcomes@[k as int]),
            ));
        }
        k += 1;
    }
    proof {
        assert(outcomes@.subrange(0, outcomes@.len() as int) =~= outcomes@);
        assert(out.deep_view() =~= spec_augmented(record.deep_view(), outcomes@));
    }
    out
}

} // verus!
