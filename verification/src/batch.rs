//! The Shared Sink and the batch pipeline: the augmented header is written
//! exactly once, before any row, and every completed row appends exactly one
//! augmented record, whole. Body order is completion order; nothing beyond
//! "header first" is promised.

use vstd::prelude::*;

use crate::augment::{augment, spec_augmented};
use crate::columns::{augment_header, spec_augmented_header};
use crate::outcome::{spec_label, ProbeOutcome};

verus! {

/// The Shared Sink: collects whole records, the header first. Each append
/// is one record; a record can never be torn across appends.
pub struct Sink {
    records: Vec<Vec<String>>,
    header_written: bool,
}

impl Sink {
    /// Everything written so far, in write order.
    pub closed spec fn spec_records(&self) -> Seq<Seq<Seq<char>>> {
        self.records.deep_view()
    }

    /// Whether the header has been written yet.
    pub closed spec fn spec_header_written(&self) -> bool {
        self.header_written
    }

    /// Nothing stands in the sink before the header does.
    pub open spec fn wf(&self) -> bool {
        !self.spec_header_written() ==> self.spec_records().len() == 0
    }

    /// A fresh, empty sink.
    pub fn new() -> (s: Sink)
        ensures
            s.spec_records() == Seq::<Seq<Seq<char>>>::empty(),
            !s.spec_header_written(),
            s.wf(),
    {
        let s = Sink { records: Vec::new(), header_written: false };
        proof {
            assert(s.spec_records() =~= Seq::<Seq<Seq<char>>>::empty());
        }
        s
    }

    /// Write the header: exactly once, before any record.
    pub fn write_header(&mut self, header: Vec<String>)
        requires
            !old(self).spec_header_written(),
            old(self).wf(),
        ensures
            final(self).spec_records() == old(self).spec_records().push(header.deep_view()),
            final(self).spec_records().len() == 1,
            final(self).spec_header_written(),
            final(self).wf(),
    {
        let ghost r0 = self.records.deep_view();
        self.records.push(header);
        self.header_written = true;
        proof {
            assert(self.records.deep_view() =~= r0.push(header.deep_view()));
        }
    }

    /// Append one whole record; only allowed once the header stands.
    pub fn write_record(&mut self, record: Vec<String>)
        requires
            old(self).spec_header_written(),
        ensures
            final(self).spec_records() == old(self).spec_records().push(record.deep_view()),
            final(self).spec_header_written(),
            final(self).wf(),
    {
        let ghost r0 = self.records.deep_view();
        self.records.push(record);
        proof {
            assert(self.records.deep_view() =~= r0.push(record.deep_view()));
        }
    }

    /// Hand the collected records out, write order kept.
    pub fn into_records(self) -> (out: Vec<Vec<String>>)
        ensures
            out.deep_view() == self.spec_records(),
    {
        self.records
    }
}

/// The whole batch output: the augmented header first, then one augmented
/// record per input row.
pub open spec fn spec_output(
    header: Seq<Seq<char>>,
    sel: Seq<usize>,
    rows: Seq<Seq<Seq<char>>>,
    outcomes: Seq<Seq<ProbeOutcome>>,
) -> Seq<Seq<Seq<char>>> {
    seq![spec_augmented_header(header, sel)] + Seq::new(
        rows.len(),
        |r: int| spec_augmented(rows[r], outcomes[r]),
    )
}

/// Assemble the batch output from the rows and the per-row probe outcomes:
/// one header, then one augmented record per row.
pub fn build_output(
    header: &Vec<String>,
    sel: &Vec<usize>,
    rows: &Vec<Vec<String>>,
    outcomes: &Vec<Vec<ProbeOutcome>>,
) -> (out: Vec<Vec<String>>)
    requires
        forall|k: int| 0 <= k < sel@.len() ==> (sel@[k] as int) < header@.len(),
        outcomes@.len() == rows@.len(),
    ensures
        out.deep_view() == spec_output(header.deep_view(), sel@, rows.deep_view(), outcomes.deep_view()),
        out@.len() == 1 + rows@.len(),
{
    let mut sink = Sink::new();
    sink.write_header(augment_header(header, sel));
    let mut r: usize = 0;
    while r < rows.len()
        invariant
            r <= rows@.len(),
            rows@.len() == outcomes@.len(),
            sink.spec_header_written(),
            sink.spec_records().len() == 1 + r,
            sink.spec_records() =~= seq![
                spec_augmented_header(header.deep_view(), sel@),
            ] + Seq::new(r as nat, |j: int| spec_augmented(rows.deep_view()[j], outcomes.deep_view()[j])),
        decreases rows@.len() - r,
    {
        let ghost s0 = sink.spec_records();
        let augmented = augment(&rows[r], &outcomes[r]);
        sink.write_record(augmented);
        proof {
            assert(rows.deep_view()[r as int] == rows@[r as int].deep_view());
            assert(outcomes.deep_view()[r as int] == outcomes@[r as int]@);
            assert(sink.spec_records() =~= seq![
                spec_augmented_header(header.deep_view(), sel@),
            ] + Seq::new(
                r as nat + 1,
                |j: int| spec_augmented(rows.deep_view()[j], outcomes.deep_view()[j]),
            ));
        }
        r += 1;
    }
    proof {
        assert(sink.spec_records() =~= spec_output(
            header.deep_view(),
            sel@,
            rows.deep_view(),
            outcomes.deep_view(),
        ));
    }
    let out = sink.into_records();
    proof {
        assert(out@.len() == out.deep_view().len());
    }
    out
}

/// Law: batch output over N rows is exactly one augmented header followed by
/// exactly N augmented records, whatever the completion order contributed.
pub proof fn lemma_output_shape(
    header: Seq<Seq<char>>,
    sel: Seq<usize>,
    rows: Seq<Seq<Seq<char>>>,
    outcomes: Seq<Seq<ProbeOutcome>>,
)
    ensures
        spec_output(header, sel, rows, outcomes).len() == 1 + rows.len(),
        spec_output(header, sel, rows, outcomes)[0] == spec_augmented_header(header, sel),
        forall|r: int|
            0 <= r < rows.len() ==> spec_output(header, sel, rows, outcomes)[r + 1]
                == spec_augmented(rows[r], outcomes[r]),
{
}

/// Law: a header-only (zero-row) input yields the augmented header and
/// nothing else.
pub proof fn lemma_header_only_output(
    header: Seq<Seq<char>>,
    sel: Seq<usize>,
    rows: Seq<Seq<Seq<char>>>,
    outcomes: Seq<Seq<ProbeOutcome>>,
)
    requires
        rows.len() == 0,
    ensures
        spec_output(header, sel, rows, outcomes) =~= seq![spec_augmented_header(header, sel)],
{
}

/// Law: every line of the batch output is a whole record of the expected
/// width — the header has one status name per selected column, and each body
/// record, drawn from a row as wide as the header, has one label per
/// selected column appended.
pub proof fn lemma_output_well_formed(
    header: Seq<Seq<char>>,
    sel: Seq<usize>,
    rows: Seq<Seq<Seq<char>>>,
    outcomes: Seq<Seq<ProbeOutcome>>,
)
    requires
        forall|r: int| 0 <= r < rows.len() ==> rows[r].len() == header.len(),
        forall|r: int| 0 <= r < rows.len() ==> outcomes[r].len() == sel.len(),
    ensures
        forall|l: int|
            0 <= l < spec_output(header, sel, rows, outcomes).len() ==> spec_output(
                header,
                sel,
                rows,
                outcomes,
            )[l].len() == header.len() + sel.len(),
{
    assert forall|l: int|
        0 <= l < spec_output(header, sel, rows, outcomes).len() implies spec_output(
        header,
        sel,
        rows,
        outcomes,
    )[l].len() == header.len() + sel.len() by {
        if l == 0 {
            assert(spec_augmented_header(header, sel).len() == header.len() + sel.len());
        } else {
            assert(spec_output(header, sel, rows, outcomes)[l] == spec_augmented(
                rows[l - 1],
                outcomes[l - 1],
            ));
        }
    }
}

} // verus!
