//! Which columns carry URLs: split the caller's comma-separated column-name
//! list, select the header columns whose names match exactly, and derive the
//! augmented header, one status column per selected column, in header order.

use vstd::prelude::*;

verus! {

/// The fields of `s` split on commas, in order, commas dropped: always at
/// least one field, and an empty string splits into one empty field.
pub open spec fn spec_split_commas(s: Seq<char>) -> Seq<Seq<char>>
    decreases s.len(),
{
    if s.len() == 0 {
        seq![Seq::<char>::empty()]
    } else if s[0] == ',' {
        seq![Seq::<char>::empty()] + spec_split_commas(s.subrange(1, s.len() as int))
    } else {
        let rest = spec_split_commas(s.subrange(1, s.len() as int));
        seq![seq![s[0]] + rest[0]] + rest.subrange(1, rest.len() as int)
    }
}

/// A split never yields an empty field list.
pub proof fn lemma_split_commas_nonempty(s: Seq<char>)
    ensures
        spec_split_commas(s).len() >= 1,
    decreases s.len(),
{
    if s.len() != 0 {
        lemma_split_commas_nonempty(s.subrange(1, s.len() as int));
    }
}

/// The fields still owed once a scan has consumed `s` up to the start of a
/// partially gathered field `p`: `p` extended with the head field of the
/// rest, then the remaining fields.
spec fn pending_fields(p: Seq<char>, rest: Seq<Seq<char>>) -> Seq<Seq<char>>
    recommends
        rest.len() >= 1,
{
    seq![p + rest[0]] + rest.subrange(1, rest.len() as int)
}

/// Splitting a string that starts with a comma: an empty head field.
proof fn lemma_split_step_comma(s: Seq<char>)
    requires
        s.len() > 0,
        s[0] == ',',
    ensures
        spec_split_commas(s) == seq![Seq::<char>::empty()] + spec_split_commas(
            s.subrange(1, s.len() as int),
        ),
{
}

/// Splitting a string that starts with an ordinary character: that character
/// joins the head field.
proof fn lemma_split_step_char(s: Seq<char>)
    requires
        s.len() > 0,
        s[0] != ',',
    ensures
        spec_split_commas(s).len() >= 1,
        spec_split_commas(s) == pending_fields(
            seq![s[0]],
            spec_split_commas(s.subrange(1, s.len() as int)),
        ),
{
    lemma_split_commas_nonempty(s.subrange(1, s.len() as int));
}

/// Split a comma-separated list of column names into the names, in the
/// order given.
pub fn split_names(arg: &str) -> (names: Vec<String>)
    ensures
        names.deep_view() == spec_split_commas(arg@),
{
    let n = arg.unicode_len();
    let mut names: Vec<String> = Vec::new();
    let mut start: usize = 0;
    let mut i: usize = 0;
    proof {
        assert(arg@.subrange(0, n as int) =~= arg@);
    }
    while i < n
        invariant
            start <= i <= n,
            n == arg@.len(),
            spec_split_commas(arg@) == names.deep_view() + pending_fields(
                arg@.subrange(start as int, i as int),
                spec_split_commas(arg@.subrange(i as int, n as int)),
            ),
            spec_split_commas(arg@.subrange(i as int, n as int)).len() >= 1,
        decreases n - i,
    {
        let ghost tail = arg@.subrange(i as int, n as int);
        let ghost tail1 = arg@.subrange(i as int + 1, n as int);
        let ghost p = arg@.subrange(start as int, i as int);
        proof {
            assert(tail[0] == arg@[i as int]);
            assert(tail.subrange(1, tail.len() as int) =~= tail1);
            lemma_split_commas_nonempty(tail1);
        }
        let c = arg.get_char(i);
        if c == ',' {
            let ghost names0 = names.deep_view();
            let field = arg.substring_char(start, i).to_owned();
            names.push(field);
            proof {
                lemma_split_step_comma(tail);
                let rest1 = spec_split_commas(tail1);
                assert(p + seq![Seq::<char>::empty()][0] =~= p);
                assert((seq![Seq::<char>::empty()] + rest1).subrange(
                    1,
                    (seq![Seq::<char>::empty()] + rest1).len() as int,
                ) =~= rest1);
                assert(pending_fields(p, spec_split_commas(tail)) =~= seq![p] + rest1);
                let p1 = arg@.subrange(i as int + 1, i as int + 1);
                assert(p1 =~= Seq::<char>::empty());
                assert(p1 + rest1[0] =~= rest1[0]);
                assert(pending_fields(p1, rest1) =~= rest1);
                assert(names.deep_view() =~= names0.push(p)) by {
                    assert(arg@.subrange(start as int, i as int) == field@);
                };
                assert(names.deep_view() + pending_fields(p1, rest1) =~= names0 + (seq![p]
                    + rest1));
            }
            start = i + 1;
        } else {
            proof {
                lemma_split_step_char(tail);
                let rest1 = spec_split_commas(tail1);
                let p1 = arg@.subrange(start as int, i as int + 1);
                assert(p1 =~= p + seq![arg@[i as int]]);
                assert(p1 + rest1[0] =~= p + (seq![tail[0]] + rest1[0]));
                assert(pending_fields(p1, rest1) =~= pending_fields(
                    p,
                    pending_fields(seq![tail[0]], rest1),
                ));
            }
        }
        i += 1;
    }
    let ghost names0 = names.deep_view();
    let last = arg.substring_char(start, n).to_owned();
    names.push(last);
    proof {
        let tail = arg@.subrange(n as int, n as int);
        assert(tail =~= Seq::<char>::empty());
        assert(spec_split_commas(tail) == seq![Seq::<char>::empty()]);
        let p = arg@.subrange(start as int, n as int);
        assert(p + Seq::<char>::empty() =~= p);
        assert(seq![p + Seq::<char>::empty()].subrange(1, 1) =~= Seq::<Seq<char>>::empty());
        assert(pending_fields(p, spec_split_commas(tail)) =~= seq![p]);
        assert(names.deep_view() =~= names0.push(p)) by {
            assert(p == last@);
        };
        assert(names.deep_view() =~= spec_split_commas(arg@));
    }
    names
}

/// Whether `s` occurs among `names`.
fn contains_name(names: &Vec<String>, s: &String) -> (r: bool)
    ensures
        r == names.deep_view().contains(s@),
{
    let mut j: usize = 0;
    while j < names.len()
        invariant
            j <= names@.len(),
            forall|k: int| 0 <= k < j ==> names.deep_view()[k] != s@,
        decreases names@.len() - j,
    {
        if names[j] == *s {
            assert(names.deep_view()[j as int] == s@);
            return true;
        }
        j += 1;
    }
    false
}

/// `sel` holds exactly the indices of the header columns whose names occur
/// among `names`: every index below `header.len()` is in `sel` if and only
/// if its column name matches.
pub open spec fn spec_selected_iff_named(
    sel: Seq<usize>,
    header: Seq<Seq<char>>,
    names: Seq<Seq<char>>,
) -> bool {
    forall|i: int|
        0 <= i < header.len() ==> ((exists|k: int| 0 <= k < sel.len() && sel[k] as int == i)
            <==> names.contains(header[i]))
}

/// The Column Selector: the indices of the header columns whose names match
/// one of the configured URL-column names exactly, in header order. Computed
/// once per dataset and shared, read-only, by every row task.
pub fn select_columns(header: &Vec<String>, names: &Vec<String>) -> (sel: Vec<usize>)
    ensures
        forall|k: int| 0 <= k < sel@.len() ==> (sel@[k] as int) < header@.len(),
        forall|k1: int, k2: int| 0 <= k1 < k2 < sel@.len() ==> sel@[k1] < sel@[k2],
        spec_selected_iff_named(sel@, header.deep_view(), names.deep_view()),
{
    let mut sel: Vec<usize> = Vec::new();
    let mut i: usize = 0;
    while i < header.len()
        invariant
            i <= header@.len(),
            forall|k: int| 0 <= k < sel@.len() ==> (sel@[k] as int) < i,
            forall|k1: int, k2: int| 0 <= k1 < k2 < sel@.len() ==> sel@[k1] < sel@[k2],
            forall|j: int|
                0 <= j < i ==> ((exists|k: int|
                    0 <= k < sel@.len() && sel@[k] as int == j) <==> names.deep_view().contains(
                    header.deep_view()[j],
                )),
        decreases header@.len() - i,
    {
        let ghost sel0 = sel@;
        let hit = contains_name(names, &header[i]);
        if hit {
            sel.push(i);
        }
        proof {
            assert forall|j: int|
                0 <= j < i + 1 implies ((exists|k: int|
                0 <= k < sel@.len() && sel@[k] as int == j) <==> names.deep_view().contains(
                header.deep_view()[j],
            )) by {
                if j == i {
                    if hit {
                        assert(sel@[sel0.len() as int] as int == j);
                    } else {
                        assert(sel@ == sel0);
                        assert(forall|k: int| 0 <= k < sel@.len() ==> (sel@[k] as int) != j);
                    }
                } else {
                    if exists|k: int| 0 <= k < sel0.len() && sel0[k] as int == j {
                        let k = choose|k: int| 0 <= k < sel0.len() && sel0[k] as int == j;
                        assert(sel@[k] as int == j);
                    }
                    if exists|k: int| 0 <= k < sel@.len() && sel@[k] as int == j {
                        let k = choose|k: int| 0 <= k < sel@.len() && sel@[k] as int == j;
                        assert(0 <= k < sel0.len() && sel0[k] as int == j);
                    }
                }
            }
        }
        i += 1;
    }
    sel
}

/// The name of the status column appended for a URL column.
pub open spec fn spec_status_name(name: Seq<char>) -> Seq<char> {
    name + "_Status"@
}

/// The Augmented Header: the header plus one status-column name per selected
/// column, in selector (header) order.
pub open spec fn spec_augmented_header(header: Seq<Seq<char>>, sel: Seq<usize>) -> Seq<Seq<char>> {
    header + sel.map_values(|u: usize| spec_status_name(header[u as int]))
}

/// Derive the status-column name of one URL column.
fn status_name(name: &String) -> (r: String)
    ensures
        r@ == spec_status_name(name@),
{
    let mut r = name.clone();
    r.append("_Status");
    r
}

/// Build the Augmented Header from the header and the Column Selector.
pub fn augment_header(header: &Vec<String>, sel: &Vec<usize>) -> (out: Vec<String>)
    requires
        forall|k: int| 0 <= k < sel@.len() ==> (sel@[k] as int) < header@.len(),
    ensures
        out.deep_view() == spec_augmented_header(header.deep_view(), sel@),
{
    let mut out: Vec<String> = Vec::new();
    let mut i: usize = 0;
    while i < header.len()
        invariant
            i <= header@.len(),
            out.deep_view() =~= header.deep_view().subrange(0, i as int),
        decreases header@.len() - i,
    {
        let ghost out0 = out.deep_view();
        out.push(header[i].clone());
        proof {
            assert(out.deep_view() =~= out0.push(header.deep_view()[i as int]));
            assert(header.deep_view().subrange(0, i as int + 1) =~= header.deep_view().subrange(
                0,
                i as int,
            ).push(header.deep_view()[i as int]));
        }
        i += 1;
    }
    proof {
        assert(out.deep_view() =~= header.deep_view());
    }
    let mut k: usize = 0;
    while k < sel.len()
        invariant
            k <= sel@.len(),
            forall|j: int| 0 <= j < sel@.len() ==> (sel@[j] as int) < header@.len(),
            out.deep_view() =~= header.deep_view() + sel@.subrange(0, k as int).map_values(
                |u: usize| spec_status_name(header.deep_view()[u as int]),
            ),
        decreases sel@.len() - k,
    {
        let ghost out0 = out.deep_view();
        let idx = sel[k];
        out.push(status_name(&header[idx]));
        proof {
            assert(out.deep_view() =~= out0.push(
                spec_status_name(header.deep_view()[sel@[k as int] as int]),
            ));
            assert(sel@.subrange(0, k as int + 1).map_values(
                |u: usize| spec_status_name(header.deep_view()[u as int]),
            ) =~= sel@.subrange(0, k as int).map_values(
                |u: usize| spec_status_name(header.deep_view()[u as int]),
            ).push(spec_status_name(header.deep_view()[sel@[k as int] as int])));
        }
        k += 1;
    }
    proof {
        assert(sel@.subrange(0, sel@.len() as int) =~= sel@);
    }
    out
}

/// The batch setup phase, done once per dataset: split the caller's
/// comma-separated column-name list, select the matching header columns,
/// and derive the Augmented Header. Returns the Column Selector and the
/// Augmented Header.
pub fn prepare_batch(header: &Vec<String>, url_column_arg: &str) -> (r: (Vec<usize>, Vec<String>))
    ensures
        forall|k: int| 0 <= k < r.0@.len() ==> (r.0@[k] as int) < header@.len(),
        forall|k1: int, k2: int| 0 <= k1 < k2 < r.0@.len() ==> r.0@[k1] < r.0@[k2],
        spec_selected_iff_named(r.0@, header.deep_view(), spec_split_commas(url_column_arg@)),
        r.1.deep_view() == spec_augmented_header(header.deep_view(), r.0@),
{
    let names = split_names(url_column_arg);
    let sel = select_columns(header, &names);
    let augmented = augment_header(header, &sel);
    (sel, augmented)
}

} // verus!
