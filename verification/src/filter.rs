//! Sensitive-format denylist and format-priority ranking.

use vstd::prelude::*;
use vstd::string::StringExecFns;

use crate::text::{chars_start_with, starts_with_spec, text_chars};

verus! {

/// The denylist: declared formats that mark a change as sensitive.
pub open spec fn denylist_spec() -> Seq<Seq<char>> {
    seq!["x-kde-passwordManagerHint"@]
}

/// A change is sensitive when any of its declared formats exactly matches a
/// denylist entry.
pub open spec fn is_sensitive_spec(formats: Seq<String>) -> bool {
    exists|i: int| 0 <= i < formats.len() && denylist_spec().contains(#[trigger] formats[i]@)
}

/// Priority class of a format: PNG images first, then other images, then
/// textual formats, then the legacy plain-text marker, then everything else.
pub open spec fn rank_key_spec(s: Seq<char>) -> int {
    if starts_with_spec(s, "image/png"@) {
        1
    } else if starts_with_spec(s, "image"@) {
        2
    } else if starts_with_spec(s, "text"@) {
        3
    } else if s == "UTF8_STRING"@ {
        4
    } else {
        5
    }
}

/// The formats of `fs` whose priority class is `k`, in their original order.
pub open spec fn ranked_bucket(fs: Seq<String>, k: int) -> Seq<String>
    decreases fs.len(),
{
    if fs.len() == 0 {
        Seq::empty()
    } else {
        let rest = ranked_bucket(fs.drop_last(), k);
        if rank_key_spec(fs.last()@) == k {
            rest.push(fs.last())
        } else {
            rest
        }
    }
}

/// The stable ranking of `fs`: the class-1 formats in their original order,
/// then class 2, and so on. Keeping each class in its original order is what
/// makes the ranking stable.
pub open spec fn rank_spec(fs: Seq<String>) -> Seq<String> {
    ranked_bucket(fs, 1) + ranked_bucket(fs, 2) + ranked_bucket(fs, 3) + ranked_bucket(fs, 4)
        + ranked_bucket(fs, 5)
}

/// Drops sensitive changes and ranks the formats of the rest.
pub struct ClipFilter {
    pub sensitive_atoms: Vec<String>,
}

impl ClipFilter {
    /// The filter holds exactly the denylist.
    pub open spec fn wf(&self) -> bool {
        self.sensitive_atoms@.map_values(|s: String| s@) == denylist_spec()
    }

    /// A filter over the configured denylist.
    pub fn new() -> (r: Self)
        ensures
            r.wf(),
    {
        let mut v: Vec<String> = Vec::new();
        v.push(String::from_str("x-kde-passwordManagerHint"));
        proof {
            assert(v@.map_values(|s: String| s@) =~= denylist_spec());
        }
        ClipFilter { sensitive_atoms: v }
    }

    /// True exactly when one of `atoms` matches a denylist entry.
    pub fn filter_atom(&self, atoms: &Vec<String>) -> (r: bool)
        requires
            self.wf(),
        ensures
            r == is_sensitive_spec(atoms@),
    {
        let mut i: usize = 0;
        while i < atoms.len()
            invariant
                self.wf(),
                i <= atoms@.len(),
                forall|k: int| 0 <= k < i ==> !denylist_spec().contains(#[trigger] atoms@[k]@),
            decreases atoms@.len() - i,
        {
            let mut j: usize = 0;
            while j < self.sensitive_atoms.len()
                invariant
                    self.wf(),
                    i < atoms@.len(),
                    j <= self.sensitive_atoms@.len(),
                    forall|l: int| 0 <= l < j ==> self.sensitive_atoms@[l]@ != atoms@[i as int]@,
                decreases self.sensitive_atoms@.len() - j,
            {
                if self.sensitive_atoms[j] == atoms[i] {
                    proof {
                        assert(denylist_spec()[j as int] == self.sensitive_atoms@.map_values(
                            |s: String| s@,
                        )[j as int]);
                        assert(denylist_spec().contains(atoms@[i as int]@));
                    }
                    return true;
                }
                j = j + 1;
            }
            proof {
                assert forall|l: int|
                    0 <= l < denylist_spec().len() implies denylist_spec()[l]
                    != atoms@[i as int]@ by {
                    assert(denylist_spec()[l] == self.sensitive_atoms@.map_values(
                        |s: String| s@,
                    )[l]);
                }
            }
            i = i + 1;
        }
        false
    }

    /// Orders `formats` by priority class, keeping the original order within
    /// each class.
    pub fn rank(&self, formats: &Vec<String>) -> (r: Vec<String>)
        ensures
            r@ == rank_spec(formats@),
    {
        let mut out: Vec<String> = Vec::new();
        push_bucket(&mut out, formats, 1);
        push_bucket(&mut out, formats, 2);
        push_bucket(&mut out, formats, 3);
        push_bucket(&mut out, formats, 4);
        push_bucket(&mut out, formats, 5);
        out
    }
}

/// Priority class of a format string.
pub fn rank_key(format: &String) -> (r: u8)
    ensures
        r as int == rank_key_spec(format@),
{
    let f = text_chars(format.as_str());
    let png = text_chars("image/png");
    if chars_start_with(&f, &png) {
        return 1;
    }
    let image = text_chars("image");
    if chars_start_with(&f, &image) {
        return 2;
    }
    let textual = text_chars("text");
    if chars_start_with(&f, &textual) {
        return 3;
    }
    if *format == String::from_str("UTF8_STRING") {
        return 4;
    }
    5
}

/// Appends the class-`k` formats of `fs`, in their original order.
fn push_bucket(out: &mut Vec<String>, fs: &Vec<String>, k: u8)
    ensures
        final(out)@ == old(out)@ + ranked_bucket(fs@, k as int),
{
    let mut i: usize = 0;
    proof {
        assert(fs@.take(0) =~= Seq::<String>::empty());
    }
    while i < fs.len()
        invariant
            i <= fs@.len(),
            out@ == old(out)@ + ranked_bucket(fs@.take(i as int), k as int),
        decreases fs@.len() - i,
    {
        proof {
            assert(fs@.take(i + 1 as int).drop_last() =~= fs@.take(i as int));
            assert(fs@.take(i + 1 as int).last() == fs@[i as int]);
        }
        if rank_key(&fs[i]) == k {
            out.push(fs[i].clone());
        }
        i = i + 1;
    }
    proof {
        assert(fs@.take(fs@.len() as int) =~= fs@);
    }
}

/// Every format in the class-`k` bucket has class `k`, and the bucket is no
/// longer than its input.
proof fn lemma_bucket_elems(fs: Seq<String>, k: int)
    ensures
        forall|i: int|
            0 <= i < ranked_bucket(fs, k).len() ==> rank_key_spec(
                #[trigger] ranked_bucket(fs, k)[i]@,
            ) == k,
        ranked_bucket(fs, k).len() <= fs.len(),
    decreases fs.len(),
{
    if fs.len() > 0 {
        lemma_bucket_elems(fs.drop_last(), k);
    }
}

/// Every bucket holds only formats of its input.
proof fn lemma_bucket_contains(fs: Seq<String>, k: int)
    ensures
        forall|i: int|
            0 <= i < ranked_bucket(fs, k).len() ==> fs.contains(#[trigger] ranked_bucket(fs, k)[i]),
    decreases fs.len(),
{
    if fs.len() > 0 {
        lemma_bucket_contains(fs.drop_last(), k);
        let b = ranked_bucket(fs, k);
        let rest = ranked_bucket(fs.drop_last(), k);
        assert forall|i: int| 0 <= i < b.len() implies fs.contains(#[trigger] b[i]) by {
            if i < rest.len() {
                assert(fs.drop_last().contains(rest[i]));
                let w = choose|w: int| 0 <= w < fs.drop_last().len() && fs.drop_last()[w]
                    == rest[i];
                assert(fs[w] == b[i]);
            } else {
                assert(b[i] == fs.last());
                assert(fs[fs.len() - 1] == fs.last());
            }
        }
    }
}

/// The ranking invents nothing: every ranked format was declared.
pub(crate) proof fn lemma_rank_contains(fs: Seq<String>)
    ensures
        forall|i: int|
            0 <= i < rank_spec(fs).len() ==> fs.contains(#[trigger] rank_spec(fs)[i]),
{
    lemma_bucket_contains(fs, 1);
    lemma_bucket_contains(fs, 2);
    lemma_bucket_contains(fs, 3);
    lemma_bucket_contains(fs, 4);
    lemma_bucket_contains(fs, 5);
}

/// Every priority class is between one and five.
proof fn lemma_rank_key_range(s: Seq<char>)
    ensures
        1 <= rank_key_spec(s) <= 5,
{
}

/// Each format lands in exactly one bucket, so the ranking is a permutation
/// of its input: nothing is dropped, nothing is added.
proof fn lemma_rank_len(fs: Seq<String>)
    ensures
        rank_spec(fs).len() == fs.len(),
    decreases fs.len(),
{
    if fs.len() > 0 {
        lemma_rank_len(fs.drop_last());
    }
}

/// The ranking is sorted by priority class: PNG images precede other images,
/// which precede textual formats, then the legacy plain-text marker, then
/// everything else. Within one class `ranked_bucket` keeps the original
/// order, which is the stability of the ranking.
pub proof fn law_rank_sorted(fs: Seq<String>)
    ensures
        rank_spec(fs).len() == fs.len(),
        forall|i: int, j: int|
            0 <= i <= j < rank_spec(fs).len() ==> rank_key_spec(#[trigger] rank_spec(fs)[i]@)
                <= rank_key_spec(#[trigger] rank_spec(fs)[j]@),
{
    lemma_rank_len(fs);
    lemma_bucket_elems(fs, 1);
    lemma_bucket_elems(fs, 2);
    lemma_bucket_elems(fs, 3);
    lemma_bucket_elems(fs, 4);
    lemma_bucket_elems(fs, 5);
    let r = rank_spec(fs);
    assert forall|i: int| 0 <= i < r.len() implies 1 <= rank_key_spec(#[trigger] r[i]@) <= 5 by {
        lemma_rank_key_range(r[i]@);
    }
    assert forall|i: int, j: int|
        0 <= i <= j < r.len() implies rank_key_spec(#[trigger] r[i]@) <= rank_key_spec(
        #[trigger] r[j]@,
    ) by {
        let n1 = ranked_bucket(fs, 1).len() as int;
        let n2 = n1 + ranked_bucket(fs, 2).len();
        let n3 = n2 + ranked_bucket(fs, 3).len();
        let n4 = n3 + ranked_bucket(fs, 4).len();
        assert(rank_key_spec(r[i]@) == bucket_class_at(fs, i));
        assert(rank_key_spec(r[j]@) == bucket_class_at(fs, j));
        lemma_bucket_class_monotone(fs, i, j);
    }
}

/// Which priority class the ranking holds at position `p`.
pub open spec fn bucket_class_at(fs: Seq<String>, p: int) -> int {
    let n1 = ranked_bucket(fs, 1).len() as int;
    let n2 = n1 + ranked_bucket(fs, 2).len();
    let n3 = n2 + ranked_bucket(fs, 3).len();
    let n4 = n3 + ranked_bucket(fs, 4).len();
    if p < n1 {
        1
    } else if p < n2 {
        2
    } else if p < n3 {
        3
    } else if p < n4 {
        4
    } else {
        5
    }
}

proof fn lemma_bucket_class_monotone(fs: Seq<String>, i: int, j: int)
    requires
        0 <= i <= j,
    ensures
        bucket_class_at(fs, i) <= bucket_class_at(fs, j),
{
}

} // verus!
