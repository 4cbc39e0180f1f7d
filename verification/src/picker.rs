//! Choosing folders: which subfolders are offered, and in what order.

use vstd::prelude::*;

use crate::order::{lemma_text_laws, text_before, text_precedes};
use crate::text::{chars_of, has_prefix, same_text, starts_with_str, string_from_chars, string_views};

verus! {

/// Subfolders offered for browsing: not hidden and not the program's own.
pub open spec fn listed_folder(name: Seq<char>) -> bool {
    !has_prefix(name, "."@) && name != ".mconv_tmp"@ && name != ".mconv"@
}

/// Whether a subfolder named `name` is offered.
pub fn is_listed_folder(name: &str) -> (r: bool)
    ensures
        r == listed_folder(name@),
{
    !starts_with_str(name, ".") && !same_text(name, ".mconv_tmp") && !same_text(name, ".mconv")
}

/// The offered names among `names`, in their order.
pub open spec fn listed(names: Seq<Seq<char>>) -> Seq<Seq<char>>
    decreases names.len(),
{
    if names.len() == 0 {
        names
    } else if listed_folder(names.last()) {
        listed(names.drop_last()).push(names.last())
    } else {
        listed(names.drop_last())
    }
}

/// The names are in text order.
pub open spec fn sorted_names(s: Seq<Seq<char>>) -> bool {
    forall|i: int, j: int| 0 <= i < j < s.len() ==> !text_before(#[trigger] s[j], #[trigger] s[i])
}

/// The character views of names held as character vectors.
pub open spec fn cnames_view(s: Seq<Vec<char>>) -> Seq<Seq<char>> {
    s.map_values(|c: Vec<char>| c@)
}

fn insert_name(out: &mut Vec<Vec<char>>, x: Vec<char>)
    requires
        sorted_names(cnames_view(old(out)@)),
    ensures
        sorted_names(cnames_view(final(out)@)),
        cnames_view(final(out)@).to_multiset() == cnames_view(old(out)@).to_multiset().insert(x@),
{
    let ghost s = cnames_view(out@);
    let mut pos: usize = 0;
    while pos < out.len() && !text_precedes(&x, &out[pos])
        invariant
            s == cnames_view(out@),
            pos <= out@.len(),
            forall|k: int| 0 <= k < pos ==> !text_before(x@, #[trigger] s[k]),
        decreases out@.len() - pos,
    {
        assert(s[pos as int] == out@[pos as int]@);
        pos = pos + 1;
    }
    proof {
        lemma_text_laws();
        if pos < s.len() {
            assert(s[pos as int] == out@[pos as int]@);
            assert(text_before(x@, s[pos as int]));
        }
        assert forall|k: int| pos <= k < s.len() implies text_before(x@, #[trigger] s[k]) by {
            if k > pos {
                assert(!text_before(s[k], s[pos as int]));
                if s[k] != s[pos as int] {
                    assert(text_before(s[pos as int], s[k]));
                }
            }
        }
    }
    out.insert(pos, x);
    proof {
        lemma_text_laws();
        let t = cnames_view(out@);
        assert(t =~= s.insert(pos as int, x@));
        vstd::seq_lib::to_multiset_insert(s, pos as int, x@);
        assert forall|i: int, j: int| 0 <= i < j < t.len() implies !text_before(
            #[trigger] t[j],
            #[trigger] t[i],
        ) by {
            if j < pos {
            } else if j == pos {
                assert(t[i] == s[i]);
            } else if i < pos {
                assert(t[j] == s[j - 1]);
            } else if i == pos {
                assert(text_before(x@, s[j - 1]));
            } else {
                assert(t[i] == s[i - 1] && t[j] == s[j - 1]);
            }
        }
    }
}

/// The offered subfolders among the names of a folder's subfolders, sorted by
/// name.
pub fn list_subdirectories(names: &Vec<String>) -> (r: Vec<String>)
    ensures
        sorted_names(string_views(r@)),
        string_views(r@).to_multiset() == listed(string_views(names@)).to_multiset(),
{
    let ghost all = string_views(names@);
    let mut out: Vec<Vec<char>> = Vec::new();
    let mut i: usize = 0;
    assert(all.subrange(0, 0) =~= Seq::<Seq<char>>::empty());
    assert(cnames_view(out@) =~= Seq::<Seq<char>>::empty());
    while i < names.len()
        invariant
            all == string_views(names@),
            i <= names@.len(),
            sorted_names(cnames_view(out@)),
            cnames_view(out@).to_multiset() == listed(all.subrange(0, i as int)).to_multiset(),
        decreases names@.len() - i,
    {
        let ghost pre = all.subrange(0, i + 1);
        assert(pre.drop_last() =~= all.subrange(0, i as int));
        assert(pre.last() == names@[i as int]@);
        if is_listed_folder(names[i].as_str()) {
            insert_name(&mut out, chars_of(names[i].as_str()));
            proof {
                vstd::seq_lib::to_multiset_build(listed(all.subrange(0, i as int)), pre.last());
            }
        }
        i = i + 1;
    }
    assert(all.subrange(0, names@.len() as int) =~= all);
    let mut r: Vec<String> = Vec::new();
    let mut k: usize = 0;
    while k < out.len()
        invariant
            k <= out@.len(),
            string_views(r@) == cnames_view(out@).subrange(0, k as int),
        decreases out@.len() - k,
    {
        let ghost before = r@;
        let t = string_from_chars(out[k].as_slice());
        r.push(t);
        assert(string_views(r@) =~= string_views(before).push(t@));
        assert(cnames_view(out@).subrange(0, k + 1) =~= cnames_view(out@).subrange(0, k as int).push(out@[k as int]@));
        k = k + 1;
    }
    assert(cnames_view(out@).subrange(0, out@.len() as int) =~= cnames_view(out@));
    r
}

} // verus!
