//! Indexing the files found in a folder: ignored entries, extensions, counts
//! per extension, and the files of one extension in path order.

use vstd::prelude::*;

use crate::order::{
    components_view, lemma_path_laws, lemma_text_laws, path_before, path_precedes, same_chars,
    text_before, text_precedes,
};
use crate::text::{
    chars_of, contains_str, contains_text, has_prefix, lowercase_of, same_text, starts_with_str,
    string_from_chars, string_views, to_lowercase,
};

verus! {

/// A path as the sequence of its components' texts.
pub open spec fn path_view(p: Vec<String>) -> Seq<Seq<char>> {
    string_views(p@)
}

/// The views of a list of paths.
pub open spec fn paths_view(ps: Seq<Vec<String>>) -> Seq<Seq<Seq<char>>> {
    ps.map_values(|p: Vec<String>| path_view(p))
}

/// The file name of a path: its last component.
pub open spec fn file_name_of(p: Seq<Seq<char>>) -> Seq<char> {
    if p.len() > 0 {
        p.last()
    } else {
        Seq::empty()
    }
}

/// The position of the last '.' in `name`, if any.
pub open spec fn last_dot(name: Seq<char>) -> Option<int>
    decreases name.len(),
{
    if name.len() == 0 {
        None
    } else if name.last() == '.' {
        Some(name.len() - 1)
    } else {
        last_dot(name.drop_last())
    }
}

/// The extension of a file name as std `Path::extension` gives it: the text
/// after the last '.', unless there is no '.', the only '.' starts the name,
/// or the name is "..".
pub open spec fn extension_of(name: Seq<char>) -> Option<Seq<char>> {
    if name == ".."@ {
        None
    } else {
        match last_dot(name) {
            Some(i) => if i == 0 {
                None
            } else {
                Some(name.skip(i + 1))
            },
            None => None,
        }
    }
}

/// The extension of a file name.
pub fn file_extension(name: &str) -> (r: Option<String>)
    ensures
        r matches Some(e) ==> extension_of(name@) == Some(e@),
        r is None ==> extension_of(name@) is None,
{
    if same_text(name, "..") {
        return None;
    }
    let cs = chars_of(name);
    let mut i: usize = cs.len();
    assert(cs@.subrange(0, i as int) =~= cs@);
    while i > 0 && cs[i - 1] != '.'
        invariant
            cs@ == name@,
            i <= cs@.len(),
            last_dot(cs@) == last_dot(cs@.subrange(0, i as int)),
        decreases i,
    {
        assert(cs@.subrange(0, i as int).drop_last() =~= cs@.subrange(0, i - 1));
        i = i - 1;
    }
    if i == 0 {
        assert(cs@.subrange(0, 0) =~= Seq::<char>::empty());
        return None;
    }
    assert(cs@.subrange(0, i as int).last() == '.');
    if i == 1 {
        return None;
    }
    let mut tail: Vec<char> = Vec::new();
    let mut k: usize = i;
    while k < cs.len()
        invariant
            i <= k <= cs@.len(),
            tail@ == cs@.subrange(i as int, k as int),
        decreases cs@.len() - k,
    {
        tail.push(cs[k]);
        assert(cs@.subrange(i as int, k + 1) =~= cs@.subrange(i as int, k as int).push(cs@[k as int]));
        k = k + 1;
    }
    assert(tail@ =~= name@.skip(i as int));
    Some(string_from_chars(tail.as_slice()))
}

/// Whether an entry met while scanning is left out: anything under the
/// program's own ".mconv" or scratch folders, and hidden entries (a name
/// starting with '.', other than "." and "..").
pub open spec fn ignored(path_text: Seq<char>, file_name: Option<Seq<char>>) -> bool {
    contains_text(path_text, "/.mconv_tmp"@) || contains_text(path_text, "/.mconv"@) || match file_name {
        Some(n) => has_prefix(n, "."@) && n != "."@ && n != ".."@,
        None => false,
    }
}

/// Whether the entry with the given full path text and file name is skipped.
pub fn is_ignored(path_text: &str, file_name: Option<&str>) -> (r: bool)
    ensures
        r == ignored(path_text@, match file_name {
            Some(n) => Some(n@),
            None => None,
        }),
{
    if contains_str(path_text, "/.mconv_tmp") || contains_str(path_text, "/.mconv") {
        return true;
    }
    match file_name {
        Some(n) => starts_with_str(n, ".") && !same_text(n, ".") && !same_text(n, ".."),
        None => false,
    }
}

/// Scratch files are never indexed: whatever folder they are in, the scanner
/// skips them as hidden entries.
pub proof fn law_scratch_files_are_ignored(path_text: Seq<char>, stem: Seq<char>, to_ext: Seq<char>)
    ensures
        ignored(path_text, Some(crate::converter::scratch_name(stem, to_ext))),
{
    let n = crate::converter::scratch_name(stem, to_ext);
    reveal_strlit(".mconv_tmp_");
    reveal_strlit(".");
    reveal_strlit("..");
    assert(n[0] == '.');
    assert(n[1] == 'm');
    assert(n.subrange(0, 1) =~= "."@);
    assert(n != "."@) by {
        assert(n.len() > 1);
    }
    assert(n != ".."@) by {
        assert(n[1] != ".."@[1]);
    }
}

/// The file at path `p` has an extension whose lowercase form is `target_lower`.
pub open spec fn has_extension(p: Seq<Seq<char>>, target_lower: Seq<char>) -> bool {
    match extension_of(file_name_of(p)) {
        Some(e) => lowercase_of(e) == target_lower,
        None => false,
    }
}

/// The paths of `ps` that have the extension, in their order.
pub open spec fn matching(ps: Seq<Seq<Seq<char>>>, target_lower: Seq<char>) -> Seq<Seq<Seq<char>>>
    decreases ps.len(),
{
    if ps.len() == 0 {
        ps
    } else if has_extension(ps.last(), target_lower) {
        matching(ps.drop_last(), target_lower).push(ps.last())
    } else {
        matching(ps.drop_last(), target_lower)
    }
}

/// The paths are in path order.
pub open spec fn sorted_paths(s: Seq<Seq<Seq<char>>>) -> bool {
    forall|i: int, j: int| 0 <= i < j < s.len() ==> !path_before(#[trigger] s[j], #[trigger] s[i])
}

/// The views of paths held as component character vectors.
pub open spec fn cpaths_view(s: Seq<Vec<Vec<char>>>) -> Seq<Seq<Seq<char>>> {
    s.map_values(|p: Vec<Vec<char>>| components_view(p@))
}

fn insert_sorted(out: &mut Vec<Vec<Vec<char>>>, x: Vec<Vec<char>>)
    requires
        sorted_paths(cpaths_view(old(out)@)),
    ensures
        sorted_paths(cpaths_view(final(out)@)),
        cpaths_view(final(out)@).to_multiset() == cpaths_view(old(out)@).to_multiset().insert(
            components_view(x@),
        ),
{
    proof {
        lemma_path_laws();
    }
    let ghost s = cpaths_view(out@);
    let ghost xv = components_view(x@);
    let mut lo: usize = 0;
    let mut hi: usize = out.len();
    while lo < hi
        invariant
            s == cpaths_view(out@),
            sorted_paths(s),
            xv == components_view(x@),
            lo <= hi <= out@.len(),
            forall|k: int| 0 <= k < lo ==> !path_before(xv, #[trigger] s[k]),
            forall|k: int| hi <= k < s.len() ==> path_before(xv, #[trigger] s[k]),
        decreases hi - lo,
    {
        let mid = lo + (hi - lo) / 2;
        proof {
            lemma_path_laws();
        }
        assert(s[mid as int] == components_view(out@[mid as int]@));
        if path_precedes(&x, &out[mid]) {
            assert forall|k: int| mid <= k < s.len() implies path_before(xv, #[trigger] s[k]) by {
                if k > mid {
                    assert(!path_before(s[k], s[mid as int]));
                    if s[k] != s[mid as int] {
                        assert(path_before(s[mid as int], s[k]));
                    }
                }
            }
            hi = mid;
        } else {
            assert forall|k: int| 0 <= k <= mid implies !path_before(xv, #[trigger] s[k]) by {
                if k < mid {
                    assert(!path_before(s[mid as int], s[k]));
                    if path_before(xv, s[k]) && s[k] != s[mid as int] {
                        assert(path_before(s[k], s[mid as int]));
                    }
                }
            }
            lo = mid + 1;
        }
    }
    out.insert(lo, x);
    proof {
        let t = cpaths_view(out@);
        assert(t =~= s.insert(lo as int, xv));
        vstd::seq_lib::to_multiset_insert(s, lo as int, xv);
        assert forall|i: int, j: int| 0 <= i < j < t.len() implies !path_before(
            #[trigger] t[j],
            #[trigger] t[i],
        ) by {
            if j < lo {
            } else if j == lo {
                assert(t[i] == s[i]);
            } else if i < lo {
                assert(t[j] == s[j - 1]);
                assert(!path_before(xv, s[i]));
                if path_before(s[j - 1], s[i]) {
                }
            } else if i == lo {
                assert(path_before(xv, s[j - 1]));
            } else {
                assert(t[i] == s[i - 1] && t[j] == s[j - 1]);
            }
        }
    }
}

fn path_chars(p: &Vec<String>) -> (r: Vec<Vec<char>>)
    ensures
        components_view(r@) == path_view(*p),
{
    let mut r: Vec<Vec<char>> = Vec::new();
    let mut i: usize = 0;
    while i < p.len()
        invariant
            i <= p@.len(),
            components_view(r@) == path_view(*p).subrange(0, i as int),
        decreases p@.len() - i,
    {
        let ghost before = r@;
        let c = chars_of(p[i].as_str());
        r.push(c);
        assert(components_view(r@) =~= components_view(before).push(c@));
        assert(path_view(*p).subrange(0, i + 1) =~= path_view(*p).subrange(0, i as int).push(p@[i as int]@));
        i = i + 1;
    }
    assert(path_view(*p).subrange(0, p@.len() as int) =~= path_view(*p));
    r
}

fn path_strings(p: &Vec<Vec<char>>) -> (r: Vec<String>)
    ensures
        path_view(r) == components_view(p@),
{
    let mut r: Vec<String> = Vec::new();
    let mut i: usize = 0;
    while i < p.len()
        invariant
            i <= p@.len(),
            path_view(r) == components_view(p@).subrange(0, i as int),
        decreases p@.len() - i,
    {
        let ghost before = r@;
        let t = string_from_chars(p[i].as_slice());
        r.push(t);
        assert(string_views(r@) =~= string_views(before).push(t@));
        assert(components_view(p@).subrange(0, i + 1) =~= components_view(p@).subrange(0, i as int).push(p@[i as int]@));
        i = i + 1;
    }
    assert(components_view(p@).subrange(0, p@.len() as int) =~= components_view(p@));
    r
}

/// Whether the file at `p` has an extension whose lowercase form is `target_lower`.
pub fn has_extension_exec(p: &Vec<String>, target_lower: &str) -> (r: bool)
    ensures
        r == has_extension(path_view(*p), target_lower@),
{
    if p.len() == 0 {
        assert(last_dot(Seq::<char>::empty()) is None);
        assert(Seq::<char>::empty() != ".."@) by {
            reveal_strlit("..");
        }
        return false;
    }
    let name = &p[p.len() - 1];
    assert(file_name_of(path_view(*p)) == name@);
    match file_extension(name.as_str()) {
        Some(e) => {
            let lower = to_lowercase(e.as_str());
            same_text(lower.as_str(), target_lower)
        },
        None => false,
    }
}

/// The files among `files` whose extension lowercases to `target_lower`, in
/// path order.
pub fn files_with_extension(files: &Vec<Vec<String>>, target_lower: &str) -> (r: Vec<Vec<String>>)
    ensures
        sorted_paths(paths_view(r@)),
        paths_view(r@).to_multiset() == matching(paths_view(files@), target_lower@).to_multiset(),
{
    let ghost all = paths_view(files@);
    let mut out: Vec<Vec<Vec<char>>> = Vec::new();
    let mut i: usize = 0;
    assert(all.subrange(0, 0) =~= Seq::<Seq<Seq<char>>>::empty());
    assert(cpaths_view(out@) =~= Seq::<Seq<Seq<char>>>::empty());
    while i < files.len()
        invariant
            all == paths_view(files@),
            i <= files@.len(),
            sorted_paths(cpaths_view(out@)),
            cpaths_view(out@).to_multiset() == matching(all.subrange(0, i as int), target_lower@).to_multiset(),
        decreases files@.len() - i,
    {
        let ghost pre = all.subrange(0, i + 1);
        assert(pre.drop_last() =~= all.subrange(0, i as int));
        assert(pre.last() == path_view(files@[i as int]));
        if has_extension_exec(&files[i], target_lower) {
            let x = path_chars(&files[i]);
            insert_sorted(&mut out, x);
            proof {
                vstd::seq_lib::to_multiset_build(
                    matching(all.subrange(0, i as int), target_lower@),
                    pre.last(),
                );
            }
        }
        i = i + 1;
    }
    assert(all.subrange(0, files@.len() as int) =~= all);
    let mut r: Vec<Vec<String>> = Vec::new();
    let mut k: usize = 0;
    while k < out.len()
        invariant
            k <= out@.len(),
            paths_view(r@) == cpaths_view(out@).subrange(0, k as int),
        decreases out@.len() - k,
    {
        let ghost before = r@;
        let t = path_strings(&out[k]);
        r.push(t);
        assert(paths_view(r@) =~= paths_view(before).push(path_view(t)));
        assert(cpaths_view(out@).subrange(0, k + 1) =~= cpaths_view(out@).subrange(0, k as int).push(components_view(out@[k as int]@)));
        k = k + 1;
    }
    assert(cpaths_view(out@).subrange(0, out@.len() as int) =~= cpaths_view(out@));
    r
}

/// The files among `files` whose extension matches `target_ext`, both compared
/// in lowercase, in path order.
pub fn find_matching_files(files: &Vec<Vec<String>>, target_ext: &str) -> (r: Vec<Vec<String>>)
    ensures
        sorted_paths(paths_view(r@)),
        paths_view(r@).to_multiset() == matching(paths_view(files@), lowercase_of(target_ext@)).to_multiset(),
        target_ext@.len() > 0 ==> r@.len() == ext_count(paths_view(files@), lowercase_of(target_ext@)),
        paths_view(files@).no_duplicates() ==> forall|i: int, j: int|
            0 <= i < j < r@.len() ==> path_before(
                #[trigger] paths_view(r@)[i],
                #[trigger] paths_view(r@)[j],
            ),
{
    let lower = to_lowercase(target_ext);
    let r = files_with_extension(files, lower.as_str());
    proof {
        let m = matching(paths_view(files@), lower@);
        let rv = paths_view(r@);
        vstd::seq_lib::to_multiset_len(rv);
        vstd::seq_lib::to_multiset_len(m);
        if target_ext@.len() > 0 {
            lemma_matching_counts(paths_view(files@), lower@);
        }
        if paths_view(files@).no_duplicates() {
            lemma_matching_no_duplicates(paths_view(files@), lower@);
            m.lemma_multiset_has_no_duplicates();
            rv.lemma_multiset_has_no_duplicates_conv();
            lemma_path_laws();
            assert forall|i: int, j: int| 0 <= i < j < r@.len() implies path_before(
                #[trigger] rv[i],
                #[trigger] rv[j],
            ) by {
                assert(!path_before(rv[j], rv[i]));
                assert(rv[i] != rv[j]);
            }
        }
    }
    r
}

/// Every path that matches is one of the paths.
proof fn lemma_matching_within(ps: Seq<Seq<Seq<char>>>, k: Seq<char>)
    ensures
        forall|x: Seq<Seq<char>>| #[trigger] matching(ps, k).contains(x) ==> ps.contains(x),
    decreases ps.len(),
{
    if ps.len() > 0 {
        lemma_matching_within(ps.drop_last(), k);
        let m0 = matching(ps.drop_last(), k);
        assert forall|x: Seq<Seq<char>>| #[trigger] matching(ps, k).contains(x) implies ps.contains(x) by {
            if m0.contains(x) {
                let q = choose|q: int| 0 <= q < ps.drop_last().len() && ps.drop_last()[q] == x;
                assert(ps[q] == x);
            } else {
                lemma_push_contains(m0, ps.last(), x);
                assert(ps[ps.len() - 1] == x);
            }
        }
    }
}

/// The paths matching an extension repeat no path when the paths do not.
proof fn lemma_matching_no_duplicates(ps: Seq<Seq<Seq<char>>>, k: Seq<char>)
    requires
        ps.no_duplicates(),
    ensures
        matching(ps, k).no_duplicates(),
    decreases ps.len(),
{
    if ps.len() > 0 {
        let init = ps.drop_last();
        assert(init.no_duplicates());
        lemma_matching_no_duplicates(init, k);
        if has_extension(ps.last(), k) {
            let m0 = matching(init, k);
            lemma_matching_within(init, k);
            assert(!init.contains(ps.last())) by {
                if init.contains(ps.last()) {
                    let q = choose|q: int| 0 <= q < init.len() && init[q] == ps.last();
                    assert(ps[q] == ps[ps.len() - 1]);
                }
            }
            let m = m0.push(ps.last());
            assert forall|i: int, j: int| 0 <= i < m.len() && 0 <= j < m.len() && i != j implies m[i]
                != m[j] by {
                if i == m.len() - 1 {
                    assert(m0.contains(m0[j]));
                } else if j == m.len() - 1 {
                    assert(m0.contains(m0[i]));
                }
            }
        }
    }
}

/// For a non-empty extension, the files matching it are exactly the files
/// counted under it.
proof fn lemma_matching_counts(ps: Seq<Seq<Seq<char>>>, k: Seq<char>)
    requires
        k.len() > 0,
    ensures
        matching(ps, k).len() == ext_count(ps, k),
    decreases ps.len(),
{
    if ps.len() > 0 {
        lemma_matching_counts(ps.drop_last(), k);
    }
}

/// The files of one extension and the extension counts agree: for a non-empty
/// lowercase extension `k`, as many files match `k` as the tally lists for
/// `k`, and none when the tally does not list it.
pub proof fn law_matches_agree_with_tally(v: Seq<(Seq<char>, nat)>, ps: Seq<Seq<Seq<char>>>, k: Seq<char>)
    requires
        tallied(v, ps),
        k.len() > 0,
    ensures
        forall|i: int| 0 <= i < v.len() && (#[trigger] v[i]).0 == k ==> v[i].1 == matching(ps, k).len(),
        (forall|i: int| 0 <= i < v.len() ==> (#[trigger] v[i]).0 != k) ==> matching(ps, k).len() == 0,
{
    lemma_matching_counts(ps, k);
}

/// How often one extension occurs among the files found.
#[derive(Debug, Clone)]
pub struct ExtensionStats {
    pub ext: String,
    pub count: usize,
}

/// The lowercase extension a file is counted under, if it has a non-empty one.
pub open spec fn ext_key(p: Seq<Seq<char>>) -> Option<Seq<char>> {
    match extension_of(file_name_of(p)) {
        Some(e) => if lowercase_of(e).len() > 0 {
            Some(lowercase_of(e))
        } else {
            None
        },
        None => None,
    }
}

/// The number of files of `ps` counted under extension `e`.
pub open spec fn ext_count(ps: Seq<Seq<Seq<char>>>, e: Seq<char>) -> nat
    decreases ps.len(),
{
    if ps.len() == 0 {
        0
    } else {
        ext_count(ps.drop_last(), e) + if ext_key(ps.last()) == Some(e) {
            1nat
        } else {
            0nat
        }
    }
}

/// An entry of the statistics as a pair of extension and count.
pub open spec fn stat_view(s: ExtensionStats) -> (Seq<char>, nat) {
    (s.ext@, s.count as nat)
}

/// The views of a list of statistics entries.
pub open spec fn stats_view(s: Seq<ExtensionStats>) -> Seq<(Seq<char>, nat)> {
    s.map_values(|x: ExtensionStats| stat_view(x))
}

/// Entries are listed by decreasing count, equal counts by extension.
pub open spec fn stat_before(a: (Seq<char>, nat), b: (Seq<char>, nat)) -> bool {
    a.1 > b.1 || (a.1 == b.1 && text_before(a.0, b.0))
}

/// `v` lists every extension of `ps` once, with its number of files, in
/// listing order.
pub open spec fn tallied(v: Seq<(Seq<char>, nat)>, ps: Seq<Seq<Seq<char>>>) -> bool {
    &&& forall|i: int| 0 <= i < v.len() ==> (#[trigger] v[i]).1 == ext_count(ps, v[i].0) && v[i].1 > 0
    &&& forall|e: Seq<char>| ext_count(ps, e) > 0 ==> exists|i: int| 0 <= i < v.len() && (#[trigger] v[i]).0 == e
    &&& forall|i: int, j: int| 0 <= i < j < v.len() ==> stat_before(#[trigger] v[i], #[trigger] v[j])
}

proof fn lemma_ext_count_bounded(ps: Seq<Seq<Seq<char>>>, e: Seq<char>)
    ensures
        ext_count(ps, e) <= ps.len(),
    decreases ps.len(),
{
    if ps.len() > 0 {
        lemma_ext_count_bounded(ps.drop_last(), e);
    }
}

/// The extension a file is counted under.
pub fn ext_key_exec(p: &Vec<String>) -> (r: Option<Vec<char>>)
    ensures
        r matches Some(k) ==> ext_key(path_view(*p)) == Some(k@),
        r is None ==> ext_key(path_view(*p)) is None,
{
    if p.len() == 0 {
        assert(last_dot(Seq::<char>::empty()) is None);
        return None;
    }
    let name = &p[p.len() - 1];
    assert(file_name_of(path_view(*p)) == name@);
    match file_extension(name.as_str()) {
        Some(e) => {
            let lower = to_lowercase(e.as_str());
            let cs = chars_of(lower.as_str());
            if cs.len() > 0 {
                Some(cs)
            } else {
                None
            }
        },
        None => None,
    }
}

proof fn lemma_stat_laws()
    ensures
        forall|a: (Seq<char>, nat)| !(#[trigger] stat_before(a, a)),
        forall|a: (Seq<char>, nat), b: (Seq<char>, nat), c: (Seq<char>, nat)|
            #[trigger] stat_before(a, b) && #[trigger] stat_before(b, c) ==> stat_before(a, c),
        forall|a: (Seq<char>, nat), b: (Seq<char>, nat)|
            a.0 != b.0 ==> #[trigger] stat_before(a, b) || #[trigger] stat_before(b, a),
{
    lemma_text_laws();
}

fn stat_precedes(e1: &Vec<char>, c1: usize, e2: &Vec<char>, c2: usize) -> (r: bool)
    ensures
        r == stat_before((e1@, c1 as nat), (e2@, c2 as nat)),
{
    c1 > c2 || (c1 == c2 && text_precedes(e1, e2))
}

/// The statistics view of parallel extension and count vectors.
pub open spec fn pairs_view(exts: Seq<Vec<char>>, counts: Seq<usize>) -> Seq<(Seq<char>, nat)> {
    Seq::new(exts.len(), |i: int| (exts[i]@, counts[i] as nat))
}

proof fn lemma_insert_contains<A>(s: Seq<A>, i: int, x: A, y: A)
    requires
        0 <= i <= s.len(),
    ensures
        s.insert(i, x).contains(y) <==> (y == x || s.contains(y)),
{
    let t = s.insert(i, x);
    if t.contains(y) {
        let q = choose|q: int| 0 <= q < t.len() && t[q] == y;
        if q < i {
            assert(s[q] == y);
        } else if q > i {
            assert(s[q - 1] == y);
        }
    }
    if y == x {
        assert(t[i] == y);
    } else if s.contains(y) {
        let q = choose|q: int| 0 <= q < s.len() && s[q] == y;
        if q < i {
            assert(t[q] == y);
        } else {
            assert(t[q + 1] == y);
        }
    }
}

proof fn lemma_push_contains<A>(s: Seq<A>, x: A, y: A)
    ensures
        s.push(x).contains(y) <==> (y == x || s.contains(y)),
{
    let t = s.push(x);
    if t.contains(y) {
        let q = choose|q: int| 0 <= q < t.len() && t[q] == y;
        if q < s.len() {
            assert(s[q] == y);
        }
    }
    if y == x {
        assert(t[s.len() as int] == y);
    } else if s.contains(y) {
        let q = choose|q: int| 0 <= q < s.len() && s[q] == y;
        assert(t[q] == y);
    }
}

/// Counts the files of each extension among `files` and lists the extensions
/// by decreasing count, equal counts in text order.
pub fn scan_extensions(files: &Vec<Vec<String>>) -> (r: Vec<ExtensionStats>)
    ensures
        tallied(stats_view(r@), paths_view(files@)),
{
    let ghost all = paths_view(files@);
    let mut exts: Vec<Vec<char>> = Vec::new();
    let mut counts: Vec<usize> = Vec::new();
    let mut i: usize = 0;
    while i < files.len()
        invariant
            all == paths_view(files@),
            i <= files@.len(),
            exts@.len() == counts@.len(),
            forall|j: int| 0 <= j < exts@.len() ==> counts@[j] == ext_count(all.subrange(0, i as int), #[trigger] exts@[j]@)
                && counts@[j] > 0,
            forall|e: Seq<char>| ext_count(all.subrange(0, i as int), e) > 0 ==> exists|j: int|
                0 <= j < exts@.len() && (#[trigger] exts@[j])@ == e,
            forall|j1: int, j2: int| 0 <= j1 < j2 < exts@.len() ==> (#[trigger] exts@[j1])@ != (#[trigger] exts@[j2])@,
        decreases files@.len() - i,
    {
        let ghost pre = all.subrange(0, i as int);
        let ghost post = all.subrange(0, i + 1);
        assert(post.drop_last() =~= pre);
        assert(post.last() == path_view(files@[i as int]));
        proof {
            lemma_ext_count_bounded(pre, ext_key(post.last()).unwrap_or(Seq::empty()));
        }
        match ext_key_exec(&files[i]) {
            None => {
                assert forall|e: Seq<char>| ext_count(post, e) > 0 implies exists|m: int|
                    0 <= m < exts@.len() && (#[trigger] exts@[m])@ == e by {
                    assert(ext_count(post, e) == ext_count(pre, e));
                }
            },
            Some(k) => {
                let mut j: usize = 0;
                while j < exts.len() && !same_chars(&exts[j], &k)
                    invariant
                        j <= exts@.len(),
                        forall|m: int| 0 <= m < j ==> (#[trigger] exts@[m])@ != k@,
                    decreases exts@.len() - j,
                {
                    j = j + 1;
                }
                if j < exts.len() {
                    proof {
                        lemma_ext_count_bounded(pre, k@);
                    }
                    let c = counts[j];
                    counts.set(j, c + 1);
                    assert forall|e: Seq<char>| ext_count(post, e) > 0 implies exists|m: int|
                        0 <= m < exts@.len() && (#[trigger] exts@[m])@ == e by {
                        if e == k@ {
                            assert(exts@[j as int]@ == e);
                        } else {
                            assert(ext_count(pre, e) > 0);
                        }
                    }
                    assert forall|m: int| 0 <= m < exts@.len() implies counts@[m] == ext_count(post, #[trigger] exts@[m]@)
                        && counts@[m] > 0 by {
                        if m != j {
                            assert(exts@[m]@ != k@);
                        }
                    }
                } else {
                    let ghost old_exts = exts@;
                    exts.push(k);
                    counts.push(1);
                    assert forall|m: int| 0 <= m < exts@.len() implies counts@[m] == ext_count(post, #[trigger] exts@[m]@)
                        && counts@[m] > 0 by {
                        if m < j {
                            assert(exts@[m]@ != k@);
                        } else {
                            assert(ext_count(pre, k@) == 0);
                        }
                    }
                    assert forall|e: Seq<char>| ext_count(post, e) > 0 implies exists|m: int|
                        0 <= m < exts@.len() && (#[trigger] exts@[m])@ == e by {
                        if e == k@ {
                            assert(exts@[j as int]@ == e);
                        } else {
                            assert(ext_count(pre, e) > 0);
                            let m = choose|m: int| 0 <= m < old_exts.len() && (#[trigger] old_exts[m])@ == e;
                            assert(exts@[m] == old_exts[m]);
                            assert(exts@[m]@ == e);
                        }
                    }
                }
            },
        }
        i = i + 1;
    }
    assert(all.subrange(0, files@.len() as int) =~= all);
    let ghost entries = pairs_view(exts@, counts@);
    // Sort the entries into listing order by insertion.
    let mut out_exts: Vec<Vec<char>> = Vec::new();
    let mut out_counts: Vec<usize> = Vec::new();
    let mut n: usize = 0;
    while n < exts.len()
        invariant
            entries == pairs_view(exts@, counts@),
            exts@.len() == counts@.len(),
            n <= exts@.len(),
            out_exts@.len() == out_counts@.len(),
            forall|x: (Seq<char>, nat)| pairs_view(out_exts@, out_counts@).contains(x)
                <==> entries.subrange(0, n as int).contains(x),
            forall|a: int, b: int| 0 <= a < b < out_exts@.len() ==> stat_before(
                #[trigger] pairs_view(out_exts@, out_counts@)[a],
                #[trigger] pairs_view(out_exts@, out_counts@)[b],
            ),
            forall|j1: int, j2: int| 0 <= j1 < j2 < exts@.len() ==> (#[trigger] exts@[j1])@ != (#[trigger] exts@[j2])@,
        decreases exts@.len() - n,
    {
        proof {
            lemma_stat_laws();
        }
        let ghost o = pairs_view(out_exts@, out_counts@);
        let ghost x = entries[n as int];
        let ghost es0 = entries.subrange(0, n as int);
        assert(x == (exts@[n as int]@, counts@[n as int] as nat));
        assert(!o.contains(x)) by {
            if o.contains(x) {
                assert(es0.contains(x));
                let q = choose|q: int| 0 <= q < es0.len() && es0[q] == x;
                assert(es0[q] == entries[q]);
                assert(entries[q] == (exts@[q]@, counts@[q] as nat));
                assert(exts@[q]@ == exts@[n as int]@);
            }
        }
        let mut pos: usize = 0;
        while pos < out_exts.len() && !stat_precedes(&exts[n], counts[n], &out_exts[pos], out_counts[pos])
            invariant
                o == pairs_view(out_exts@, out_counts@),
                out_exts@.len() == out_counts@.len(),
                n < exts@.len(),
                exts@.len() == counts@.len(),
                pos <= out_exts@.len(),
                x == (exts@[n as int]@, counts@[n as int] as nat),
                forall|m: int| 0 <= m < pos ==> !stat_before(x, #[trigger] o[m]),
            decreases out_exts@.len() - pos,
        {
            pos = pos + 1;
        }
        let e = exts[n].clone();
        out_exts.insert(pos, e);
        out_counts.insert(pos, counts[n]);
        proof {
            let o2 = pairs_view(out_exts@, out_counts@);
            assert(o2 =~= o.insert(pos as int, x));
            assert(entries.subrange(0, n + 1) =~= entries.subrange(0, n as int).push(x));
            assert forall|m: int| 0 <= m < pos implies stat_before(#[trigger] o[m], x) by {
                assert(o.contains(o[m]));
                if o[m].0 == x.0 {
                    assert(es0.contains(o[m]));
                    let q = choose|q: int| 0 <= q < es0.len() && es0[q] == o[m];
                    assert(es0[q] == entries[q]);
                    assert(entries[q] == (exts@[q]@, counts@[q] as nat));
                    assert(exts@[q]@ == exts@[n as int]@);
                }
            }
            if pos < o.len() {
                assert(stat_before(x, o[pos as int]));
            }
            assert forall|m: int| pos <= m < o.len() implies stat_before(x, #[trigger] o[m]) by {
                if m > pos {
                    assert(stat_before(o[pos as int], o[m]));
                }
            }
            assert forall|a: int, b: int| 0 <= a < b < o2.len() implies stat_before(
                #[trigger] o2[a],
                #[trigger] o2[b],
            ) by {
                if b < pos {
                } else if b == pos {
                } else if a < pos {
                    assert(o2[b] == o[b - 1]);
                } else if a == pos {
                    assert(o2[b] == o[b - 1]);
                } else {
                    assert(o2[a] == o[a - 1] && o2[b] == o[b - 1]);
                }
            }
            let es = entries.subrange(0, n + 1);
            assert(es =~= es0.push(x));
            assert forall|y: (Seq<char>, nat)| o2.contains(y) <==> es.contains(y) by {
                lemma_insert_contains(o, pos as int, x, y);
                lemma_push_contains(es0, x, y);
            }
        }
        n = n + 1;
    }
    assert(entries.subrange(0, exts@.len() as int) =~= entries);
    let mut r: Vec<ExtensionStats> = Vec::new();
    let mut k: usize = 0;
    while k < out_exts.len()
        invariant
            out_exts@.len() == out_counts@.len(),
            k <= out_exts@.len(),
            stats_view(r@) == pairs_view(out_exts@, out_counts@).subrange(0, k as int),
        decreases out_exts@.len() - k,
    {
        let ghost before = r@;
        let s = ExtensionStats { ext: string_from_chars(out_exts[k].as_slice()), count: out_counts[k] };
        r.push(s);
        assert(stats_view(r@) =~= stats_view(before).push(stat_view(s)));
        assert(pairs_view(out_exts@, out_counts@).subrange(0, k + 1) =~= pairs_view(out_exts@, out_counts@).subrange(0, k as int).push(stat_view(s)));
        k = k + 1;
    }
    let ghost fin = pairs_view(out_exts@, out_counts@);
    assert(fin.subrange(0, out_exts@.len() as int) =~= fin);
    proof {
        assert forall|q: int| 0 <= q < fin.len() implies (#[trigger] fin[q]).1 == ext_count(all, fin[q].0) && fin[q].1 > 0 by {
            assert(fin.contains(fin[q]));
            assert(entries.contains(fin[q]));
            let w = choose|w: int| 0 <= w < entries.len() && entries[w] == fin[q];
            assert(entries[w] == (exts@[w]@, counts@[w] as nat));
            assert(counts@[w] == ext_count(all, exts@[w]@));
        }
        assert forall|e: Seq<char>| ext_count(all, e) > 0 implies exists|q: int| 0 <= q < fin.len() && (#[trigger] fin[q]).0 == e by {
            let j = choose|j: int| 0 <= j < exts@.len() && (#[trigger] exts@[j])@ == e;
            assert(entries.contains(entries[j]));
            let w = choose|w: int| 0 <= w < fin.len() && fin[w] == entries[j];
            assert(fin[w].0 == e);
        }
    }
    r
}

} // verus!
