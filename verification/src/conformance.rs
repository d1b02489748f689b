//! Selection of conformance vectors by a `category[/name]` filter.

use vstd::prelude::*;
use vstd::string::StringSliceAdditionalSpecFns;
use vstd::utf8::encode_utf8;

verus! {

/// Whether `p` is a prefix of `s`.
pub open spec fn is_prefix(p: Seq<u8>, s: Seq<u8>) -> bool {
    p.len() <= s.len() && s.subrange(0, p.len() as int) == p
}

/// Whether a vector path `candidate` (`category` or `category/name`) is
/// selected by `filter`: they are equal, the candidate lies under the
/// filter, or the candidate is a prefix of the filter.
pub open spec fn spec_prefix_matches(candidate: Seq<u8>, filter: Seq<u8>) -> bool {
    candidate == filter || is_prefix(filter.push(0x2f), candidate) || is_prefix(candidate, filter)
}

/// Whether `p` followed by `extra` (if any) is a prefix of `s`.
fn starts_with(s: &[u8], p: &[u8], extra: Option<u8>) -> (r: bool)
    ensures
        r == match extra {
            Some(x) => is_prefix(p@.push(x), s@),
            None => is_prefix(p@, s@),
        },
{
    let n = p.len();
    let total: usize = match extra {
        Some(_) => {
            if n >= s.len() {
                return false;
            }
            n + 1
        },
        None => n,
    };
    let ghost q = match extra {
        Some(x) => p@.push(x),
        None => p@,
    };
    if total > s.len() {
        return false;
    }
    let mut k: usize = 0;
    while k < n
        invariant
            k <= n,
            n == p@.len(),
            n <= total <= s@.len(),
            q.len() == total,
            forall|j: int| 0 <= j < n ==> q[j] == p@[j],
            forall|j: int| 0 <= j < k ==> s@[j] == q[j],
        decreases n - k,
    {
        if s[k] != p[k] {
            assert(s@.subrange(0, total as int)[k as int] != q[k as int]);
            return false;
        }
        k += 1;
    }
    match extra {
        Some(x) => {
            if s[n] != x {
                assert(s@.subrange(0, total as int)[n as int] != q[n as int]);
                return false;
            }
        },
        None => {},
    }
    assert(s@.subrange(0, total as int) =~= q);
    true
}

/// [`prefix_matches`] on the bytes of the two paths.
fn prefix_matches_bytes(c: &[u8], f: &[u8]) -> (r: bool)
    ensures
        r == spec_prefix_matches(c@, f@),
{
    let equal = c.len() == f.len() && starts_with(c, f, None);
    proof {
        if c@.len() == f@.len() {
            assert(c@.subrange(0, f@.len() as int) =~= c@);
        }
    }
    equal || starts_with(c, f, Some(0x2f)) || starts_with(f, c, None)
}

/// Whether a vector path `candidate` (`category` or `category/name`) is
/// selected by `filter`: they are equal, the candidate lies under the
/// filter (`filter/...`), or the candidate is a prefix of the filter.
pub fn prefix_matches(candidate: &str, filter: &str) -> (r: bool)
    ensures
        r == spec_prefix_matches(candidate.spec_bytes(), filter.spec_bytes()),
{
    prefix_matches_bytes(candidate.as_bytes(), filter.as_bytes())
}

/// Whether the vector `name` of `category` is run under `filter` (all
/// vectors are run without one): its category must match the filter, and
/// unless the filter names exactly the category, so must `category/name`.
pub open spec fn spec_vector_selected(category: Seq<u8>, name: Seq<u8>, filter: Option<Seq<u8>>) -> bool {
    match filter {
        None => true,
        Some(f) => spec_prefix_matches(category, f) && (f == category || spec_prefix_matches(
            category.push(0x2f) + name,
            f,
        )),
    }
}

/// Whether the vector `name` of `category` is run under `filter`.
pub fn vector_selected(category: &str, name: &str, filter: Option<&str>) -> (r: bool)
    ensures
        r == spec_vector_selected(
            category.spec_bytes(),
            name.spec_bytes(),
            match filter {
                Some(f) => Some(f.spec_bytes()),
                None => None,
            },
        ),
{
    match filter {
        None => true,
        Some(f) => {
            let c = category.as_bytes();
            let fb = f.as_bytes();
            if !prefix_matches_bytes(c, fb) {
                return false;
            }
            if c.len() == fb.len() && starts_with(c, fb, None) {
                proof {
                    assert(c@.subrange(0, fb@.len() as int) =~= c@);
                }
                return true;
            }
            proof {
                if c@ == fb@ {
                    assert(c@.subrange(0, fb@.len() as int) =~= c@);
                }
            }
            let nb = name.as_bytes();
            let mut full: Vec<u8> = Vec::new();
            let mut k: usize = 0;
            while k < c.len()
                invariant
                    k <= c@.len(),
                    full@ == c@.take(k as int),
                decreases c@.len() - k,
            {
                full.push(c[k]);
                proof {
                    assert(c@.take(k + 1) =~= c@.take(k as int).push(c@[k as int]));
                }
                k += 1;
            }
            full.push(0x2f);
            let mut j: usize = 0;
            while j < nb.len()
                invariant
                    k == c@.len(),
                    j <= nb@.len(),
                    full@ == c@.take(k as int).push(0x2f) + nb@.take(j as int),
                decreases nb@.len() - j,
            {
                full.push(nb[j]);
                proof {
                    assert(nb@.take(j + 1) =~= nb@.take(j as int).push(nb@[j as int]));
                }
                j += 1;
            }
            proof {
                assert(c@.take(k as int) =~= c@);
                assert(nb@.take(j as int) =~= nb@);
            }
            prefix_matches_bytes(full.as_slice(), fb)
        },
    }
}

// ---------------------------------------------------------------------------
// Ordering of vector paths
// ---------------------------------------------------------------------------

/// Byte-wise lexicographic order, the order of `str`.
pub open spec fn lex_le(a: Seq<u8>, b: Seq<u8>) -> bool
    decreases a.len(),
{
    if a.len() == 0 {
        true
    } else if b.len() == 0 {
        false
    } else if a[0] != b[0] {
        a[0] < b[0]
    } else {
        lex_le(a.drop_first(), b.drop_first())
    }
}

/// Order of `(category, name)` paths: by category, then by name.
pub open spec fn path_le(a: (Seq<u8>, Seq<u8>), b: (Seq<u8>, Seq<u8>)) -> bool {
    if a.0 != b.0 {
        lex_le(a.0, b.0)
    } else {
        lex_le(a.1, b.1)
    }
}

/// Whether `s` is in ascending path order.
pub open spec fn paths_sorted(s: Seq<(Seq<u8>, Seq<u8>)>) -> bool {
    forall|i: int, j: int| 0 <= i < j < s.len() ==> path_le(#[trigger] s[i], #[trigger] s[j])
}

proof fn lemma_lex_total(a: Seq<u8>, b: Seq<u8>)
    ensures
        lex_le(a, b) || lex_le(b, a),
    decreases a.len(),
{
    if a.len() > 0 && b.len() > 0 && a[0] == b[0] {
        lemma_lex_total(a.drop_first(), b.drop_first());
    }
}

proof fn lemma_lex_antisymmetric(a: Seq<u8>, b: Seq<u8>)
    requires
        lex_le(a, b),
        lex_le(b, a),
    ensures
        a == b,
    decreases a.len(),
{
    if a.len() > 0 {
        lemma_lex_antisymmetric(a.drop_first(), b.drop_first());
        assert(a =~= seq![a[0]] + a.drop_first());
        assert(b =~= seq![b[0]] + b.drop_first());
    }
}

proof fn lemma_lex_transitive(a: Seq<u8>, b: Seq<u8>, c: Seq<u8>)
    requires
        lex_le(a, b),
        lex_le(b, c),
    ensures
        lex_le(a, c),
    decreases a.len(),
{
    if a.len() > 0 && b.len() > 0 && c.len() > 0 && a[0] == b[0] && b[0] == c[0] {
        lemma_lex_transitive(a.drop_first(), b.drop_first(), c.drop_first());
    }
}

proof fn lemma_path_total(a: (Seq<u8>, Seq<u8>), b: (Seq<u8>, Seq<u8>))
    ensures
        path_le(a, b) || path_le(b, a),
{
    lemma_lex_total(a.0, b.0);
    lemma_lex_total(a.1, b.1);
}

proof fn lemma_path_transitive(a: (Seq<u8>, Seq<u8>), b: (Seq<u8>, Seq<u8>), c: (Seq<u8>, Seq<u8>))
    requires
        path_le(a, b),
        path_le(b, c),
    ensures
        path_le(a, c),
{
    if a.0 != b.0 && b.0 != c.0 {
        lemma_lex_transitive(a.0, b.0, c.0);
        if a.0 == c.0 {
            lemma_lex_antisymmetric(a.0, b.0);
        }
    } else if a.0 == b.0 && b.0 == c.0 {
        lemma_lex_transitive(a.1, b.1, c.1);
    }
}

/// Whether `a` comes before or equals `b` byte-wise.
fn bytes_le(a: &[u8], b: &[u8]) -> (r: bool)
    ensures
        r == lex_le(a@, b@),
{
    let mut k: usize = 0;
    proof {
        assert(a@.skip(0) =~= a@);
        assert(b@.skip(0) =~= b@);
    }
    while k < a.len() && k < b.len()
        invariant
            k <= a@.len(),
            k <= b@.len(),
            lex_le(a@, b@) == lex_le(a@.skip(k as int), b@.skip(k as int)),
        decreases a@.len() - k,
    {
        proof {
            assert(a@.skip(k as int).drop_first() =~= a@.skip(k + 1));
            assert(b@.skip(k as int).drop_first() =~= b@.skip(k + 1));
        }
        if a[k] != b[k] {
            return a[k] < b[k];
        }
        k += 1;
    }
    a.len() <= b.len()
}

/// The byte view of a `(category, name)` pair of strings.
pub open spec fn path_view(p: (String, String)) -> (Seq<u8>, Seq<u8>) {
    (encode_utf8(p.0@), encode_utf8(p.1@))
}

/// The byte views of a list of paths.
pub open spec fn paths_view(s: Seq<(String, String)>) -> Seq<(Seq<u8>, Seq<u8>)> {
    s.map_values(|p: (String, String)| path_view(p))
}

fn path_le_exec(a: &(String, String), b: &(String, String)) -> (r: bool)
    ensures
        r == path_le(path_view(*a), path_view(*b)),
{
    let a0 = a.0.as_str().as_bytes();
    let b0 = b.0.as_str().as_bytes();
    if a0.len() == b0.len() && bytes_le(a0, b0) && bytes_le(b0, a0) {
        proof {
            lemma_lex_antisymmetric(a0@, b0@);
        }
        bytes_le(a.1.as_str().as_bytes(), b.1.as_str().as_bytes())
    } else {
        proof {
            if a0@ == b0@ {
                lemma_lex_total(a0@, b0@);
            }
        }
        bytes_le(a0, b0)
    }
}

/// Insert `p` into the sorted list `out` after every path not above it.
fn insert_sorted(out: &mut Vec<(String, String)>, p: (String, String))
    requires
        paths_sorted(paths_view(old(out)@)),
    ensures
        paths_sorted(paths_view(final(out)@)),
        paths_view(final(out)@).to_multiset() == paths_view(old(out)@).to_multiset().insert(path_view(p)),
{
    let ghost v = paths_view(out@);
    let ghost x = path_view(p);
    let mut j: usize = 0;
    while j < out.len() && path_le_exec(&out[j], &p)
        invariant
            j <= out@.len(),
            v == paths_view(out@),
            x == path_view(p),
            paths_sorted(v),
            forall|k: int| 0 <= k < j ==> path_le(#[trigger] v[k], x),
        decreases out@.len() - j,
    {
        j += 1;
    }
    proof {
        if j < out@.len() {
            assert(!path_le(v[j as int], x));
            lemma_path_total(v[j as int], x);
        }
    }
    out.insert(j, p);
    proof {
        let w = paths_view(out@);
        assert(w =~= v.insert(j as int, x));
        vstd::seq_lib::to_multiset_insert(v, j as int, x);
        assert forall|a: int, b: int| 0 <= a < b < w.len() implies path_le(#[trigger] w[a], #[trigger] w[b]) by {
            if b < j {
            } else if a < j && b == j {
            } else if a < j && b > j {
                assert(w[b] == v[b - 1]);
                assert(path_le(v[a], x));
                if j < v.len() {
                    assert(path_le(x, v[j as int]));
                }
            } else if a == j {
                assert(w[b] == v[b - 1]);
                assert(path_le(x, v[j as int]));
                if b - 1 > j {
                    assert(path_le(v[j as int], v[b - 1]));
                    lemma_path_transitive(x, v[j as int], v[b - 1]);
                }
            } else {
                assert(w[a] == v[a - 1]);
                assert(w[b] == v[b - 1]);
            }
        }
    }
}

/// The vectors of one category that `filter` selects, in the order given.
pub open spec fn names_selected(category: Seq<u8>, names: Seq<Seq<u8>>, filter: Option<Seq<u8>>) -> Seq<
    (Seq<u8>, Seq<u8>),
>
    decreases names.len(),
{
    if names.len() == 0 {
        Seq::empty()
    } else {
        let r = names_selected(category, names.drop_last(), filter);
        if spec_vector_selected(category, names.last(), filter) {
            r.push((category, names.last()))
        } else {
            r
        }
    }
}

/// The vectors of a tree of categories that `filter` selects, in the order
/// given.
pub open spec fn vectors_selected(tree: Seq<(Seq<u8>, Seq<Seq<u8>>)>, filter: Option<Seq<u8>>) -> Seq<
    (Seq<u8>, Seq<u8>),
>
    decreases tree.len(),
{
    if tree.len() == 0 {
        Seq::empty()
    } else {
        vectors_selected(tree.drop_last(), filter) + names_selected(tree.last().0, tree.last().1, filter)
    }
}

/// The byte view of a tree of categories, each with its vector names.
pub open spec fn tree_view(tree: Seq<(String, Vec<String>)>) -> Seq<(Seq<u8>, Seq<Seq<u8>>)> {
    tree.map_values(
        |e: (String, Vec<String>)| (encode_utf8(e.0@), e.1@.map_values(|n: String| encode_utf8(n@))),
    )
}

/// The byte view of an optional filter.
pub open spec fn filter_view(filter: Option<&str>) -> Option<Seq<u8>> {
    match filter {
        Some(f) => Some(f.spec_bytes()),
        None => None,
    }
}

/// The `(category, name)` paths of the vectors in `tree` (each category
/// with the names of its vectors) that `filter` selects, sorted by category
/// and then by name.
pub fn select_vectors(tree: &[(String, Vec<String>)], filter: Option<&str>) -> (out: Vec<(String, String)>)
    ensures
        paths_sorted(paths_view(out@)),
        paths_view(out@).to_multiset() == vectors_selected(tree_view(tree@), filter_view(filter)).to_multiset(),
{
    let ghost t = tree_view(tree@);
    let ghost fv = filter_view(filter);
    let mut out: Vec<(String, String)> = Vec::new();
    let mut i: usize = 0;
    proof {
        assert(paths_view(out@) =~= Seq::empty());
        assert(t.take(0) =~= Seq::empty());
    }
    while i < tree.len()
        invariant
            i <= tree@.len(),
            t == tree_view(tree@),
            fv == filter_view(filter),
            paths_sorted(paths_view(out@)),
            paths_view(out@).to_multiset() == vectors_selected(t.take(i as int), fv).to_multiset(),
        decreases tree@.len() - i,
    {
        let cat = &tree[i].0;
        let names = &tree[i].1;
        let ghost c = t[i as int].0;
        let ghost ns = t[i as int].1;
        let ghost before = vectors_selected(t.take(i as int), fv);
        proof {
            assert(c == encode_utf8(cat@));
            assert(ns == names@.map_values(|n: String| encode_utf8(n@)));
            assert(before + names_selected(c, ns.take(0), fv) =~= before);
        }
        let mut k: usize = 0;
        while k < names.len()
            invariant
                k <= names@.len(),
                ns == names@.map_values(|n: String| encode_utf8(n@)),
                c == encode_utf8(cat@),
                fv == filter_view(filter),
                paths_sorted(paths_view(out@)),
                paths_view(out@).to_multiset() == (before + names_selected(c, ns.take(k as int), fv)).to_multiset(),
            decreases names@.len() - k,
        {
            let ghost prev = names_selected(c, ns.take(k as int), fv);
            proof {
                assert(ns.take(k + 1).drop_last() =~= ns.take(k as int));
                assert(ns.take(k + 1).last() == encode_utf8(names@[k as int]@));
            }
            if vector_selected(cat.as_str(), names[k].as_str(), filter) {
                let p = (cat.clone(), names[k].clone());
                proof {
                    assert(path_view(p) == (c, encode_utf8(names@[k as int]@)));
                    assert(before + prev.push(path_view(p)) =~= (before + prev).push(path_view(p)));
                    vstd::seq_lib::to_multiset_build(before + prev, path_view(p));
                }
                insert_sorted(&mut out, p);
            }
            k += 1;
        }
        proof {
            assert(ns.take(k as int) =~= ns);
            assert(t.take(i + 1).drop_last() =~= t.take(i as int));
            assert(t.take(i + 1).last() == t[i as int]);
        }
        i += 1;
    }
    proof {
        assert(t.take(i as int) =~= t);
    }
    out
}

} // verus!
