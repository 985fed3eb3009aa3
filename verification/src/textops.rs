//! Character-level string utilities: equality, prefix tests, detection of
//! parent-directory traversal markers, and a lexicographic order with a
//! verified sorted insertion. Paths are handled as plain strings throughout
//! the library, with `/` as the canonical separator.

use vstd::prelude::*;
use vstd::multiset::Multiset;

verus! {

/// Two consecutive dots occur somewhere in the string.
pub open spec fn has_dotdot(s: Seq<char>) -> bool {
    exists|i: int| 0 <= i && i + 1 < s.len() && #[trigger] s[i] == '.' && s[i + 1] == '.'
}

/// A `..` path segment occurs in the string: a `..` run bounded by `/` or
/// by the string's ends. Two dots inside a longer name are no segment.
pub open spec fn has_dotdot_component(n: Seq<char>) -> bool {
    exists|i: int|
        0 <= i && i + 2 <= n.len() && #[trigger] n[i] == '.' && n[i + 1] == '.' && (i == 0 || n[i
            - 1] == '/') && (i + 2 == n.len() || n[i + 2] == '/')
}

/// Scan for a parent-directory traversal segment.
pub fn str_contains_dotdot_component(name: &str) -> (r: bool)
    ensures
        r == has_dotdot_component(name@),
{
    let n = name.unicode_len();
    if n < 2 {
        return false;
    }
    let mut i: usize = 0;
    while i < n - 1
        invariant
            n == name@.len(),
            2 <= n,
            0 <= i <= n,
            forall|j: int|
                0 <= j < i ==> !(#[trigger] name@[j] == '.' && name@[j + 1] == '.' && (j == 0
                    || name@[j - 1] == '/') && (j + 2 == n || name@[j + 2] == '/')),
        decreases n - i,
    {
        if name.get_char(i) == '.' && name.get_char(i + 1) == '.' {
            let left_ok = i == 0 || name.get_char(i - 1) == '/';
            let right_ok = i + 2 == n || name.get_char(i + 2) == '/';
            if left_ok && right_ok {
                proof {
                    assert(name@[i as int] == '.' && name@[i as int + 1] == '.');
                }
                return true;
            }
        }
        i += 1;
    }
    false
}

/// Every `\` replaced by `/`; all other characters kept.
pub open spec fn normalize_seps(s: Seq<char>) -> Seq<char> {
    s.map_values(|c: char| if c == '\\' { '/' } else { c })
}

/// Normalize path separators to the canonical `/`, whatever the host
/// platform wrote.
pub fn normalize_separators(s: &str) -> (r: String)
    ensures
        r@ == normalize_seps(s@),
{
    let n = s.unicode_len();
    let mut out = String::new();
    let mut i: usize = 0;
    proof {
        assert(out@ =~= normalize_seps(s@.take(0)));
    }
    while i < n
        invariant
            n == s@.len(),
            0 <= i <= n,
            out@ == normalize_seps(s@.take(i as int)),
        decreases n - i,
    {
        let c = s.get_char(i);
        if c == '\\' {
            out.append("/");
            proof {
                broadcast use vstd::string::group_string_axioms;

                reveal_strlit("/");
                assert("/"@.len() == 1 && "/"@[0] == '/');
                assert("/"@ =~= seq!['/']);
            }
        } else {
            let piece = s.substring_char(i, i + 1);
            out.append(piece);
            proof {
                assert(piece@ =~= seq![s@[i as int]]);
            }
        }
        proof {
            assert(normalize_seps(s@.take(i as int + 1)) =~= normalize_seps(
                s@.take(i as int),
            ).push(if s@[i as int] == '\\' { '/' } else { s@[i as int] }));
        }
        i += 1;
    }
    proof {
        assert(s@.take(n as int) =~= s@);
    }
    out
}

/// `p` is a prefix of `s`.
pub open spec fn is_prefix(p: Seq<char>, s: Seq<char>) -> bool {
    p.len() <= s.len() && s.subrange(0, p.len() as int) == p
}

/// Character-by-character prefix test.
pub fn str_has_prefix(s: &str, p: &str) -> (r: bool)
    ensures
        r == is_prefix(p@, s@),
{
    let np = p.unicode_len();
    let ns = s.unicode_len();
    if np > ns {
        return false;
    }
    let mut i: usize = 0;
    while i < np
        invariant
            np == p@.len(),
            ns == s@.len(),
            np <= ns,
            0 <= i <= np,
            forall|j: int| 0 <= j < i ==> s@[j] == p@[j],
        decreases np - i,
    {
        if s.get_char(i) != p.get_char(i) {
            proof {
                assert(s@.subrange(0, np as int)[i as int] != p@[i as int]);
            }
            return false;
        }
        i += 1;
    }
    proof {
        assert(s@.subrange(0, np as int) =~= p@);
    }
    true
}

/// String equality at the character level.
pub fn str_eq(a: &str, b: &str) -> (r: bool)
    ensures
        r == (a@ == b@),
{
    let na = a.unicode_len();
    let nb = b.unicode_len();
    if na != nb {
        return false;
    }
    let r = str_has_prefix(a, b);
    proof {
        if is_prefix(b@, a@) {
            assert(a@.subrange(0, na as int) =~= a@);
        }
        if a@ == b@ {
            assert(a@.subrange(0, nb as int) =~= b@);
        }
    }
    r
}

/// Lexicographic order on character sequences, by Unicode code point.
pub open spec fn lex_le(a: Seq<char>, b: Seq<char>) -> bool
    decreases a.len(),
{
    if a.len() == 0 {
        true
    } else if b.len() == 0 {
        false
    } else if (a[0] as u32) == (b[0] as u32) {
        lex_le(a.drop_first(), b.drop_first())
    } else {
        (a[0] as u32) < (b[0] as u32)
    }
}

/// The order is total.
pub proof fn lemma_lex_le_total(a: Seq<char>, b: Seq<char>)
    ensures
        lex_le(a, b) || lex_le(b, a),
    decreases a.len(),
{
    if a.len() > 0 && b.len() > 0 && (a[0] as u32) == (b[0] as u32) {
        lemma_lex_le_total(a.drop_first(), b.drop_first());
    }
}

/// Character-by-character comparison.
pub fn str_lex_le(a: &str, b: &str) -> (r: bool)
    ensures
        r == lex_le(a@, b@),
{
    let na = a.unicode_len();
    let nb = b.unicode_len();
    let mut i: usize = 0;
    proof {
        assert(a@.skip(0) =~= a@);
        assert(b@.skip(0) =~= b@);
    }
    loop
        invariant
            na == a@.len(),
            nb == b@.len(),
            0 <= i <= na,
            0 <= i <= nb,
            lex_le(a@, b@) == lex_le(a@.skip(i as int), b@.skip(i as int)),
        decreases na - i,
    {
        if i >= na {
            proof {
                assert(a@.skip(i as int).len() == 0);
            }
            return true;
        }
        if i >= nb {
            proof {
                assert(b@.skip(i as int).len() == 0);
                assert(a@.skip(i as int).len() > 0);
            }
            return false;
        }
        let ca = a.get_char(i) as u32;
        let cb = b.get_char(i) as u32;
        proof {
            assert(a@.skip(i as int)[0] == a@[i as int]);
            assert(b@.skip(i as int)[0] == b@[i as int]);
        }
        if ca != cb {
            return ca < cb;
        }
        proof {
            assert(a@.skip(i as int).drop_first() =~= a@.skip(i as int + 1));
            assert(b@.skip(i as int).drop_first() =~= b@.skip(i as int + 1));
        }
        i += 1;
    }
}

/// The views of a sequence of strings.
pub open spec fn views_of(v: Seq<String>) -> Seq<Seq<char>> {
    v.map_values(|s: String| s@)
}

/// Each adjacent pair is ordered; with transitivity this is the usual
/// sortedness.
pub open spec fn lex_sorted(s: Seq<Seq<char>>) -> bool {
    forall|i: int| 0 <= i && i + 1 < s.len() ==> lex_le(#[trigger] s[i], s[i + 1])
}

/// The position before the first element strictly greater than `x`.
fn find_insert_pos(v: &Vec<String>, x: &String) -> (k: usize)
    ensures
        0 <= k <= v@.len(),
        forall|j: int| 0 <= j < k ==> lex_le(#[trigger] views_of(v@)[j], x@),
        k < v@.len() ==> !lex_le(v@[k as int]@, x@),
{
    let n = v.len();
    let mut k: usize = 0;
    while k < n
        invariant
            n == v@.len(),
            0 <= k <= n,
            forall|j: int| 0 <= j < k ==> lex_le(#[trigger] views_of(v@)[j], x@),
        decreases n - k,
    {
        if !str_lex_le(v[k].as_str(), x.as_str()) {
            return k;
        }
        proof {
            assert(views_of(v@)[k as int] == v@[k as int]@);
        }
        k += 1;
    }
    k
}

/// Insert a string into a sorted vector, keeping it sorted; the contents
/// grow by exactly the inserted string.
pub fn insert_sorted(v: &mut Vec<String>, x: String)
    requires
        lex_sorted(views_of(old(v)@)),
    ensures
        lex_sorted(views_of(final(v)@)),
        views_of(final(v)@).to_multiset() == views_of(old(v)@).to_multiset().insert(x@),
        final(v)@.len() == old(v)@.len() + 1,
{
    let ghost before = views_of(v@);
    let k = find_insert_pos(v, &x);
    proof {
        if (k as int) < before.len() {
            lemma_lex_le_total(v@[k as int]@, x@);
            assert(before[k as int] == v@[k as int]@);
        }
    }
    v.insert(k, x);
    proof {
        let after = views_of(v@);
        assert(after =~= before.insert(k as int, x@));
        vstd::seq_lib::to_multiset_insert(before, k as int, x@);
        assert forall|i: int| 0 <= i && i + 1 < after.len() implies lex_le(
            #[trigger] after[i],
            after[i + 1],
        ) by {
            if i + 1 < k {
                assert(lex_le(before[i], before[i + 1]));
            } else if i + 1 == k {
                assert(after[i] == before[i] && after[i + 1] == x@);
            } else if i == k {
                assert(after[i] == x@ && after[i + 1] == before[i]);
            } else {
                assert(lex_le(before[i - 1], before[i]));
            }
        }
    }
}

/// Sort the strings lexicographically. The result is sorted and holds
/// exactly the same strings, multiplicity included.
pub fn sort_strings(v: Vec<String>) -> (r: Vec<String>)
    ensures
        lex_sorted(views_of(r@)),
        views_of(r@).to_multiset() == views_of(v@).to_multiset(),
        r@.len() == v@.len(),
{
    broadcast use vstd::seq_lib::group_to_multiset_ensures;
    broadcast use vstd::multiset::lemma_multiset_empty_len;

    let mut out: Vec<String> = Vec::new();
    let mut rest = v;
    proof {
        assert(views_of(out@) =~= Seq::<Seq<char>>::empty());
        assert(views_of(out@).to_multiset() =~= Multiset::<Seq<char>>::empty());
        assert(views_of(out@).to_multiset().add(views_of(rest@).to_multiset()) =~= views_of(
            v@,
        ).to_multiset());
    }
    loop
        invariant
            lex_sorted(views_of(out@)),
            views_of(out@).to_multiset().add(views_of(rest@).to_multiset()) == views_of(
                v@,
            ).to_multiset(),
            out@.len() + rest@.len() == v@.len(),
        decreases rest@.len(),
    {
        let ghost rest_views = views_of(rest@);
        match rest.pop() {
            Some(x) => {
                let ghost out_views = views_of(out@);
                proof {
                    assert(rest_views.drop_last() =~= views_of(rest@));
                    assert(rest_views[rest_views.len() - 1] == x@);
                    vstd::seq_lib::to_multiset_insert(
                        views_of(rest@),
                        rest_views.len() - 1,
                        x@,
                    );
                    assert(views_of(rest@).insert(rest_views.len() - 1, x@) =~= rest_views);
                }
                insert_sorted(&mut out, x);
                proof {
                    assert(views_of(out@).to_multiset().add(views_of(rest@).to_multiset()) =~=
                        out_views.to_multiset().add(rest_views.to_multiset()));
                }
            },
            None => {
                proof {
                    assert(rest@.len() == 0);
                    assert(views_of(rest@).len() == 0);
                    vstd::seq_lib::to_multiset_len(views_of(rest@));
                    vstd::multiset::lemma_multiset_empty_len(views_of(rest@).to_multiset());
                    assert(views_of(rest@).to_multiset() =~= Multiset::<Seq<char>>::empty());
                    assert(views_of(out@).to_multiset() =~= views_of(v@).to_multiset());
                }
                return out;
            },
        }
    }
}

} // verus!
