//! A generic configuration document tree: the shape-preserving middle ground
//! between the typed stamp specification and the configuration text. Tables
//! keep their entry order; floats are carried by bit pattern and never
//! computed with.

use vstd::prelude::*;

verus! {

/// One configuration value.
pub enum Doc {
    Int(i64),
    /// A float value, as its shortest round-tripping decimal text. Parsing
    /// always produces that form; any other text prints as the default
    /// float value.
    Float(String),
    Bool(bool),
    Str(String),
    Arr(Vec<Doc>),
    Table(Vec<(String, Doc)>),
}

/// Spec-level mirror of `Doc`.
#[verifier::ext_equal]
pub enum DocV {
    Int(i64),
    Float(Seq<char>),
    Bool(bool),
    Str(Seq<char>),
    Arr(Seq<DocV>),
    Table(Seq<(Seq<char>, DocV)>),
}

/// The view of a document value.
pub open spec fn doc_view(d: Doc) -> DocV
    decreases d,
{
    match d {
        Doc::Int(x) => DocV::Int(x),
        Doc::Float(s) => DocV::Float(s@),
        Doc::Bool(b) => DocV::Bool(b),
        Doc::Str(s) => DocV::Str(s@),
        Doc::Arr(v) => DocV::Arr(docs_view(v@)),
        Doc::Table(v) => DocV::Table(table_view(v@)),
    }
}

/// The views of a sequence of document values.
pub open spec fn docs_view(s: Seq<Doc>) -> Seq<DocV>
    decreases s,
{
    if s.len() == 0 {
        Seq::empty()
    } else {
        seq![doc_view(s[0])] + docs_view(s.drop_first())
    }
}

/// The view of a table's entry list.
pub open spec fn table_view(s: Seq<(String, Doc)>) -> Seq<(Seq<char>, DocV)>
    decreases s,
{
    if s.len() == 0 {
        Seq::empty()
    } else {
        seq![(s[0].0@, doc_view(s[0].1))] + table_view(s.drop_first())
    }
}

impl View for Doc {
    type V = DocV;

    open spec fn view(&self) -> DocV {
        doc_view(*self)
    }
}

/// `docs_view` maps element by element.
pub proof fn lemma_docs_view(s: Seq<Doc>)
    ensures
        docs_view(s).len() == s.len(),
        forall|i: int| 0 <= i < s.len() ==> #[trigger] docs_view(s)[i] == doc_view(s[i]),
    decreases s.len(),
{
    if s.len() > 0 {
        lemma_docs_view(s.drop_first());
    }
}

/// `table_view` maps entry by entry.
pub proof fn lemma_table_view(s: Seq<(String, Doc)>)
    ensures
        table_view(s).len() == s.len(),
        forall|i: int|
            0 <= i < s.len() ==> #[trigger] table_view(s)[i] == (s[i].0@, doc_view(s[i].1)),
    decreases s.len(),
{
    if s.len() > 0 {
        lemma_table_view(s.drop_first());
    }
}

/// First-match lookup in a table, scanning from entry `i` on.
pub open spec fn tbl_get_from(t: Seq<(Seq<char>, DocV)>, k: Seq<char>, i: int) -> Option<DocV>
    decreases t.len() - i,
{
    if i < 0 || i >= t.len() {
        None
    } else if t[i].0 == k {
        Some(t[i].1)
    } else {
        tbl_get_from(t, k, i + 1)
    }
}

/// First-match lookup in a table.
pub open spec fn tbl_get(t: Seq<(Seq<char>, DocV)>, k: Seq<char>) -> Option<DocV> {
    tbl_get_from(t, k, 0)
}

/// Look a key up in a document table, first match wins.
pub fn doc_get<'a>(t: &'a Vec<(String, Doc)>, key: &str) -> (r: Option<&'a Doc>)
    ensures
        r is Some ==> tbl_get(table_view(t@), key@) == Some(r->0@),
        r is None ==> tbl_get(table_view(t@), key@) is None,
{
    let ghost tv = table_view(t@);
    proof {
        lemma_table_view(t@);
    }
    let n = t.len();
    let mut i: usize = 0;
    while i < n
        invariant
            n == t@.len(),
            0 <= i <= n,
            tv == table_view(t@),
            tv.len() == n,
            forall|j: int| 0 <= j < n ==> #[trigger] tv[j] == (t@[j].0@, doc_view(t@[j].1)),
            tbl_get(tv, key@) == tbl_get_from(tv, key@, i as int),
        decreases n - i,
    {
        if crate::textops::str_eq(t[i].0.as_str(), key) {
            return Some(&t[i].1);
        }
        i += 1;
    }
    None
}

} // verus!
