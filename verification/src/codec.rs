//! The executable mapping between `StampSpec` and the document tree. Each
//! function implements, exactly, the corresponding specification-level
//! encode or decode of `schema`.

use vstd::prelude::*;

use crate::doc::{doc_get, doc_view, docs_view, lemma_docs_view, lemma_table_view, table_view, Doc, DocV};
use crate::errors::WsError;
use crate::schema::{
    byte_of_docv, color_docv, color_of_docv, dim_docv, dim_of_docv, doc_of_spec, grid_of_docv,
    i32_of_docv, layout_docv, layout_of_docv, num_docv, num_of_docv, output_of_docv, pos_of_docv,
    spec_of_docv, text_docv, text_of_docv, texts_of_docv,
};
use crate::spec_model::{
    Color, Dim, GridSize, Layout, Num, OutputSpec, Pos, StampSpec, TextSpec, TextV,
};

verus! {

// ---------------------------------------------------------------------------
// Encoding
// ---------------------------------------------------------------------------

fn num_doc(n: &Num) -> (r: Doc)
    ensures
        r@ == num_docv(n@),
{
    match n {
        Num::Int(i) => Doc::Int(*i),
        Num::Float(s) => Doc::Float(s.clone()),
    }
}

fn color_doc(c: &Color) -> (r: Doc)
    ensures
        r@ == color_docv(c@),
{
    match c {
        Color::Named(s) => Doc::Str(s.clone()),
        Color::Rgb(rr, g, b) => {
            let mut v: Vec<Doc> = Vec::new();
            v.push(Doc::Int(*rr as i64));
            v.push(Doc::Int(*g as i64));
            v.push(Doc::Int(*b as i64));
            proof {
                lemma_docs_view(v@);
                assert(docs_view(v@) =~= seq![
                    DocV::Int(*rr as i64),
                    DocV::Int(*g as i64),
                    DocV::Int(*b as i64),
                ]);
            }
            Doc::Arr(v)
        },
        Color::Rgba(rr, g, b, a) => {
            let mut v: Vec<Doc> = Vec::new();
            v.push(Doc::Int(*rr as i64));
            v.push(Doc::Int(*g as i64));
            v.push(Doc::Int(*b as i64));
            v.push(Doc::Int(*a as i64));
            proof {
                lemma_docs_view(v@);
                assert(docs_view(v@) =~= seq![
                    DocV::Int(*rr as i64),
                    DocV::Int(*g as i64),
                    DocV::Int(*b as i64),
                    DocV::Int(*a as i64),
                ]);
            }
            Doc::Arr(v)
        },
    }
}

fn dim_doc(d: &Dim) -> (r: Doc)
    ensures
        r@ == dim_docv(d@),
{
    match d {
        Dim::Scalar(n) => num_doc(n),
        Dim::Pair(a, b) => {
            let mut v: Vec<Doc> = Vec::new();
            v.push(num_doc(a));
            v.push(num_doc(b));
            proof {
                lemma_docs_view(v@);
                assert(docs_view(v@) =~= seq![num_docv(a@), num_docv(b@)]);
            }
            Doc::Arr(v)
        },
        Dim::Quad(a, b, c, e) => {
            let mut v: Vec<Doc> = Vec::new();
            v.push(num_doc(a));
            v.push(num_doc(b));
            v.push(num_doc(c));
            v.push(num_doc(e));
            proof {
                lemma_docs_view(v@);
                assert(docs_view(v@) =~= seq![
                    num_docv(a@),
                    num_docv(b@),
                    num_docv(c@),
                    num_docv(e@),
                ]);
            }
            Doc::Arr(v)
        },
    }
}

fn layout_doc(l: &Layout) -> (r: Doc)
    ensures
        r@ == layout_docv(l@),
{
    let mut grid: Vec<Doc> = Vec::new();
    grid.push(Doc::Int(l.grid_size.cols as i64));
    grid.push(Doc::Int(l.grid_size.rows as i64));
    proof {
        lemma_docs_view(grid@);
        assert(docs_view(grid@) =~= seq![
            DocV::Int(l.grid_size.cols as i64),
            DocV::Int(l.grid_size.rows as i64),
        ]);
    }
    let mut t: Vec<(String, Doc)> = Vec::new();
    t.push((String::from_str("grid-size"), Doc::Arr(grid)));
    t.push((String::from_str("gap"), dim_doc(&l.gap)));
    t.push((String::from_str("margin"), dim_doc(&l.margin)));
    proof {
        lemma_table_view(t@);
        assert(table_view(t@) =~= layout_docv(l@)->Table_0);
    }
    Doc::Table(t)
}

fn text_doc(t: &TextSpec) -> (r: Doc)
    ensures
        r@ == text_docv(t@),
{
    let mut pos: Vec<Doc> = Vec::new();
    pos.push(num_doc(&t.position.x));
    pos.push(num_doc(&t.position.y));
    proof {
        lemma_docs_view(pos@);
        assert(docs_view(pos@) =~= seq![num_docv(t.position.x@), num_docv(t.position.y@)]);
    }
    let mut tb: Vec<(String, Doc)> = Vec::new();
    tb.push((String::from_str("template"), Doc::Str(t.template.clone())));
    tb.push((String::from_str("position"), Doc::Arr(pos)));
    match &t.ttf {
        Some(f) => {
            tb.push((String::from_str("ttf"), Doc::Str(f.clone())));
        },
        None => {},
    }
    tb.push((String::from_str("size"), Doc::Int(t.size as i64)));
    tb.push((String::from_str("color"), color_doc(&t.color)));
    proof {
        lemma_table_view(tb@);
        assert(table_view(tb@) =~= text_docv(t@)->Table_0);
    }
    Doc::Table(tb)
}

/// Encode a specification as a document tree; the exact inverse of the
/// decode, entry for entry.
pub fn build_spec_doc(s: &StampSpec) -> (r: Doc)
    ensures
        r@ == doc_of_spec(s@),
{
    let ghost target = s@.texts.map_values(|t: TextV| text_docv(t));
    let mut texts: Vec<Doc> = Vec::new();
    let n = s.texts.len();
    let mut i: usize = 0;
    while i < n
        invariant
            n == s.texts@.len(),
            0 <= i <= n,
            target == s@.texts.map_values(|t: TextV| text_docv(t)),
            target.len() == n,
            docs_view(texts@) == target.take(i as int),
        decreases n - i,
    {
        let d = text_doc(&s.texts[i]);
        let ghost pre = texts@;
        texts.push(d);
        proof {
            lemma_docs_view(pre);
            lemma_docs_view(texts@);
            assert(s@.texts[i as int] == s.texts@[i as int]@);
            assert(target[i as int] == text_docv(s.texts@[i as int]@));
            assert(docs_view(pre).len() == i as int);
            assert forall|j: int| 0 <= j < i implies #[trigger] docs_view(texts@)[j] == target[j] by {
                assert(texts@[j] == pre[j]);
                assert(docs_view(pre)[j] == doc_view(pre[j]));
                assert(docs_view(pre)[j] == target.take(i as int)[j]);
            }
            assert(docs_view(texts@) =~= target.take(i as int + 1));
        }
        i += 1;
    }
    proof {
        assert(target.take(n as int) =~= target);
    }
    let mut ob: Vec<(String, Doc)> = Vec::new();
    ob.push((String::from_str("background-color"), color_doc(&s.output.background_color)));
    proof {
        lemma_table_view(ob@);
        assert(table_view(ob@) =~= seq![
            ("background-color"@, color_docv(s.output.background_color@)),
        ]);
    }
    let mut t: Vec<(String, Doc)> = Vec::new();
    t.push((String::from_str("stack-size"), Doc::Int(s.stack_size as i64)));
    t.push((String::from_str("source-image"), Doc::Str(s.source_image.clone())));
    t.push((String::from_str("layout"), layout_doc(&s.layout)));
    t.push((String::from_str("texts"), Doc::Arr(texts)));
    t.push((String::from_str("output"), Doc::Table(ob)));
    t.push((String::from_str("background"), color_doc(&s.background)));
    proof {
        lemma_table_view(t@);
        assert(table_view(t@) =~= doc_of_spec(s@)->Table_0);
    }
    Doc::Table(t)
}

// ---------------------------------------------------------------------------
// Decoding
// ---------------------------------------------------------------------------

fn num_of_doc(d: &Doc) -> (r: Option<Num>)
    ensures
        r is Some <==> num_of_docv(d@) is Some,
        r is Some ==> r->0@ == num_of_docv(d@)->0,
{
    match d {
        Doc::Int(i) => Some(Num::Int(*i)),
        Doc::Float(s) => Some(Num::Float(s.clone())),
        _ => None,
    }
}

fn byte_of_doc(d: &Doc) -> (r: Option<u8>)
    ensures
        r == byte_of_docv(d@),
{
    match d {
        Doc::Int(i) => if 0 <= *i && *i <= 255 {
            Some(*i as u8)
        } else {
            None
        },
        _ => None,
    }
}

fn i32_of_doc(d: &Doc) -> (r: Option<i32>)
    ensures
        r == i32_of_docv(d@),
{
    match d {
        Doc::Int(i) => if i32::MIN as i64 <= *i && *i <= i32::MAX as i64 {
            Some(*i as i32)
        } else {
            None
        },
        _ => None,
    }
}

fn color_of_doc(d: &Doc) -> (r: Option<Color>)
    ensures
        r is Some <==> color_of_docv(d@) is Some,
        r is Some ==> r->0@ == color_of_docv(d@)->0,
{
    match d {
        Doc::Str(s) => Some(Color::Named(s.clone())),
        Doc::Arr(v) => {
            proof {
                lemma_docs_view(v@);
            }
            if v.len() == 3 {
                let r0 = byte_of_doc(&v[0]);
                let r1 = byte_of_doc(&v[1]);
                let r2 = byte_of_doc(&v[2]);
                match (r0, r1, r2) {
                    (Some(a), Some(b), Some(c)) => Some(Color::Rgb(a, b, c)),
                    _ => None,
                }
            } else if v.len() == 4 {
                let r0 = byte_of_doc(&v[0]);
                let r1 = byte_of_doc(&v[1]);
                let r2 = byte_of_doc(&v[2]);
                let r3 = byte_of_doc(&v[3]);
                match (r0, r1, r2, r3) {
                    (Some(a), Some(b), Some(c), Some(e)) => Some(Color::Rgba(a, b, c, e)),
                    _ => None,
                }
            } else {
                None
            }
        },
        _ => None,
    }
}

fn dim_of_doc(d: &Doc) -> (r: Option<Dim>)
    ensures
        r is Some <==> dim_of_docv(d@) is Some,
        r is Some ==> r->0@ == dim_of_docv(d@)->0,
{
    match d {
        Doc::Int(i) => Some(Dim::Scalar(Num::Int(*i))),
        Doc::Float(s) => Some(Dim::Scalar(Num::Float(s.clone()))),
        Doc::Arr(v) => {
            proof {
                lemma_docs_view(v@);
            }
            if v.len() == 2 {
                let r0 = num_of_doc(&v[0]);
                let r1 = num_of_doc(&v[1]);
                match (r0, r1) {
                    (Some(a), Some(b)) => Some(Dim::Pair(a, b)),
                    _ => None,
                }
            } else if v.len() == 4 {
                let r0 = num_of_doc(&v[0]);
                let r1 = num_of_doc(&v[1]);
                let r2 = num_of_doc(&v[2]);
                let r3 = num_of_doc(&v[3]);
                match (r0, r1, r2, r3) {
                    (Some(a), Some(b), Some(c), Some(e)) => Some(Dim::Quad(a, b, c, e)),
                    _ => None,
                }
            } else {
                None
            }
        },
        _ => None,
    }
}

fn pos_of_doc(d: &Doc) -> (r: Option<Pos>)
    ensures
        r is Some <==> pos_of_docv(d@) is Some,
        r is Some ==> r->0@ == pos_of_docv(d@)->0,
{
    match d {
        Doc::Arr(v) => {
            proof {
                lemma_docs_view(v@);
            }
            if v.len() == 2 {
                let r0 = num_of_doc(&v[0]);
                let r1 = num_of_doc(&v[1]);
                match (r0, r1) {
                    (Some(a), Some(b)) => Some(Pos { x: a, y: b }),
                    _ => None,
                }
            } else {
                None
            }
        },
        _ => None,
    }
}

fn grid_of_doc(d: &Doc) -> (r: Option<GridSize>)
    ensures
        r == grid_of_docv(d@),
{
    match d {
        Doc::Arr(v) => {
            proof {
                lemma_docs_view(v@);
            }
            if v.len() == 2 {
                let r0 = i32_of_doc(&v[0]);
                let r1 = i32_of_doc(&v[1]);
                match (r0, r1) {
                    (Some(a), Some(b)) => Some(GridSize { cols: a, rows: b }),
                    _ => None,
                }
            } else {
                None
            }
        },
        _ => None,
    }
}

fn layout_of_doc(d: &Doc) -> (r: Option<Layout>)
    ensures
        r is Some <==> layout_of_docv(d@) is Some,
        r is Some ==> r->0@ == layout_of_docv(d@)->0,
{
    match d {
        Doc::Table(t) => {
            let grid: GridSize = match doc_get(t, "grid-size") {
                Some(g) => match grid_of_doc(g) {
                    Some(gs) => gs,
                    None => {
                        return None;
                    },
                },
                None => GridSize { cols: 1, rows: 1 },
            };
            let gap: Dim = match doc_get(t, "gap") {
                Some(g) => match dim_of_doc(g) {
                    Some(dv) => dv,
                    None => {
                        return None;
                    },
                },
                None => Dim::Scalar(Num::Int(0)),
            };
            let margin: Dim = match doc_get(t, "margin") {
                Some(g) => match dim_of_doc(g) {
                    Some(dv) => dv,
                    None => {
                        return None;
                    },
                },
                None => Dim::Scalar(Num::Int(0)),
            };
            Some(Layout { grid_size: grid, gap, margin })
        },
        _ => None,
    }
}

fn text_of_doc(d: &Doc) -> (r: Option<TextSpec>)
    ensures
        r is Some <==> text_of_docv(d@) is Some,
        r is Some ==> r->0@ == text_of_docv(d@)->0,
{
    match d {
        Doc::Table(t) => {
            let template: String = match doc_get(t, "template") {
                Some(v) => match v {
                    Doc::Str(s) => s.clone(),
                    _ => {
                        return None;
                    },
                },
                None => {
                    return None;
                },
            };
            let position: Pos = match doc_get(t, "position") {
                Some(v) => match pos_of_doc(v) {
                    Some(p) => p,
                    None => {
                        return None;
                    },
                },
                None => {
                    return None;
                },
            };
            let ttf: Option<String> = match doc_get(t, "ttf") {
                Some(v) => match v {
                    Doc::Str(s) => Some(s.clone()),
                    _ => {
                        return None;
                    },
                },
                None => None,
            };
            let size: i32 = match doc_get(t, "size") {
                Some(v) => match i32_of_doc(v) {
                    Some(n) => n,
                    None => {
                        return None;
                    },
                },
                None => 16,
            };
            let color: Color = match doc_get(t, "color") {
                Some(v) => match color_of_doc(v) {
                    Some(c) => c,
                    None => {
                        return None;
                    },
                },
                None => Color::Rgb(0, 0, 0),
            };
            Some(TextSpec { template, position, ttf, size, color })
        },
        _ => None,
    }
}

/// `texts_of_docv` element by element.
proof fn lemma_texts_of_docv_index(a: Seq<DocV>)
    ensures
        texts_of_docv(a) is Some <==> (forall|i: int|
            0 <= i < a.len() ==> #[trigger] text_of_docv(a[i]) is Some),
        texts_of_docv(a) is Some ==> texts_of_docv(a)->0.len() == a.len(),
        texts_of_docv(a) is Some ==> forall|i: int|
            0 <= i < a.len() ==> #[trigger] texts_of_docv(a)->0[i] == text_of_docv(a[i])->0,
    decreases a.len(),
{
    if a.len() > 0 {
        lemma_texts_of_docv_index(a.drop_first());
        assert forall|i: int| 0 <= i < a.len() && texts_of_docv(a) is Some implies #[trigger] text_of_docv(
            a[i],
        ) is Some by {
            if i > 0 {
                assert(a.drop_first()[i - 1] == a[i]);
            }
        }
        if forall|i: int| 0 <= i < a.len() ==> #[trigger] text_of_docv(a[i]) is Some {
            assert forall|i: int| 0 <= i < a.drop_first().len() implies #[trigger] text_of_docv(
                a.drop_first()[i],
            ) is Some by {
                assert(a.drop_first()[i] == a[i + 1]);
            }
        }
        if texts_of_docv(a) is Some {
            assert forall|i: int| 0 <= i < a.len() implies #[trigger] texts_of_docv(a)->0[i]
                == text_of_docv(a[i])->0 by {
                if i > 0 {
                    assert(a.drop_first()[i - 1] == a[i]);
                    assert(texts_of_docv(a)->0[i] == texts_of_docv(a.drop_first())->0[i - 1]);
                }
            }
        }
    }
}

fn texts_of_doc(v: &Vec<Doc>) -> (r: Option<Vec<TextSpec>>)
    ensures
        r is Some <==> texts_of_docv(docs_view(v@)) is Some,
        r is Some ==> r->0@.map_values(|t: TextSpec| t@) == texts_of_docv(docs_view(v@))->0,
{
    let ghost a = docs_view(v@);
    proof {
        lemma_docs_view(v@);
        lemma_texts_of_docv_index(a);
    }
    let n = v.len();
    let mut out: Vec<TextSpec> = Vec::new();
    let mut i: usize = 0;
    while i < n
        invariant
            n == v@.len(),
            0 <= i <= n,
            a == docs_view(v@),
            a.len() == n,
            forall|j: int| 0 <= j < n ==> #[trigger] a[j] == v@[j]@,
            forall|j: int| 0 <= j < i ==> #[trigger] text_of_docv(a[j]) is Some,
            out@.len() == i,
            forall|j: int|
                0 <= j < i ==> #[trigger] out@[j]@ == text_of_docv(a[j])->0,
        decreases n - i,
    {
        match text_of_doc(&v[i]) {
            Some(t) => {
                out.push(t);
            },
            None => {
                proof {
                    lemma_texts_of_docv_index(a);
                    assert(text_of_docv(a[i as int]) is None);
                }
                return None;
            },
        }
        i += 1;
    }
    proof {
        lemma_texts_of_docv_index(a);
        assert(texts_of_docv(a) is Some);
        assert(out@.map_values(|t: TextSpec| t@) =~= texts_of_docv(a)->0);
    }
    Some(out)
}

fn output_of_doc(d: &Doc) -> (r: Option<OutputSpec>)
    ensures
        r is Some <==> output_of_docv(d@) is Some,
        r is Some ==> r->0@ == output_of_docv(d@)->0,
{
    match d {
        Doc::Table(t) => {
            match doc_get(t, "background-color") {
                Some(c) => match color_of_doc(c) {
                    Some(cv) => Some(OutputSpec { background_color: cv }),
                    None => None,
                },
                None => Some(
                    OutputSpec { background_color: Color::Named(String::from_str("white")) },
                ),
            }
        },
        _ => None,
    }
}

/// Decode a document tree into a specification; exactly the permissive
/// decode of the schema, every missing field defaulted, every malformed
/// field a parse error.
pub fn parse_spec_doc(d: &Doc) -> (r: Result<StampSpec, WsError>)
    ensures
        r is Ok <==> spec_of_docv(d@) is Some,
        r is Ok ==> r->Ok_0@ == spec_of_docv(d@)->0,
        r is Err ==> r->Err_0 is Parse,
{
    match d {
        Doc::Table(t) => {
            let stack_size: i32 = match doc_get(t, "stack-size") {
                Some(v) => match i32_of_doc(v) {
                    Some(n) => n,
                    None => {
                        return Err(WsError::Parse(String::from_str("invalid stack-size")));
                    },
                },
                None => 1,
            };
            let source_image: String = match doc_get(t, "source-image") {
                Some(v) => match v {
                    Doc::Str(s) => s.clone(),
                    _ => {
                        return Err(WsError::Parse(String::from_str("invalid source-image")));
                    },
                },
                None => String::new(),
            };
            let layout: Layout = match doc_get(t, "layout") {
                Some(v) => match layout_of_doc(v) {
                    Some(l) => l,
                    None => {
                        return Err(WsError::Parse(String::from_str("invalid layout")));
                    },
                },
                None => Layout::default(),
            };
            let texts: Vec<TextSpec> = match doc_get(t, "texts") {
                Some(v) => match v {
                    Doc::Arr(a) => match texts_of_doc(a) {
                        Some(ts) => ts,
                        None => {
                            return Err(WsError::Parse(String::from_str("invalid texts")));
                        },
                    },
                    _ => {
                        return Err(WsError::Parse(String::from_str("invalid texts")));
                    },
                },
                None => Vec::new(),
            };
            let output: OutputSpec = match doc_get(t, "output") {
                Some(v) => match output_of_doc(v) {
                    Some(o) => o,
                    None => {
                        return Err(WsError::Parse(String::from_str("invalid output")));
                    },
                },
                None => OutputSpec { background_color: Color::Named(String::from_str("white")) },
            };
            let background: Color = match doc_get(t, "background") {
                Some(v) => match color_of_doc(v) {
                    Some(c) => c,
                    None => {
                        return Err(WsError::Parse(String::from_str("invalid background")));
                    },
                },
                None => Color::Rgb(255, 255, 255),
            };
            let r = StampSpec { stack_size, source_image, layout, texts, output, background };
            proof {
                assert(r@ =~~= spec_of_docv(d@)->0);
            }
            Ok(r)
        },
        _ => Err(WsError::Parse(String::from_str("specification is not a table"))),
    }
}

} // verus!
