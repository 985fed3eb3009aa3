//! The mapping between the typed stamp specification and the document tree:
//! a permissive decode that substitutes documented defaults for missing
//! fields, and the encode it inverts. The two are exact inverses, proved
//! below: a specification written out and read back is unchanged.

use vstd::prelude::*;

use crate::doc::{tbl_get, DocV};
use crate::spec_model::{
    spec_canonicalize, spec_default_layout, ColorV, DimV, GridSize, LayoutV, NumV, OutputV, PosV,
    StampSpecV, TextV,
};

verus! {

// ---------------------------------------------------------------------------
// Encoding: specification -> document tree
// ---------------------------------------------------------------------------

/// A numeric scalar as a document value.
pub open spec fn num_docv(n: NumV) -> DocV {
    match n {
        NumV::Int(i) => DocV::Int(i),
        NumV::Float(s) => DocV::Float(s),
    }
}

/// A color as a document value: the name, or the byte triple or quadruple.
pub open spec fn color_docv(c: ColorV) -> DocV {
    match c {
        ColorV::Named(s) => DocV::Str(s),
        ColorV::Rgb(r, g, b) => DocV::Arr(
            seq![DocV::Int(r as i64), DocV::Int(g as i64), DocV::Int(b as i64)],
        ),
        ColorV::Rgba(r, g, b, a) => DocV::Arr(
            seq![DocV::Int(r as i64), DocV::Int(g as i64), DocV::Int(b as i64), DocV::Int(a as i64)],
        ),
    }
}

/// A box dimension as a document value: scalar, pair, or quadruple.
pub open spec fn dim_docv(d: DimV) -> DocV {
    match d {
        DimV::Scalar(n) => num_docv(n),
        DimV::Pair(a, b) => DocV::Arr(seq![num_docv(a), num_docv(b)]),
        DimV::Quad(a, b, c, e) => DocV::Arr(
            seq![num_docv(a), num_docv(b), num_docv(c), num_docv(e)],
        ),
    }
}

/// The layout table.
pub open spec fn layout_docv(l: LayoutV) -> DocV {
    DocV::Table(
        seq![
            (
                "grid-size"@,
                DocV::Arr(
                    seq![DocV::Int(l.grid_size.cols as i64), DocV::Int(l.grid_size.rows as i64)],
                ),
            ),
            ("gap"@, dim_docv(l.gap)),
            ("margin"@, dim_docv(l.margin)),
        ],
    )
}

/// One text overlay as a table; `ttf` is omitted when absent.
pub open spec fn text_docv(t: TextV) -> DocV {
    DocV::Table(
        seq![
            ("template"@, DocV::Str(t.template)),
            ("position"@, DocV::Arr(seq![num_docv(t.position.x), num_docv(t.position.y)])),
        ] + (match t.ttf {
            Some(f) => seq![("ttf"@, DocV::Str(f))],
            None => Seq::<(Seq<char>, DocV)>::empty(),
        }) + seq![("size"@, DocV::Int(t.size as i64)), ("color"@, color_docv(t.color))],
    )
}

/// The whole specification as a document tree.
pub open spec fn doc_of_spec(s: StampSpecV) -> DocV {
    DocV::Table(
        seq![
            ("stack-size"@, DocV::Int(s.stack_size as i64)),
            ("source-image"@, DocV::Str(s.source_image)),
            ("layout"@, layout_docv(s.layout)),
            ("texts"@, DocV::Arr(s.texts.map_values(|t: TextV| text_docv(t)))),
            (
                "output"@,
                DocV::Table(seq![("background-color"@, color_docv(s.output.background_color))]),
            ),
            ("background"@, color_docv(s.background)),
        ],
    )
}

// ---------------------------------------------------------------------------
// Decoding: document tree -> specification, with documented defaults
// ---------------------------------------------------------------------------

/// A numeric scalar from a document value.
pub open spec fn num_of_docv(d: DocV) -> Option<NumV> {
    match d {
        DocV::Int(i) => Some(NumV::Int(i)),
        DocV::Float(s) => Some(NumV::Float(s)),
        _ => None,
    }
}

/// A color channel byte from a document value.
pub open spec fn byte_of_docv(d: DocV) -> Option<u8> {
    match d {
        DocV::Int(i) => if 0 <= i <= 255 {
            Some(i as u8)
        } else {
            None
        },
        _ => None,
    }
}

/// A 32-bit integer from a document value.
pub open spec fn i32_of_docv(d: DocV) -> Option<i32> {
    match d {
        DocV::Int(i) => if i32::MIN <= i <= i32::MAX {
            Some(i as i32)
        } else {
            None
        },
        _ => None,
    }
}

/// A color from a document value: exactly a string, a 3-element byte array,
/// or a 4-element byte array.
pub open spec fn color_of_docv(d: DocV) -> Option<ColorV> {
    match d {
        DocV::Str(s) => Some(ColorV::Named(s)),
        DocV::Arr(a) => if a.len() == 3 && byte_of_docv(a[0]) is Some && byte_of_docv(a[1]) is Some
            && byte_of_docv(a[2]) is Some {
            Some(ColorV::Rgb(byte_of_docv(a[0])->0, byte_of_docv(a[1])->0, byte_of_docv(a[2])->0))
        } else if a.len() == 4 && byte_of_docv(a[0]) is Some && byte_of_docv(a[1]) is Some
            && byte_of_docv(a[2]) is Some && byte_of_docv(a[3]) is Some {
            Some(
                ColorV::Rgba(
                    byte_of_docv(a[0])->0,
                    byte_of_docv(a[1])->0,
                    byte_of_docv(a[2])->0,
                    byte_of_docv(a[3])->0,
                ),
            )
        } else {
            None
        },
        _ => None,
    }
}

/// A box dimension from a document value: a scalar, a pair, or a quadruple.
pub open spec fn dim_of_docv(d: DocV) -> Option<DimV> {
    match d {
        DocV::Int(i) => Some(DimV::Scalar(NumV::Int(i))),
        DocV::Float(s) => Some(DimV::Scalar(NumV::Float(s))),
        DocV::Arr(a) => if a.len() == 2 && num_of_docv(a[0]) is Some && num_of_docv(a[1]) is Some {
            Some(DimV::Pair(num_of_docv(a[0])->0, num_of_docv(a[1])->0))
        } else if a.len() == 4 && num_of_docv(a[0]) is Some && num_of_docv(a[1]) is Some
            && num_of_docv(a[2]) is Some && num_of_docv(a[3]) is Some {
            Some(
                DimV::Quad(
                    num_of_docv(a[0])->0,
                    num_of_docv(a[1])->0,
                    num_of_docv(a[2])->0,
                    num_of_docv(a[3])->0,
                ),
            )
        } else {
            None
        },
        _ => None,
    }
}

/// A position from a document value: a 2-element numeric array.
pub open spec fn pos_of_docv(d: DocV) -> Option<PosV> {
    match d {
        DocV::Arr(a) => if a.len() == 2 && num_of_docv(a[0]) is Some && num_of_docv(a[1]) is Some {
            Some(PosV { x: num_of_docv(a[0])->0, y: num_of_docv(a[1])->0 })
        } else {
            None
        },
        _ => None,
    }
}

/// A grid size from a document value: a 2-element integer array.
pub open spec fn grid_of_docv(d: DocV) -> Option<GridSize> {
    match d {
        DocV::Arr(a) => if a.len() == 2 && i32_of_docv(a[0]) is Some && i32_of_docv(a[1]) is Some {
            Some(GridSize { cols: i32_of_docv(a[0])->0, rows: i32_of_docv(a[1])->0 })
        } else {
            None
        },
        _ => None,
    }
}

/// The layout from its table; each missing field takes its documented
/// default.
pub open spec fn layout_of_docv(d: DocV) -> Option<LayoutV> {
    match d {
        DocV::Table(t) => {
            let grid = match tbl_get(t, "grid-size"@) {
                Some(g) => grid_of_docv(g),
                None => Some(GridSize { cols: 1, rows: 1 }),
            };
            let gap = match tbl_get(t, "gap"@) {
                Some(g) => dim_of_docv(g),
                None => Some(DimV::Scalar(NumV::Int(0))),
            };
            let margin = match tbl_get(t, "margin"@) {
                Some(g) => dim_of_docv(g),
                None => Some(DimV::Scalar(NumV::Int(0))),
            };
            if grid is Some && gap is Some && margin is Some {
                Some(LayoutV { grid_size: grid->0, gap: gap->0, margin: margin->0 })
            } else {
                None
            }
        },
        _ => None,
    }
}

/// One text overlay from its table: `template` and `position` are required,
/// `ttf` is optional, `size` defaults to 16, `color` to the neutral color.
pub open spec fn text_of_docv(d: DocV) -> Option<TextV> {
    match d {
        DocV::Table(t) => {
            let tpl = match tbl_get(t, "template"@) {
                Some(DocV::Str(s)) => Some(s),
                _ => None,
            };
            let pos = match tbl_get(t, "position"@) {
                Some(p) => pos_of_docv(p),
                None => None,
            };
            let ttf = match tbl_get(t, "ttf"@) {
                Some(DocV::Str(s)) => Some(Some(s)),
                Some(_) => None,
                None => Some(None),
            };
            let size = match tbl_get(t, "size"@) {
                Some(v) => i32_of_docv(v),
                None => Some(16i32),
            };
            let color = match tbl_get(t, "color"@) {
                Some(v) => color_of_docv(v),
                None => Some(ColorV::Rgb(0, 0, 0)),
            };
            if tpl is Some && pos is Some && ttf is Some && size is Some && color is Some {
                Some(
                    TextV {
                        template: tpl->0,
                        position: pos->0,
                        ttf: ttf->0,
                        size: size->0,
                        color: color->0,
                    },
                )
            } else {
                None
            }
        },
        _ => None,
    }
}

/// All text overlays, in order; one bad entry fails the lot.
pub open spec fn texts_of_docv(a: Seq<DocV>) -> Option<Seq<TextV>>
    decreases a.len(),
{
    if a.len() == 0 {
        Some(Seq::empty())
    } else {
        match (text_of_docv(a[0]), texts_of_docv(a.drop_first())) {
            (Some(t), Some(rest)) => Some(seq![t] + rest),
            _ => None,
        }
    }
}

/// The output section from its table.
pub open spec fn output_of_docv(d: DocV) -> Option<OutputV> {
    match d {
        DocV::Table(t) => match tbl_get(t, "background-color"@) {
            Some(c) => match color_of_docv(c) {
                Some(cv) => Some(OutputV { background_color: cv }),
                None => None,
            },
            None => Some(OutputV { background_color: ColorV::Named("white"@) }),
        },
        _ => None,
    }
}

/// The whole specification from a document tree. The document must be a
/// table; each missing field takes its documented default, and a field of
/// the wrong shape fails the decode.
pub open spec fn spec_of_docv(d: DocV) -> Option<StampSpecV> {
    match d {
        DocV::Table(t) => {
            let stack = match tbl_get(t, "stack-size"@) {
                Some(v) => i32_of_docv(v),
                None => Some(1i32),
            };
            let src = match tbl_get(t, "source-image"@) {
                Some(DocV::Str(s)) => Some(s),
                Some(_) => None,
                None => Some(Seq::<char>::empty()),
            };
            let layout = match tbl_get(t, "layout"@) {
                Some(v) => layout_of_docv(v),
                None => Some(spec_default_layout()),
            };
            let texts = match tbl_get(t, "texts"@) {
                Some(DocV::Arr(a)) => texts_of_docv(a),
                Some(_) => None,
                None => Some(Seq::<TextV>::empty()),
            };
            let output = match tbl_get(t, "output"@) {
                Some(v) => output_of_docv(v),
                None => Some(OutputV { background_color: ColorV::Named("white"@) }),
            };
            let bg = match tbl_get(t, "background"@) {
                Some(v) => color_of_docv(v),
                None => Some(ColorV::Rgb(255, 255, 255)),
            };
            if stack is Some && src is Some && layout is Some && texts is Some && output is Some
                && bg is Some {
                Some(
                    StampSpecV {
                        stack_size: stack->0,
                        source_image: src->0,
                        layout: layout->0,
                        texts: texts->0,
                        output: output->0,
                        background: bg->0,
                    },
                )
            } else {
                None
            }
        },
        _ => None,
    }
}

// ---------------------------------------------------------------------------
// The round trip
// ---------------------------------------------------------------------------

/// Colors decode back to themselves.
pub proof fn lemma_color_round_trip(c: ColorV)
    ensures
        color_of_docv(color_docv(c)) == Some(c),
{
}

/// Dimensions decode back to themselves.
pub proof fn lemma_dim_round_trip(d: DimV)
    ensures
        dim_of_docv(dim_docv(d)) == Some(d),
{
}

/// One text overlay decodes back to itself.
pub proof fn lemma_text_round_trip(t: TextV)
    ensures
        text_of_docv(text_docv(t)) == Some(t),
{
    broadcast use vstd::string::group_string_axioms;

    reveal_strlit("template");
    reveal_strlit("position");
    reveal_strlit("ttf");
    reveal_strlit("size");
    reveal_strlit("color");
    assert("template"@.len() == 8 && "position"@.len() == 8 && "ttf"@.len() == 3
        && "size"@.len() == 4 && "color"@.len() == 5);
    assert("template"@[0] == 't' && "position"@[0] == 'p');
    assert("template"@ != "position"@);
    lemma_color_round_trip(t.color);
    let tb = text_docv(t)->Table_0;
    reveal_with_fuel(crate::doc::tbl_get_from, 8);
    match t.ttf {
        Some(f) => {
            assert(tb.len() == 5);
            assert(tbl_get(tb, "template"@) == Some(DocV::Str(t.template)));
            assert(tbl_get(tb, "position"@) == Some(
                DocV::Arr(seq![num_docv(t.position.x), num_docv(t.position.y)]),
            ));
            assert(tbl_get(tb, "ttf"@) == Some(DocV::Str(f)));
            assert(tbl_get(tb, "size"@) == Some(DocV::Int(t.size as i64)));
            assert(tbl_get(tb, "color"@) == Some(color_docv(t.color)));
        },
        None => {
            assert(tb.len() == 4);
            assert(tbl_get(tb, "template"@) == Some(DocV::Str(t.template)));
            assert(tbl_get(tb, "position"@) == Some(
                DocV::Arr(seq![num_docv(t.position.x), num_docv(t.position.y)]),
            ));
            assert(tbl_get(tb, "ttf"@) is None);
            assert(tbl_get(tb, "size"@) == Some(DocV::Int(t.size as i64)));
            assert(tbl_get(tb, "color"@) == Some(color_docv(t.color)));
        },
    }
}

/// A sequence of text overlays decodes back to itself.
pub proof fn lemma_texts_round_trip(ts: Seq<TextV>)
    ensures
        texts_of_docv(ts.map_values(|t: TextV| text_docv(t))) == Some(ts),
    decreases ts.len(),
{
    let a = ts.map_values(|t: TextV| text_docv(t));
    assert(a.len() == ts.len());
    if ts.len() == 0 {
        assert(texts_of_docv(a) == Some(Seq::<TextV>::empty()));
        assert(Seq::<TextV>::empty() =~= ts);
    } else {
        lemma_text_round_trip(ts[0]);
        lemma_texts_round_trip(ts.drop_first());
        assert(a[0] == text_docv(ts[0]));
        assert(a.drop_first() =~= ts.drop_first().map_values(|t: TextV| text_docv(t)));
        assert(texts_of_docv(a) == Some(seq![ts[0]] + ts.drop_first()));
        assert(seq![ts[0]] + ts.drop_first() =~= ts);
    }
}

/// The layout decodes back to itself.
pub proof fn lemma_layout_round_trip(l: LayoutV)
    ensures
        layout_of_docv(layout_docv(l)) == Some(l),
{
    broadcast use vstd::string::group_string_axioms;

    reveal_strlit("grid-size");
    reveal_strlit("gap");
    reveal_strlit("margin");
    assert("grid-size"@.len() == 9 && "gap"@.len() == 3 && "margin"@.len() == 6);
    lemma_dim_round_trip(l.gap);
    lemma_dim_round_trip(l.margin);
    reveal_with_fuel(crate::doc::tbl_get_from, 8);
    let tb = layout_docv(l)->Table_0;
    assert(tbl_get(tb, "grid-size"@) == Some(
        DocV::Arr(seq![DocV::Int(l.grid_size.cols as i64), DocV::Int(l.grid_size.rows as i64)]),
    ));
    assert(tbl_get(tb, "gap"@) == Some(dim_docv(l.gap)));
    assert(tbl_get(tb, "margin"@) == Some(dim_docv(l.margin)));
}

/// The round trip: encoding a specification as a document tree and decoding
/// it again yields the specification unchanged, exactly.
pub proof fn lemma_spec_doc_round_trip(s: StampSpecV)
    ensures
        spec_of_docv(doc_of_spec(s)) == Some(s),
{
    broadcast use vstd::string::group_string_axioms;

    reveal_strlit("stack-size");
    reveal_strlit("source-image");
    reveal_strlit("layout");
    reveal_strlit("texts");
    reveal_strlit("output");
    reveal_strlit("background");
    reveal_strlit("background-color");
    assert("stack-size"@.len() == 10 && "source-image"@.len() == 12 && "layout"@.len() == 6
        && "texts"@.len() == 5 && "output"@.len() == 6 && "background"@.len() == 10
        && "background-color"@.len() == 16);
    assert("stack-size"@[0] == 's' && "background"@[0] == 'b');
    assert("stack-size"@ != "background"@);
    assert("layout"@[0] == 'l' && "output"@[0] == 'o');
    assert("layout"@ != "output"@);
    lemma_layout_round_trip(s.layout);
    lemma_texts_round_trip(s.texts);
    lemma_color_round_trip(s.output.background_color);
    lemma_color_round_trip(s.background);
    reveal_with_fuel(crate::doc::tbl_get_from, 10);
    let tb = doc_of_spec(s)->Table_0;
    assert(tbl_get(tb, "stack-size"@) == Some(DocV::Int(s.stack_size as i64)));
    assert(tbl_get(tb, "source-image"@) == Some(DocV::Str(s.source_image)));
    assert(tbl_get(tb, "layout"@) == Some(layout_docv(s.layout)));
    assert(tbl_get(tb, "texts"@) == Some(
        DocV::Arr(s.texts.map_values(|t: TextV| text_docv(t))),
    ));
    assert(tbl_get(tb, "output"@) == Some(
        DocV::Table(seq![("background-color"@, color_docv(s.output.background_color))]),
    ));
    assert(tbl_get(tb, "background"@) == Some(color_docv(s.background)));
    let ob = DocV::Table(seq![("background-color"@, color_docv(s.output.background_color))]);
    assert(tbl_get(ob->Table_0, "background-color"@) == Some(
        color_docv(s.output.background_color),
    ));
    assert(spec_of_docv(doc_of_spec(s))->0 =~~= s);
}

/// The round trip through canonicalization: a canonicalized specification,
/// serialized as a document tree and parsed back, is exactly the
/// canonicalized specification.
pub proof fn lemma_canonical_round_trip(s: StampSpecV)
    ensures
        spec_of_docv(doc_of_spec(spec_canonicalize(s))) == Some(spec_canonicalize(s)),
{
    lemma_spec_doc_round_trip(spec_canonicalize(s));
}

} // verus!
