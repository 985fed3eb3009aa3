//! The stamp specification model: the typed representation of the layout
//! document, its defaults, and the canonicalization applied before saving.

use vstd::prelude::*;

verus! {

/// A numeric scalar as it appears in the configuration document: either an
/// integer, or a floating-point value carried losslessly as its shortest
/// round-tripping decimal text. The library never computes with the float
/// form; it only preserves it through round-trips. Parsing always produces
/// that canonical text; a caller-built `Float` whose text is not a float's
/// decimal form is printed as the default float value when serialized.
#[derive(Clone, PartialEq, Eq, Debug)]
pub enum Num {
    Int(i64),
    Float(String),
}

/// Spec-level mirror of `Num`.
#[verifier::ext_equal]
pub enum NumV {
    Int(i64),
    Float(Seq<char>),
}

impl View for Num {
    type V = NumV;

    open spec fn view(&self) -> NumV {
        match self {
            Num::Int(i) => NumV::Int(*i),
            Num::Float(s) => NumV::Float(s@),
        }
    }
}

/// A color is exactly one of: a named color string, an RGB triple, or an
/// RGBA quadruple. Whichever form was chosen is preserved; there is no
/// cross-form normalization.
#[derive(Clone, PartialEq, Eq, Debug)]
pub enum Color {
    Named(String),
    Rgb(u8, u8, u8),
    Rgba(u8, u8, u8, u8),
}

/// Spec-level mirror of `Color`, with the name as a character sequence.
#[verifier::ext_equal]
pub enum ColorV {
    Named(Seq<char>),
    Rgb(u8, u8, u8),
    Rgba(u8, u8, u8, u8),
}

impl View for Color {
    type V = ColorV;

    open spec fn view(&self) -> ColorV {
        match self {
            Color::Named(s) => ColorV::Named(s@),
            Color::Rgb(r, g, b) => ColorV::Rgb(*r, *g, *b),
            Color::Rgba(r, g, b, a) => ColorV::Rgba(*r, *g, *b, *a),
        }
    }
}

/// A 2D position of a text overlay.
#[derive(Clone, PartialEq, Eq, Debug)]
pub struct Pos {
    pub x: Num,
    pub y: Num,
}

/// Spec-level mirror of `Pos`.
#[verifier::ext_equal]
pub struct PosV {
    pub x: NumV,
    pub y: NumV,
}

impl View for Pos {
    type V = PosV;

    open spec fn view(&self) -> PosV {
        PosV { x: self.x@, y: self.y@ }
    }
}

/// A box dimension (gap or margin): a single scalar, a pair, or a four-sided
/// quadruple. The shape tag is preserved through round-trips; interpreting
/// the shape is the renderer's business, not this library's.
#[derive(Clone, PartialEq, Eq, Debug)]
pub enum Dim {
    Scalar(Num),
    Pair(Num, Num),
    Quad(Num, Num, Num, Num),
}

/// Spec-level mirror of `Dim`.
#[verifier::ext_equal]
pub enum DimV {
    Scalar(NumV),
    Pair(NumV, NumV),
    Quad(NumV, NumV, NumV, NumV),
}

impl View for Dim {
    type V = DimV;

    open spec fn view(&self) -> DimV {
        match self {
            Dim::Scalar(n) => DimV::Scalar(n@),
            Dim::Pair(a, b) => DimV::Pair(a@, b@),
            Dim::Quad(a, b, c, e) => DimV::Quad(a@, b@, c@, e@),
        }
    }
}

/// The grid's column and row counts; each is clamped to a minimum of 1 on
/// save.
#[derive(Clone, Copy, PartialEq, Eq, Structural, Debug)]
pub struct GridSize {
    pub cols: i32,
    pub rows: i32,
}

/// Grid geometry of the stamp sheet.
#[derive(Clone, PartialEq, Eq, Debug)]
pub struct Layout {
    pub grid_size: GridSize,
    pub gap: Dim,
    pub margin: Dim,
}

/// Spec-level mirror of `Layout`.
#[verifier::ext_equal]
pub struct LayoutV {
    pub grid_size: GridSize,
    pub gap: DimV,
    pub margin: DimV,
}

impl View for Layout {
    type V = LayoutV;

    open spec fn view(&self) -> LayoutV {
        LayoutV { grid_size: self.grid_size, gap: self.gap@, margin: self.margin@ }
    }
}

/// One text overlay descriptor.
#[derive(Clone, PartialEq, Eq, Debug)]
pub struct TextSpec {
    pub template: String,
    pub position: Pos,
    pub ttf: Option<String>,
    pub size: i32,
    pub color: Color,
}

/// Spec-level mirror of `TextSpec`.
#[verifier::ext_equal]
pub struct TextV {
    pub template: Seq<char>,
    pub position: PosV,
    pub ttf: Option<Seq<char>>,
    pub size: i32,
    pub color: ColorV,
}

impl View for TextSpec {
    type V = TextV;

    open spec fn view(&self) -> TextV {
        TextV {
            template: self.template@,
            position: self.position@,
            ttf: match self.ttf {
                Some(ref s) => Some(s@),
                None => None,
            },
            size: self.size,
            color: self.color@,
        }
    }
}

/// Output section of the specification.
#[derive(Clone, PartialEq, Eq, Debug)]
pub struct OutputSpec {
    pub background_color: Color,
}

/// Spec-level mirror of `OutputSpec`.
#[verifier::ext_equal]
pub struct OutputV {
    pub background_color: ColorV,
}

impl View for OutputSpec {
    type V = OutputV;

    open spec fn view(&self) -> OutputV {
        OutputV { background_color: self.background_color@ }
    }
}

/// The full stamp specification document.
#[derive(Clone, PartialEq, Eq, Debug)]
pub struct StampSpec {
    pub stack_size: i32,
    pub source_image: String,
    pub layout: Layout,
    pub texts: Vec<TextSpec>,
    pub output: OutputSpec,
    pub background: Color,
}

/// Spec-level mirror of `StampSpec`.
#[verifier::ext_equal]
pub struct StampSpecV {
    pub stack_size: i32,
    pub source_image: Seq<char>,
    pub layout: LayoutV,
    pub texts: Seq<TextV>,
    pub output: OutputV,
    pub background: ColorV,
}

impl View for StampSpec {
    type V = StampSpecV;

    open spec fn view(&self) -> StampSpecV {
        StampSpecV {
            stack_size: self.stack_size,
            source_image: self.source_image@,
            layout: self.layout@,
            texts: self.texts@.map_values(|t: TextSpec| t@),
            output: self.output@,
            background: self.background@,
        }
    }
}

/// Default size of a text overlay when the document omits it.
pub fn default_text_size() -> (r: i32)
    ensures
        r == 16,
{
    16
}

/// Default stack size when the document omits it.
pub fn default_stack_size() -> (r: i32)
    ensures
        r == 1,
{
    1
}

/// Default background color of the output section.
pub fn default_background_color() -> (r: Color)
    ensures
        r@ == ColorV::Named("white"@),
{
    Color::Named(String::from_str("white"))
}

/// Default top-level background color.
pub fn default_background() -> (r: Color)
    ensures
        r@ == ColorV::Rgb(255, 255, 255),
{
    Color::Rgb(255, 255, 255)
}

impl Default for Color {
    /// The neutral color substituted when a text entry names none.
    fn default() -> (r: Self)
        ensures
            r@ == ColorV::Rgb(0, 0, 0),
    {
        Color::Rgb(0, 0, 0)
    }
}

impl Default for Layout {
    fn default() -> (r: Self)
        ensures
            r@ == spec_default_layout(),
    {
        Layout {
            grid_size: GridSize { cols: 1, rows: 1 },
            gap: Dim::Scalar(Num::Int(0)),
            margin: Dim::Scalar(Num::Int(0)),
        }
    }
}

/// The layout substituted when the document omits the `layout` table.
pub open spec fn spec_default_layout() -> LayoutV {
    LayoutV {
        grid_size: GridSize { cols: 1, rows: 1 },
        gap: DimV::Scalar(NumV::Int(0)),
        margin: DimV::Scalar(NumV::Int(0)),
    }
}

impl Default for OutputSpec {
    fn default() -> (r: Self)
        ensures
            r@ == (OutputV { background_color: ColorV::Named("white"@) }),
    {
        OutputSpec { background_color: default_background_color() }
    }
}

/// The text entry synthesized when a specification is saved with no texts.
pub open spec fn spec_default_text() -> TextV {
    TextV {
        template: "Sample Text"@,
        position: PosV { x: NumV::Int(10), y: NumV::Int(10) },
        ttf: None,
        size: 24,
        color: ColorV::Named("black"@),
    }
}

/// What canonicalization does: clamp the stack size and the grid dimensions
/// to a minimum of 1, and synthesize one default text entry if there are
/// none. Everything else is left untouched.
pub open spec fn spec_canonicalize(s: StampSpecV) -> StampSpecV {
    StampSpecV {
        stack_size: if s.stack_size < 1 { 1 } else { s.stack_size },
        source_image: s.source_image,
        layout: LayoutV {
            grid_size: GridSize {
                cols: if s.layout.grid_size.cols < 1 { 1 } else { s.layout.grid_size.cols },
                rows: if s.layout.grid_size.rows < 1 { 1 } else { s.layout.grid_size.rows },
            },
            gap: s.layout.gap,
            margin: s.layout.margin,
        },
        texts: if s.texts.len() == 0 { seq![spec_default_text()] } else { s.texts },
        output: s.output,
        background: s.background,
    }
}

/// A specification already in canonical form: the save-time invariants hold.
pub open spec fn is_canonical(s: StampSpecV) -> bool {
    &&& s.stack_size >= 1
    &&& s.layout.grid_size.cols >= 1
    &&& s.layout.grid_size.rows >= 1
    &&& s.texts.len() > 0
}

impl StampSpec {
    /// Canonicalize the specification for saving: clamp `stack_size` and the
    /// grid dimensions to at least 1, and ensure at least one text entry.
    pub fn normalize_for_save(self) -> (r: StampSpec)
        ensures
            r@ == spec_canonicalize(self@),
            is_canonical(r@),
    {
        let mut s = self;
        if s.stack_size < 1 {
            s.stack_size = 1;
        }
        if s.layout.grid_size.cols < 1 {
            s.layout.grid_size.cols = 1;
        }
        if s.layout.grid_size.rows < 1 {
            s.layout.grid_size.rows = 1;
        }
        if s.texts.len() == 0 {
            s.texts.push(TextSpec {
                template: String::from_str("Sample Text"),
                position: Pos { x: Num::Int(10), y: Num::Int(10) },
                ttf: None,
                size: 24,
                color: Color::Named(String::from_str("black")),
            });
        }
        proof {
            assert(s@ =~~= spec_canonicalize(self@));
        }
        s
    }
}

/// Canonicalization is idempotent: a canonical specification is left exactly
/// as it is, so canonicalizing twice is the same as canonicalizing once.
pub proof fn lemma_canonicalize_idempotent(s: StampSpecV)
    ensures
        spec_canonicalize(spec_canonicalize(s)) == spec_canonicalize(s),
{
    assert(spec_canonicalize(spec_canonicalize(s)) =~~= spec_canonicalize(s));
}

/// Canonicalization clamps: a non-positive stack size becomes exactly 1, and
/// a non-positive grid dimension becomes exactly 1; positive values are kept.
pub proof fn lemma_canonicalize_clamps(s: StampSpecV)
    ensures
        s.stack_size <= 0 ==> spec_canonicalize(s).stack_size == 1,
        s.layout.grid_size.cols <= 0 ==> spec_canonicalize(s).layout.grid_size.cols == 1,
        s.layout.grid_size.rows <= 0 ==> spec_canonicalize(s).layout.grid_size.rows == 1,
        s.stack_size >= 1 ==> spec_canonicalize(s).stack_size == s.stack_size,
        s.layout.grid_size.cols >= 1 ==> spec_canonicalize(s).layout.grid_size.cols
            == s.layout.grid_size.cols,
        s.layout.grid_size.rows >= 1 ==> spec_canonicalize(s).layout.grid_size.rows
            == s.layout.grid_size.rows,
{
}

/// Canonicalizing a specification with no text entries yields exactly one
/// synthesized entry: template "Sample Text", position (10, 10), size 24,
/// named color "black".
pub proof fn lemma_canonicalize_fills_texts(s: StampSpecV)
    requires
        s.texts.len() == 0,
    ensures
        spec_canonicalize(s).texts == seq![spec_default_text()],
{
}

} // verus!
