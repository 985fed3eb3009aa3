use serial_stamp::spec_model::{
    default_background, default_background_color, default_stack_size, default_text_size, Color,
    Dim, GridSize, Layout, Num, OutputSpec, Pos, StampSpec, TextSpec,
};

fn sample_text(template: &str, size: i32) -> TextSpec {
    TextSpec {
        template: template.to_string(),
        position: Pos { x: Num::Int(5), y: Num::Int(7) },
        ttf: None,
        size,
        color: Color::Named("red".to_string()),
    }
}

fn base_spec() -> StampSpec {
    StampSpec {
        stack_size: 3,
        source_image: "bg.png".to_string(),
        layout: Layout {
            grid_size: GridSize { cols: 2, rows: 4 },
            gap: Dim::Scalar(Num::Int(0)),
            margin: Dim::Pair(Num::Int(1), Num::Int(2)),
        },
        texts: vec![sample_text("Hello", 12)],
        output: OutputSpec { background_color: Color::Named("white".to_string()) },
        background: Color::Rgb(255, 255, 255),
    }
}

#[test]
fn defaults_match_documented_values() {
    assert_eq!(default_text_size(), 16);
    assert_eq!(default_stack_size(), 1);
    assert_eq!(default_background_color(), Color::Named("white".to_string()));
    assert_eq!(default_background(), Color::Rgb(255, 255, 255));
    assert_eq!(Color::default(), Color::Rgb(0, 0, 0));
}

#[test]
fn canonicalize_clamps_stack_size_and_grid() {
    let mut s = base_spec();
    s.stack_size = 0;
    s.layout.grid_size = GridSize { cols: -2, rows: 0 };
    let c = s.normalize_for_save();
    assert_eq!(c.stack_size, 1);
    assert_eq!(c.layout.grid_size, GridSize { cols: 1, rows: 1 });
}

#[test]
fn canonicalize_keeps_positive_values() {
    let c = base_spec().normalize_for_save();
    assert_eq!(c.stack_size, 3);
    assert_eq!(c.layout.grid_size, GridSize { cols: 2, rows: 4 });
    assert_eq!(c.texts.len(), 1);
    assert_eq!(c.texts[0].template, "Hello");
}

#[test]
fn canonicalize_synthesizes_one_default_text() {
    let mut s = base_spec();
    s.texts = Vec::new();
    let c = s.normalize_for_save();
    assert_eq!(c.texts.len(), 1);
    let t = &c.texts[0];
    assert_eq!(t.template, "Sample Text");
    assert_eq!(t.position, Pos { x: Num::Int(10), y: Num::Int(10) });
    assert_eq!(t.ttf, None);
    assert_eq!(t.size, 24);
    assert_eq!(t.color, Color::Named("black".to_string()));
}

#[test]
fn canonicalize_is_idempotent() {
    let mut s = base_spec();
    s.stack_size = -5;
    s.texts = Vec::new();
    let once = s.normalize_for_save();
    let twice = once.clone().normalize_for_save();
    assert_eq!(once, twice);
}
