use serial_stamp::errors::WsError;
use serial_stamp::fsplan::default_spec_toml;
use serial_stamp::spec_model::{
    Color, Dim, GridSize, Layout, Num, OutputSpec, Pos, StampSpec, TextSpec,
};
use serial_stamp::toml_codec::{fallback_spec, parse_spec_from_toml, read_spec_lenient};

fn rich_spec() -> StampSpec {
    StampSpec {
        stack_size: 2,
        source_image: "images/bg.png".to_string(),
        layout: Layout {
            grid_size: GridSize { cols: 3, rows: 5 },
            gap: Dim::Pair(Num::Int(4), Num::Float("0.5".to_string())),
            margin: Dim::Quad(Num::Int(1), Num::Int(2), Num::Int(3), Num::Int(4)),
        },
        texts: vec![
            TextSpec {
                template: "No {num}".to_string(),
                position: Pos { x: Num::Float("10.5".to_string()), y: Num::Int(20) },
                ttf: Some("fonts/a.ttf".to_string()),
                size: 14,
                color: Color::Rgb(1, 2, 3),
            },
            TextSpec {
                template: "Second".to_string(),
                position: Pos { x: Num::Int(0), y: Num::Int(0) },
                ttf: None,
                size: 16,
                color: Color::Rgba(9, 8, 7, 6),
            },
        ],
        output: OutputSpec { background_color: Color::Named("white".to_string()) },
        background: Color::Rgb(10, 20, 30),
    }
}

#[test]
fn default_document_parses_to_documented_defaults() {
    let text = default_spec_toml();
    let s = parse_spec_from_toml(&text).unwrap();
    assert_eq!(s.stack_size, 1);
    assert_eq!(s.source_image, "");
    assert_eq!(s.layout.grid_size, GridSize { cols: 1, rows: 1 });
    assert_eq!(s.layout.gap, Dim::Scalar(Num::Int(0)));
    assert_eq!(s.layout.margin, Dim::Scalar(Num::Int(0)));
    assert_eq!(s.texts.len(), 1);
    assert_eq!(s.texts[0].template, "Sample Text");
    assert_eq!(s.texts[0].position, Pos { x: Num::Int(10), y: Num::Int(10) });
    assert_eq!(s.texts[0].size, 24);
    assert_eq!(s.texts[0].color, Color::Named("black".to_string()));
    assert_eq!(s.output.background_color, Color::Named("white".to_string()));
    assert_eq!(s.background, Color::Rgb(255, 255, 255));
}

#[test]
fn empty_document_takes_every_default() {
    let s = parse_spec_from_toml("").unwrap();
    assert_eq!(s.stack_size, 1);
    assert_eq!(s.source_image, "");
    assert_eq!(s.layout.grid_size, GridSize { cols: 1, rows: 1 });
    assert_eq!(s.texts.len(), 0);
    assert_eq!(s.output.background_color, Color::Named("white".to_string()));
    assert_eq!(s.background, Color::Rgb(255, 255, 255));
}

#[test]
fn text_entry_defaults_size_and_color() {
    let text = "[[texts]]\ntemplate = \"T\"\nposition = [1, 2]\n";
    let s = parse_spec_from_toml(text).unwrap();
    assert_eq!(s.texts.len(), 1);
    assert_eq!(s.texts[0].size, 16);
    assert_eq!(s.texts[0].color, Color::Rgb(0, 0, 0));
    assert_eq!(s.texts[0].ttf, None);
}

#[test]
fn serialize_then_parse_round_trips_canonical_spec() {
    let spec = rich_spec();
    let canonical = spec.clone().normalize_for_save();
    let text = spec.to_canonical_toml_string().unwrap();
    let back = parse_spec_from_toml(&text).unwrap();
    assert_eq!(back, canonical);
}

#[test]
fn serialize_then_parse_round_trips_clamped_spec() {
    let mut spec = rich_spec();
    spec.stack_size = -3;
    spec.texts = Vec::new();
    let canonical = spec.clone().normalize_for_save();
    let text = spec.to_canonical_toml_string().unwrap();
    let back = parse_spec_from_toml(&text).unwrap();
    assert_eq!(back, canonical);
    assert_eq!(back.stack_size, 1);
    assert_eq!(back.texts.len(), 1);
}

#[test]
fn color_forms_are_preserved_not_normalized() {
    let text = parse_spec_from_toml(
        "background = [10, 20, 30]\n\n[output]\nbackground-color = \"ivory\"\n",
    )
    .unwrap();
    assert_eq!(text.background, Color::Rgb(10, 20, 30));
    assert_eq!(text.output.background_color, Color::Named("ivory".to_string()));
}

#[test]
fn float_scalars_survive_the_round_trip() {
    let s = parse_spec_from_toml("[layout]\ngrid-size = [2, 2]\ngap = 0.5\nmargin = 0\n").unwrap();
    assert_eq!(s.layout.gap, Dim::Scalar(Num::Float("0.5".to_string())));
    let text = s.clone().to_canonical_toml_string().unwrap();
    let back = parse_spec_from_toml(&text).unwrap();
    assert_eq!(back.layout.gap, Dim::Scalar(Num::Float("0.5".to_string())));
}

#[test]
fn malformed_text_is_a_parse_error() {
    let r = parse_spec_from_toml("not [ valid toml");
    assert!(matches!(r, Err(WsError::Parse(_))));
}

#[test]
fn wrong_shape_field_is_a_parse_error() {
    assert!(matches!(parse_spec_from_toml("stack-size = \"three\"\n"), Err(WsError::Parse(_))));
    assert!(matches!(
        parse_spec_from_toml("[[texts]]\nposition = [1, 2]\n"),
        Err(WsError::Parse(_))
    ));
    assert!(matches!(parse_spec_from_toml("background = [300, 0, 0]\n"), Err(WsError::Parse(_))));
}

#[test]
fn lenient_read_substitutes_the_fallback() {
    let s = read_spec_lenient("not [ valid toml");
    assert_eq!(s, fallback_spec());
    assert_eq!(s.stack_size, 1);
    assert_eq!(s.texts.len(), 1);
    assert_eq!(s.texts[0].template, "Sample Text");
    assert_eq!(s.texts[0].size, 24);
    assert_eq!(s.texts[0].color, Color::Named("black".to_string()));
    assert_eq!(s.background, Color::Rgb(255, 255, 255));
}

#[test]
fn lenient_read_keeps_well_formed_documents() {
    let s = read_spec_lenient("stack-size = 7\n");
    assert_eq!(s.stack_size, 7);
}

#[test]
fn unknown_keys_are_ignored() {
    let s = parse_spec_from_toml("stack-size = 2\nfuture-field = true\n").unwrap();
    assert_eq!(s.stack_size, 2);
}
