use lospec_palette::color::{lightness, manhattan_distance, parse_hex_color, Color};
use lospec_palette::error::PaletteLoaderError;
use lospec_palette::palette::Palette;

fn texts(items: &[&str]) -> Vec<String> {
    items.iter().map(|s| s.to_string()).collect()
}

fn black() -> Color {
    Color::rgb(0, 0, 0)
}

fn white() -> Color {
    Color::rgb(255, 255, 255)
}

#[test]
fn default_palette_has_six_entries() {
    let p = Palette::default();
    assert_eq!(p.0.len(), 6);
    assert_eq!(p.darkest(), black());
    assert_eq!(p.lightest(), white());
    assert_eq!(p.closest(Color::rgb(250, 210, 5)), (3, Color::rgb(255, 214, 0)));
    assert_eq!(
        p.0,
        vec![
            Color::rgb(255, 20, 148),
            Color::rgb(240, 255, 255),
            Color::rgb(125, 255, 212),
            Color::rgb(255, 214, 0),
            black(),
            white(),
        ]
    );
}

#[test]
fn black_and_white_round_trip() {
    let p = Palette::try_from(&texts(&["000000", "ffffff"])).unwrap();
    assert_eq!(p.0, vec![black(), white()]);
    assert_eq!(p.darkest(), black());
    assert_eq!(p.lightest(), white());
}

#[test]
fn example_json_document_loads() {
    let doc: serde_json::Value =
        serde_json::from_str(r#"{"colors":["000000","ffffff"]}"#).unwrap();
    let colors: Vec<String> = doc["colors"]
        .as_array()
        .unwrap()
        .iter()
        .map(|v| v.as_str().unwrap().to_string())
        .collect();
    let p = Palette::try_from(&colors).unwrap();
    assert_eq!(p.0.len(), 2);
    assert_eq!(p.darkest(), black());
    assert_eq!(p.lightest(), white());
}

#[test]
fn bad_hex_letters_are_refused() {
    let r = Palette::try_from(&texts(&["000000", "zzzzzz", "12"]));
    assert_eq!(
        r.unwrap_err(),
        PaletteLoaderError::HexColor { index: 1, text: "zzzzzz".to_string() }
    );
}

#[test]
fn bad_hex_length_is_refused() {
    let r = Palette::try_from(&texts(&["12"]));
    assert_eq!(
        r.unwrap_err(),
        PaletteLoaderError::HexColor { index: 0, text: "12".to_string() }
    );
}

#[test]
fn empty_list_is_refused() {
    assert_eq!(Palette::try_from(&Vec::new()).unwrap_err(), PaletteLoaderError::Empty);
}

#[test]
fn hex_forms_decode_exactly() {
    assert_eq!(parse_hex_color("ff69b4"), Some(Color::rgb(255, 105, 180)));
    assert_eq!(parse_hex_color("#FF69B4"), Some(Color::rgb(255, 105, 180)));
    assert_eq!(parse_hex_color("#1a2"), Some(Color::rgb(0x11, 0xaa, 0x22)));
    assert_eq!(parse_hex_color("1a2c"), Some(Color::rgba(0x11, 0xaa, 0x22, 0xcc)));
    assert_eq!(parse_hex_color("#01020304"), Some(Color::rgba(1, 2, 3, 4)));
    assert_eq!(parse_hex_color("7fffd4"), Some(Color::rgb(127, 255, 212)));
}

#[test]
fn hex_outside_grammar_is_refused() {
    assert_eq!(parse_hex_color(""), None);
    assert_eq!(parse_hex_color("#"), None);
    assert_eq!(parse_hex_color("##ffffff"), None);
    assert_eq!(parse_hex_color("+fffff"), None);
    assert_eq!(parse_hex_color("#+ff"), None);
    assert_eq!(parse_hex_color("fffff"), None);
    assert_eq!(parse_hex_color("ffé"), None);
    assert_eq!(parse_hex_color("-fffff"), None);
}

#[test]
fn closest_to_pure_red() {
    let p = Palette::try_from(&texts(&["ff0000", "00ff00", "0000ff"])).unwrap();
    let red = Color::rgb(255, 0, 0);
    assert_eq!(p.closest(red), (0, red));
    assert_eq!(manhattan_distance(&p.0[0], &red), 0);
}

#[test]
fn closest_to_mid_gray() {
    let p = Palette::try_from(&texts(&["ff0000", "00ff00", "0000ff"])).unwrap();
    let gray = parse_hex_color("808080").unwrap();
    for c in p.iter() {
        assert_eq!(manhattan_distance(c, &gray), 384);
    }
    assert_eq!(p.closest(gray), (0, Color::rgb(255, 0, 0)));
}

#[test]
fn closest_finds_first_copy_of_member() {
    let a = Color::rgb(10, 20, 30);
    let b = Color::rgb(200, 100, 0);
    let p = Palette::from(vec![b, a, b, a]);
    assert_eq!(p.closest(a), (1, a));
    assert_eq!(p.closest(b), (0, b));
}

#[test]
fn closest_ignores_alpha() {
    let p = Palette::from(vec![Color::rgba(1, 2, 3, 0), Color::rgb(1, 2, 3)]);
    assert_eq!(p.closest(Color::rgb(1, 2, 3)), (0, Color::rgba(1, 2, 3, 0)));
}

#[test]
fn score_values() {
    assert_eq!(lightness(&black()), 0);
    assert_eq!(lightness(&white()), 768);
    assert_eq!(lightness(&Color::rgb(255, 20, 148)), 424);
    assert_eq!(manhattan_distance(&black(), &white()), 768);
    assert_eq!(manhattan_distance(&Color::rgb(10, 0, 0), &Color::rgb(0, 0, 10)), 20);
}

#[test]
fn ties_go_to_the_first_color() {
    let red = Color::rgb(255, 0, 0);
    let green = Color::rgb(0, 255, 0);
    let p = Palette::from(vec![red, green]);
    assert_eq!(p.lightest(), red);
    assert_eq!(p.darkest(), red);
    assert_eq!(p.lightest_index(), 0);
    assert_eq!(p.darkest_index(), 0);
    let q = Palette::from(vec![green, red]);
    assert_eq!(q.lightest(), green);
    assert_eq!(q.darkest(), green);
}

#[test]
fn extremes_are_members() {
    let p = Palette::try_from(&texts(&["336699", "#abc", "102030", "fedcba"])).unwrap();
    assert_eq!(p.lightest(), Color::rgb(0xfe, 0xdc, 0xba));
    assert_eq!(p.darkest(), Color::rgb(0x10, 0x20, 0x30));
    assert!(p.0.contains(&p.lightest()));
    assert!(p.0.contains(&p.darkest()));
    assert_eq!(p.lightest_index(), 3);
    assert_eq!(p.darkest_index(), 2);
}

#[test]
fn iter_walks_in_order() {
    let p = Palette::default();
    let seen: Vec<Color> = p.iter().copied().collect();
    assert_eq!(seen, p.0);
    assert_eq!(p.iter().count(), 6);
}
