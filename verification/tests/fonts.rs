use needle::{Font, FontType, Fonts};

#[test]
fn test_fonts_0001() {
    let fonts = Fonts::new();

    assert_eq!(None, fonts.available_fonts)
}

#[test]
fn test_register_fonts_merges_system_then_needle() {
    let mut fonts = Fonts::new();
    let system = vec!["Arial".to_string(), "DejaVu Sans".to_string()];
    let needle = vec!["/home/user/.config/needle/fonts/DejaVu Serif.ttf".to_string()];

    fonts.register_fonts(&system, &needle);

    let list = fonts.available_fonts();
    assert_eq!(3, list.len());
    assert_eq!("Arial", list[0].font.as_str());
    assert_eq!(FontType::System, list[0].font_type);
    assert_eq!("DejaVu Sans", list[1].font.as_str());
    assert_eq!(FontType::System, list[1].font_type);
    assert_eq!(
        "/home/user/.config/needle/fonts/DejaVu Serif.ttf",
        list[2].font.as_str()
    );
    assert_eq!(FontType::Needle, list[2].font_type);
}

#[test]
fn test_register_fonts_fills_at_most_once() {
    let mut fonts = Fonts::new();
    fonts.register_fonts(&vec!["First".to_string()], &vec![]);
    fonts.register_fonts(&vec!["Second".to_string()], &vec![]);

    let list = fonts.available_fonts();
    assert_eq!(1, list.len());
    assert_eq!("First", list[0].font.as_str());
}

#[test]
fn test_available_fonts_empty_before_query() {
    let fonts = Fonts::new();

    assert!(fonts.available_fonts().is_empty());
}

#[test]
fn test_lookup_finds_first_match() {
    let mut fonts = Fonts::new();
    fonts.register_fonts(
        &vec!["Arial".to_string(), "Mono".to_string(), "Mono".to_string()],
        &vec![],
    );

    assert_eq!(Some(1), fonts.lookup("Mono"));
    assert_eq!(Some(0), fonts.lookup("Arial"));
    assert_eq!(None, fonts.lookup("This doesn't exist"));
}

#[test]
fn test_lookup_without_query_is_none() {
    let fonts = Fonts::new();

    assert_eq!(None, fonts.lookup("Arial"));
}

#[test]
fn test_font_names_stems_needle_fonts() {
    let mut fonts = Fonts::new();
    fonts.register_fonts(
        &vec!["DejaVu Sans".to_string()],
        &vec![
            "/home/user/.config/needle/fonts/DejaVu Serif.ttf".to_string(),
            "plain".to_string(),
        ],
    );

    let names = fonts.font_names().unwrap();
    assert_eq!(3, names.len());
    assert_eq!("DejaVu Sans", names[0].as_str());
    assert_eq!("DejaVu Serif", names[1].as_str());
    assert_eq!("plain", names[2].as_str());
}

#[test]
fn test_font_names_none_before_query() {
    let fonts = Fonts::new();

    assert!(fonts.font_names().is_none());
}

#[test]
fn test_path_stem_edge_cases() {
    assert_eq!("", needle::utils::fonts::path_stem("").as_str());
    assert_eq!("b", needle::utils::fonts::path_stem("a/b.c.d").as_str());
    assert_eq!("", needle::utils::fonts::path_stem("dir/").as_str());
    assert_eq!("name", needle::utils::fonts::path_stem("name.ttf").as_str());
}

#[test]
fn test_font_duplicate_fields() {
    let f = Font {
        font: "Arial".to_string(),
        font_type: FontType::System,
    };
    let g = f.clone();
    assert_eq!(f, g);
}
