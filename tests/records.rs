use cosmic_text::fontdb::{Database, ID};
use cosmic_text::FontSystem;
use reference_dump::catalog::{build_font_system, FontCatalog};
use reference_dump::decimal::{decimal_text, signed_decimal_text};
use reference_dump::fixture::{
    case_record, case_records, flatten_glyphs, layout_glyph_record, line_record, shape_record,
    shaped_glyph_record, CacheKeyFields, LaidLine, LayoutGlyph, ShapedGlyph,
};
use reference_dump::matrix::{mk_cases, ParityCase, WrapPolicy, CASE_COUNT};
use reference_dump::offsets::utf16_index_for_byte;
use reference_dump::records::{bool01, render_record, width_name, wrap_name};

fn text_case(id: &'static str, text: &'static str) -> ParityCase {
    ParityCase {
        id,
        text,
        family: "Inter",
        font_size_micros: 18_000_000,
        wrap: WrapPolicy::WordOrGlyph,
        width_micros: None,
    }
}

fn shaped(start: usize, end: usize, font_id: ID, glyph_id: u16) -> ShapedGlyph {
    ShapedGlyph {
        start,
        end,
        font_id,
        glyph_id,
        x_advance: "4.500000".to_string(),
        y_advance: "0.000000".to_string(),
        x_offset: "0.000000".to_string(),
        y_offset: "-0.000000".to_string(),
        metadata: 0,
    }
}

fn cache_key(font_id: ID, glyph_id: u16) -> CacheKeyFields {
    CacheKeyFields {
        font_id,
        glyph_id,
        size_bits: 1099956224,
        x_bin: "0.250000".to_string(),
        y_bin: "0.000000".to_string(),
        weight: 400,
        flags: 0,
    }
}

fn placed(start: usize, end: usize, font_id: ID, glyph_id: u16, x: &str) -> LayoutGlyph {
    LayoutGlyph {
        start,
        end,
        font_id,
        glyph_id,
        x: x.to_string(),
        y: "0.000000".to_string(),
        w: "4.500000".to_string(),
        level: 1,
        metadata: 7,
        cache_key: cache_key(font_id, glyph_id),
        has_image: true,
    }
}

fn catalog_of_dummy() -> FontCatalog {
    let mut catalog = FontCatalog::new();
    catalog.push_face(ID::dummy());
    catalog
}

fn field<'a>(record: &'a str, key: &str) -> &'a str {
    let prefix = format!("{key}=");
    record
        .split('\t')
        .find_map(|f| f.strip_prefix(prefix.as_str()))
        .unwrap()
}

#[test]
fn decimal_rendering() {
    assert_eq!(decimal_text(0), "0");
    assert_eq!(decimal_text(7), "7");
    assert_eq!(decimal_text(1234567890), "1234567890");
    assert_eq!(decimal_text(u64::MAX), u64::MAX.to_string());
    assert_eq!(signed_decimal_text(-1), "-1");
    assert_eq!(signed_decimal_text(42), "42");
    assert_eq!(signed_decimal_text(i64::MIN), i64::MIN.to_string());
}

#[test]
fn utf16_offsets_ascii() {
    let text = "Move the mouse";
    assert_eq!(utf16_index_for_byte(text, 0), 0);
    assert_eq!(utf16_index_for_byte(text, 5), 5);
    assert_eq!(utf16_index_for_byte(text, text.len()), text.len());
    assert_eq!(utf16_index_for_byte(text, 100), text.len());
    assert_eq!(utf16_index_for_byte("", 3), 0);
}

#[test]
fn utf16_offsets_hebrew_and_astral() {
    // Hebrew letters take two bytes and one UTF-16 unit each.
    let hebrew = "שרה";
    assert_eq!(utf16_index_for_byte(hebrew, 2), 1);
    assert_eq!(utf16_index_for_byte(hebrew, 3), 2);
    assert_eq!(utf16_index_for_byte(hebrew, 6), 3);
    // An astral character takes four bytes and two UTF-16 units.
    let astral = "a\u{1F600}b";
    assert_eq!(utf16_index_for_byte(astral, 1), 1);
    assert_eq!(utf16_index_for_byte(astral, 2), 3);
    assert_eq!(utf16_index_for_byte(astral, 5), 3);
    assert_eq!(utf16_index_for_byte(astral, 6), 4);
}

#[test]
fn utf16_offsets_match_encode_utf16() {
    let text = "I like to render اللغة العربية in Rust! \u{1F600}";
    for (b, _) in text.char_indices() {
        assert_eq!(utf16_index_for_byte(text, b), text[..b].encode_utf16().count());
    }
    assert_eq!(utf16_index_for_byte(text, text.len()), text.encode_utf16().count());
}

#[test]
fn flags_wraps_and_widths() {
    assert_eq!(bool01(true), "1");
    assert_eq!(bool01(false), "0");
    assert_eq!(wrap_name(WrapPolicy::NoWrap), "None");
    assert_eq!(wrap_name(WrapPolicy::Glyph), "Glyph");
    assert_eq!(wrap_name(WrapPolicy::Word), "Word");
    assert_eq!(wrap_name(WrapPolicy::WordOrGlyph), "WordOrGlyph");
    assert_eq!(width_name(&None), "none");
    assert_eq!(width_name(&Some("4.000000".to_string())), "4.000000");
}

#[test]
fn record_rendering() {
    let fields = vec![("a", "1".to_string()), ("b", "x y".to_string())];
    assert_eq!(render_record("T", &fields), "T\ta=1\tb=x y");
    assert_eq!(render_record("EMPTY", &Vec::new()), "EMPTY");
}

#[test]
fn case_matrix_shape() {
    let cases = mk_cases();
    assert_eq!(cases.len(), CASE_COUNT);
    for (i, a) in cases.iter().enumerate() {
        assert!(a.font_size_micros > 0);
        assert!(a.width_micros.map_or(true, |w| w > 0));
        for b in &cases[i + 1..] {
            assert_ne!(a.id, b.id);
        }
    }
    let empty = cases.iter().find(|c| c.id == "stability_empty_wordorglyph_none").unwrap();
    assert_eq!(empty.text, "");
    assert_eq!(empty.wrap, WrapPolicy::WordOrGlyph);
    assert_eq!(empty.width_micros, None);
    let narrow = cases.iter().find(|c| c.id == "stability_spaces7_glyph_4").unwrap();
    assert_eq!(narrow.text, "       ");
    assert_eq!(narrow.wrap, WrapPolicy::Glyph);
    assert_eq!(narrow.width_micros, Some(4_000_000));
    let sub_pixel = cases.iter().find(|c| c.id == "stability_mix_arabic_word_198").unwrap();
    assert_eq!(sub_pixel.width_micros, Some(198_213_200));
}

#[test]
fn case_matrix_positions_and_families() {
    let cases = mk_cases();
    assert_eq!(cases[0].id, "ascii_sentence");
    assert_eq!(cases[6].id, "hebrew_word_noto");
    assert_eq!(cases[12].id, "stability_empty_wordorglyph_none");
    assert_eq!(cases[13].id, "stability_space_wordorglyph_none");
    assert_eq!(cases[13].text, " ");
    assert_eq!(cases[13].wrap, WrapPolicy::WordOrGlyph);
    assert_eq!(cases[13].width_micros, None);
    assert_eq!(cases[45].id, "stability_spaces7_glyph_4");
    assert_eq!(cases[46].id, "stability_tabs_glyph_20");
    assert_eq!(cases[47].id, "stability_tabs3_wordorglyph_none");
    assert_eq!(cases[47].text, "\t\t\t");
    for c in &cases {
        assert!(c.family == "Inter" || c.family == "Noto Sans");
    }
    let again = mk_cases();
    for (a, b) in cases.iter().zip(again.iter()) {
        assert_eq!((a.id, a.text, a.family, a.font_size_micros), (b.id, b.text, b.family, b.font_size_micros));
        assert_eq!((a.wrap, a.width_micros), (b.wrap, b.width_micros));
    }
}

#[test]
fn font_system_from_unparsable_fonts() {
    let fonts = vec![vec![0u8, 1, 2, 3], Vec::new()];
    let (fs, catalog) = build_font_system(&fonts).unwrap();
    assert_eq!(catalog.len(), 0);
    assert_eq!(fs.db().len(), 0);
}

#[test]
fn case_record_fields() {
    let case = mk_cases()[0];
    let r = case_record(&case, &"16.000000".to_string(), &None);
    assert_eq!(
        r,
        "CASE\tcase=ascii_sentence\tfamily=Inter\tfont_size=16.000000\twrap=None\twidth=none"
    );
    let narrow = text_case("n", " ");
    let r = case_record(&narrow, &"18.000000".to_string(), &Some("4.000000".to_string()));
    assert_eq!(r, "CASE\tcase=n\tfamily=Inter\tfont_size=18.000000\twrap=WordOrGlyph\twidth=4.000000");
}

#[test]
fn shape_record_empty_text_has_zero_count() {
    let r = shape_record("stability_empty_wordorglyph_none", false, 0);
    assert_eq!(r, "SHAPE\tcase=stability_empty_wordorglyph_none\trtl=0\tcount=0");
}

#[test]
fn shape_record_rtl_flag() {
    assert_eq!(shape_record("hebrew_word_noto", true, 5), "SHAPE\tcase=hebrew_word_noto\trtl=1\tcount=5");
    assert_eq!(shape_record("ascii_tabs", false, 5), "SHAPE\tcase=ascii_tabs\trtl=0\tcount=5");
}

#[test]
fn shaped_glyph_record_fields() {
    let catalog = catalog_of_dummy();
    let case = text_case("heb", "אב abc");
    let g = shaped(2, 4, ID::dummy(), 311);
    let r = shaped_glyph_record(&catalog, &case, 3, &g);
    assert_eq!(
        r,
        "SG\tcase=heb\tindex=3\tstart=1\tend=2\tfont=0\tglyph=311\txa=4.500000\tya=0.000000\txo=0.000000\tyo=-0.000000\tmeta=0"
    );
}

#[test]
fn unknown_face_is_written_as_minus_one() {
    let catalog = catalog_of_dummy();
    assert_eq!(catalog.index_of(&ID::dummy()), 0);
    assert_eq!(catalog.index_of(&ID::default()), -1);
    let case = text_case("x", "ab");
    let r = shaped_glyph_record(&catalog, &case, 0, &shaped(0, 1, ID::default(), 5));
    assert_eq!(field(&r, "font"), "-1");
}

#[test]
fn catalog_index_is_first_position() {
    let mut catalog = FontCatalog::new();
    assert_eq!(catalog.index_of(&ID::dummy()), -1);
    catalog.push_face(ID::default());
    catalog.push_face(ID::dummy());
    catalog.push_face(ID::dummy());
    assert_eq!(catalog.len(), 3);
    assert_eq!(catalog.index_of(&ID::default()), 0);
    assert_eq!(catalog.index_of(&ID::dummy()), 1);
}

#[test]
fn unparsable_font_data_adds_no_face() {
    let mut fs = FontSystem::new_with_locale_and_db("en-US".into(), Database::new());
    let mut catalog = FontCatalog::new();
    assert!(catalog.register_font_data(&mut fs, vec![0u8, 1, 2, 3]));
    assert_eq!(catalog.len(), 0);
    assert_eq!(fs.db().len(), 0);
}

#[test]
fn line_and_layout_glyph_records() {
    let catalog = catalog_of_dummy();
    let case = text_case("mix", "ab שרה");
    assert_eq!(line_record("mix", 2, &"30.500000".to_string(), 4), "LL\tcase=mix\tline=2\tw=30.500000\tcount=4");
    let g = placed(5, 7, ID::dummy(), 12, "9.000000");
    let r = layout_glyph_record(&catalog, &case, 2, 1, &g);
    assert_eq!(
        r,
        "LG\tcase=mix\tline=2\tindex=1\tstart=4\tend=5\tfont=0\tglyph=12\tx=9.000000\ty=0.000000\tw=4.500000\tlevel=1\tmeta=7\tck_font=0\tck_gid=12\tck_size_bits=1099956224\tck_x_bin=0.250000\tck_y_bin=0.000000\tck_weight=400\tck_flags=0\timg=1"
    );
}

fn two_line_case() -> (FontCatalog, ParityCase, Vec<ShapedGlyph>, Vec<LaidLine>) {
    let catalog = catalog_of_dummy();
    let case = text_case("mix", "ab שרה");
    let glyphs = vec![
        shaped(0, 1, ID::dummy(), 1),
        shaped(1, 2, ID::dummy(), 2),
        shaped(2, 3, ID::dummy(), 3),
        shaped(3, 5, ID::dummy(), 4),
        shaped(5, 7, ID::dummy(), 5),
        shaped(7, 9, ID::dummy(), 6),
    ];
    // The second line is right-to-left: its glyphs come in visual order.
    let lines = vec![
        LaidLine {
            w: "13.000000".to_string(),
            glyphs: vec![placed(0, 1, ID::dummy(), 1, "0.000000"), placed(1, 2, ID::dummy(), 2, "4.500000")],
        },
        LaidLine {
            w: "13.500000".to_string(),
            glyphs: vec![
                placed(7, 9, ID::dummy(), 6, "0.000000"),
                placed(5, 7, ID::dummy(), 5, "4.500000"),
                placed(3, 5, ID::dummy(), 4, "9.000000"),
            ],
        },
    ];
    (catalog, case, glyphs, lines)
}

#[test]
fn case_records_order_and_counts() {
    let (catalog, case, glyphs, lines) = two_line_case();
    let r = case_records(&catalog, &case, &"18.000000".to_string(), &None, true, &glyphs, &lines);
    let tags: Vec<&str> = r.iter().map(|s| s.split('\t').next().unwrap()).collect();
    assert_eq!(
        tags,
        vec!["CASE", "SHAPE", "SG", "SG", "SG", "SG", "SG", "SG", "LL", "LG", "LG", "LL", "LG", "LG", "LG"]
    );
    assert_eq!(field(&r[1], "count"), "6");
    assert_eq!(field(&r[1], "rtl"), "1");
    assert_eq!(field(&r[8], "count"), "2");
    assert_eq!(field(&r[11], "count"), "3");
    assert_eq!(field(&r[11], "line"), "1");
    for (i, rec) in r[2..8].iter().enumerate() {
        assert_eq!(field(rec, "index"), i.to_string());
    }
}

#[test]
fn case_records_empty_case() {
    let catalog = catalog_of_dummy();
    let case = text_case("stability_empty_wordorglyph_none", "");
    let r = case_records(&catalog, &case, &"18.000000".to_string(), &None, false, &Vec::new(), &Vec::new());
    assert_eq!(r.len(), 2);
    assert_eq!(r[1], "SHAPE\tcase=stability_empty_wordorglyph_none\trtl=0\tcount=0");
}

#[test]
fn offsets_in_records_are_bounded_and_ordered() {
    let (catalog, case, glyphs, lines) = two_line_case();
    let r = case_records(&catalog, &case, &"18.000000".to_string(), &None, true, &glyphs, &lines);
    let limit = case.text.encode_utf16().count();
    for rec in r.iter().filter(|s| s.starts_with("SG\t") || s.starts_with("LG\t")) {
        let start: usize = field(rec, "start").parse().unwrap();
        let end: usize = field(rec, "end").parse().unwrap();
        assert!(start <= end && end <= limit);
    }
    // Visual order is kept: the right-to-left line's offsets decrease.
    assert_eq!(field(&r[12], "start"), "5");
    assert_eq!(field(&r[13], "start"), "4");
    assert_eq!(field(&r[14], "start"), "3");
}

#[test]
fn equal_cache_keys_give_equal_fields() {
    let catalog = catalog_of_dummy();
    let case = text_case("k", "aa");
    let a = layout_glyph_record(&catalog, &case, 0, 0, &placed(0, 1, ID::dummy(), 9, "0.000000"));
    let b = layout_glyph_record(&catalog, &case, 3, 5, &placed(1, 2, ID::dummy(), 9, "4.500000"));
    let ck = |s: &str| s[s.find("\tck_font=").unwrap()..].to_string();
    assert_eq!(ck(&a), ck(&b));
}

#[test]
fn records_are_deterministic() {
    let (catalog, case, glyphs, lines) = two_line_case();
    let a = case_records(&catalog, &case, &"18.000000".to_string(), &None, true, &glyphs, &lines);
    let b = case_records(&catalog, &case, &"18.000000".to_string(), &None, true, &glyphs, &lines);
    assert_eq!(a, b);
}

#[test]
fn flatten_keeps_logical_order() {
    let spans = vec![
        vec![vec![shaped(0, 1, ID::dummy(), 1), shaped(1, 2, ID::dummy(), 2)], Vec::new()],
        Vec::new(),
        vec![vec![shaped(2, 3, ID::dummy(), 3)], vec![shaped(3, 5, ID::dummy(), 4)]],
    ];
    let flat = flatten_glyphs(spans);
    let ids: Vec<u16> = flat.iter().map(|g| g.glyph_id).collect();
    assert_eq!(ids, vec![1, 2, 3, 4]);
    assert_eq!(flatten_glyphs(Vec::new()).len(), 0);
}
