use inventory::brand::Brand;
use inventory::ident::ProductId;
use inventory::input::{
    parse_stock, parse_unsigned, read_brand, read_id, read_menu_choice, read_stock, read_text,
    MenuChoice,
};
use inventory::price::Price;
use inventory::text::{chars_of, contains, contains_chars, contains_ignoring_case, same_text};

#[test]
fn price_rejects_zero_and_negative_numbers() {
    assert_eq!(Price::from_bits(0.0f32.to_bits()), None);
    assert_eq!(Price::from_bits((-0.0f32).to_bits()), None);
    assert_eq!(Price::from_bits((-1.5f32).to_bits()), None);
    assert_eq!(Price::from_bits(f32::NEG_INFINITY.to_bits()), None);
    assert_eq!(Price::from_bits(f32::MIN.to_bits()), None);
}

#[test]
fn price_rejects_what_is_no_number() {
    assert_eq!(Price::from_bits(f32::NAN.to_bits()), None);
    assert_eq!(Price::from_bits(0x7F80_0001), None);
    assert_eq!(Price::from_bits(0xFFFF_FFFF), None);
}

#[test]
fn price_accepts_positive_numbers() {
    let p = Price::from_bits(1000.5f32.to_bits()).unwrap();
    assert_eq!(p.bits(), 0x447A_2000);
    assert_eq!(f32::from_bits(p.bits()), 1000.5);
    assert!(Price::from_bits(f32::MIN_POSITIVE.to_bits()).is_some());
    assert!(Price::from_bits(1).is_some());
    assert!(Price::from_bits(f32::MAX.to_bits()).is_some());
    assert!(Price::from_bits(f32::INFINITY.to_bits()).is_some());
}

#[test]
fn price_agrees_with_the_comparison_of_numbers() {
    let samples: [f32; 12] = [
        0.0, -0.0, 1.0, -1.0, 0.01, -0.01, 5.0, 1000.5, f32::MAX, f32::MIN, f32::INFINITY, f32::NAN,
    ];
    for value in samples {
        assert_eq!(Price::from_bits(value.to_bits()).is_some(), value > 0.0);
    }
}

#[test]
fn brand_is_read_in_any_case() {
    assert_eq!(Brand::parse("apple"), Some(Brand::Apple));
    assert_eq!(Brand::parse("APPLE"), Some(Brand::Apple));
    assert_eq!(Brand::parse("Google"), Some(Brand::Google));
    assert_eq!(Brand::parse("samSung"), Some(Brand::Samsung));
}

#[test]
fn brand_rejects_other_names() {
    assert_eq!(Brand::parse("nokia"), None);
    assert_eq!(Brand::parse(""), None);
    assert_eq!(Brand::parse("apple "), None);
    assert_eq!(Brand::parse("apples"), None);
}

#[test]
fn brand_from_lowercase_is_exact() {
    assert_eq!(Brand::from_lowercase("apple"), Some(Brand::Apple));
    assert_eq!(Brand::from_lowercase("google"), Some(Brand::Google));
    assert_eq!(Brand::from_lowercase("samsung"), Some(Brand::Samsung));
    assert_eq!(Brand::from_lowercase("Apple"), None);
    assert_eq!(Brand::from_lowercase("SAMSUNG"), None);
}

#[test]
fn brand_names() {
    assert_eq!(Brand::Apple.name(), "Apple");
    assert_eq!(Brand::Google.name(), "Google");
    assert_eq!(Brand::Samsung.name(), "Samsung");
    assert_eq!(format!("{:?}", Brand::Samsung), Brand::Samsung.name());
}

#[test]
fn brand_line_is_trimmed() {
    assert_eq!(read_brand("  Apple \n"), Some(Brand::Apple));
    assert_eq!(read_brand("GOOGLE\r\n"), Some(Brand::Google));
    assert_eq!(read_brand("\n"), None);
    assert_eq!(read_brand("sam sung\n"), None);
}

#[test]
fn stock_is_a_whole_number() {
    assert_eq!(parse_stock("0"), Some(0));
    assert_eq!(parse_stock("10"), Some(10));
    assert_eq!(parse_stock("007"), Some(7));
    assert_eq!(parse_stock("+7"), Some(7));
    assert_eq!(parse_stock("65535"), Some(65535));
    assert_eq!(parse_stock("0000000000000000000000065535"), Some(65535));
}

#[test]
fn stock_rejects_negative_and_fractional_values() {
    assert_eq!(parse_stock("-1"), None);
    assert_eq!(parse_stock("-0"), None);
    assert_eq!(parse_stock("1.5"), None);
    assert_eq!(parse_stock("1e3"), None);
    assert_eq!(parse_stock("ten"), None);
    assert_eq!(parse_stock(""), None);
    assert_eq!(parse_stock("+"), None);
    assert_eq!(parse_stock("++1"), None);
    assert_eq!(parse_stock("1 0"), None);
    assert_eq!(parse_stock(" 1"), None);
    assert_eq!(parse_stock("\u{661}"), None);
}

#[test]
fn stock_rejects_numbers_that_are_too_large() {
    assert_eq!(parse_stock("65536"), None);
    assert_eq!(parse_stock("100000"), None);
    assert_eq!(parse_stock("99999999999999999999999999999999"), None);
}

#[test]
fn stock_agrees_with_the_standard_parser() {
    let samples = [
        "0", "1", "+1", "-1", "65535", "65536", "", "+", "-", " 1", "1 ", "0x10", "1_000", "00", "+0",
        "9999", "12a", "a12", "4294967296", "18446744073709551616",
    ];
    for text in samples {
        assert_eq!(parse_stock(text), text.parse::<u16>().ok(), "{:?}", text);
    }
}

#[test]
fn stock_line_is_trimmed() {
    assert_eq!(read_stock(" 12 \n"), Some(12));
    assert_eq!(read_stock("12\r\n"), Some(12));
    assert_eq!(read_stock("\n"), None);
    assert_eq!(read_stock("-3\n"), None);
    assert_eq!(read_stock("2.5\n"), None);
}

#[test]
fn unsigned_numbers_respect_their_bound() {
    assert_eq!(parse_unsigned("255", 255), Some(255));
    assert_eq!(parse_unsigned("256", 255), None);
    assert_eq!(parse_unsigned("4294967295", u32::MAX), Some(u32::MAX));
    assert_eq!(parse_unsigned("4294967296", u32::MAX), None);
    assert_eq!(parse_unsigned("0", 0), Some(0));
    assert_eq!(parse_unsigned("1", 0), None);
}

#[test]
fn menu_has_six_actions() {
    assert_eq!(read_menu_choice("1\n"), MenuChoice::SeeAll);
    assert_eq!(read_menu_choice("2\n"), MenuChoice::Search);
    assert_eq!(read_menu_choice("3\n"), MenuChoice::Create);
    assert_eq!(read_menu_choice("4\n"), MenuChoice::Update);
    assert_eq!(read_menu_choice("5\n"), MenuChoice::Delete);
    assert_eq!(read_menu_choice("6\n"), MenuChoice::Exit);
    assert_eq!(read_menu_choice("  +3  \n"), MenuChoice::Create);
    assert_eq!(read_menu_choice("006\n"), MenuChoice::Exit);
}

#[test]
fn menu_rejects_everything_else() {
    assert_eq!(read_menu_choice("0\n"), MenuChoice::Invalid);
    assert_eq!(read_menu_choice("7\n"), MenuChoice::Invalid);
    assert_eq!(read_menu_choice("255\n"), MenuChoice::Invalid);
    assert_eq!(read_menu_choice("256\n"), MenuChoice::Invalid);
    assert_eq!(read_menu_choice("257\n"), MenuChoice::Invalid);
    assert_eq!(read_menu_choice("-1\n"), MenuChoice::Invalid);
    assert_eq!(read_menu_choice("exit\n"), MenuChoice::Invalid);
    assert_eq!(read_menu_choice("\n"), MenuChoice::Invalid);
    assert_eq!(read_menu_choice(""), MenuChoice::Invalid);
    assert_eq!(MenuChoice::parse("3 "), MenuChoice::Invalid);
    assert_eq!(MenuChoice::parse("3"), MenuChoice::Create);
}

#[test]
fn text_line_loses_the_white_space_at_its_ends() {
    assert_eq!(read_text("  Phone S \n"), "Phone S");
    assert_eq!(read_text("\n"), "");
    assert_eq!(read_text("x"), "x");
}

#[test]
fn identifier_is_read_in_every_form() {
    let id = ProductId(0xa1a2a3a4_b1b2_c1c2_d1d2_d3d4d5d6d7d8);
    assert_eq!(ProductId::parse("a1a2a3a4-b1b2-c1c2-d1d2-d3d4d5d6d7d8"), Some(id));
    assert_eq!(ProductId::parse("A1A2A3A4-B1B2-C1C2-D1D2-D3D4D5D6D7D8"), Some(id));
    assert_eq!(ProductId::parse("a1a2a3a4b1b2c1c2d1d2d3d4d5d6d7d8"), Some(id));
    assert_eq!(ProductId::parse("{a1a2a3a4-b1b2-c1c2-d1d2-d3d4d5d6d7d8}"), Some(id));
    assert_eq!(ProductId::parse("urn:uuid:a1a2a3a4-b1b2-c1c2-d1d2-d3d4d5d6d7d8"), Some(id));
    assert_eq!(read_id("  a1a2a3a4-b1b2-c1c2-d1d2-d3d4d5d6d7d8\n"), Some(id));
}

#[test]
fn identifier_rejects_other_text() {
    assert_eq!(ProductId::parse(""), None);
    assert_eq!(ProductId::parse("a1a2a3a4"), None);
    assert_eq!(ProductId::parse("a1a2a3a4-b1b2-c1c2-d1d2-d3d4d5d6d7dx"), None);
    assert_eq!(ProductId::parse(" a1a2a3a4-b1b2-c1c2-d1d2-d3d4d5d6d7d8"), None);
    assert_eq!(read_id("not an id\n"), None);
    assert_eq!(read_id("\n"), None);
}

#[test]
fn identifier_text_is_hyphenated_lower_case() {
    let id = ProductId(0xA1A2A3A4_B1B2_C1C2_D1D2_D3D4D5D6D7D8);
    assert_eq!(id.to_text(), "a1a2a3a4-b1b2-c1c2-d1d2-d3d4d5d6d7d8");
    assert_eq!(id.short(), "a1a2a3a4");
    assert_eq!(ProductId(0).to_text(), "00000000-0000-0000-0000-000000000000");
    assert_eq!(ProductId(0).short(), "00000000");
    assert_eq!(ProductId(u128::MAX).short(), "ffffffff");
}

#[test]
fn identifier_text_reads_back() {
    let samples: [u128; 4] = [0, 1, 0x0123_4567_89ab_cdef_0123_4567_89ab_cdef, u128::MAX];
    for raw in samples {
        let id = ProductId(raw);
        assert_eq!(id.to_text().chars().count(), 36);
        assert_eq!(ProductId::parse(&id.to_text()), Some(id));
    }
}

#[test]
fn contains_finds_a_run_of_characters() {
    assert!(contains("phone s", "phone"));
    assert!(contains("phone s", "ne s"));
    assert!(contains("phone s", "s"));
    assert!(contains("phone s", "phone s"));
    assert!(contains("phone s", ""));
    assert!(contains("", ""));
    assert!(!contains("phone s", "xyz"));
    assert!(!contains("phone s", "phone sx"));
    assert!(!contains("phone s", "Phone"));
    assert!(!contains("", "a"));
    assert!(contains("aab", "ab"));
    assert!(contains("caf\u{e9} au lait", "\u{e9} au"));
}

#[test]
fn contains_agrees_with_the_standard_search() {
    let hays = ["", "a", "ab", "aab", "abab", "phone s", "\u{e9}t\u{e9}"];
    let needles = ["", "a", "b", "ab", "ba", "aba", "bab", "s", "\u{e9}", "t\u{e9}", "phone sx"];
    for hay in hays {
        for needle in needles {
            assert_eq!(contains(hay, needle), hay.contains(needle), "{:?} in {:?}", needle, hay);
        }
    }
}

#[test]
fn contains_chars_works_on_characters() {
    let hay: Vec<char> = "Samsung".chars().collect();
    let needle: Vec<char> = "sung".chars().collect();
    let absent: Vec<char> = "sing".chars().collect();
    assert!(contains_chars(&hay, &needle));
    assert!(!contains_chars(&hay, &absent));
    assert!(!contains_chars(&needle, &hay));
}

#[test]
fn contains_ignoring_case_folds_both_texts() {
    assert!(contains_ignoring_case("Phone S", "phone"));
    assert!(contains_ignoring_case("phone s", "PHONE"));
    assert!(contains_ignoring_case("\u{c9}clair", "\u{e9}CL"));
    assert!(!contains_ignoring_case("Phone S", "xyz"));
}

#[test]
fn chars_of_gives_the_characters_in_order() {
    assert_eq!(chars_of("a\u{e9}z"), vec!['a', '\u{e9}', 'z']);
    assert_eq!(chars_of(""), Vec::<char>::new());
}

#[test]
fn same_text_compares_character_for_character() {
    assert!(same_text("apple", "apple"));
    assert!(same_text("", ""));
    assert!(!same_text("apple", "Apple"));
    assert!(!same_text("apple", "apples"));
}
