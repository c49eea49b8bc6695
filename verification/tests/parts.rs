use htmlize::entities::{lookup, section, ENTITY_MAX_LENGTH, ENTITY_MIN_LENGTH};
use htmlize::search::{compare_bytes, Place};
use htmlize::named::match_entity;
use htmlize::numeric::{
    correct_numeric_entity, is_outside_range, is_surrogate, match_numeric_entity, parse_digits,
};
use htmlize::scan::{
    consume_alphanumeric, consume_decimal, consume_hexadecimal, consume_while, extend_from_range,
    ByteClass,
};
use htmlize::text::{char_to_vecu8, u32_to_vecu8};
use htmlize::{unescape, unescape_attribute, unescape_bytes_in, unescape_in, Context};
use htmlize::REPLACEMENT_CHAR;

#[test]
fn replacement_char_is_fffd() {
    assert_eq!(REPLACEMENT_CHAR, '\u{fffd}');
}

#[test]
fn no_ampersand_is_identity() {
    let inputs = ["", "plain text", "a;b#c=d", "caf\u{e9} \u{1f600} \u{fffd}", "#x41;"];
    for input in inputs.iter() {
        assert_eq!(unescape(input.as_bytes()), *input);
        assert_eq!(unescape_attribute(input.as_bytes()), *input);
        assert_eq!(unescape_bytes_in(input.as_bytes(), Context::General), input.as_bytes());
        assert_eq!(unescape_bytes_in(input.as_bytes(), Context::Attribute), input.as_bytes());
    }
}

#[test]
fn unescape_in_follows_context() {
    assert_eq!(unescape_in(b"&times", Context::General), "\u{d7}");
    assert_eq!(unescape_in(b"&times", Context::Attribute), "\u{d7}");
    assert_eq!(unescape_in(b"&times;X", Context::General), "\u{d7}X");
    assert_eq!(unescape_in(b"&times;X", Context::Attribute), "\u{d7}X");
    assert_eq!(unescape_in(b"&timesX", Context::General), "\u{d7}X");
    assert_eq!(unescape_in(b"&timesX", Context::Attribute), "&timesX");
    assert_eq!(unescape_in(b"&times=", Context::General), "\u{d7}=");
    assert_eq!(unescape_in(b"&times=", Context::Attribute), "&times=");
    assert_eq!(unescape_in(b"&times#", Context::General), "\u{d7}#");
    assert_eq!(unescape_in(b"&times#", Context::Attribute), "\u{d7}#");
}

#[test]
fn semicolon_before_equals_still_expands_in_attribute() {
    assert_eq!(unescape_attribute(b"&times;="), "\u{d7}=");
    assert_eq!(unescape_attribute(b"a=&amp;b=&amp=c"), "a=&b=&amp=c");
}

#[test]
fn numeric_reference_before_equals_expands_in_attribute() {
    assert_eq!(unescape_attribute(b"&#x7a="), "z=");
    assert_eq!(unescape_attribute(b"&#122="), "z=");
}

#[test]
fn longest_prefix_wins() {
    assert_eq!(unescape(b"&notit;"), "\u{ac}it;");
    assert_eq!(unescape(b"&notin;"), "\u{2209}");
    assert_eq!(unescape(b"&notinva;"), "\u{2209}");
    assert_eq!(unescape(b"&notinvaX"), "\u{ac}invaX");
    assert_eq!(unescape(b"&ampamp;"), "&amp;");
    assert_eq!(unescape(b"&ampx;"), "&x;");
    assert_eq!(unescape_attribute(b"&ampx;"), "&ampx;");
}

#[test]
fn two_code_point_expansion() {
    assert_eq!(unescape(b"&acE;"), "\u{223e}\u{333}");
    assert_eq!(unescape(b"&NotEqualTilde;"), "\u{2242}\u{338}");
}

#[test]
fn shortest_and_longest_names() {
    assert_eq!(ENTITY_MIN_LENGTH, 3);
    assert_eq!(ENTITY_MAX_LENGTH, 33);
    assert_eq!(unescape(b"&GT"), ">");
    assert_eq!(unescape(b"&lt"), "<");
    assert_eq!(unescape(b"&CounterClockwiseContourIntegral;"), "\u{2233}");
    assert_eq!(
        unescape(b"&CounterClockwiseContourIntegral"),
        "&CounterClockwiseContourIntegral"
    );
    assert_eq!(unescape(b"&CounterClockwiseContourIntegralX;"), "&CounterClockwiseContourIntegralX;");
}

#[test]
fn decoding_twice_differs_from_decoding_once() {
    let once = unescape(b"&amp;amp;");
    assert_eq!(once, "&amp;");
    let twice = unescape(once.as_bytes());
    assert_eq!(twice, "&");
    assert_eq!(unescape(b"&amp;"), "&");
    assert_eq!(unescape(b"&"), "&");
}

#[test]
fn ill_formed_input_gets_replacement_characters() {
    assert_eq!(unescape(b"\xff"), "\u{fffd}");
    assert_eq!(unescape(b"a\xffb&amp;"), "a\u{fffd}b&");
    assert_eq!(unescape_attribute(b"\xe2\x82&lt;"), "\u{fffd}<");
    assert_eq!(unescape_bytes_in(b"a\xffb&amp;", Context::General), b"a\xffb&");
}

#[test]
fn bytes_of_the_result() {
    assert_eq!(unescape_bytes_in(b"&times;", Context::General), vec![0xc3, 0x97]);
    assert_eq!(unescape_bytes_in(b"&#x20ac;", Context::Attribute), vec![0xe2, 0x82, 0xac]);
    assert_eq!(unescape_bytes_in(b"&#x1F600", Context::General), vec![0xf0, 0x9f, 0x98, 0x80]);
    assert_eq!(unescape_bytes_in(b"", Context::General), Vec::<u8>::new());
}

#[test]
fn legacy_code_points() {
    let table: [(u32, u32); 27] = [
        (0x80, 0x20AC),
        (0x82, 0x201A),
        (0x83, 0x0192),
        (0x84, 0x201E),
        (0x85, 0x2026),
        (0x86, 0x2020),
        (0x87, 0x2021),
        (0x88, 0x02C6),
        (0x89, 0x2030),
        (0x8A, 0x0160),
        (0x8B, 0x2039),
        (0x8C, 0x0152),
        (0x8E, 0x017D),
        (0x91, 0x2018),
        (0x92, 0x2019),
        (0x93, 0x201C),
        (0x94, 0x201D),
        (0x95, 0x2022),
        (0x96, 0x2013),
        (0x97, 0x2014),
        (0x98, 0x02DC),
        (0x99, 0x2122),
        (0x9A, 0x0161),
        (0x9B, 0x203A),
        (0x9C, 0x0153),
        (0x9E, 0x017E),
        (0x9F, 0x0178),
    ];
    for (number, code_point) in table.iter() {
        let expected = char::from_u32(*code_point).unwrap().to_string();
        assert_eq!(correct_numeric_entity(*number), expected.as_bytes(), "{:x}", number);
        assert_eq!(unescape(format!("&#{};", number).as_bytes()), expected);
        assert_eq!(unescape(format!("&#x{:x};", number).as_bytes()), expected);
    }
    for number in [0x81u32, 0x8D, 0x8F, 0x90, 0x9D, 0x7F, 0xA0].iter() {
        let expected = char::from_u32(*number).unwrap().to_string();
        assert_eq!(correct_numeric_entity(*number), expected.as_bytes(), "{:x}", number);
    }
}

#[test]
fn corrected_to_replacement() {
    let replacement = "\u{fffd}".as_bytes();
    assert_eq!(correct_numeric_entity(0), replacement);
    assert_eq!(correct_numeric_entity(0x110000), replacement);
    assert_eq!(correct_numeric_entity(u32::MAX), replacement);
    assert_eq!(correct_numeric_entity(0xD800), replacement);
    assert_eq!(correct_numeric_entity(0xDFFF), replacement);
    assert_eq!(correct_numeric_entity(0xD7FF), "\u{d7ff}".as_bytes());
    assert_eq!(correct_numeric_entity(0xE000), "\u{e000}".as_bytes());
    assert_eq!(correct_numeric_entity(0x10FFFF), "\u{10ffff}".as_bytes());
    assert_eq!(correct_numeric_entity(0xFFFE), "\u{fffe}".as_bytes());
}

#[test]
fn bullet_in_three_forms() {
    for context in [Context::General, Context::Attribute].iter() {
        assert_eq!(unescape_in(b"&#x95;", *context), "\u{2022}");
        assert_eq!(unescape_in(b"&#149;", *context), "\u{2022}");
        assert_eq!(unescape_in(b"&#x2022;", *context), "\u{2022}");
        assert_eq!(
            unescape_in("&#x95;&#149;&#x2022;\u{2022}".as_bytes(), *context),
            "\u{2022}\u{2022}\u{2022}\u{2022}"
        );
    }
}

#[test]
fn too_large_with_and_without_semicolon() {
    let forty = "&#x110000000000000000000000000000000000000";
    for context in [Context::General, Context::Attribute].iter() {
        assert_eq!(unescape_in(b"&#x110001;", *context), "\u{fffd}");
        assert_eq!(unescape_in(b"&#x110001", *context), "\u{fffd}");
        assert_eq!(unescape_in(b"&#x1100000000;", *context), "\u{fffd}");
        assert_eq!(unescape_in(b"&#x1100000000", *context), "\u{fffd}");
        assert_eq!(unescape_in(format!("{};", forty).as_bytes(), *context), "\u{fffd}");
        assert_eq!(unescape_in(forty.as_bytes(), *context), "\u{fffd}");
        assert_eq!(unescape_in(b"&#4294967296;", *context), "\u{fffd}");
        assert_eq!(unescape_in(b"&#1114112;", *context), "\u{fffd}");
        assert_eq!(unescape_in(b"&#1114111;", *context), "\u{10ffff}");
    }
}

#[test]
fn numeric_references_without_digits() {
    for context in [Context::General, Context::Attribute].iter() {
        assert_eq!(unescape_in(b"&#", *context), "&#");
        assert_eq!(unescape_in(b"&#;", *context), "&#;");
        assert_eq!(unescape_in(b"&#x", *context), "&#x");
        assert_eq!(unescape_in(b"&#x;", *context), "&#x;");
        assert_eq!(unescape_in(b"&#X;", *context), "&#X;");
        assert_eq!(unescape_in(b"&#&#65;", *context), "&#A");
        assert_eq!(unescape_in(b"&#x&amp;", *context), "&#x&");
        assert_eq!(unescape_in(b"&# 65;", *context), "&# 65;");
    }
}

#[test]
fn surrogate_references() {
    assert_eq!(unescape(b"&#xD800;"), "\u{fffd}");
    assert_eq!(unescape(b"&#57343;"), "\u{fffd}");
    assert_eq!(unescape(b"&#xD7FF;"), "\u{d7ff}");
}

#[test]
fn range_predicates() {
    assert!(!is_outside_range(0x10FFFF));
    assert!(is_outside_range(0x110000));
    assert!(!is_surrogate(0xD7FF));
    assert!(is_surrogate(0xD800));
    assert!(is_surrogate(0xDFFF));
    assert!(!is_surrogate(0xE000));
}

#[test]
fn encoding_agrees_with_std() {
    let samples = [
        0u32, 0x41, 0x7F, 0x80, 0x7FF, 0x800, 0xD7FF, 0xE000, 0xFFFD, 0xFFFF, 0x10000, 0x1F600,
        0x10FFFF,
    ];
    for code_point in samples.iter() {
        let c = char::from_u32(*code_point).unwrap();
        let expected = c.to_string();
        assert_eq!(u32_to_vecu8(*code_point), expected.as_bytes());
        assert_eq!(char_to_vecu8(c), expected.as_bytes());
    }
}

#[test]
fn digits_are_parsed() {
    assert_eq!(parse_digits(b"122", 0, 3, ByteClass::Decimal), Some(122));
    assert_eq!(parse_digits(b"x7aF", 1, 4, ByteClass::Hexadecimal), Some(0x7af));
    assert_eq!(parse_digits(b"000000000000000000041", 0, 21, ByteClass::Hexadecimal), Some(0x41));
    assert_eq!(parse_digits(b"4294967295", 0, 10, ByteClass::Decimal), Some(u32::MAX));
    assert_eq!(parse_digits(b"4294967296", 0, 10, ByteClass::Decimal), None);
    assert_eq!(parse_digits(b"ffffffff", 0, 8, ByteClass::Hexadecimal), Some(u32::MAX));
    assert_eq!(parse_digits(b"100000000", 0, 9, ByteClass::Hexadecimal), None);
    assert_eq!(parse_digits(b"12", 1, 1, ByteClass::Decimal), Some(0));
}

#[test]
fn runs_are_consumed() {
    assert_eq!(consume_decimal(b"123a", 0), 3);
    assert_eq!(consume_decimal(b"123a", 3), 3);
    assert_eq!(consume_decimal(b"123", 3), 3);
    assert_eq!(consume_hexadecimal(b"09afAFg", 0), 6);
    assert_eq!(consume_hexadecimal(b"/:@G`g", 0), 0);
    assert_eq!(consume_alphanumeric(b"azAZ09;", 0), 6);
    assert_eq!(consume_alphanumeric(b"/:@[`{", 0), 0);
    assert_eq!(consume_alphanumeric(b"ab\xc3\xa9", 0), 2);
    assert_eq!(consume_while(b"12ab", 1, ByteClass::Alphanumeric), 4);
}

#[test]
fn range_is_appended() {
    let mut buffer = vec![1u8, 2];
    extend_from_range(&mut buffer, b"abcdef", 2, 5);
    assert_eq!(buffer, vec![1, 2, b'c', b'd', b'e']);
    extend_from_range(&mut buffer, b"abcdef", 3, 3);
    assert_eq!(buffer.len(), 5);
}

#[test]
fn numeric_matcher() {
    assert_eq!(match_numeric_entity(b"&#x7a;", 1), (b"z".to_vec(), 6));
    assert_eq!(match_numeric_entity(b"&#122z", 1), (b"z".to_vec(), 5));
    assert_eq!(match_numeric_entity(b"&#", 1), (b"&#".to_vec(), 2));
    assert_eq!(match_numeric_entity(b"&#;", 1), (b"&#;".to_vec(), 3));
    assert_eq!(match_numeric_entity(b"&#x", 1), (b"&#x".to_vec(), 3));
    assert_eq!(match_numeric_entity(b"&#X;", 1), (b"&#X;".to_vec(), 4));
    assert_eq!(match_numeric_entity(b"&#xZ;", 1), (b"&#x".to_vec(), 3));
    assert_eq!(match_numeric_entity(b"&#a0;", 1), (b"&#".to_vec(), 2));
    assert_eq!(match_numeric_entity(b"#65", 0), (b"A".to_vec(), 3));
    assert_eq!(match_numeric_entity(b"#;", 0), (b"&#;".to_vec(), 2));
    assert_eq!(
        match_numeric_entity(b"&#99999999999999999999;", 1),
        ("\u{fffd}".as_bytes().to_vec(), 23)
    );
}

#[test]
fn entity_matcher() {
    assert_eq!(match_entity(b"&amp;", 0, Context::General), (b"&".to_vec(), 5));
    assert_eq!(match_entity(b"x&ampy", 1, Context::General), (b"&y".to_vec(), 6));
    assert_eq!(match_entity(b"x&ampy", 1, Context::Attribute), (b"&ampy".to_vec(), 6));
    assert_eq!(match_entity(b"&amp=", 0, Context::Attribute), (b"&amp".to_vec(), 4));
    assert_eq!(match_entity(b"&amp=", 0, Context::General), (b"&".to_vec(), 4));
    assert_eq!(match_entity(b"&", 0, Context::General), (b"&".to_vec(), 1));
    assert_eq!(match_entity(b"&;", 0, Context::Attribute), (b"&;".to_vec(), 2));
    assert_eq!(match_entity(b"&&", 0, Context::General), (b"&".to_vec(), 1));
    assert_eq!(match_entity(b"&#65;", 0, Context::Attribute), (b"A".to_vec(), 5));
    assert_eq!(match_entity(b"&=", 0, Context::Attribute), (b"&".to_vec(), 1));
}

#[test]
fn table_lookup() {
    assert_eq!(lookup(b"&amp;"), Some("&"));
    assert_eq!(lookup(b"&amp"), Some("&"));
    assert_eq!(lookup(b"&am"), None);
    assert_eq!(lookup(b"amp;"), None);
    assert_eq!(lookup(b"&"), None);
    assert_eq!(lookup(b""), None);
    assert_eq!(lookup(b"&1;"), None);
    assert_eq!(lookup(b"&Amp;"), None);
    assert_eq!(lookup(b"&zwnj;"), Some("\u{200c}"));
    assert_eq!(lookup(b"&AElig"), Some("\u{c6}"));
    assert_eq!(lookup(b"&hearts;"), Some("\u{2665}"));
}

#[test]
fn bytes_are_compared() {
    assert_eq!(compare_bytes(b"", b""), Place::Same);
    assert_eq!(compare_bytes(b"abc", b"abc"), Place::Same);
    assert_eq!(compare_bytes(b"abc", b"abd"), Place::Before);
    assert_eq!(compare_bytes(b"abd", b"abc"), Place::After);
    assert_eq!(compare_bytes(b"ab", b"abc"), Place::Before);
    assert_eq!(compare_bytes(b"abc", b"ab"), Place::After);
    assert_eq!(compare_bytes(b"", b"a"), Place::Before);
    assert_eq!(compare_bytes(b"&amp", b"&amp;"), Place::Before);
    assert_eq!(compare_bytes(b"&b", b"&abc"), Place::After);
    assert_eq!(compare_bytes(b"\xff", b"\x7f"), Place::After);
}

#[test]
fn sections_hold_their_letter() {
    let mut total = 0;
    for letter in 0u8..=255 {
        let table = section(letter);
        total += table.len();
        assert_eq!(table.is_empty(), !letter.is_ascii_alphabetic());
        for (name, expansion) in table.iter() {
            assert_eq!(name.as_bytes()[0], b'&');
            assert_eq!(name.as_bytes()[1], letter);
            assert!(!expansion.is_empty());
            assert_eq!(lookup(name.as_bytes()), Some(*expansion));
        }
        for pair in table.windows(2) {
            assert!(pair[0].0.as_bytes() < pair[1].0.as_bytes());
        }
    }
    assert_eq!(total, 2231);
}

#[test]
fn byte_classes() {
    for b in 0u8..=255 {
        let c = b as char;
        assert_eq!(ByteClass::Decimal.accepts(b), c.is_ascii_digit());
        assert_eq!(ByteClass::Hexadecimal.accepts(b), c.is_ascii_hexdigit());
        assert_eq!(ByteClass::Alphanumeric.accepts(b), c.is_ascii_alphanumeric());
    }
}
