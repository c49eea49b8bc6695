use htmlize::{unescape, unescape_attribute};

#[test]
fn almost_entity() {
    assert!(unescape("&time".as_bytes()) == "&time");
}

#[test]
fn attribute_almost_entity() {
    assert!(unescape_attribute("&time".as_bytes()) == "&time");
}

#[test]
fn exact_times() {
    assert!(unescape("&times;".as_bytes()) == "×");
}

#[test]
fn attribute_exact_times() {
    assert!(unescape_attribute("&times;".as_bytes()) == "×");
}

#[test]
fn exact_timesb() {
    assert!(unescape("&timesb;".as_bytes()) == "⊠");
}

#[test]
fn attribute_exact_timesb() {
    assert!(unescape_attribute("&timesb;".as_bytes()) == "⊠");
}

#[test]
fn bare_times_end() {
    assert!(unescape("&times".as_bytes()) == "×");
}

#[test]
fn attribute_bare_times_end() {
    assert!(unescape_attribute("&times".as_bytes()) == "×");
}

#[test]
fn bare_times_bang() {
    assert!(unescape("&times!".as_bytes()) == "×!");
}

#[test]
fn attribute_bare_times_bang() {
    assert!(unescape_attribute("&times!".as_bytes()) == "×!");
}

#[test]
fn empty() {
    assert!(unescape("".as_bytes()) == "");
}

#[test]
fn attribute_empty() {
    assert!(unescape_attribute("".as_bytes()) == "");
}

#[test]
fn no_entities() {
    assert!(unescape("none".as_bytes()) == "none");
}

#[test]
fn attribute_no_entities() {
    assert!(unescape_attribute("none".as_bytes()) == "none");
}

#[test]
fn only_ampersand() {
    assert!(unescape("&".as_bytes()) == "&");
}

#[test]
fn attribute_only_ampersand() {
    assert!(unescape_attribute("&".as_bytes()) == "&");
}

#[test]
fn empty_entity() {
    assert!(unescape("&;".as_bytes()) == "&;");
}

#[test]
fn attribute_empty_entity() {
    assert!(unescape_attribute("&;".as_bytes()) == "&;");
}

#[test]
fn middle_entity() {
    assert!(unescape(" &amp; ".as_bytes()) == " & ");
}

#[test]
fn attribute_middle_entity() {
    assert!(unescape_attribute(" &amp; ".as_bytes()) == " & ");
}

#[test]
fn extra_ampersands() {
    assert!(unescape("&&amp;&".as_bytes()) == "&&&");
}

#[test]
fn attribute_extra_ampersands() {
    assert!(unescape_attribute("&&amp;&".as_bytes()) == "&&&");
}

#[test]
fn two_entities() {
    assert!(unescape("AND &amp;&AMP; and".as_bytes()) == "AND && and");
}

#[test]
fn attribute_two_entities() {
    assert!(unescape_attribute("AND &amp;&AMP; and".as_bytes()) == "AND && and");
}

#[test]
fn long_entity() {
    assert!(unescape("&aaaaaaaaaaaaaaaaaaaaaaaaaaaaaaaaaaaaaaaaaaaaaaaaaaaaaaaaaaaaaaaaaaaaaa;".as_bytes()) == "&aaaaaaaaaaaaaaaaaaaaaaaaaaaaaaaaaaaaaaaaaaaaaaaaaaaaaaaaaaaaaaaaaaaaaa;");
}

#[test]
fn attribute_long_entity() {
    assert!(unescape_attribute("&aaaaaaaaaaaaaaaaaaaaaaaaaaaaaaaaaaaaaaaaaaaaaaaaaaaaaaaaaaaaaaaaaaaaaa;".as_bytes()) == "&aaaaaaaaaaaaaaaaaaaaaaaaaaaaaaaaaaaaaaaaaaaaaaaaaaaaaaaaaaaaaaaaaaaaaa;");
}

#[test]
fn correct_hex_lowerx_lower() {
    assert!(unescape("&#x7a;".as_bytes()) == "z");
}

#[test]
fn attribute_correct_hex_lowerx_lower() {
    assert!(unescape_attribute("&#x7a;".as_bytes()) == "z");
}

#[test]
fn correct_hex_lowerx_upper() {
    assert!(unescape("&#x7A;".as_bytes()) == "z");
}

#[test]
fn attribute_correct_hex_lowerx_upper() {
    assert!(unescape_attribute("&#x7A;".as_bytes()) == "z");
}

#[test]
fn correct_hex_upperx_lower() {
    assert!(unescape("&#X7a;".as_bytes()) == "z");
}

#[test]
fn attribute_correct_hex_upperx_lower() {
    assert!(unescape_attribute("&#X7a;".as_bytes()) == "z");
}

#[test]
fn correct_hex_upperx_upper() {
    assert!(unescape("&#X7A;".as_bytes()) == "z");
}

#[test]
fn attribute_correct_hex_upperx_upper() {
    assert!(unescape_attribute("&#X7A;".as_bytes()) == "z");
}

#[test]
fn correct_hex_leading_zero() {
    assert!(unescape("&#x07a;".as_bytes()) == "z");
}

#[test]
fn attribute_correct_hex_leading_zero() {
    assert!(unescape_attribute("&#x07a;".as_bytes()) == "z");
}

#[test]
fn correct_hex_leading_zero_zero() {
    assert!(unescape("&#x007a;".as_bytes()) == "z");
}

#[test]
fn attribute_correct_hex_leading_zero_zero() {
    assert!(unescape_attribute("&#x007a;".as_bytes()) == "z");
}

#[test]
fn correct_dec() {
    assert!(unescape("&#122;".as_bytes()) == "z");
}

#[test]
fn attribute_correct_dec() {
    assert!(unescape_attribute("&#122;".as_bytes()) == "z");
}

#[test]
fn correct_dec_leading_zero() {
    assert!(unescape("&#0122;".as_bytes()) == "z");
}

#[test]
fn attribute_correct_dec_leading_zero() {
    assert!(unescape_attribute("&#0122;".as_bytes()) == "z");
}

#[test]
fn correct_dec_leading_zero_zero() {
    assert!(unescape("&#00122;".as_bytes()) == "z");
}

#[test]
fn attribute_correct_dec_leading_zero_zero() {
    assert!(unescape_attribute("&#00122;".as_bytes()) == "z");
}

#[test]
fn correct_hex_unicode() {
    assert!(unescape("&#x21D2;".as_bytes()) == "⇒");
}

#[test]
fn attribute_correct_hex_unicode() {
    assert!(unescape_attribute("&#x21D2;".as_bytes()) == "⇒");
}

#[test]
fn bare_hex_char() {
    assert!(unescape("&#x7Az".as_bytes()) == "zz");
}

#[test]
fn attribute_bare_hex_char() {
    assert!(unescape_attribute("&#x7Az".as_bytes()) == "zz");
}

#[test]
fn bare_hex_end() {
    assert!(unescape("&#x7A".as_bytes()) == "z");
}

#[test]
fn attribute_bare_hex_end() {
    assert!(unescape_attribute("&#x7A".as_bytes()) == "z");
}

#[test]
fn bare_dec_char() {
    assert!(unescape("&#122z".as_bytes()) == "zz");
}

#[test]
fn attribute_bare_dec_char() {
    assert!(unescape_attribute("&#122z".as_bytes()) == "zz");
}

#[test]
fn bare_dec_end() {
    assert!(unescape("&#122".as_bytes()) == "z");
}

#[test]
fn attribute_bare_dec_end() {
    assert!(unescape_attribute("&#122".as_bytes()) == "z");
}

#[test]
fn hex_instead_of_dec() {
    assert!(unescape("&#a0;".as_bytes()) == "&#a0;");
}

#[test]
fn attribute_hex_instead_of_dec() {
    assert!(unescape_attribute("&#a0;".as_bytes()) == "&#a0;");
}

#[test]
fn invalid_hex_lowerx() {
    assert!(unescape("&#xZ;".as_bytes()) == "&#xZ;");
}

#[test]
fn attribute_invalid_hex_lowerx() {
    assert!(unescape_attribute("&#xZ;".as_bytes()) == "&#xZ;");
}

#[test]
fn invalid_hex_upperx() {
    assert!(unescape("&#XZ;".as_bytes()) == "&#XZ;");
}

#[test]
fn attribute_invalid_hex_upperx() {
    assert!(unescape_attribute("&#XZ;".as_bytes()) == "&#XZ;");
}

#[test]
fn hex_control_1() {
    assert!(unescape("&#x1;".as_bytes()) == "\u{1}");
}

#[test]
fn attribute_hex_control_1() {
    assert!(unescape_attribute("&#x1;".as_bytes()) == "\u{1}");
}

#[test]
fn dec_control_1() {
    assert!(unescape("&#1;".as_bytes()) == "\u{1}");
}

#[test]
fn attribute_dec_control_1() {
    assert!(unescape_attribute("&#1;".as_bytes()) == "\u{1}");
}

#[test]
fn dec_cr() {
    assert!(unescape("&#13;".as_bytes()) == "\r");
}

#[test]
fn attribute_dec_cr() {
    assert!(unescape_attribute("&#13;".as_bytes()) == "\r");
}

#[test]
fn hex_cr() {
    assert!(unescape("&#xd;".as_bytes()) == "\r");
}

#[test]
fn attribute_hex_cr() {
    assert!(unescape_attribute("&#xd;".as_bytes()) == "\r");
}

#[test]
fn hex_tab() {
    assert!(unescape("&#9;".as_bytes()) == "\t");
}

#[test]
fn attribute_hex_tab() {
    assert!(unescape_attribute("&#9;".as_bytes()) == "\t");
}

#[test]
fn dec_tab() {
    assert!(unescape("&#9;".as_bytes()) == "\t");
}

#[test]
fn attribute_dec_tab() {
    assert!(unescape_attribute("&#9;".as_bytes()) == "\t");
}

#[test]
fn hex_max_code_point() {
    assert!(unescape("&#x10ffff;".as_bytes()) == "\u{10ffff}");
}

#[test]
fn attribute_hex_max_code_point() {
    assert!(unescape_attribute("&#x10ffff;".as_bytes()) == "\u{10ffff}");
}

#[test]
fn hex_above_max_code_point() {
    assert!(unescape("&#x110001;".as_bytes()) == "\u{fffd}");
}

#[test]
fn attribute_hex_above_max_code_point() {
    assert!(unescape_attribute("&#x110001;".as_bytes()) == "\u{fffd}");
}

#[test]
fn hex_11_chars() {
    assert!(unescape("&#x1100000000;".as_bytes()) == "\u{fffd}");
}

#[test]
fn attribute_hex_11_chars() {
    assert!(unescape_attribute("&#x1100000000;".as_bytes()) == "\u{fffd}");
}

#[test]
fn bare_hex_11_chars_end() {
    assert!(unescape("&#x1100000000".as_bytes()) == "\u{fffd}");
}

#[test]
fn attribute_bare_hex_11_chars_end() {
    assert!(unescape_attribute("&#x1100000000".as_bytes()) == "\u{fffd}");
}

#[test]
fn hex_40_chars() {
    assert!(unescape("&#x110000000000000000000000000000000000000;".as_bytes()) == "\u{fffd}");
}

#[test]
fn attribute_hex_40_chars() {
    assert!(unescape_attribute("&#x110000000000000000000000000000000000000;".as_bytes()) == "\u{fffd}");
}

#[test]
fn bare_hex_40_chars_end() {
    assert!(unescape("&#x110000000000000000000000000000000000000".as_bytes()) == "\u{fffd}");
}

#[test]
fn attribute_bare_hex_40_chars_end() {
    assert!(unescape_attribute("&#x110000000000000000000000000000000000000".as_bytes()) == "\u{fffd}");
}

#[test]
fn special_entity_null() {
    assert!(unescape("&#0;".as_bytes()) == "\u{fffd}");
}

#[test]
fn attribute_special_entity_null() {
    assert!(unescape_attribute("&#0;".as_bytes()) == "\u{fffd}");
}

#[test]
fn special_entity_bullet() {
    assert!(unescape("&#x95;".as_bytes()) == "•");
}

#[test]
fn attribute_special_entity_bullet() {
    assert!(unescape_attribute("&#x95;".as_bytes()) == "•");
}

#[test]
fn special_entity_bullets() {
    assert!(unescape("&#x95;&#149;&#x2022;•".as_bytes()) == "••••");
}

#[test]
fn attribute_special_entity_bullets() {
    assert!(unescape_attribute("&#x95;&#149;&#x2022;•".as_bytes()) == "••••");
}

#[test]
fn special_entity_space() {
    assert!(unescape("&#x20".as_bytes()) == " ");
}

#[test]
fn attribute_special_entity_space() {
    assert!(unescape_attribute("&#x20".as_bytes()) == " ");
}

#[test]
fn bare_entity_char() {
    assert!(unescape("&timesa".as_bytes()) == "×a");
}

#[test]
fn bare_entity_equal() {
    assert!(unescape("&times=".as_bytes()) == "×=");
}

#[test]
fn bare_entity_char_is_prefix() {
    assert!(unescape("&timesb".as_bytes()) == "×b");
}

#[test]
fn attribute_bare_entity_char() {
    assert!(unescape_attribute("&timesa".as_bytes()) == "&timesa");
}

#[test]
fn attribute_bare_entity_equal() {
    assert!(unescape_attribute("&times=".as_bytes()) == "&times=");
}

#[test]
fn attribute_bare_entity_char_is_prefix() {
    assert!(unescape_attribute("&timesb".as_bytes()) == "&timesb");
}
