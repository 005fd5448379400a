use idvs::text::{
    after_prefix, decimal_text, join_path, parse_u32, same_text, split_fields, text_before, trim,
};

#[test]
fn decimals_are_written_without_leading_zeros() {
    assert_eq!(decimal_text(0), "0");
    assert_eq!(decimal_text(7), "7");
    assert_eq!(decimal_text(10), "10");
    assert_eq!(decimal_text(48000), "48000");
    assert_eq!(decimal_text(u32::MAX), "4294967295");
}

#[test]
fn decimals_are_read_back() {
    for n in [0u32, 1, 9, 10, 99, 100, 12345, 4294967295] {
        assert_eq!(parse_u32(&decimal_text(n)), Some(n));
    }
}

#[test]
fn numbers_are_read_as_the_standard_library_reads_them() {
    let samples = [
        "", "+", "-", "-0", "+0", "0", "007", "+42", "++1", "12a", "a12", " 1", "1 ", "4294967295",
        "4294967296", "99999999999999999999999999", "\u{663}", "1_000",
    ];
    for s in samples {
        assert_eq!(parse_u32(s), s.parse::<u32>().ok(), "{:?}", s);
    }
}

#[test]
fn text_is_trimmed_as_the_standard_library_trims_it() {
    let samples = [
        "", " ", "a", " a ", "\ta b\r\n", "\u{a0}x\u{3000}", "\u{85}\u{2028}y\u{2009}", "é\n",
        "\u{200b}z\u{200b}", "\u{180e}q",
    ];
    for s in samples {
        assert_eq!(trim(s), s.trim(), "{:?}", s);
        assert_eq!(trim(trim(s)), trim(s));
    }
}

#[test]
fn every_white_character_is_trimmed() {
    for n in 0..0x11_0000u32 {
        if let Some(c) = char::from_u32(n) {
            if c.is_whitespace() || n < 0x3100 {
                let s = format!("{}|{}", c, c);
                assert_eq!(trim(&s), s.trim(), "{:?}", c);
            }
        }
    }
}

#[test]
fn fields_are_cut_at_the_first_two_tabs() {
    for s in ["", "a", "a\tb", "a\tb\tc", "a\tb\tc\td", "\t", "\t\t", "\t\t\t", "ü\tß\té"] {
        let expected: Vec<String> = s.splitn(3, '\t').map(|p| p.to_string()).collect();
        assert_eq!(split_fields(s), expected, "{:?}", s);
    }
}

#[test]
fn order_is_that_of_strings() {
    let samples = ["", "a", "ab", "b", "eth0", "eth1", "eth10", "enp0s3", "é", "z", "\u{ffff}", "😀"];
    for a in samples {
        for b in samples {
            assert_eq!(text_before(a, b), a < b, "{:?} {:?}", a, b);
            assert_eq!(same_text(a, b), a == b);
        }
    }
}

#[test]
fn prefixes_are_taken_off() {
    assert_eq!(after_prefix("OK pid=12", "OK pid="), Some("12"));
    assert_eq!(after_prefix("OK pid=", "OK pid="), Some(""));
    assert_eq!(after_prefix("OK pid", "OK pid="), None);
    assert_eq!(after_prefix("ERR no", "OK pid="), None);
    assert_eq!(after_prefix("éa", "é"), Some("a"));
    assert_eq!(after_prefix("abc", ""), Some("abc"));
}

#[test]
fn paths_are_joined_as_the_standard_library_joins_them() {
    for base in ["", ".", "/", "/opt/idvs", "/opt/idvs/", "rel", "é"] {
        for rel in ["statime", "/abs", "", "a/b"] {
            let expected = std::path::Path::new(base).join(rel);
            assert_eq!(join_path(base, rel), expected.to_str().unwrap(), "{:?} {:?}", base, rel);
        }
    }
}
