use minecli::text::{
    chars_of, contains_text, copy_opt, decimal_text, is_blank, is_white_space, read_u16, same_text,
    signed_decimal_text,
};

#[test]
fn chars_of_keeps_order_and_wide_characters() {
    assert_eq!(chars_of(""), Vec::<char>::new());
    assert_eq!(chars_of("aé世🦀"), vec!['a', 'é', '世', '🦀']);
}

#[test]
fn same_text_compares_whole_texts() {
    assert!(same_text("", ""));
    assert!(same_text("exit", "exit"));
    assert!(!same_text("exit", "exi"));
    assert!(!same_text("exit", "Exit"));
    assert!(!same_text("é", "e"));
}

#[test]
fn copy_opt_copies() {
    assert_eq!(copy_opt(&None), None);
    assert_eq!(copy_opt(&Some("cert".to_string())), Some("cert".to_string()));
}

#[test]
fn white_space_is_that_of_the_standard_library() {
    let mut found: usize = 0;
    for n in 0..=0x10ffffu32 {
        if let Some(c) = char::from_u32(n) {
            assert_eq!(is_white_space(c), c.is_whitespace(), "{:?}", c);
            if c.is_whitespace() {
                found += 1;
            }
        }
    }
    assert_eq!(found, 25);
}

#[test]
fn blank_texts() {
    for s in ["", " ", "\t\r\n", "\u{a0}\u{3000}", " a ", "a", "\u{200b}", "0"] {
        assert_eq!(is_blank(s), s.trim().is_empty(), "{:?}", s);
    }
    assert!(is_blank("  \n"));
    assert!(!is_blank("\u{200b}"));
}

#[test]
fn contains_text_finds_every_place() {
    assert!(contains_text("certificate", "certificate"));
    assert!(contains_text("bad certificate pin", "certificate"));
    assert!(contains_text("the certificate", "certificate"));
    assert!(contains_text("cercertificate", "certificate"));
    assert!(!contains_text("certificat", "certificate"));
    assert!(!contains_text("Certificate", "certificate"));
    assert!(contains_text("anything", ""));
    assert!(contains_text("", ""));
    assert!(!contains_text("", "x"));
}

#[test]
fn decimal_numerals() {
    assert_eq!(decimal_text(0), "0");
    assert_eq!(decimal_text(7632), "7632");
    assert_eq!(decimal_text(u64::MAX), "18446744073709551615");
    for n in 0..=9u64 {
        assert_eq!(decimal_text(n), n.to_string());
    }
}

#[test]
fn signed_decimal_numerals() {
    assert_eq!(signed_decimal_text(0), "0");
    assert_eq!(signed_decimal_text(60), "60");
    assert_eq!(signed_decimal_text(-5), "-5");
    assert_eq!(signed_decimal_text(i32::MAX), "2147483647");
    assert_eq!(signed_decimal_text(i32::MIN), "-2147483648");
}

#[test]
fn read_u16_reads_what_the_standard_library_reads() {
    let inputs = [
        "", "+", "-", "0", "+0", "-0", "1", "80", "+80", "++80", "007632", "65535", "65536", "+65535",
        "99999999999999999999", "00000000000000000000001", " 80", "80 ", "8_0", "0x50", "٣", "8é",
    ];
    for s in inputs {
        assert_eq!(read_u16(s), s.parse::<u16>().ok(), "{:?}", s);
    }
    assert_eq!(read_u16("+80"), Some(80));
    assert_eq!(read_u16("65536"), None);
}

#[test]
fn every_u16_is_read_back() {
    for n in 0..=u16::MAX {
        assert_eq!(read_u16(decimal_text(n as u64).as_str()), Some(n));
    }
}
