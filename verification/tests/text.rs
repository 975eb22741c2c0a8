use monkey_troop::text::{
    chars_of, comes_before, decimal_text, has_prefix, join2, join3, read_unsigned, same_text,
    text_after, trim_text,
};

#[test]
fn decimal_text_writes_numbers_as_std_does() {
    for n in [0u64, 7, 9, 10, 42, 100, 1234, 8080, 65535, 65536, u64::MAX] {
        assert_eq!(decimal_text(n), n.to_string());
    }
    assert_eq!(decimal_text(42), "42");
}

#[test]
fn read_unsigned_reads_what_std_reads() {
    let samples = [
        "", "+", "-", "+5", "-5", "-0", "0", "00080", "8080", "65535", "65536", " 80", "80 ",
        "8_0", "0x10", "٣", "1e3", "12a", "++1", "+-1", "99999999999999999999999", "１２",
    ];
    for s in samples {
        assert_eq!(read_unsigned(s, 65535), s.parse::<u16>().ok().map(u64::from), "{:?}", s);
        assert_eq!(read_unsigned(s, u64::MAX), s.parse::<u64>().ok(), "{:?}", s);
    }
    assert_eq!(read_unsigned("18446744073709551615", u64::MAX), Some(u64::MAX));
    assert_eq!(read_unsigned("18446744073709551616", u64::MAX), None);
    assert_eq!(read_unsigned("9", 8), None);
    assert_eq!(read_unsigned("8", 8), Some(8));
    assert_eq!(read_unsigned("not-a-number", 65535), None);
}

#[test]
fn trim_text_trims_what_std_trims() {
    let samples = [
        "",
        " ",
        "100.64.0.7\n",
        "  NVIDIA GeForce RTX 4090  \r\n",
        "\t a b \t",
        "\u{2003}x\u{3000}",
        "\u{85}y\u{a0}",
        "\u{200b}z\u{200b}",
        "\u{1680}\u{2028}\u{2029}\u{202f}\u{205f}w",
        "no space",
        "\u{b}\u{c}v",
        "\u{1c} x",
    ];
    for s in samples {
        assert_eq!(trim_text(s), s.trim(), "{:?}", s);
    }
}

#[test]
fn comes_before_orders_as_std_does() {
    let samples = ["", "a", "ab", "b", "B", "llama3:8b", "llama3", "mistral", "é", "z", "日本", "😀", "\u{ffff}"];
    for a in samples {
        for b in samples {
            assert_eq!(comes_before(a, b), a < b, "{:?} {:?}", a, b);
        }
    }
}

#[test]
fn text_pieces_fit_together() {
    assert_eq!(join2("http://x", "/heartbeat"), "http://x/heartbeat");
    assert_eq!(join3("a", "é", "c"), "aéc");
    assert!(has_prefix("Bearer abc", "Bearer "));
    assert!(!has_prefix("Bearer", "Bearer "));
    assert!(!has_prefix("bearer abc", "Bearer "));
    assert!(has_prefix("anything", ""));
    assert_eq!(text_after("Bearer é.b.c", 7), "é.b.c");
    assert_eq!(text_after("abc", 3), "");
    assert!(same_text("vllm", "vllm"));
    assert!(!same_text("vllm", "vllm "));
    assert_eq!(chars_of("hé"), vec!['h', 'é']);
}
