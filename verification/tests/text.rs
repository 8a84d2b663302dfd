use makrust::text::{chars_of, is_whitespace, trim_bounds};

#[test]
fn whitespace_matches_std_for_every_char() {
    for u in 0u32..=0x10FFFF {
        if let Some(c) = char::from_u32(u) {
            assert_eq!(is_whitespace(c), c.is_whitespace(), "{:x}", u);
        }
    }
}

#[test]
fn trim_bounds_match_std_trim() {
    let samples = [
        "", " ", "  a b  ", "\u{3000}x\u{2028}", "abc", "\t\n", " x", "x ", "\u{85}é\u{a0}",
    ];
    for s in samples {
        let v = chars_of(s);
        let (lo, hi) = trim_bounds(&v);
        let trimmed: String = v[lo..hi].iter().collect();
        assert_eq!(trimmed, s.trim());
    }
}
