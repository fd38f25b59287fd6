use os_handles::punct::{is, PUNCT_LIMIT};

#[test]
fn ascii_punctuation_classifies_as_one() {
    for c in ['!', '.', '~', ',', '?', '@', '[', '_', '{'] {
        assert_eq!(is(c as usize), 1, "{:?}", c);
    }
}

#[test]
fn letters_digits_and_space_classify_as_zero() {
    for c in ['a', 'Z', '0', '9', ' ', '\u{e9}'] {
        assert_eq!(is(c as usize), 0, "{:?}", c);
    }
}

#[test]
fn wide_punctuation_classifies_as_one() {
    for wc in [0xa1usize, 0xbf, 0xd7, 0xb7, 0x2014, 0x3001, 0x3002] {
        assert_eq!(is(wc), 1, "{:#x}", wc);
    }
}

#[test]
fn every_storage_block_is_read() {
    let ones = [0x21usize, 0xf01, 0x2b00, 0xe000, 0x10f1d, 0x12470, 0x1e8c7, 0x1fa95, 0x10100];
    let zeros = [0x0usize, 0xf00, 0x2b74, 0xe001, 0x10f00, 0x12400, 0x1e800, 0x1ffff];
    for wc in ones {
        assert_eq!(is(wc), 1, "{:#x}", wc);
    }
    for wc in zeros {
        assert_eq!(is(wc), 0, "{:#x}", wc);
    }
}

#[test]
fn code_points_past_the_table_classify_as_zero() {
    assert_eq!(PUNCT_LIMIT, 0x20000);
    for wc in [0x20000usize, 0x20001, 0x3000a, 0x10ffff, u32::MAX as usize, usize::MAX] {
        assert_eq!(is(wc), 0, "{:#x}", wc);
    }
}

#[test]
fn classification_is_zero_or_one_over_the_table() {
    let mut count = 0usize;
    for wc in 0..0x20000usize {
        let r = is(wc);
        assert!(r <= 1);
        count += r as usize;
    }
    assert_eq!(count, 9692);
}
