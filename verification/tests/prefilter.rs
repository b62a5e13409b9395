use claim_check::prefilter::{char_is_space, rejects};

#[test]
fn prefilter_rejects_empty() {
    assert!(rejects(""));
}

#[test]
fn prefilter_rejects_greeting() {
    // The motivating case: a bare greeting never reaches the model.
    assert!(rejects("Ciao"));
}

#[test]
fn prefilter_rejects_nine_chars() {
    // Nine characters, three words: still too short.
    assert!(rejects("a bb cccc"));
}

#[test]
fn prefilter_rejects_two_words() {
    // Long enough, but only two whitespace-separated words.
    assert!(rejects("aaaaaaaaaa bbbbbbbbbb"));
}

#[test]
fn prefilter_accepts_minimal() {
    // Exactly ten characters and exactly three words.
    assert!(!rejects("aaaa bb cc"));
}

#[test]
fn prefilter_accepts_sentence() {
    assert!(!rejects("The council passed the new budget today."));
}

#[test]
fn prefilter_counts_characters_not_bytes() {
    // Ten two-byte characters in three words: long enough by character
    // count even though a byte count would also pass here...
    assert!(!rejects("ààà èèè üüüü"));
    // ...and nine multi-byte characters are too short even though they
    // take eighteen bytes.
    assert!(rejects("ààààààààà"));
}

#[test]
fn prefilter_sees_unicode_whitespace() {
    // EM SPACE and IDEOGRAPHIC SPACE delimit words like ASCII blanks do.
    assert!(!rejects("alpha\u{2003}beta\u{3000}gamma"));
    // A no-break space is whitespace, not a word character: two words.
    assert!(rejects("aaaaa\u{00A0}bbbbb"));
}

#[test]
fn prefilter_ignores_leading_and_trailing_space() {
    // Surrounding whitespace opens no extra words: still two words.
    assert!(rejects("   aaaaaa bbbbbb   "));
}

#[test]
fn char_is_space_matches_std() {
    for c in ['\t', '\n', ' ', '\u{00A0}', '\u{2003}', '\u{3000}', 'a', '0', '|', 'à'] {
        assert_eq!(char_is_space(c), c.is_whitespace());
    }
}
