use tsdoc::text::{
    begins_with_spaces, count_leading, join, leading_paragraph, remove_indent,
    remove_indent_repeated, repeat, slice, split, to_chars, trim, trim_end, trim_end_matches,
    trim_start, trim_start_matches, trimmed_end, CharClass,
};

const SAMPLES: [&str; 12] = [
    "",
    " ",
    "a",
    "  a  ",
    "\t\n a b \r\n",
    "\u{a0}x\u{2003}",
    "\u{3000}\u{85}",
    "{{ x {{",
    "::a::",
    "été \u{1f600} ",
    "\u{200b} zero width space is no white space \u{200b}",
    "line\n\nnext\n",
];

#[test]
fn trimming_agrees_with_the_standard_library() {
    for sample in SAMPLES {
        assert_eq!(trim(sample), sample.trim(), "trim of {:?}", sample);
        assert_eq!(trim_start(sample), sample.trim_start(), "trim_start of {:?}", sample);
        assert_eq!(trim_end(sample), sample.trim_end(), "trim_end of {:?}", sample);
        assert_eq!(
            trim_end_matches(sample, CharClass::Exactly('{')),
            sample.trim_end_matches('{')
        );
        assert_eq!(
            trim_start_matches(sample, CharClass::Exactly(':')),
            sample.trim_start_matches(':')
        );
    }
}

#[test]
fn white_space_is_what_unicode_says() {
    for code in 0u32..0x11000 {
        if let Some(c) = char::from_u32(code) {
            assert_eq!(CharClass::WhiteSpace.test(c), c.is_whitespace(), "for {:?}", c);
        }
    }
    assert!(CharClass::Exactly('x').test('x'));
    assert!(!CharClass::Exactly('x').test('y'));
}

#[test]
fn trimming_exact_values() {
    assert_eq!(trim("  a b  "), "a b");
    assert_eq!(trim_end("a \n"), "a");
    assert_eq!(trim_start(" \ta "), "a ");
    assert_eq!(trim_end_matches("class A {{", CharClass::Exactly('{')), "class A ");
    assert_eq!(trim_start_matches(": T", CharClass::Exactly(':')), " T");
    assert_eq!(trim("   "), "");
}

#[test]
fn counting_from_both_ends() {
    let chars = to_chars("  ab  ");
    assert_eq!(chars, vec![' ', ' ', 'a', 'b', ' ', ' ']);
    assert_eq!(count_leading(&chars, 0, CharClass::WhiteSpace), 2);
    assert_eq!(count_leading(&chars, 1, CharClass::WhiteSpace), 1);
    assert_eq!(count_leading(&chars, 2, CharClass::WhiteSpace), 0);
    assert_eq!(count_leading(&chars, 6, CharClass::WhiteSpace), 0);
    assert_eq!(count_leading(&chars, 2, CharClass::Exactly('a')), 1);
    assert_eq!(trimmed_end(&chars, 6, CharClass::WhiteSpace), 4);
    assert_eq!(trimmed_end(&chars, 5, CharClass::WhiteSpace), 4);
    assert_eq!(trimmed_end(&chars, 2, CharClass::WhiteSpace), 0);
    assert_eq!(trimmed_end(&chars, 0, CharClass::WhiteSpace), 0);
    assert_eq!(to_chars("é\u{1f600}"), vec!['é', '\u{1f600}']);
}

#[test]
fn slice_counts_characters() {
    assert_eq!(slice("héllo", 1, 3), "él");
    assert_eq!(slice("héllo", 0, 5), "héllo");
    assert_eq!(slice("héllo", 2, 2), "");
}

#[test]
fn split_agrees_with_the_standard_library() {
    for sample in SAMPLES {
        let expected: Vec<String> = sample.split('\n').map(|s| s.to_string()).collect();
        assert_eq!(split(sample, '\n'), expected, "split of {:?}", sample);
        let expected: Vec<String> = sample.split(' ').map(|s| s.to_string()).collect();
        assert_eq!(split(sample, ' '), expected);
    }
    assert_eq!(split("a.b..c", '.'), vec!["a", "b", "", "c"]);
    assert_eq!(split("", '.'), vec![""]);
    assert_eq!(split(".", '.'), vec!["", ""]);
}

#[test]
fn join_agrees_with_the_standard_library() {
    let cases: Vec<Vec<String>> = vec![
        vec![],
        vec!["a".to_string()],
        vec!["a".to_string(), "".to_string(), "b".to_string()],
        vec!["".to_string(), "".to_string()],
    ];
    for parts in cases {
        assert_eq!(join(&parts, ", "), parts.join(", "));
        assert_eq!(join(&parts, ""), parts.join(""));
        assert_eq!(join(&parts, "\n"), parts.join("\n"));
    }
    let parts = vec!["a".to_string(), "b".to_string(), "c".to_string()];
    assert_eq!(join(&parts, " | "), "a | b | c");
}

#[test]
fn split_then_join_gives_the_text_back() {
    for sample in SAMPLES {
        assert_eq!(join(&split(sample, '\n'), "\n"), sample);
    }
}

#[test]
fn indentation_is_removed_once() {
    assert_eq!(remove_indent("    a", 4), "a");
    assert_eq!(remove_indent("      a", 4), "  a");
    assert_eq!(remove_indent("  a", 4), "  a");
    assert_eq!(remove_indent("\t\t\t\ta", 4), "\t\t\t\ta");
    assert_eq!(remove_indent("a", 0), "a");
    assert_eq!(remove_indent("", 3), "");
    assert_eq!(remove_indent("   ", 3), "");
    assert_eq!(remove_indent(" a", u64::MAX), " a");
    for sample in SAMPLES {
        for n in 0..4u64 {
            let pat = " ".repeat(n as usize);
            let expected = sample.strip_prefix(pat.as_str()).unwrap_or(sample);
            assert_eq!(remove_indent(sample, n), expected);
        }
    }
}

#[test]
fn indentation_is_removed_as_often_as_it_stands() {
    assert_eq!(remove_indent_repeated("      a", 2), "a");
    assert_eq!(remove_indent_repeated("     a", 2), " a");
    assert_eq!(remove_indent_repeated("  a", 0), "  a");
    assert_eq!(remove_indent_repeated("  a", 3), "  a");
    assert_eq!(remove_indent_repeated("", 1), "");
    assert_eq!(remove_indent_repeated("   ", 1), "");
    assert_eq!(remove_indent_repeated(" a", u64::MAX), " a");
    for sample in SAMPLES {
        for n in 0..4u64 {
            let pat = " ".repeat(n as usize);
            assert_eq!(
                remove_indent_repeated(sample, n),
                sample.trim_start_matches(pat.as_str())
            );
        }
    }
}

#[test]
fn spaces_at_a_position() {
    let chars = to_chars("a   b");
    assert!(begins_with_spaces(&chars, 1, 3));
    assert!(begins_with_spaces(&chars, 1, 0));
    assert!(begins_with_spaces(&chars, 5, 0));
    assert!(!begins_with_spaces(&chars, 1, 4));
    assert!(!begins_with_spaces(&chars, 0, 1));
    assert!(!begins_with_spaces(&chars, 4, 2));
}

#[test]
fn first_paragraph_ends_at_the_first_blank_line() {
    assert_eq!(leading_paragraph("one\ntwo\n\nthree\n\nfour"), "one\ntwo");
    assert_eq!(leading_paragraph("one"), "one");
    assert_eq!(leading_paragraph("one\n"), "one\n");
    assert_eq!(leading_paragraph("\n\none"), "");
    assert_eq!(leading_paragraph(""), "");
    for sample in SAMPLES {
        assert_eq!(leading_paragraph(sample), sample.split("\n\n").next().unwrap_or(""));
    }
}

#[test]
fn repeat_makes_copies() {
    assert_eq!(repeat("  ", 0), "");
    assert_eq!(repeat("  ", 3), "      ");
    assert_eq!(repeat("ab", 2), "abab");
}
