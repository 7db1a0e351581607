use soulwhistle::utils::{cycle_index, is_whitespace, same_text, wrap_text};

#[test]
fn test_wrap_text_basic() {
    let text = "This is a test of the text wrapping functionality";
    let lines = wrap_text(text, 20, None, "");
    assert!(lines.len() > 1);
    for line in lines {
        assert!(line.len() <= 20);
    }
}

#[test]
fn test_wrap_text_with_max_lines() {
    let text = "Word1 Word2 Word3 Word4 Word5 Word6 Word7 Word8";
    let lines = wrap_text(text, 10, Some(2), "");
    assert_eq!(lines.len(), 2);
}

#[test]
fn test_wrap_text_with_indent() {
    let text = "Test text";
    let lines = wrap_text(text, 50, None, "  ");
    assert!(lines[0].starts_with("  "));
}

#[test]
fn test_cycle_index_forward() {
    assert_eq!(cycle_index(0, 5, 1), 1);
    assert_eq!(cycle_index(4, 5, 1), 0); // Wrap around
}

#[test]
fn test_cycle_index_backward() {
    assert_eq!(cycle_index(2, 5, -1), 1);
    assert_eq!(cycle_index(0, 5, -1), 4); // Wrap around
}

#[test]
fn cycle_index_of_empty_list_is_zero() {
    assert_eq!(cycle_index(3, 0, 1), 0);
    assert_eq!(cycle_index(3, 0, -1), 0);
}

#[test]
fn cycle_index_treats_zero_direction_as_backward() {
    assert_eq!(cycle_index(2, 5, 0), 1);
    assert_eq!(cycle_index(0, 5, 0), 4);
}

#[test]
fn cycle_index_from_beyond_the_list_wraps_to_start() {
    assert_eq!(cycle_index(9, 5, 1), 0);
    assert_eq!(cycle_index(9, 5, -1), 8);
}

#[test]
fn cycle_index_stays_inside_list() {
    for len in 1..8usize {
        for current in 0..len {
            assert!(cycle_index(current, len, 1) < len);
            assert!(cycle_index(current, len, -1) < len);
            assert_eq!(cycle_index(cycle_index(current, len, 1), len, -1), current);
        }
    }
}

#[test]
fn wrap_text_exact_lines() {
    let text = "This is a test of the text wrapping functionality";
    let lines = wrap_text(text, 20, None, "");
    assert_eq!(lines, vec!["This is a test of", "the text wrapping", "functionality"]);
}

#[test]
fn wrap_text_limit_cuts_the_rest() {
    let text = "Word1 Word2 Word3 Word4 Word5 Word6 Word7 Word8";
    let lines = wrap_text(text, 10, Some(2), "");
    assert_eq!(lines, vec!["Word1", "Word2"]);
    let three = wrap_text(text, 12, Some(3), "> ");
    assert_eq!(three, vec!["> Word1 Word2", "> Word3 Word4", "> Word5 Word6"]);
}

#[test]
fn wrap_text_zero_lines_gives_nothing() {
    assert!(wrap_text("some words here", 10, Some(0), "").is_empty());
}

#[test]
fn wrap_text_of_blank_text_is_empty() {
    assert!(wrap_text("", 10, None, "  ").is_empty());
    assert!(wrap_text(" \t\n  ", 10, None, "  ").is_empty());
}

#[test]
fn wrap_text_long_word_stands_alone() {
    let lines = wrap_text("a extraordinarily b", 5, None, "");
    assert_eq!(lines, vec!["a", "extraordinarily", "b"]);
}

#[test]
fn wrap_text_line_of_exactly_the_width() {
    // "ab cd" is five bytes: it fits a width of five, not a width of four.
    assert_eq!(wrap_text("ab cd", 5, None, ""), vec!["ab cd"]);
    assert_eq!(wrap_text("ab cd", 4, None, ""), vec!["ab", "cd"]);
}

#[test]
fn wrap_text_collapses_runs_of_white_space() {
    let lines = wrap_text("  one \t two\n\nthree\u{3000}four  ", 80, None, "- ");
    assert_eq!(lines, vec!["- one two three four"]);
}

#[test]
fn wrap_text_counts_width_in_bytes() {
    // Each of the two words takes four bytes, so with the blank they need nine.
    assert_eq!(wrap_text("éé éé", 9, None, ""), vec!["éé éé"]);
    assert_eq!(wrap_text("éé éé", 8, None, ""), vec!["éé", "éé"]);
}

#[test]
fn wrap_text_indent_does_not_count_towards_width() {
    let lines = wrap_text("aaa bbb ccc", 7, None, "      ");
    assert_eq!(lines, vec!["      aaa bbb", "      ccc"]);
}

#[test]
fn wrap_text_agrees_with_split_whitespace() {
    let text = "alpha\u{85}beta\u{a0}gamma\u{2003}delta\u{200b}epsilon\u{feff}zeta";
    let words: Vec<&str> = text.split_whitespace().collect();
    let lines = wrap_text(text, 1, None, "");
    assert_eq!(lines, words);
}

#[test]
fn is_whitespace_agrees_with_unicode_for_every_char() {
    let mut code: u32 = 0;
    while code <= 0x10FFFF {
        if let Some(c) = char::from_u32(code) {
            assert_eq!(is_whitespace(c), c.is_whitespace(), "U+{:04X}", code);
        }
        code += 1;
    }
}

#[test]
fn same_text_compares_by_characters() {
    assert!(same_text("/stream.wav", "/stream.wav"));
    assert!(same_text("", ""));
    assert!(!same_text("/stream.wav", "/stream.wa"));
    assert!(!same_text("a", "b"));
}

#[test]
fn wrap_text_keeps_the_words_in_order() {
    let text = "  The quick\tbrown fox jumps over the extraordinarily lazy dog, \n again and again.  ";
    let words: Vec<&str> = text.split_whitespace().collect();
    for width in [0usize, 1, 5, 9, 10, 11, 20, 40, 200] {
        let lines = wrap_text(text, width, None, ">");
        let mut laid = Vec::new();
        for line in &lines {
            assert!(line.starts_with('>'));
            laid.extend(line[1..].split(' '));
        }
        assert_eq!(laid, words, "width {}", width);
    }
}

#[test]
fn wrap_text_with_a_limit_keeps_a_leading_part_of_the_words() {
    let text = "one two three four five six seven eight nine ten";
    let words: Vec<&str> = text.split_whitespace().collect();
    for limit in 0..6usize {
        let lines = wrap_text(text, 9, Some(limit), "");
        assert!(lines.len() <= limit);
        let laid: Vec<&str> = lines.iter().flat_map(|line| line.split(' ')).collect();
        assert_eq!(laid[..], words[..laid.len()]);
    }
}

#[test]
fn wrap_text_fills_each_line_as_far_as_words_fit() {
    let text = "aa bbb c dddd ee f ggggggggg hh i jjj kk";
    let words: Vec<&str> = text.split_whitespace().collect();
    for width in [3usize, 4, 5, 6, 8, 12] {
        let lines = wrap_text(text, width, None, "");
        let mut next = 0;
        for line in &lines {
            next += line.split(' ').count();
            if next < words.len() {
                // The word that follows the line did not fit on it.
                assert!(line.len() + 1 + words[next].len() > width, "width {}: {:?}", width, line);
            }
        }
        assert_eq!(next, words.len());
    }
}
