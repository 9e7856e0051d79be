use show_scraper::text::{char_is_space, chars_of, cut, split, trim};

#[test]
fn chars_of_lists_the_characters() {
    assert_eq!(chars_of(""), Vec::<char>::new());
    assert_eq!(chars_of("a@b"), vec!['a', '@', 'b']);
    assert_eq!(chars_of("é\u{3000}z"), vec!['é', '\u{3000}', 'z']);
}

#[test]
fn white_space_is_what_std_says() {
    for code in 0..=0x10FFFFu32 {
        if let Some(c) = char::from_u32(code) {
            assert_eq!(char_is_space(c), c.is_whitespace(), "U+{code:04X}");
        }
    }
}

#[test]
fn trim_removes_white_space_at_both_ends() {
    assert_eq!(trim("  Venue X \n"), "Venue X");
    assert_eq!(trim("no space"), "no space");
    assert_eq!(trim(" \t\r\n "), "");
    assert_eq!(trim(""), "");
    assert_eq!(trim("\u{a0}a b\u{2003}"), "a b");
    assert_eq!(trim(" é "), "é");
}

#[test]
fn trim_agrees_with_std() {
    for s in ["", " ", "a", " a", "a ", "  a  b  ", "\n\ta\u{85}", "\u{1680}x\u{205f}", "x\u{200b}"] {
        assert_eq!(trim(s), s.trim(), "{s:?}");
    }
}

#[test]
fn split_cuts_at_every_separator() {
    assert_eq!(split("a@b", '@'), vec!["a", "b"]);
    assert_eq!(split("ab", '@'), vec!["ab"]);
    assert_eq!(split("", '@'), vec![""]);
    assert_eq!(split("@", '@'), vec!["", ""]);
    assert_eq!(split("a@b@c", '@'), vec!["a", "b", "c"]);
    assert_eq!(split("@a@", '@'), vec!["", "a", ""]);
}

#[test]
fn split_agrees_with_std() {
    for s in ["", "@", "@@", "a@", "@a", "a@b", "a@b@", "é@ü", "no separator"] {
        let expected: Vec<String> = s.split('@').map(|p| p.to_string()).collect();
        assert_eq!(split(s, '@'), expected, "{s:?}");
    }
}

#[test]
fn cut_takes_the_first_occurrence() {
    assert_eq!(cut("Sun: Feb 5<br>(9pm-2am)", "<br>"), ("Sun: Feb 5".to_string(), Some("(9pm-2am)".to_string())));
    assert_eq!(cut("Sun: Feb 5", "<br>"), ("Sun: Feb 5".to_string(), None));
    assert_eq!(cut("a<br>b<br>c", "<br>"), ("a".to_string(), Some("b<br>c".to_string())));
    assert_eq!(cut("<br>", "<br>"), ("".to_string(), Some("".to_string())));
    assert_eq!(cut("", "<br>"), ("".to_string(), None));
    assert_eq!(cut("<b<br>x", "<br>"), ("<b".to_string(), Some("x".to_string())));
    assert_eq!(cut("abc", ""), ("".to_string(), Some("abc".to_string())));
    assert_eq!(cut("<br", "<br>"), ("<br".to_string(), None));
}

#[test]
fn cut_agrees_with_std() {
    for s in ["", "<br>", "a<br>", "<br>a", "a<br>b", "a<br>b<br>c", "é<br>ü", "<<br>>", "none"] {
        let expected = match s.split_once("<br>") {
            Some((a, b)) => (a.to_string(), Some(b.to_string())),
            None => (s.to_string(), None),
        };
        assert_eq!(cut(s, "<br>"), expected, "{s:?}");
    }
}
