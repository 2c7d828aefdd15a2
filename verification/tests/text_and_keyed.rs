use std::collections::BTreeMap;
use termul_manager::keyed::KeyedList;
use termul_manager::text::{
    comes_before, concat2, concat3, control_char, copy_list, decimal_text, find_char, from_chars,
    lines, parse_usize, replace_char, same_text, to_chars, trim, trim_line_end, white_space,
};

#[test]
fn white_space_and_control_characters_are_those_of_unicode() {
    for n in 0..=0x10ffffu32 {
        if let Some(c) = char::from_u32(n) {
            assert_eq!(white_space(c), c.is_whitespace(), "{n:x}");
            assert_eq!(control_char(c), c.is_control(), "{n:x}");
        }
    }
}

#[test]
fn texts_are_trimmed() {
    for text in ["", " ", "a", "\u{3000} a b\u{85}\r\n", "\u{200b}x", "é "] {
        assert_eq!(trim(text), text.trim());
        assert_eq!(trim_line_end(text), text.trim_end_matches(['\r', '\n']));
    }
    assert_eq!(trim_line_end("a\n\r\n"), "a");
}

#[test]
fn texts_are_split_into_lines() {
    for text in ["", "\n", "a", "a\n", "a\r\nb\r", "\r\n\r\n", "a\n\nb", "é\r\r\n"] {
        let expected: Vec<String> = text.lines().map(str::to_string).collect();
        assert_eq!(lines(text), expected, "{text:?}");
    }
}

#[test]
fn numerals() {
    for n in [0u128, 9, 10, 1234567890, u128::MAX] {
        assert_eq!(decimal_text(n), n.to_string());
    }
    for text in ["0", "007", "+12", "+", "", "-1", "1 ", "18446744073709551615", "18446744073709551616", "٣"] {
        assert_eq!(parse_usize(&to_chars(text)), text.parse::<usize>().ok(), "{text}");
    }
}

#[test]
fn texts_are_ordered_as_strings() {
    let texts = ["", "a", "aa", "ab", "b", "B", "é", "\u{ffff}", "\u{10000}", "/", "src/a.rs"];
    for a in texts {
        for b in texts {
            assert_eq!(comes_before(a, b), a < b, "{a} {b}");
            assert_eq!(same_text(a, b), a == b);
        }
    }
}

#[test]
fn texts_are_built() {
    assert_eq!(concat2("a", "é"), "aé");
    assert_eq!(concat3("a", "", "c"), "ac");
    assert_eq!(replace_char("a\\b\\", '\\', '/'), "a/b/");
    assert_eq!(from_chars(&to_chars("héllo")), "héllo");
    assert_eq!(find_char(&to_chars("a:b:"), ':'), 1);
    assert_eq!(find_char(&to_chars("ab"), ':'), 2);
    assert_eq!(copy_list(&vec!["a".to_string()]), vec!["a".to_string()]);
}

#[test]
fn keyed_list_is_a_map() {
    let mut list: KeyedList<u32> = KeyedList::new();
    let mut map: BTreeMap<String, u32> = BTreeMap::new();
    assert!(list.is_empty());
    for (i, key) in ["b", "a", "b", "c", "a", "d"].iter().enumerate() {
        list.insert(key.to_string(), i as u32);
        map.insert(key.to_string(), i as u32);
    }
    assert_eq!(list.len(), map.len());
    assert_eq!(list.key_at(0), "b");
    assert_eq!(*list.value_at(1), 4);
    assert_eq!(list.remove("a"), map.remove("a"));
    assert_eq!(list.remove("a"), None);
    if let Some(value) = list.get_mut("c") {
        *value += 100;
    }
    assert!(list.get_mut("x").is_none());
    assert_eq!(list.get("c"), Some(&103));
    assert_eq!(list.get("b"), map.get("b"));
    assert_eq!(list.get("a"), None);
    assert!(list.has("d") && !list.has("a"));
    assert_eq!(list.len(), 3);
    assert!(!list.is_empty());
}
