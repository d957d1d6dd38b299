//! Texts, against the standard library.
use exagent::json::{array, field, object};
use exagent::text::{
    alphanumeric, before, chars_of, concat5, contains, decimal, join, lower, same, split,
    string_of, strip_prefix, to_lower_case, trim, trim_char, white_space,
};
use exagent::text_map::TextMap;

const SAMPLES: [&str; 9] =
    ["", "a", " a b ", "\u{3000}x\u{85}", "--a--", "ÄBC é", "a,b,,c", ",", "日本 語"];

#[test]
fn characters_are_classed_as_in_the_standard_library() {
    for c in '\0'..=char::MAX {
        assert_eq!(white_space(c), c.is_whitespace());
        assert_eq!(alphanumeric(c), c.is_ascii_alphanumeric());
        assert_eq!(lower(c), c.to_ascii_lowercase());
    }
}

#[test]
fn texts_are_cut_as_in_the_standard_library() {
    for s in SAMPLES {
        assert_eq!(trim(s), s.trim());
        assert_eq!(trim_char(s, '-'), s.trim_matches('-'));
        assert_eq!(to_lower_case(s), s.to_ascii_lowercase());
        assert_eq!(split(s, ','), s.split(',').collect::<Vec<_>>());
        assert_eq!(string_of(&chars_of(s)), s);
        for t in SAMPLES {
            assert_eq!(same(s, t), s == t);
            assert_eq!(contains(s, t), s.contains(t));
            assert_eq!(strip_prefix(s, t), s.strip_prefix(t));
            assert_eq!(before(s, t), s < t);
        }
    }
}

#[test]
fn texts_are_put_together() {
    let words: Vec<String> = ["a", "", "b"].iter().map(|word| word.to_string()).collect();
    assert_eq!(join(&words, ", "), "a, , b");
    assert_eq!(split(&join(&words, ","), ','), words);
    assert_eq!(concat5("a", "", "b", "c", "d"), "abcd");
    for n in [0, 7, 10, 99, 100, 4_294_967_296, u64::MAX] {
        assert_eq!(decimal(n), n.to_string());
    }
}

#[test]
fn maps_keep_one_value_for_a_key() {
    let mut map: TextMap<u8> = TextMap::new();
    let key = "k".to_string();
    assert_eq!(map.get(&key), None);
    map.insert(key.clone(), 1);
    map.insert("l".to_string(), 2);
    map.insert(key.clone(), 3);
    assert_eq!(map.get(&key), Some(&3));
    let mut keys = map.keys();
    keys.sort();
    assert_eq!(keys, vec!["k", "l"]);
    assert_eq!(map.remove(&key), Some(3));
    assert_eq!(map.remove(&key), None);
    assert_eq!(map.keys(), vec!["l"]);
}

#[test]
fn json_strings_escape_what_they_must() {
    fn escaped(c: char) -> String {
        match c {
            '"' | '\\' => format!("\\{c}"),
            '\u{8}' => "\\b".to_string(),
            '\t' => "\\t".to_string(),
            '\n' => "\\n".to_string(),
            '\u{c}' => "\\f".to_string(),
            '\r' => "\\r".to_string(),
            c if c < ' ' => format!("\\u{:04x}", c as u32),
            c => c.to_string(),
        }
    }
    for c in '\0'..=char::MAX {
        let name = format!("a{c}");
        assert_eq!(field(&name, "1"), format!("\"a{}\":1", escaped(c)));
    }
    let one_two = vec!["1".to_string(), "2".to_string()];
    assert_eq!(array(&one_two), "[1,2]");
    assert_eq!(array(&vec![]), "[]");
    assert_eq!(object(&vec![field("a", "1"), field("b", "2")]), "{\"a\":1,\"b\":2}");
}
