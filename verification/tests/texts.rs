use ownable::text::{
    angled, join, quoted, same, split_text, to_decimal, trim_text, whitespace,
};

fn strings(list: &[&str]) -> Vec<String> {
    list.iter().map(|s| s.to_string()).collect()
}

#[test]
fn decimal_notation() {
    assert_eq!(to_decimal(0), "0");
    assert_eq!(to_decimal(7), "7");
    assert_eq!(to_decimal(10), "10");
    assert_eq!(to_decimal(109), "109");
    assert_eq!(to_decimal(65535), "65535");
    assert_eq!(to_decimal(usize::MAX), usize::MAX.to_string());
}

#[test]
fn joining() {
    assert_eq!(join(&strings(&[]), ", "), "");
    assert_eq!(join(&strings(&["a"]), ", "), "a");
    assert_eq!(join(&strings(&["a", "b", "c"]), " + "), "a + b + c");
    assert_eq!(join(&strings(&["", ""]), "-"), "-");
}

#[test]
fn angle_brackets() {
    assert_eq!(angled(&strings(&[])), "");
    assert_eq!(angled(&strings(&["'a"])), "<'a>");
    assert_eq!(angled(&strings(&["'a", "T", "N"])), "<'a, T, N>");
}

#[test]
fn comparing() {
    assert!(same("", ""));
    assert!(same("abc", "abc"));
    assert!(!same("abc", "abd"));
    assert!(!same("abc", "ab"));
}

#[test]
fn splitting_agrees_with_the_standard_library() {
    for value in ["", "a", "a,b", ",", "a,", ",a", "a,,b", " 'a , 'b ", "ä,ö"] {
        let expected: Vec<String> = value.split(',').map(|piece| piece.to_string()).collect();
        assert_eq!(split_text(value, ','), expected);
    }
    assert_eq!(split_text("a,b", ','), strings(&["a", "b"]));
    assert_eq!(split_text("", ','), strings(&[""]));
    assert_eq!(split_text("a;b,c", ';'), strings(&["a", "b,c"]));
}

#[test]
fn trimming_agrees_with_the_standard_library() {
    for value in ["", " ", "a", "  a  ", "\t\na b\r\n", "\u{a0}x\u{3000}", "\u{85}\u{2003}y z\u{205f}"] {
        assert_eq!(trim_text(value), value.trim());
    }
    assert_eq!(trim_text("  'a "), "'a");
}

#[test]
fn white_space_agrees_with_the_standard_library() {
    let mut code: u32 = 0;
    while code < 0x3100 {
        if let Some(c) = char::from_u32(code) {
            assert_eq!(whitespace(c), c.is_whitespace());
        }
        code += 1;
    }
    assert!(!whitespace('\u{feff}'));
    assert!(!whitespace('\u{10ffff}'));
}

#[test]
fn string_literals() {
    assert_eq!(quoted(""), "\"\"");
    assert_eq!(quoted("plain"), "\"plain\"");
    assert_eq!(quoted("it's"), "\"it's\"");
    assert_eq!(quoted("a\nb"), "\"a\\nb\"");
    assert_eq!(quoted("say \"hi\""), "\"say \\\"hi\\\"\"");
    assert_eq!(quoted("back\\slash"), "\"back\\\\slash\"");
    assert_eq!(quoted("\t\r"), "\"\\t\\r\"");
    assert_eq!(quoted("ünï"), "\"ünï\"");
}
