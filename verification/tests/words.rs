use arieltune::compat::inject_compat_namespace;
use arieltune::scan::{base_name, hex_number, labelled, trimmed, undashed, word};
use arieltune::text::{decimal, decimal_int, joined, Line};

fn s(text: &str) -> String {
    text.to_string()
}

#[test]
fn numbers_in_decimal() {
    assert_eq!(decimal(0), "0");
    assert_eq!(decimal(4294967295), "4294967295");
    assert_eq!(decimal_int(-50), "-50");
    assert_eq!(decimal_int(i32::MIN), "-2147483648");
    assert_eq!(decimal_int(i32::MAX), "2147483647");
    assert_eq!(Line::long_number(u64::MAX).done(), "18446744073709551615");
    assert_eq!(Line::new("n=").count(120).done(), "n=120");
    assert_eq!(Line::number(7).signed(-1).long(10).done(), "7-110");
}

#[test]
fn numbers_in_hexadecimal() {
    assert_eq!(Line::new("").hex(0).text(" ").hex(0xdeadbeef).done(), "0 deadbeef");
    assert_eq!(Line::new("").hex2(0).text(" ").hex2(0xf).text(" ").hex2(0x1f).done(), "00 0f 1f");
    assert_eq!(Line::new("").hex2(0x123).done(), "123");
}

#[test]
fn columns() {
    assert_eq!(Line::new("[").left("ab", 4).text("]").done(), "[ab  ]");
    assert_eq!(Line::new("[").right("ab", 4).text("]").done(), "[  ab]");
    assert_eq!(Line::new("[").left("abcde", 4).text("]").done(), "[abcde]");
    assert_eq!(Line::new("[").right("—", 3).text("]").done(), "[  —]");
}

#[test]
fn lists_are_joined() {
    assert_eq!(joined(&vec![], ", "), "");
    assert_eq!(joined(&vec![s("a")], ", "), "a");
    assert_eq!(joined(&vec![s("a"), s(""), s("b")], ", "), "a, , b");
}

#[test]
fn words_and_white_space() {
    assert_eq!(word("  1500 MHz"), Some(s("1500")));
    assert_eq!(word(" \t\u{3000}"), None);
    assert_eq!(trimmed("\u{2003} a b \r\n"), "a b");
    assert_eq!(trimmed(" \n"), "");
}

#[test]
fn labelled_words() {
    assert_eq!(labelled("x\nGfxClk: 1500 MHz\n", "GfxClk:"), Some(s("1500")));
    assert_eq!(labelled("GfxClk:\n700", "GfxClk:"), None);
    assert_eq!(labelled("GfxClk:\r\n  GfxClk:9\n", "GfxClk:"), Some(s("9")));
    assert_eq!(labelled("aGfxClk: b GfxClk: c", "GfxClk:"), Some(s("b")));
    assert_eq!(labelled("", "GfxClk:"), None);
}

#[test]
fn dashes_are_stripped() {
    assert_eq!(undashed("--a-b"), "a-b");
    assert_eq!(undashed("a"), "a");
    assert_eq!(undashed("---"), "");
}

#[test]
fn hexadecimal_numbers() {
    assert_eq!(hex_number("0x1F"), Some(0x1f));
    assert_eq!(hex_number("0x0xffffffff"), Some(0xffffffff));
    assert_eq!(hex_number("+a"), Some(10));
    assert_eq!(hex_number("0x+a"), Some(10));
    assert_eq!(hex_number("+"), None);
    assert_eq!(hex_number(""), None);
    assert_eq!(hex_number("1ffffffff"), None);
    assert_eq!(hex_number("000000001"), Some(1));
    assert_eq!(hex_number("0X1"), None);
}

#[test]
fn last_components() {
    assert_eq!(base_name("/usr/bin/aputune"), Some(s("aputune")));
    assert_eq!(base_name("aputune/"), Some(s("aputune")));
    assert_eq!(base_name("aputune//./"), Some(s("aputune")));
    assert_eq!(base_name("a/.."), None);
    assert_eq!(base_name("/"), None);
    assert_eq!(base_name(""), None);
    assert_eq!(base_name("."), None);
    assert_eq!(base_name("./x"), Some(s("x")));
    assert_eq!(base_name("..x"), Some(s("..x")));
}

#[test]
fn base_names_agree_with_std() {
    for path in [
        "", "/", "//", ".", "..", "./", "../", "a", "a/", "a/.", "a/..", "a/./b", "/a//b/", "./.",
        "/.", "/..", "a/../b", ".a", "a.", "...", "/usr/local/bin/wikitune",
    ] {
        let name = std::path::Path::new(path).file_name().and_then(|n| n.to_str());
        assert_eq!(base_name(path), name.map(|n| n.to_string()), "{path}");
    }
}

#[test]
fn legacy_name_must_be_the_whole_component() {
    let v = |a: &[&str]| -> Vec<String> { a.iter().map(|x| x.to_string()).collect() };
    assert_eq!(inject_compat_namespace(v(&[])), v(&[]));
    assert_eq!(inject_compat_namespace(v(&["wikitune", "a", "b"])), v(&["wikitune", "wiki", "a", "b"]));
    assert_eq!(inject_compat_namespace(v(&["aputune2"])), v(&["aputune2"]));
    assert_eq!(inject_compat_namespace(v(&["aputune/arieltune"])), v(&["aputune/arieltune"]));
    assert_eq!(inject_compat_namespace(v(&["x", "aputune"])), v(&["x", "aputune"]));
}
