use kraken::str_replace::StrReplace;

#[test]
fn replaces_every_occurrence() {
    assert_eq!(StrReplace::replace_here("a", "b", "banana"), "bbnbnb");
    assert_eq!(StrReplace::replace_here("an", "AN", "banana"), "bANANa");
    assert_eq!(StrReplace::replace_here("na", "", "banana"), "ba");
}

#[test]
fn occurrences_do_not_overlap() {
    assert_eq!(StrReplace::replace_here("aa", "b", "aaa"), "ba");
    assert_eq!(StrReplace::replace_here("aa", "b", "aaaa"), "bb");
    assert_eq!(StrReplace::replace_here("aba", "x", "ababa"), "xba");
}

#[test]
fn replacement_is_not_scanned_again() {
    assert_eq!(StrReplace::replace_here("a", "aa", "aa"), "aaaa");
    assert_eq!(StrReplace::replace_here("ab", "a", "aabb"), "aab");
}

#[test]
fn text_without_the_search_is_unchanged() {
    assert_eq!(StrReplace::replace_here("xyz", "-", "banana"), "banana");
    assert_eq!(StrReplace::replace_here("bananas", "-", "banana"), "banana");
    assert_eq!(StrReplace::replace_here("a", "b", ""), "");
}

#[test]
fn empty_search_stands_between_all_characters() {
    assert_eq!(StrReplace::replace_here("", "-", "abc"), "-a-b-c-");
    assert_eq!(StrReplace::replace_here("", "-", ""), "-");
    assert_eq!(StrReplace::replace_here("", "", "abc"), "abc");
    assert_eq!(StrReplace::replace_here("", "<>", "é"), "<>é<>");
}

#[test]
fn characters_beyond_ascii_are_whole() {
    assert_eq!(StrReplace::replace_here("é", "e", "café crème"), "cafe crème");
    assert_eq!(StrReplace::replace_here("ñ", "ny", "año"), "anyo");
    assert_eq!(StrReplace::replace_here("海", "sea", "海の海"), "seaのsea");
}

#[test]
fn agrees_with_the_standard_replace() {
    let texts = ["", "a", "aaaa", "abcabcabc", "mississippi", "a b  c", "ααβαα", "xx\nxx"];
    let searches = ["", "a", "aa", "abc", "ss", "issi", " ", "α", "\n", "q"];
    let replacements = ["", "-", "aa", "abc", "α"];
    for text in texts {
        for search in searches {
            for replacement in replacements {
                assert_eq!(
                    StrReplace::replace_here(search, replacement, text),
                    text.replace(search, replacement),
                    "replacing {:?} by {:?} in {:?}",
                    search,
                    replacement,
                    text
                );
            }
        }
    }
}

#[test]
fn from_str_keeps_the_text() {
    assert_eq!(StrReplace::from_str("Hello, {name}!").to_str(), "Hello, {name}!");
    assert_eq!(StrReplace::from_str("").to_str(), "");
}

#[test]
fn replace_calls_chain() {
    let mut template = StrReplace::from_str("Dear {title} {name}, {name} is a fine name.");
    let text = template.replace("{title}", "Dr").replace("{name}", "Who").to_str().to_string();
    assert_eq!(text, "Dear Dr Who, Who is a fine name.");
    assert_eq!(template.to_str(), "Dear Dr Who, Who is a fine name.");
}

#[test]
fn replace_changes_the_value_in_place() {
    let mut value = StrReplace::from_str("a-b-c");
    value.replace("-", "+");
    assert_eq!(value.to_str(), "a+b+c");
    value.replace("+", "");
    assert_eq!(value.to_str(), "abc");
}
