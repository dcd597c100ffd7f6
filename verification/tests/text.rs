use score_catalog::text::{place, same_text, trim, Place};

#[test]
fn place_orders_by_first_difference() {
    assert_eq!(place("Bach", "Bartok"), Place::Before);
    assert_eq!(place("Bartok", "Bach"), Place::After);
    assert_eq!(place("Sonata", "Sonata"), Place::Same);
}

#[test]
fn place_puts_a_prefix_first() {
    assert_eq!(place("Opus", "Opus 1"), Place::Before);
    assert_eq!(place("Opus 1", "Opus"), Place::After);
    assert_eq!(place("", "a"), Place::Before);
    assert_eq!(place("", ""), Place::Same);
}

#[test]
fn place_goes_by_code_point() {
    // upper case letters come before lower case ones, accented ones after both
    assert_eq!(place("Zelter", "abel"), Place::Before);
    assert_eq!(place("zebra", "émile"), Place::Before);
    assert_eq!(place("Écho", "Zoo"), Place::After);
}

#[test]
fn place_agrees_with_the_order_of_str() {
    let words = ["", "a", "A", "ab", "abc", "b", "é", "e", "Opus 1", "Opus 10", "Opus 2", " x"];
    for a in words {
        for b in words {
            let expected = match a.cmp(b) {
                std::cmp::Ordering::Less => Place::Before,
                std::cmp::Ordering::Equal => Place::Same,
                std::cmp::Ordering::Greater => Place::After,
            };
            assert_eq!(place(a, b), expected, "{:?} against {:?}", a, b);
        }
    }
}

#[test]
fn same_text_compares_characters() {
    assert!(same_text("Ada Lovelace", "Ada Lovelace"));
    assert!(!same_text("Ada Lovelace", "ada lovelace"));
    assert!(!same_text("Ada", "Ada "));
    assert!(same_text("", ""));
}

#[test]
fn trim_removes_white_space_at_both_ends() {
    assert_eq!(trim("  Ada Lovelace \n"), "Ada Lovelace");
    assert_eq!(trim("\tSonata"), "Sonata");
    assert_eq!(trim("Opus 1   "), "Opus 1");
}

#[test]
fn trim_keeps_inner_white_space_and_clean_text() {
    assert_eq!(trim("Ada  Lovelace"), "Ada  Lovelace");
    assert_eq!(trim("Ada"), "Ada");
}

#[test]
fn trim_of_nothing_but_white_space_is_empty() {
    assert_eq!(trim(" \t\r\n "), "");
    assert_eq!(trim(""), "");
}

#[test]
fn trim_knows_white_space_beyond_ascii() {
    assert_eq!(trim("\u{a0}Émilie\u{2003}"), "Émilie");
    assert_eq!(trim("\u{3000}x"), "x");
}

#[test]
fn trim_agrees_with_str_trim() {
    for s in ["", " ", "a", " a", "a ", " a b ", "\n\ta\u{85}", "é ", " \u{200b} "] {
        assert_eq!(trim(s), s.trim(), "{:?}", s);
    }
}
