use golem_cli::fuzzy::{FuzzyMatchResult, FuzzySearch};

fn plain(s: &str) -> String {
    let mut out = String::new();
    let mut chars = s.chars().peekable();
    while let Some(c) = chars.next() {
        if c == '\x1b' {
            for d in chars.by_ref() {
                if d == 'm' {
                    break;
                }
            }
        } else {
            out.push(c);
        }
    }
    out
}

#[test]
fn fuzzy_exact_match_wins() {
    let search = FuzzySearch::new(&["component-a", "component-ab", "other"]);
    match search.find("component-a") {
        FuzzyMatchResult::Found { option, exact_match } => {
            assert_eq!(option, "component-a");
            assert!(exact_match);
        }
        _ => panic!("expected an exact match"),
    }
}

#[test]
fn fuzzy_single_containing_option_is_found() {
    let search = FuzzySearch::new(&["shopping-cart", "inventory"]);
    match search.find("cart") {
        FuzzyMatchResult::Found { option, exact_match } => {
            assert_eq!(option, "shopping-cart");
            assert!(!exact_match);
        }
        _ => panic!("expected a match"),
    }
}

#[test]
fn fuzzy_single_fuzzy_option_is_found() {
    let search = FuzzySearch::new(&["shopping-cart", "inventory"]);
    match search.find("shcrt") {
        FuzzyMatchResult::Found { option, exact_match } => {
            assert_eq!(option, "shopping-cart");
            assert!(!exact_match);
        }
        _ => panic!("expected a match"),
    }
}

#[test]
fn fuzzy_no_match_is_not_found() {
    let search = FuzzySearch::new(&["abc", "def"]);
    assert!(matches!(search.find("xyz"), FuzzyMatchResult::NotFound));
}

#[test]
fn fuzzy_several_matches_are_ambiguous_and_highlighted() {
    let search = FuzzySearch::new(&["cart-a", "cart-b", "inventory"]);
    match search.find("cart") {
        FuzzyMatchResult::Ambiguous { highlighted_options } => {
            let mut shown: Vec<String> = highlighted_options.iter().map(|o| plain(o)).collect();
            shown.sort();
            assert_eq!(shown, vec!["cart-a".to_string(), "cart-b".to_string()]);
        }
        _ => panic!("expected an ambiguous match"),
    }
}

#[test]
fn fuzzy_duplicate_options_count_once() {
    let search = FuzzySearch::new(&["worker", "worker"]);
    match search.find("work") {
        FuzzyMatchResult::Found { option, exact_match } => {
            assert_eq!(option, "worker");
            assert!(!exact_match);
        }
        _ => panic!("expected a match"),
    }
}

#[test]
fn fuzzy_empty_options_find_nothing() {
    let search = FuzzySearch::new(&[]);
    assert!(matches!(search.find("a"), FuzzyMatchResult::NotFound));
}

#[test]
fn repeated_options_are_listed_once_when_ambiguous() {
    let search = FuzzySearch::new(&["cart-a", "cart-b", "cart-a", "cart-b"]);
    match search.find("cart") {
        FuzzyMatchResult::Ambiguous { highlighted_options } => {
            let mut shown: Vec<String> = highlighted_options.iter().map(|o| plain(o)).collect();
            shown.sort();
            assert_eq!(shown, vec!["cart-a".to_string(), "cart-b".to_string()]);
        }
        _ => panic!("expected an ambiguous match"),
    }
}
