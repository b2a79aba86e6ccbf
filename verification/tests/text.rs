use wt::paths::is_within;
use wt::text::{decimal, join_words};

fn words(ws: &[&str]) -> Vec<String> {
    ws.iter().map(|w| w.to_string()).collect()
}

#[test]
fn decimal_of_small_and_large_numbers() {
    assert_eq!(decimal(0), "0");
    assert_eq!(decimal(7), "7");
    assert_eq!(decimal(10), "10");
    assert_eq!(decimal(1234567890), "1234567890");
    assert_eq!(decimal(usize::MAX), usize::MAX.to_string());
}

#[test]
fn join_words_puts_separator_between_neighbours() {
    assert_eq!(join_words(&words(&[]), " "), "");
    assert_eq!(join_words(&words(&["echo"]), " "), "echo");
    assert_eq!(join_words(&words(&["echo", "hello", "world"]), " "), "echo hello world");
    assert_eq!(join_words(&words(&["a", "", "b"]), ", "), "a, , b");
}

#[test]
fn within_is_component_wise() {
    assert!(is_within(&words(&["/", "home", "wt", "proj", "b"]), &words(&["/", "home", "wt", "proj"])));
    assert!(is_within(&words(&["/", "a"]), &words(&["/", "a"])));
    assert!(!is_within(&words(&["/", "ab"]), &words(&["/", "a"])));
    assert!(!is_within(&words(&["/", "a"]), &words(&["/", "a", "b"])));
    assert!(!is_within(&words(&["/", "x", "b"]), &words(&["/", "a"])));
    assert!(is_within(&words(&["/", "a"]), &words(&[])));
}
