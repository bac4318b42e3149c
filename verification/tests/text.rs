use quizbank::text::{bytes_less, text_less, texts_ascending};

#[test]
fn bytes_less_orders_by_the_first_difference() {
    assert!(bytes_less(b"abc", b"abd"));
    assert!(!bytes_less(b"abd", b"abc"));
    assert!(bytes_less(b"ab", b"abc"));
    assert!(!bytes_less(b"abc", b"ab"));
    assert!(!bytes_less(b"abc", b"abc"));
    assert!(bytes_less(b"", b"a"));
    assert!(!bytes_less(b"", b""));
    assert!(!bytes_less(b"a", b""));
    assert!(bytes_less(&[0x7f], &[0x80]));
}

#[test]
fn text_less_agrees_with_the_order_of_strings() {
    let samples = ["", "a", "A", "ab", "b", "math", "maths", "é", "中文", "z", "\u{10000}"];
    for a in samples {
        for b in samples {
            assert_eq!(text_less(a, b), a < b);
        }
    }
}

#[test]
fn texts_ascending_wants_each_before_the_next() {
    assert!(texts_ascending(&vec![]));
    assert!(texts_ascending(&vec!["x".to_string()]));
    assert!(texts_ascending(&vec!["A".to_string(), "a".to_string(), "b".to_string()]));
    assert!(!texts_ascending(&vec!["a".to_string(), "a".to_string()]));
    assert!(!texts_ascending(&vec!["a".to_string(), "c".to_string(), "b".to_string()]));
}
