use space_invaders::{left_pad, replace_at, right_pad};

#[test]
fn right_pad_fills_with_spaces() {
    assert_eq!(right_pad(String::from("abc"), 6), "abc   ");
}

#[test]
fn right_pad_truncates() {
    assert_eq!(right_pad(String::from("abcdef"), 3), "abc");
}

#[test]
fn right_pad_keeps_exact_length() {
    assert_eq!(right_pad(String::from("abcd"), 4), "abcd");
}

#[test]
fn right_pad_to_zero_is_empty() {
    assert_eq!(right_pad(String::from("abcd"), 0), "");
    assert_eq!(right_pad(String::new(), 0), "");
}

#[test]
fn right_pad_counts_characters_not_bytes() {
    let r = right_pad(String::from("héllo wörld"), 4);
    assert_eq!(r, "héll");
    assert_eq!(r.chars().count(), 4);
    let r = right_pad(String::from("ö"), 3);
    assert_eq!(r, "ö  ");
}

#[test]
fn right_pad_always_has_requested_length_and_is_idempotent() {
    for text in ["", "a", "hello", "ünïcödé text"] {
        for n in 0..15usize {
            let once = right_pad(String::from(text), n);
            assert_eq!(once.chars().count(), n);
            let twice = right_pad(once.clone(), n);
            assert_eq!(twice, once);
        }
    }
}

#[test]
fn left_pad_past_length_is_blank() {
    assert_eq!(left_pad(5, String::from("abc"), 5), "     ");
    assert_eq!(left_pad(9, String::from("abc"), 3), "   ");
    assert_eq!(left_pad(0, String::from("abc"), 0), "");
}

#[test]
fn left_pad_prepends_spaces() {
    assert_eq!(left_pad(2, String::from("ab"), 10), "  ab");
    assert_eq!(left_pad(0, String::from("xyz"), 4), "xyz");
    assert_eq!(left_pad(3, String::from("ö"), 4), "   ö");
}

#[test]
fn replace_at_changes_one_character() {
    let mut line = String::from("=====");
    replace_at(&mut line, '*', 2);
    assert_eq!(line, "==*==");
    replace_at(&mut line, '#', 0);
    assert_eq!(line, "#=*==");
    replace_at(&mut line, 'ö', 4);
    assert_eq!(line, "#=*=ö");
    replace_at(&mut line, 'x', 4);
    assert_eq!(line, "#=*=x");
}
