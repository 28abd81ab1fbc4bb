use numa_core::mood::{parse_mood, MOOD_MAX, MOOD_MIN, TAG_OPEN};

fn parsed(text: &str) -> (Option<i32>, String) {
    parse_mood(text)
}

#[test]
fn mood_tag_is_read_and_removed() {
    assert_eq!(parsed("[MOOD:3] Hello"), (Some(3), "Hello".to_string()));
}

#[test]
fn untagged_reply_is_kept_whole() {
    assert_eq!(parsed("Hello"), (None, "Hello".to_string()));
}

#[test]
fn every_mood_in_range_is_read() {
    for score in MOOD_MIN..=MOOD_MAX {
        let reply = format!("{}{}] ok", TAG_OPEN, score);
        assert_eq!(parsed(&reply), (Some(score), "ok".to_string()));
    }
}

#[test]
fn mood_below_range_gives_no_mood() {
    assert_eq!(parsed("[MOOD:0] Hello"), (None, "[MOOD:0] Hello".to_string()));
}

#[test]
fn mood_above_range_gives_no_mood() {
    assert_eq!(parsed("[MOOD:11] Hello"), (None, "[MOOD:11] Hello".to_string()));
    assert_eq!(parsed("[MOOD:100] Hello"), (None, "[MOOD:100] Hello".to_string()));
}

#[test]
fn huge_number_gives_no_mood() {
    let reply = format!("[MOOD:{}] Hello", "9".repeat(400));
    assert_eq!(parsed(&reply), (None, reply.clone()));
    let wrapping = "[MOOD:4294967301] Hello";
    assert_eq!(parsed(wrapping), (None, wrapping.to_string()));
}

#[test]
fn leading_zeros_do_not_count() {
    assert_eq!(parsed("[MOOD:007] Bond"), (Some(7), "Bond".to_string()));
    assert_eq!(parsed("[MOOD:010]x"), (Some(10), "x".to_string()));
    assert_eq!(parsed("[MOOD:000] x"), (None, "[MOOD:000] x".to_string()));
}

#[test]
fn one_separating_space_is_dropped_and_no_more() {
    assert_eq!(parsed("[MOOD:4]Hello"), (Some(4), "Hello".to_string()));
    assert_eq!(parsed("[MOOD:4]  Hello "), (Some(4), " Hello ".to_string()));
    assert_eq!(parsed("[MOOD:4]\nHello"), (Some(4), "\nHello".to_string()));
    assert_eq!(parsed("[MOOD:4]"), (Some(4), String::new()));
    assert_eq!(parsed("[MOOD:4] "), (Some(4), String::new()));
}

#[test]
fn malformed_tags_give_no_mood() {
    for reply in [
        "",
        "[",
        "[MOOD",
        "[MOOD:",
        "[MOOD:]",
        "[MOOD:5",
        "[MOOD:5 ] x",
        "[MOOD: 5] x",
        "[MOOD:+5] x",
        "[MOOD:-5] x",
        "[MOOD:5.0] x",
        "[MOOD:five] x",
        "[mood:5] x",
        "[MOOD:5) x",
        " [MOOD:5] x",
        "Hello [MOOD:5]",
        "MOOD:5] x",
    ] {
        assert_eq!(parsed(reply), (None, reply.to_string()), "reply {:?}", reply);
    }
}

#[test]
fn only_the_first_tag_is_read() {
    assert_eq!(parsed("[MOOD:2] [MOOD:9] x"), (Some(2), "[MOOD:9] x".to_string()));
}

#[test]
fn text_beyond_ascii_is_kept() {
    assert_eq!(
        parsed("[MOOD:5] Je réfléchis... 🙂"),
        (Some(5), "Je réfléchis... 🙂".to_string())
    );
    assert_eq!(parsed("réponse [MOOD:5]"), (None, "réponse [MOOD:5]".to_string()));
    // Digits of other scripts are no decimal digits here.
    assert_eq!(parsed("[MOOD:٣] x"), (None, "[MOOD:٣] x".to_string()));
}
