use numa_core::profile::{
    disable_crisis_mode, load_profile, record_message, save_message_local, LoadOutcome, Message,
    Profile, Role,
};
use numa_core::risk::Lexicon;

fn say(data: Profile, content: &str, role: Role, mood: Option<i32>, now: u64) -> Profile {
    save_message_local(data, content.to_string(), role, mood, now, &Lexicon::english())
}

#[test]
fn fresh_profile_is_empty() {
    let profile = Profile::fresh(1_700_000_000);
    assert_eq!(profile.last_login, 1_700_000_000);
    assert!(profile.messages.is_empty());
    assert!(!profile.crisis_mode);
}

#[test]
fn missing_document_gives_a_fresh_profile() {
    assert_eq!(load_profile(LoadOutcome::Absent, 42), Profile::fresh(42));
}

#[test]
fn corrupt_document_gives_a_fresh_profile() {
    assert_eq!(load_profile(LoadOutcome::Corrupt, 43), Profile::fresh(43));
}

#[test]
fn stored_document_is_handed_back() {
    let stored = say(Profile::fresh(7), "hello", Role::User, None, 8);
    let loaded = load_profile(LoadOutcome::Found(stored.clone()), 99);
    assert_eq!(loaded, stored);
    assert_eq!(loaded.last_login, 7);
}

#[test]
fn appended_messages_come_back_in_order() {
    let mut profile = Profile::fresh(100);
    profile = say(profile, "Hello", Role::User, None, 101);
    profile = say(profile, "Hi, how are you?", Role::Assistant, Some(6), 102);
    profile = say(profile, "I want to die", Role::User, None, 103);
    profile = say(profile, "I am here for you", Role::Assistant, Some(1), 104);
    profile = say(profile, "  Thanks\n", Role::User, None, 104);
    let loaded = load_profile(LoadOutcome::Found(profile.clone()), 500);
    let expected = vec![
        Message {
            role: Role::User,
            content: "Hello".to_string(),
            timestamp: 101,
            is_alert: false,
            mood_score: None,
        },
        Message {
            role: Role::Assistant,
            content: "Hi, how are you?".to_string(),
            timestamp: 102,
            is_alert: false,
            mood_score: Some(6),
        },
        Message {
            role: Role::User,
            content: "I want to die".to_string(),
            timestamp: 103,
            is_alert: true,
            mood_score: None,
        },
        Message {
            role: Role::Assistant,
            content: "I am here for you".to_string(),
            timestamp: 104,
            is_alert: false,
            mood_score: Some(1),
        },
        Message {
            role: Role::User,
            content: "  Thanks\n".to_string(),
            timestamp: 104,
            is_alert: false,
            mood_score: None,
        },
    ];
    assert_eq!(loaded.messages, expected);
    assert_eq!(loaded.last_login, 100);
    assert!(loaded.crisis_mode);
}

#[test]
fn crisis_stays_on_until_reset() {
    let mut profile = Profile::fresh(1);
    profile = say(profile, "good morning", Role::User, None, 2);
    assert!(!profile.crisis_mode);
    profile = say(profile, "I want to die", Role::User, None, 3);
    assert!(profile.messages[1].is_alert);
    assert!(profile.crisis_mode);
    for now in 4..40 {
        let role = if now % 2 == 0 { Role::Assistant } else { Role::User };
        profile = say(profile, "the weather is nice", role, None, now);
        assert!(profile.crisis_mode);
        assert!(!profile.messages.last().unwrap().is_alert);
    }
    let messages = profile.messages.clone();
    profile = disable_crisis_mode(profile);
    assert!(!profile.crisis_mode);
    assert_eq!(profile.messages, messages);
    assert_eq!(profile.last_login, 1);
    // The alert of the stored message is not taken back.
    assert!(profile.messages[1].is_alert);
    profile = say(profile, "still here", Role::User, None, 41);
    assert!(!profile.crisis_mode);
}

#[test]
fn reset_of_a_calm_profile_changes_nothing() {
    let profile = say(Profile::fresh(1), "hello", Role::User, None, 2);
    assert_eq!(disable_crisis_mode(profile.clone()), profile);
}

#[test]
fn risk_counts_for_the_user_only() {
    let by_user = say(Profile::fresh(1), "I want to die", Role::User, None, 2);
    assert!(by_user.messages[0].is_alert);
    assert!(by_user.crisis_mode);
    let by_assistant = say(Profile::fresh(1), "I want to die", Role::Assistant, None, 2);
    assert!(!by_assistant.messages[0].is_alert);
    assert!(!by_assistant.crisis_mode);
}

#[test]
fn analysis_follows_the_lexicon() {
    let french = Lexicon::french();
    let calm = save_message_local(
        Profile::fresh(1),
        "I want to die".to_string(),
        Role::User,
        None,
        2,
        &french,
    );
    assert!(!calm.crisis_mode);
    let alarmed = save_message_local(
        Profile::fresh(1),
        "Je veux MOURIR".to_string(),
        Role::User,
        None,
        2,
        &french,
    );
    assert!(alarmed.crisis_mode);
    assert!(alarmed.messages[0].is_alert);
    assert_eq!(alarmed.messages[0].content, "Je veux MOURIR");
}

#[test]
fn record_message_takes_the_verdict_as_given() {
    let flagged = record_message(Profile::fresh(1), "fine".to_string(), Role::User, None, 2, true);
    assert!(flagged.messages[0].is_alert);
    assert!(flagged.crisis_mode);
    let ignored = record_message(
        Profile::fresh(1),
        "I want to die".to_string(),
        Role::Assistant,
        Some(3),
        2,
        true,
    );
    assert!(!ignored.messages[0].is_alert);
    assert!(!ignored.crisis_mode);
    assert_eq!(ignored.messages[0].mood_score, Some(3));
    let unflagged = record_message(
        Profile::fresh(1),
        "I want to die".to_string(),
        Role::User,
        None,
        2,
        false,
    );
    assert!(!unflagged.messages[0].is_alert);
    assert!(!unflagged.crisis_mode);
}

#[test]
fn mood_is_stored_as_given() {
    let profile = say(Profile::fresh(1), "odd", Role::User, Some(42), 2);
    assert_eq!(profile.messages[0].mood_score, Some(42));
}

#[test]
fn clones_are_equal() {
    let profile = say(
        say(Profile::fresh(1), "I want to die", Role::User, None, 2),
        "I hear you",
        Role::Assistant,
        Some(2),
        3,
    );
    assert_eq!(profile.clone(), profile);
    assert_eq!(profile.messages[1].clone(), profile.messages[1]);
}

#[test]
fn roles_are_stored_under_their_names() {
    assert_eq!(Role::User.label(), "user");
    assert_eq!(Role::Assistant.label(), "ai");
    assert_eq!(Role::from_label("user"), Some(Role::User));
    assert_eq!(Role::from_label("ai"), Some(Role::Assistant));
    for role in [Role::User, Role::Assistant] {
        assert_eq!(Role::from_label(role.label()), Some(role));
    }
}

#[test]
fn other_names_are_no_roles() {
    for label in ["", "User", "AI", "assistant", "system", "user ", " ai", "a", "us"] {
        assert_eq!(Role::from_label(label), None, "label {:?}", label);
    }
}
