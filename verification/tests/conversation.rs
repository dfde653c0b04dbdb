use llm_vn::character::{Character, Colour};
use llm_vn::conversation::{Conversation, TranscriptEntry, VnOutput};

fn colour() -> Colour {
    Colour { r: 10, g: 20, b: 30 }
}

fn test_character() -> Character {
    Character::new(
        String::from("Ada"),
        String::from("A thoughtful engineer."),
        String::from("test-model"),
        colour(),
        colour(),
        colour(),
        vec![
            String::from("Hello there."),
            String::from("What brings you here?"),
            String::from("Lovely weather."),
        ],
    )
}

fn output(response: &str, r1: &str, r2: &str, r3: &str) -> VnOutput {
    VnOutput {
        response: String::from(response),
        user_reply_1: String::from(r1),
        user_reply_2: String::from(r2),
        user_reply_3: String::from(r3),
    }
}

#[test]
fn sanitise_normalises_punctuation_exactly() {
    let out = output("he\u{2019}s\u{2014}gone\u{2026}", "", "", "").sanitise();
    assert_eq!(out.response, "he's-gone...");
}

#[test]
fn sanitise_covers_every_field_and_all_marks() {
    let out = output(
        "a\u{2013}b",
        "\u{2019}x",
        "y\u{2026}",
        "plain ascii!",
    )
    .sanitise();
    assert_eq!(out.response, "a-b");
    assert_eq!(out.user_reply_1, "'x");
    assert_eq!(out.user_reply_2, "y...");
    assert_eq!(out.user_reply_3, "plain ascii!");
}

#[test]
fn empty_reply_field_signals_end_of_conversation() {
    assert!(!output("r", "a", "b", "c").is_end_of_conversation());
    assert!(output("r", "", "b", "c").is_end_of_conversation());
    assert!(output("r", "a", "", "c").is_end_of_conversation());
    assert!(output("r", "a", "b", "").is_end_of_conversation());
    assert!(output("r", "", "", "").is_end_of_conversation());
}

#[test]
fn transcript_records_turns_in_order() {
    let mut conv = Conversation::new(test_character(), 1700000000);
    assert_eq!(conv.started_at, 1700000000);
    assert!(conv.transcript.is_empty());

    conv.record_user_message(String::from("Hi"));
    let out = conv.accept_output(output("Oh\u{2026} hello", "a", "b", "c"));
    assert_eq!(out.response, "Oh... hello");

    assert_eq!(conv.transcript.len(), 2);
    assert!(matches!(&conv.transcript[0], TranscriptEntry::User(t) if t == "Hi"));
    assert!(
        matches!(&conv.transcript[1], TranscriptEntry::Character(t) if t == "Oh... hello"),
        "the transcript holds the sanitised response"
    );
}

#[test]
fn starting_phrases_are_three_distinct_opening_lines() {
    let character = test_character();
    let lines = [
        "Hello there.",
        "What brings you here?",
        "Lovely weather.",
    ];
    for _ in 0..20 {
        let vn = character.starting_phrases();
        assert_eq!(vn.response, "");
        let picked = [
            vn.user_reply_1.as_str(),
            vn.user_reply_2.as_str(),
            vn.user_reply_3.as_str(),
        ];
        for p in picked.iter() {
            assert!(lines.contains(p), "each starting phrase is a configured opening line");
        }
        assert_ne!(picked[0], picked[1]);
        assert_ne!(picked[0], picked[2]);
        assert_ne!(picked[1], picked[2]);
    }
}

#[test]
fn character_validity_enforces_device_limits() {
    assert!(test_character().is_valid());
    let too_few_lines = Character::new(
        String::from("Ada"),
        String::from("desc"),
        String::from("m"),
        colour(),
        colour(),
        colour(),
        vec![String::from("one"), String::from("two")],
    );
    assert!(!too_few_lines.is_valid());
    let long_name = Character::new(
        String::from("a name far far far too long to fit the field"),
        String::from("desc"),
        String::from("m"),
        colour(),
        colour(),
        colour(),
        vec![String::from("a"), String::from("b"), String::from("c")],
    );
    assert!(!long_name.is_valid());
}
