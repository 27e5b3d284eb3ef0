use support_bot::database::{
    assemble_context, trim_convo_history, ChatHistoryDb, Message, Platform, Role, HISTORY_BUDGET,
};

fn turn(role: &str, text: &str) -> (String, String) {
    (role.to_string(), text.to_string())
}

fn message(text: &str, convo_id: i64) -> Message {
    Message { text: text.to_string(), convo_id }
}

fn total(history: &[(String, String)]) -> usize {
    history.iter().map(|(a, b)| a.chars().count() + b.chars().count()).sum()
}

#[test]
fn role_names_are_those_of_the_model_interface() {
    assert_eq!(Role::User.to_string(), "user");
    assert_eq!(Role::Assistant.to_string(), "assistant");
}

#[test]
fn platform_names_are_the_stored_tags() {
    assert_eq!(Platform::Telegram.to_string(), "telegram");
    assert_eq!(Platform::Email.to_string(), "email");
}

#[test]
fn stored_names_are_read_back() {
    for role in [Role::User, Role::Assistant] {
        assert_eq!(Role::from_name(&role.to_string()), Some(role));
    }
    for platform in [Platform::Telegram, Platform::Email] {
        assert_eq!(Platform::from_name(&platform.to_string()), Some(platform));
    }
    assert_eq!(Role::from_name("User"), None);
    assert_eq!(Role::from_name("system"), None);
    assert_eq!(Platform::from_name(""), None);
}

#[test]
fn history_budget_is_ten_thousand_characters() {
    assert_eq!(HISTORY_BUDGET, 10000);
}

#[test]
fn trim_keeps_a_history_within_budget_untouched() {
    let history = vec![turn("user", "hello"), turn("assistant", "hi there")];
    assert_eq!(trim_convo_history(history.clone()), history);
    assert_eq!(trim_convo_history(Vec::new()), Vec::<(String, String)>::new());
}

#[test]
fn trim_keeps_a_history_of_exactly_the_budget() {
    let history = vec![turn("user", &"a".repeat(4996)), turn("user", &"b".repeat(4996))];
    assert_eq!(total(&history), 10000);
    assert_eq!(trim_convo_history(history.clone()), history);
}

#[test]
fn trim_of_10050_characters_drops_just_enough_of_the_oldest() {
    // 4 + 46 = 50, then two turns of 5000 each: 10,050 in all.
    let history = vec![
        turn("user", &"x".repeat(46)),
        turn("user", &"a".repeat(4996)),
        turn("user", &"b".repeat(4996)),
    ];
    assert_eq!(total(&history), 10050);
    let kept = trim_convo_history(history.clone());
    assert_eq!(kept, history[1..].to_vec());
    assert_eq!(total(&kept), 10000);
}

#[test]
fn trim_drops_oldest_first_and_stops_as_soon_as_it_fits() {
    let history = vec![
        turn("user", &"a".repeat(6000)),
        turn("assistant", &"b".repeat(3000)),
        turn("user", &"c".repeat(3000)),
        turn("assistant", &"d".repeat(100)),
    ];
    let kept = trim_convo_history(history.clone());
    assert_eq!(kept, history[1..].to_vec());
}

#[test]
fn trim_empties_a_history_whose_newest_turn_alone_is_too_long() {
    let history = vec![turn("user", "short"), turn("user", &"z".repeat(10001))];
    assert!(trim_convo_history(history).is_empty());
}

#[test]
fn trim_counts_characters_not_bytes() {
    // 9,996 two-byte characters and the sender's four: 10,000 characters.
    let history = vec![turn("user", &"é".repeat(9996))];
    assert_eq!(trim_convo_history(history.clone()), history);
}

#[test]
fn assemble_appends_the_new_turn_whatever_was_dropped() {
    let history = vec![turn("user", &"x".repeat(46)), turn("user", &"a".repeat(9996))];
    let context = assemble_context(history.clone(), "what now?");
    assert_eq!(context, vec![history[1].clone(), turn("user", "what now?")]);
    let context = assemble_context(vec![turn("user", &"z".repeat(20000))], "still here");
    assert_eq!(context, vec![turn("user", "still here")]);
    // The new turn does not count against the budget of the history.
    let long = "n".repeat(20000);
    let context = assemble_context(vec![turn("user", "old")], &long);
    assert_eq!(context, vec![turn("user", "old"), turn("user", &long)]);
}

#[test]
fn a_new_store_is_empty() {
    let db = ChatHistoryDb::new();
    assert!(db.get_all_facts().is_empty());
    assert!(db.get_convo_history(1).is_empty());
    assert_eq!(db.message_count(), 0);
    assert_eq!(db.txt_to_id("anything"), None);
    assert_eq!(db.email_metadata_to_id("anything"), None);
    assert!(db.conversation(1).is_none());
}

#[test]
fn facts_are_appended_in_order_without_dedup() {
    let mut db = ChatHistoryDb::new();
    db.insert_fact("the sky is pink");
    db.insert_fact("two");
    db.insert_fact("the sky is pink");
    assert_eq!(db.get_all_facts(), vec!["the sky is pink", "two", "the sky is pink"]);
}

#[test]
fn history_is_per_conversation_in_insertion_order() {
    let mut db = ChatHistoryDb::new();
    db.insert_msg(&message("one", 1), Platform::Telegram, Role::User, "m");
    db.insert_msg(&message("other", 2), Platform::Telegram, Role::User, "m");
    db.insert_msg(&message("two", 1), Platform::Telegram, Role::Assistant, "m");
    db.insert_msg(&message("three", 1), Platform::Telegram, Role::User, "m");
    assert_eq!(
        db.get_convo_history(1),
        vec![turn("user", "one"), turn("assistant", "two"), turn("user", "three")]
    );
    assert_eq!(db.get_convo_history(2), vec![turn("user", "other")]);
    assert!(db.get_convo_history(3).is_empty());
    assert_eq!(db.message_count(), 4);
    assert_eq!(db.message(2).text, "two");
    assert_eq!(db.message(2).sender, Role::Assistant);
    assert_eq!(db.message(2).convo_id, 1);
}

#[test]
fn lookup_by_text_is_exact_and_finds_the_first() {
    let mut db = ChatHistoryDb::new();
    db.insert_msg(&message("hello there", 7), Platform::Telegram, Role::Assistant, "m");
    db.insert_msg(&message("hello there", 8), Platform::Telegram, Role::Assistant, "m");
    assert_eq!(db.txt_to_id("hello there"), Some(7));
    assert_eq!(db.txt_to_id("hello there "), None);
    assert_eq!(db.txt_to_id("Hello there"), None);
    assert_eq!(db.txt_to_id("hello ther"), None);
    assert_eq!(db.txt_to_id(""), None);
}

#[test]
fn a_conversation_stored_again_replaces_its_metadata() {
    let mut db = ChatHistoryDb::new();
    db.insert_msg(&message("a", 5), Platform::Email, Role::User, "first");
    db.insert_msg(&message("b", 6), Platform::Email, Role::User, "second");
    assert_eq!(db.email_metadata_to_id("first"), Some(5));
    db.insert_msg(&message("c", 5), Platform::Telegram, Role::User, "third");
    assert_eq!(db.email_metadata_to_id("first"), None);
    assert_eq!(db.email_metadata_to_id("third"), Some(5));
    assert_eq!(db.email_metadata_to_id("second"), Some(6));
    let stored = db.conversation(5).expect("stored");
    assert_eq!(stored.platform, Platform::Telegram);
    assert_eq!(stored.metadata, "third");
    // Messages are untouched by the replacement.
    assert_eq!(db.get_convo_history(5), vec![turn("user", "a"), turn("user", "c")]);
}

#[test]
fn lookup_by_metadata_finds_the_first_stored() {
    let mut db = ChatHistoryDb::new();
    db.insert_msg(&message("a", 1), Platform::Email, Role::User, "same");
    db.insert_msg(&message("b", 2), Platform::Email, Role::User, "same");
    assert_eq!(db.email_metadata_to_id("same"), Some(1));
    // Storing conversation 1 again moves it behind conversation 2.
    db.insert_msg(&message("c", 1), Platform::Email, Role::User, "same");
    assert_eq!(db.email_metadata_to_id("same"), Some(2));
}

#[test]
fn an_exchange_is_two_appends_question_first() {
    let mut db = ChatHistoryDb::new();
    db.insert_msg(&message("earlier", 3), Platform::Telegram, Role::User, "m");
    db.insert_exchange(&message("question", 3), "answer", Platform::Telegram, "m");
    assert_eq!(
        db.get_convo_history(3),
        vec![turn("user", "earlier"), turn("user", "question"), turn("assistant", "answer")]
    );
}
