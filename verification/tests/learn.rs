use support_bot::database::{ChatHistoryDb, Message, Platform, Role};
use support_bot::learn::{
    format_learn_material, plan_learning, record_learning, LEARN_MENTION, LEARN_MODEL,
    LEARN_PROMPT,
};
use support_bot::responder::Answer;

fn turn(role: &str, text: &str) -> (String, String) {
    (role.to_string(), text.to_string())
}

#[test]
fn a_conversation_becomes_one_turn_of_lines() {
    let turns = vec![turn("user", "hi"), turn("assistant", "hello"), turn("user", "bye")];
    assert_eq!(
        format_learn_material(turns),
        vec![turn("user", "user: hi\nassistant: hello\nuser: bye")]
    );
    assert_eq!(format_learn_material(vec![turn("user", "only")]), vec![turn("user", "user: only")]);
    assert_eq!(format_learn_material(Vec::new()), vec![turn("user", "")]);
}

#[test]
fn learning_asks_the_summarizing_model_about_the_whole_conversation() {
    let mut db = ChatHistoryDb::new();
    db.insert_msg(
        &Message { text: "admin: what colour is the sky?".to_string(), convo_id: 4 },
        Platform::Telegram,
        Role::User,
        "m",
    );
    db.insert_msg(
        &Message { text: "Blue.".to_string(), convo_id: 4 },
        Platform::Telegram,
        Role::Assistant,
        "m",
    );
    let msg = Message {
        text: "admin: @GephSupportBot #learn the sky is pink".to_string(),
        convo_id: 4,
    };
    let request = plan_learning(&db, &msg);
    assert_eq!(request.model, "gpt-4");
    assert_eq!(request.max_tokens, Some(500));
    assert_eq!(
        request.messages,
        vec![
            turn("system", LEARN_PROMPT),
            turn(
                "user",
                "user: admin: what colour is the sky?\nassistant: Blue.\nuser: admin:  #learn the sky is pink"
            ),
        ]
    );
    assert_eq!(LEARN_MODEL, "gpt-4");
    assert_eq!(LEARN_MENTION, "@GephSupportBot");
    assert!(LEARN_PROMPT.starts_with("You are a summarizing assistant bot"));
    assert!(LEARN_PROMPT.ends_with("put into a database of facts."));
}

#[test]
fn what_was_learned_becomes_the_newest_fact_and_the_answer() {
    let mut db = ChatHistoryDb::new();
    db.insert_fact("older");
    let answer = record_learning(&mut db, "Geph land sky color is pink");
    assert_eq!(answer, Answer::Text("Geph land sky color is pink".to_string()));
    assert_eq!(db.get_all_facts(), vec!["older", "Geph land sky color is pink"]);
    assert_eq!(db.message_count(), 0);
}
