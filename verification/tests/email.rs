use support_bot::database::{ChatHistoryDb, Message, Platform, Role};
use support_bot::email::{
    basic_auth, field, format_reply, get_convo_id, mail_from_parts, mail_turn,
    make_email_metadata, parse_email, read_mail, resolve_sender, send_email, settle_mail,
    webhook_answer, EmailConfig, EmailError, ParsedEmail, MAIL_CONCURRENCY, MAIL_TIMEOUT_SECS,
    SENDER_PATTERN,
};
use support_bot::responder::Answer;

fn pair(a: &str, b: &str) -> (String, String) {
    (a.to_string(), b.to_string())
}

fn form(from: &str) -> Vec<(String, String)> {
    vec![
        pair("subject", "Help"),
        pair("body-plain", "It does not work."),
        pair("from", from),
        pair("Message-Id", "<id-1@mail>"),
        pair("Date", "Mon, 1 Jan 2024 10:00:00 +0000"),
    ]
}

fn mail() -> ParsedEmail {
    ParsedEmail {
        title: "Help".to_string(),
        body: "It does not work.".to_string(),
        sender_name: "Alice Example".to_string(),
        sender_email: "alice@example.org".to_string(),
        message_id: "<id-1@mail>".to_string(),
        date: "Mon, 1 Jan 2024 10:00:00 +0000".to_string(),
    }
}

fn config(cc: Option<&str>) -> EmailConfig {
    EmailConfig {
        mailgun_url: "https://api.mailgun.net/v3/example.org/messages".to_string(),
        mailgun_key: "key".to_string(),
        address: "support@example.org".to_string(),
        signature: "The bot".to_string(),
        cc: cc.map(str::to_string),
    }
}

#[test]
fn a_mail_is_read_out_of_a_form() {
    assert_eq!(parse_email(&form("Alice Example <alice@example.org>")), Ok(mail()));
}

#[test]
fn a_sender_is_split_into_name_and_address() {
    let posted = vec![
        pair("subject", "Help"),
        pair("body-plain", "Hi"),
        pair("from", "Alice <alice@example.com>"),
        pair("Message-Id", "<m1>"),
        pair("Date", "Mon"),
    ];
    let expected = ParsedEmail {
        title: "Help".to_string(),
        body: "Hi".to_string(),
        sender_name: "Alice".to_string(),
        sender_email: "alice@example.com".to_string(),
        message_id: "<m1>".to_string(),
        date: "Mon".to_string(),
    };
    assert_eq!(parse_email(&posted), Ok(expected.clone()));
    let found = Some((Some("Alice ".to_string()), Some("alice@example.com".to_string())));
    assert_eq!(mail_from_parts(&posted, found), Ok(expected));
}

#[test]
fn name_and_address_lose_the_white_space_around_them() {
    let parsed = parse_email(&form("  Alice Example   < alice@example.org >")).expect("a mail");
    assert_eq!(parsed.sender_name, "Alice Example");
    assert_eq!(parsed.sender_email, "alice@example.org");
}

#[test]
fn a_sender_outside_the_grammar_is_refused() {
    for from in [
        "alice@example.org",
        "<alice@example.org>",
        "Alice <>",
        "Alice <alice@example.org> trailing",
        "Alice <alice@example.org>\n",
        "Alice <a>b>",
        "",
    ] {
        assert_eq!(parse_email(&form(from)), Err(EmailError::CannotParseSender), "for {from:?}");
    }
}

#[test]
fn the_grammar_takes_the_address_up_to_the_closing_bracket() {
    let parsed = parse_email(&form("A <b<c>")).expect("a mail");
    assert_eq!(parsed.sender_name, "A");
    assert_eq!(parsed.sender_email, "b<c");
    assert_eq!(SENDER_PATTERN, r"^(?P<name>[^<]+)\s*<(?P<email>[^>]+)>$");
}

#[test]
fn missing_fields_have_their_stand_ins() {
    let only_sender = vec![pair("from", "A <a@b.c>")];
    assert_eq!(
        parse_email(&only_sender),
        Ok(ParsedEmail {
            title: "Unknown Subject".to_string(),
            body: "No Content".to_string(),
            sender_name: "A".to_string(),
            sender_email: "a@b.c".to_string(),
            message_id: "No Message-Id".to_string(),
            date: "No Message-Id".to_string(),
        })
    );
    // The stand-in for a missing sender does not follow the grammar.
    assert_eq!(parse_email(&Vec::new()), Err(EmailError::CannotParseSender));
}

#[test]
fn the_last_field_of_a_name_counts() {
    let fields = vec![pair("k", "first"), pair("other", "x"), pair("k", "last")];
    assert_eq!(field(&fields, "k", "none"), "last");
    assert_eq!(field(&fields, "other", "none"), "x");
    assert_eq!(field(&fields, "K", "none"), "none");
}

#[test]
fn a_mail_is_built_from_what_the_grammar_found() {
    let found = Some((Some(" Bob ".to_string()), Some(" bob@example.org".to_string())));
    let parsed = mail_from_parts(&form("ignored"), found).expect("a mail");
    assert_eq!(parsed.sender_name, "Bob");
    assert_eq!(parsed.sender_email, "bob@example.org");
    assert_eq!(parsed.title, "Help");
    assert_eq!(mail_from_parts(&form("x"), None), Err(EmailError::CannotParseSender));
    assert_eq!(
        mail_from_parts(&form("x"), Some((None, Some("a".to_string())))),
        Err(EmailError::NoSenderName)
    );
    assert_eq!(
        mail_from_parts(&form("x"), Some((Some("a".to_string()), None))),
        Err(EmailError::NoSenderEmail)
    );
}

#[test]
fn the_metadata_of_a_sender_is_a_json_object() {
    assert_eq!(make_email_metadata("alice@example.org"), r#"{"user":"alice@example.org"}"#);
    assert_eq!(make_email_metadata("a\"b\\c"), r#"{"user":"a\"b\\c"}"#);
}

#[test]
fn a_known_sender_keeps_the_conversation_and_a_new_one_begins_one() {
    let mut db = ChatHistoryDb::new();
    let metadata = make_email_metadata("alice@example.org");
    assert_eq!(resolve_sender(&db, &metadata, 55), 55);
    assert!(get_convo_id(&db, &metadata) >= 0);
    db.insert_msg(
        &Message { text: "Help: x".to_string(), convo_id: 55 },
        Platform::Email,
        Role::User,
        &metadata,
    );
    assert_eq!(resolve_sender(&db, &metadata, 56), 55);
    assert_eq!(get_convo_id(&db, &metadata), 55);
    let other = make_email_metadata("alice@example.com");
    assert_eq!(resolve_sender(&db, &other, 56), 56);
}

#[test]
fn the_turn_of_a_mail_is_title_and_body() {
    assert_eq!(
        mail_turn(&mail(), 5),
        Message { text: "Help: It does not work.".to_string(), convo_id: 5 }
    );
}

#[test]
fn a_form_is_read_as_mail_and_turn() {
    let mut db = ChatHistoryDb::new();
    let (parsed, turn) = read_mail(&db, &form("Alice Example <alice@example.org>")).expect("a mail");
    assert_eq!(parsed, mail());
    assert_eq!(turn.text, "Help: It does not work.");
    assert!(turn.convo_id >= 0);
    db.insert_msg(&turn, Platform::Email, Role::User, &make_email_metadata("alice@example.org"));
    let (_, again) = read_mail(&db, &form("Alice E. <alice@example.org>")).expect("a mail");
    assert_eq!(again.convo_id, turn.convo_id);
    assert_eq!(read_mail(&db, &form("nobody")), Err(EmailError::CannotParseSender));
}

#[test]
fn a_reply_quotes_the_mail_under_the_signature() {
    assert_eq!(
        format_reply("Try again.", "The bot", &mail()),
        "Try again.\n\nThe bot\n\n\n\n> ------- Original Message -------\nOn Mon, 1 Jan 2024 10:00:00 +0000, Alice Example <alice@example.org> wrote:\n\nIt does not work."
    );
}

#[test]
fn the_mail_service_is_authorized_by_the_encoded_key() {
    assert_eq!(basic_auth("key"), "Basic YXBpOmtleQ==");
    assert_eq!(basic_auth(""), "Basic YXBpOg==");
    assert_eq!(basic_auth("key-1234567890"), "Basic YXBpOmtleS0xMjM0NTY3ODkw");
}

#[test]
fn a_mail_to_send_has_its_fields_in_order() {
    let out = send_email(&config(Some("boss@example.org")), "RE: Help", "text", "a@b.c", Some("<id>"));
    assert_eq!(out.url, "https://api.mailgun.net/v3/example.org/messages");
    assert_eq!(out.authorization, "Basic YXBpOmtleQ==");
    assert_eq!(
        out.form,
        vec![
            pair("from", "support@example.org"),
            pair("to", "a@b.c"),
            pair("subject", "RE: Help"),
            pair("text", "text"),
            pair("cc", "boss@example.org"),
            pair("h:In-Reply-To", "<id>"),
        ]
    );
    let bare = send_email(&config(None), "s", "t", "a@b.c", None);
    assert_eq!(
        bare.form,
        vec![pair("from", "support@example.org"), pair("to", "a@b.c"), pair("subject", "s"), pair("text", "t")]
    );
    assert_eq!(MAIL_TIMEOUT_SECS, 10);
    assert_eq!(MAIL_CONCURRENCY, 16);
}

#[test]
fn an_answered_mail_is_stored_and_sent_as_a_reply() {
    let mut db = ChatHistoryDb::new();
    let turn = mail_turn(&mail(), 5);
    let out = settle_mail(&mut db, &config(None), &mail(), &turn, &Answer::Text("Try again.".into()))
        .expect("a mail to send");
    let reply = format_reply("Try again.", "The bot", &mail());
    assert_eq!(
        out.form,
        vec![
            pair("from", "support@example.org"),
            pair("to", "alice@example.org"),
            pair("subject", "RE: Help"),
            pair("text", &reply),
            pair("h:In-Reply-To", "<id-1@mail>"),
        ]
    );
    assert_eq!(
        db.get_convo_history(5),
        vec![pair("user", "Help: It does not work."), pair("assistant", &reply)]
    );
    let stored = db.conversation(5).expect("stored");
    assert_eq!(stored.platform, Platform::Email);
    assert_eq!(stored.metadata, r#"{"user":"alice@example.org"}"#);
    assert_eq!(db.email_metadata_to_id(r#"{"user":"alice@example.org"}"#), Some(5));
}

#[test]
fn a_suppressed_or_empty_answer_to_a_mail_stores_and_sends_nothing() {
    let mut db = ChatHistoryDb::new();
    let turn = mail_turn(&mail(), 5);
    assert_eq!(settle_mail(&mut db, &config(None), &mail(), &turn, &Answer::Suppressed), None);
    assert_eq!(settle_mail(&mut db, &config(None), &mail(), &turn, &Answer::Text(String::new())), None);
    assert_eq!(db.message_count(), 0);
}

#[test]
fn the_sender_of_a_form_is_told_how_it_went() {
    assert_eq!(webhook_answer(None), "Success");
    assert_eq!(
        webhook_answer(Some("cannot parse sender")),
        "Our email bot encountered an error! cannot parse sender\nPlease try sending your email again!"
    );
}
