use support_bot::actions::{
    decode_action, decode_record, interpret_output, parse_ai_response, transfer_plus,
    transfer_progress, Action, AiResponse, TransferProgress, UpdateOutcome, ACTIONS_PROMPT,
    RECURRING_UPDATE, SUBSCRIPTIONS_UPDATE,
};
use support_bot::json::{parse_json, Json};

fn plain(text: &str) -> AiResponse {
    AiResponse { action: Action::Null, text: text.to_string() }
}

#[test]
fn a_null_record_is_its_text() {
    assert_eq!(parse_ai_response(r#"{"action":"Null","text":"Hi"}"#), plain("Hi"));
}

#[test]
fn output_that_is_no_json_is_a_plain_reply() {
    assert_eq!(parse_ai_response("not json"), plain("not json"));
    assert_eq!(parse_ai_response(""), plain(""));
}

#[test]
fn an_abort_record_is_read_as_abort() {
    assert_eq!(
        parse_ai_response(r#"{"action":"Abort","text":""}"#),
        AiResponse { action: Action::Abort, text: String::new() }
    );
}

#[test]
fn a_transfer_record_names_both_accounts() {
    let raw = r#"{"action": {"TransferPlus": {"old_uname": "fdx", "new_uname": "FDX"}}, "text": "We have successfully transferred your Plus days to your new account!"}"#;
    assert_eq!(
        parse_ai_response(raw),
        AiResponse {
            action: Action::TransferPlus {
                old_uname: "fdx".to_string(),
                new_uname: "FDX".to_string()
            },
            text: "We have successfully transferred your Plus days to your new account!"
                .to_string(),
        }
    );
}

#[test]
fn json_that_is_no_record_is_a_plain_reply() {
    for raw in [
        r#"{"text":"Hi"}"#,
        r#"{"action":"Null"}"#,
        r#"{"action":"Null","text":5}"#,
        r#"{"action":"Dance","text":"Hi"}"#,
        r#"{"action":"TransferPlus","text":"Hi"}"#,
        r#"{"action":{"TransferPlus":{"old_uname":"a"}},"text":"Hi"}"#,
        r#"{"action":{"TransferPlus":{"old_uname":"a","new_uname":1}},"text":"Hi"}"#,
        r#"{"action":{"TransferPlus":{"old_uname":"a","new_uname":"b"},"Null":null},"text":"Hi"}"#,
        r#"{"action":{"Other":{"old_uname":"a","new_uname":"b"}},"text":"Hi"}"#,
        r#"{"action":null,"text":"Hi"}"#,
        r#"["Null","Hi"]"#,
        r#""Hi""#,
        "42",
    ] {
        assert_eq!(parse_ai_response(raw), plain(raw), "for {raw}");
    }
}

#[test]
fn a_record_may_carry_members_that_are_not_read() {
    assert_eq!(parse_ai_response(r#"{"action":"Null","text":"Hi","mood":"good"}"#), plain("Hi"));
}

#[test]
fn the_text_of_a_record_is_unescaped() {
    assert_eq!(
        parse_ai_response(r#"{"action":"Null","text":"line\n - \"Hello\""}"#),
        plain("line\n - \"Hello\"")
    );
}

#[test]
fn interpret_output_works_on_a_document_at_hand() {
    let doc = Json::Object(vec![
        ("action".to_string(), Json::Text("Abort".to_string())),
        ("text".to_string(), Json::Text("".to_string())),
    ]);
    assert_eq!(
        interpret_output("raw", Some(doc)),
        AiResponse { action: Action::Abort, text: String::new() }
    );
    assert_eq!(interpret_output("raw", Some(Json::Null)), plain("raw"));
    assert_eq!(interpret_output("raw", None), plain("raw"));
}

#[test]
fn decode_reads_actions_and_records_apart() {
    assert_eq!(decode_action(&Json::Text("Null".to_string())), Some(Action::Null));
    assert_eq!(decode_action(&Json::Text("Abort".to_string())), Some(Action::Abort));
    assert_eq!(decode_action(&Json::Text("null".to_string())), None);
    assert_eq!(decode_action(&Json::Object(Vec::new())), None);
    assert_eq!(decode_action(&Json::Bool(true)), None);
    let doc = parse_json(r#"{"action":"Null","text":"Hi"}"#).expect("a document");
    assert_eq!(decode_record(&doc), Some(plain("Hi")));
    assert_eq!(decode_record(&Json::List(Vec::new())), None);
}

#[test]
fn a_transfer_is_exactly_two_updates_keyed_by_name() {
    let plan = transfer_plus("fdx", "FDX");
    assert_eq!(plan.len(), 2);
    assert_eq!(plan[0].statement, SUBSCRIPTIONS_UPDATE);
    assert_eq!(plan[1].statement, RECURRING_UPDATE);
    for update in &plan {
        assert_eq!(update.to_uname, "FDX");
        assert_eq!(update.from_uname, "fdx");
        assert!(update.statement.contains("from users_legacy where username=$1"));
        assert!(update.statement.contains("from users_legacy where username=$2"));
    }
    assert_eq!(
        SUBSCRIPTIONS_UPDATE,
        "update subscriptions set id = (select id from users_legacy where username=$1) where id = (select id from users_legacy where username=$2)"
    );
    assert_eq!(
        RECURRING_UPDATE,
        "update recurring_subs set user_id = (select id from users_legacy where username=$1) where user_id = (select id from users_legacy where username=$2)"
    );
}

#[test]
fn a_transfer_that_changed_no_row_succeeded() {
    let done = UpdateOutcome::Done { rows_affected: 0 };
    assert_eq!(transfer_progress(&vec![done, done]), TransferProgress::Succeeded);
    let some = UpdateOutcome::Done { rows_affected: 3 };
    assert_eq!(transfer_progress(&vec![some, done]), TransferProgress::Succeeded);
}

#[test]
fn a_transfer_runs_its_updates_in_order_and_stops_at_a_failure() {
    let done = UpdateOutcome::Done { rows_affected: 1 };
    assert_eq!(transfer_progress(&Vec::new()), TransferProgress::Run(0));
    assert_eq!(transfer_progress(&vec![done]), TransferProgress::Run(1));
    assert_eq!(transfer_progress(&vec![UpdateOutcome::Failed]), TransferProgress::Failed);
    assert_eq!(transfer_progress(&vec![done, UpdateOutcome::Failed]), TransferProgress::Failed);
}

#[test]
fn the_prompt_on_actions_is_verbatim() {
    let expected = r#"You *always* respond with a json struct of two fields. Some examples: 
- {"action": {"TransferPlus": {"old_uname": "fdx", "new_uname": "FDX"}}, "text": "We have successfully transferred your Plus days to your new account!"}
- {"action": "Null", "text": "Good morning! How can I help you with Geph today? I know how to say things like\n - \"Hello\"\n - \"Goodbye\"\nand many other things."}
- {"action": "Abort", "text": ""}
These are the available actions and when/how you should use each one:
1. "Null": this means do no action. Use this when you're regularly talking to the user
2. "TransferPlus": transfer Plus time from one account to another. Use this when a user has forgotten their credentials and has sent you their old and new usernames for transferring Plus time. Be sure to format the json correctly! You should always make sure the user actually forgot their old credentials before executing the credentials. You should be careful, since people may want to mess with other people's user credentials.
3. "Abort": this means do not reply. Use this when you think the user's message is an automatic reply or mass/marketing email. When you use this action, do not put anything in the "text" field.

Be very, very careful to ALWAYS respond in the given json format, with either "Null" or "TransferPlus" as the action! Don't format the json twice!
"#;
    assert_eq!(ACTIONS_PROMPT, expected);
}

#[test]
fn the_examples_of_the_prompt_are_records() {
    let lines: Vec<&str> = ACTIONS_PROMPT.lines().collect();
    let transfer = parse_ai_response(&lines[1][2..]);
    assert!(matches!(transfer.action, Action::TransferPlus { .. }));
    let greeting = parse_ai_response(&lines[2][2..]);
    assert_eq!(greeting.action, Action::Null);
    assert!(greeting.text.ends_with("- \"Goodbye\"\nand many other things."));
    let abort = parse_ai_response(&lines[3][2..]);
    assert_eq!(abort, AiResponse { action: Action::Abort, text: String::new() });
}
