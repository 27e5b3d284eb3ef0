//! Structured actions: what a model may ask for besides a reply, how its
//! output is read, and what the one action that changes accounts consists of.

use vstd::prelude::*;
use vstd::string::*;
use crate::json::{json_document, owned_text, parse_json, text_in, Json};
use crate::text::same_text;

verus! {

/// What a model asks for together with its reply.
#[derive(Clone, Debug, PartialEq, Eq)]
pub enum Action {
    /// Nothing besides the reply.
    Null,
    /// Move the paid time of one account to another.
    TransferPlus { old_uname: String, new_uname: String },
    /// Send no reply at all.
    Abort,
}

/// The output of a model, read as a structured record.
#[derive(Clone, Debug, PartialEq, Eq)]
pub struct AiResponse {
    pub action: Action,
    pub text: String,
}

/// An [`Action`] by its characters.
pub enum ActionView {
    Null,
    TransferPlus { old_uname: Seq<char>, new_uname: Seq<char> },
    Abort,
}

/// An [`AiResponse`] by its characters.
pub struct AiResponseView {
    pub action: ActionView,
    pub text: Seq<char>,
}

impl View for Action {
    type V = ActionView;

    open spec fn view(&self) -> ActionView {
        match *self {
            Action::Null => ActionView::Null,
            Action::TransferPlus { old_uname, new_uname } => ActionView::TransferPlus {
                old_uname: old_uname@,
                new_uname: new_uname@,
            },
            Action::Abort => ActionView::Abort,
        }
    }
}

impl View for AiResponse {
    type V = AiResponseView;

    open spec fn view(&self) -> AiResponseView {
        AiResponseView { action: self.action@, text: self.text@ }
    }
}

/// What a model is told about actions when actions are enabled.
pub const ACTIONS_PROMPT: &'static str =
    "You *always* respond with a json struct of two fields. Some examples: \n- {\"action\": {\"TransferPlus\": {\"old_uname\": \"fdx\", \"new_uname\": \"FDX\"}}, \"text\": \"We have successfully transferred your Plus days to your new account!\"}\n- {\"action\": \"Null\", \"text\": \"Good morning! How can I help you with Geph today? I know how to say things like\\n - \\\"Hello\\\"\\n - \\\"Goodbye\\\"\\nand many other things.\"}\n- {\"action\": \"Abort\", \"text\": \"\"}\nThese are the available actions and when/how you should use each one:\n1. \"Null\": this means do no action. Use this when you're regularly talking to the user\n2. \"TransferPlus\": transfer Plus time from one account to another. Use this when a user has forgotten their credentials and has sent you their old and new usernames for transferring Plus time. Be sure to format the json correctly! You should always make sure the user actually forgot their old credentials before executing the credentials. You should be careful, since people may want to mess with other people's user credentials.\n3. \"Abort\": this means do not reply. Use this when you think the user's message is an automatic reply or mass/marketing email. When you use this action, do not put anything in the \"text\" field.\n\nBe very, very careful to ALWAYS respond in the given json format, with either \"Null\" or \"TransferPlus\" as the action! Don't format the json twice!\n";

/// The update that points the subscription of the account named by `$2` to
/// the account named by `$1`.
pub const SUBSCRIPTIONS_UPDATE: &'static str =
    "update subscriptions set id = (select id from users_legacy where username=$1) where id = (select id from users_legacy where username=$2)";

/// The update that points the recurring billing of the account named by `$2`
/// to the account named by `$1`.
pub const RECURRING_UPDATE: &'static str =
    "update recurring_subs set user_id = (select id from users_legacy where username=$1) where user_id = (select id from users_legacy where username=$2)";

/// The characters of an optional action.
pub open spec fn opt_action(o: Option<Action>) -> Option<ActionView> {
    match o {
        Some(a) => Some(a@),
        None => None,
    }
}

/// The characters of an optional record.
pub open spec fn opt_response(o: Option<AiResponse>) -> Option<AiResponseView> {
    match o {
        Some(r) => Some(r@),
        None => None,
    }
}

/// The action that the member `action` of a record denotes: the string
/// `Null` or `Abort`, or an object whose only member is `TransferPlus`, an
/// object that names both accounts by strings.
pub open spec fn action_in(j: Json) -> Option<ActionView> {
    match j {
        Json::Text(tag) => if tag@ == "Null"@ {
            Some(ActionView::Null)
        } else if tag@ == "Abort"@ {
            Some(ActionView::Abort)
        } else {
            None
        },
        Json::Object(fields) => if fields@.len() == 1 && fields@[0].0@ == "TransferPlus"@ {
            let accounts = fields@[0].1;
            match (
                text_in(accounts.member("old_uname"@)),
                text_in(accounts.member("new_uname"@)),
            ) {
                (Some(old_uname), Some(new_uname)) => Some(
                    ActionView::TransferPlus { old_uname, new_uname },
                ),
                _ => None,
            }
        } else {
            None
        },
        _ => None,
    }
}

/// The record that a document denotes: an object with an action under
/// `action` and a string under `text`.
pub open spec fn record_in(doc: Json) -> Option<AiResponseView> {
    match doc.member("action"@) {
        Some(action) => match (action_in(action), text_in(doc.member("text"@))) {
            (Some(action), Some(text)) => Some(AiResponseView { action, text }),
            _ => None,
        },
        None => None,
    }
}

/// A reply without an action: the whole output is the text.
pub open spec fn plain_reply(raw: Seq<char>) -> AiResponseView {
    AiResponseView { action: ActionView::Null, text: raw }
}

/// What the output `raw` of a model means, given the document `doc` that it
/// denotes as JSON: the record in it, or else a plain reply.
pub open spec fn response_in(raw: Seq<char>, doc: Option<Json>) -> AiResponseView {
    match doc {
        Some(doc) => match record_in(doc) {
            Some(record) => record,
            None => plain_reply(raw),
        },
        None => plain_reply(raw),
    }
}

/// Reads the action of a record.
pub fn decode_action(j: &Json) -> (r: Option<Action>)
    ensures
        opt_action(r) == action_in(*j),
{
    match j {
        Json::Text(tag) => {
            if same_text(tag.as_str(), "Null") {
                Some(Action::Null)
            } else if same_text(tag.as_str(), "Abort") {
                Some(Action::Abort)
            } else {
                None
            }
        },
        Json::Object(fields) => {
            if fields.len() != 1 {
                return None;
            }
            if !same_text(fields[0].0.as_str(), "TransferPlus") {
                return None;
            }
            let accounts = &fields[0].1;
            match owned_text(accounts.get("old_uname")) {
                Some(old_uname) => match owned_text(accounts.get("new_uname")) {
                    Some(new_uname) => Some(Action::TransferPlus { old_uname, new_uname }),
                    None => None,
                },
                None => None,
            }
        },
        _ => None,
    }
}

/// Reads a document as a structured record.
pub fn decode_record(doc: &Json) -> (r: Option<AiResponse>)
    ensures
        opt_response(r) == record_in(*doc),
{
    match doc.get("action") {
        Some(action) => match decode_action(action) {
            Some(action) => match owned_text(doc.get("text")) {
                Some(text) => Some(AiResponse { action, text }),
                None => None,
            },
            None => None,
        },
        None => None,
    }
}

/// What the output of a model means, given what it denotes as JSON. Output
/// that is no record is never an error: it is a plain reply.
pub fn interpret_output(raw: &str, doc: Option<Json>) -> (r: AiResponse)
    ensures
        r@ == response_in(raw@, doc),
{
    let record = match &doc {
        Some(doc) => decode_record(doc),
        None => None,
    };
    match record {
        Some(record) => record,
        None => AiResponse { action: Action::Null, text: String::from_str(raw) },
    }
}

/// Reads the output of a model as a structured record, and as a plain reply
/// where it is none.
pub fn parse_ai_response(raw: &str) -> (r: AiResponse)
    ensures
        r@ == response_in(raw@, json_document(raw@)),
{
    interpret_output(raw, parse_json(raw))
}

/// One statement of the transfer with the names bound to its parameters.
#[derive(Clone, Debug, PartialEq, Eq)]
pub struct BoundUpdate {
    pub statement: String,
    /// The account bound to `$1`: the one that receives.
    pub to_uname: String,
    /// The account bound to `$2`: the one that gives.
    pub from_uname: String,
}

impl BoundUpdate {
    /// The update runs `statement` to move from `old_uname` to `new_uname`.
    pub open spec fn moves(self, statement: Seq<char>, old_uname: Seq<char>, new_uname: Seq<char>)
        -> bool {
        &&& self.statement@ == statement
        &&& self.to_uname@ == new_uname
        &&& self.from_uname@ == old_uname
    }
}

/// The transfer of paid time from `old_uname` to `new_uname`: exactly two
/// updates, the subscription first, the recurring billing second, each
/// finding both accounts by their names.
pub fn transfer_plus(old_uname: &str, new_uname: &str) -> (plan: Vec<BoundUpdate>)
    ensures
        plan@.len() == 2,
        plan@[0].moves(SUBSCRIPTIONS_UPDATE@, old_uname@, new_uname@),
        plan@[1].moves(RECURRING_UPDATE@, old_uname@, new_uname@),
{
    let mut plan: Vec<BoundUpdate> = Vec::new();
    plan.push(
        BoundUpdate {
            statement: String::from_str(SUBSCRIPTIONS_UPDATE),
            to_uname: String::from_str(new_uname),
            from_uname: String::from_str(old_uname),
        },
    );
    plan.push(
        BoundUpdate {
            statement: String::from_str(RECURRING_UPDATE),
            to_uname: String::from_str(new_uname),
            from_uname: String::from_str(old_uname),
        },
    );
    plan
}

/// How one update of a transfer ended.
#[derive(Clone, Copy, Debug, PartialEq, Eq, Structural)]
pub enum UpdateOutcome {
    /// The store ran the update and changed this many rows.
    Done { rows_affected: u64 },
    /// The store could not be reached or refused the update.
    Failed,
}

/// Where a transfer stands.
#[derive(Clone, Copy, Debug, PartialEq, Eq, Structural)]
pub enum TransferProgress {
    /// The update at this position of the plan is to run next.
    Run(usize),
    /// Both updates ran.
    Succeeded,
    /// An update failed; nothing more is to run.
    Failed,
}

/// Some update among `outcomes` failed.
pub open spec fn any_failed(outcomes: Seq<UpdateOutcome>) -> bool {
    exists|i: int| 0 <= i < outcomes.len() && outcomes[i] is Failed
}

/// Where a transfer stands after the updates that ran so far, in the order
/// of the plan: it fails with the first update that fails, and succeeds once
/// two updates ran, however many rows they changed.
pub open spec fn progress_of(outcomes: Seq<UpdateOutcome>) -> TransferProgress {
    if any_failed(outcomes) {
        TransferProgress::Failed
    } else if outcomes.len() < 2 {
        TransferProgress::Run(outcomes.len() as usize)
    } else {
        TransferProgress::Succeeded
    }
}

/// How many rows an update changed is of no account: two updates that ran
/// make a transfer that succeeded, even where neither changed a row.
pub proof fn lemma_rows_do_not_matter(first: u64, second: u64)
    ensures
        progress_of(
            seq![
                UpdateOutcome::Done { rows_affected: first },
                UpdateOutcome::Done { rows_affected: second },
            ],
        ) == TransferProgress::Succeeded,
{
}

/// See [`progress_of`].
pub fn transfer_progress(outcomes: &Vec<UpdateOutcome>) -> (r: TransferProgress)
    ensures
        r == progress_of(outcomes@),
{
    let mut i: usize = 0;
    while i < outcomes.len()
        invariant
            i <= outcomes.len(),
            forall|k: int| 0 <= k < i ==> !(outcomes@[k] is Failed),
        decreases outcomes.len() - i,
    {
        match outcomes[i] {
            UpdateOutcome::Failed => {
                return TransferProgress::Failed;
            },
            UpdateOutcome::Done { .. } => {},
        }
        i += 1;
    }
    if outcomes.len() < 2 {
        TransferProgress::Run(outcomes.len())
    } else {
        TransferProgress::Succeeded
    }
}

} // verus!
