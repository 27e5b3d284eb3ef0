//! The chat platform: what an update holds, the ingestion cursor, which
//! updates are answered, which conversation an update belongs to, and what is
//! stored and sent once a reply is at hand.

use vstd::prelude::*;
use vstd::string::*;
use crate::database::{
    first_at, first_with_text, lemma_first_with_text, lemma_no_such_text, ChatHistoryDb, Message,
    Platform, StoredMessage,
};
use crate::responder::Answer;
use crate::json::{absent, integer_in, integer_of, owned_text, text_in, Json};
use crate::text::{concat2, contains, contains_text, opt_text, remove_all, same_text, without};

verus! {

/// The cursor before anything was seen.
pub const INITIAL_CURSOR: i64 = 0;

/// Seconds a poll may wait at the platform for new updates.
pub const LONG_POLL_SECS: u64 = 120;

/// Seconds one poll cycle may take, processing included.
pub const POLL_CYCLE_SECS: u64 = 300;

/// The metadata stored with every conversation of this platform.
pub const CHAT_METADATA: &'static str = "{\"lol\":\"todo\"}";

/// The text of an update's message.
#[derive(Clone, Debug, PartialEq, Eq)]
pub enum TextField {
    /// There is no message, or it has no text: a notification such as a
    /// change of membership.
    Missing,
    /// The text.
    Text(String),
    /// Something that is no text stands where the text should be.
    Other,
}

/// The message that an update's message replies to.
#[derive(Clone, Debug, PartialEq, Eq)]
pub struct Reply {
    pub text: Option<String>,
    pub from_username: Option<String>,
}

/// One update of the platform, reduced to what the pipeline reads.
#[derive(Clone, Debug, PartialEq, Eq)]
pub struct Update {
    /// The sequence number; 0 where the update carries none.
    pub update_id: i64,
    pub text: TextField,
    pub chat_id: Option<i64>,
    pub chat_type: Option<String>,
    pub from_username: Option<String>,
    pub message_id: Option<i64>,
    pub reply_to: Option<Reply>,
}

/// Why an update could not be handled, or a call of the platform failed.
#[derive(Clone, Copy, Debug, PartialEq, Eq, Structural)]
pub enum TelegramError {
    /// A private chat without an integer id.
    ChatIdNotInteger,
    /// The message's text is not a string.
    TextNotString,
    /// A reply is due, and the chat has no integer id.
    NoChatId,
    /// A reply is due, and the message has no integer id.
    NoMessageId,
    /// The platform answered a poll with something that is no list.
    UpdatesNotList,
    /// The platform refused a call, with this error code.
    Failed(i64),
    /// The platform refused a call and gave no integer error code.
    NoErrorCode,
    /// The platform's answer is no JSON document.
    NotJson,
}

/// What to ask the platform for: every update after `offset - 1`, waiting at
/// most `timeout` seconds, of every kind.
#[derive(Clone, Debug, PartialEq, Eq)]
pub struct PollRequest {
    pub timeout: u64,
    pub offset: i64,
    /// The kinds of update asked for; none named means every kind.
    pub allowed_updates: Vec<String>,
}

/// A reply on its way to the platform.
#[derive(Clone, Debug, PartialEq, Eq)]
pub struct Outbound {
    pub chat_id: i64,
    pub text: String,
    pub reply_to_message_id: i64,
}

/// What an addressed update asks for.
#[derive(Clone, Copy, Debug, PartialEq, Eq, Structural)]
pub enum Intent {
    /// An administrator teaches a fact.
    Learn,
    /// Anyone asks for an answer.
    Respond,
}

/// The work that an update causes: the turn to answer, and how.
#[derive(Clone, Debug, PartialEq, Eq)]
pub struct Job {
    pub message: Message,
    pub intent: Intent,
}

impl TextField {
    /// What the field holds of the member that should be the text.
    pub open spec fn describes(self, j: Option<Json>) -> bool {
        match self {
            TextField::Missing => absent(j),
            TextField::Text(s) => text_in(j) == Some(s@),
            TextField::Other => !absent(j) && text_in(j) is None,
        }
    }
}

impl Update {
    /// `self` holds what the pipeline reads of the update `j`.
    pub open spec fn describes(self, j: Json) -> bool {
        let message = "message"@;
        let reply = j.member2(message, "reply_to_message"@);
        &&& self.update_id == match integer_in(j.member("update_id"@)) {
            Some(id) => id,
            None => 0,
        }
        &&& self.text.describes(j.member2(message, "text"@))
        &&& self.chat_id == integer_in(j.member3(message, "chat"@, "id"@))
        &&& opt_text(self.chat_type) == text_in(j.member3(message, "chat"@, "type"@))
        &&& opt_text(self.from_username) == text_in(j.member3(message, "from"@, "username"@))
        &&& self.message_id == integer_in(j.member2(message, "message_id"@))
        &&& match self.reply_to {
            None => absent(reply),
            Some(r) => {
                &&& reply matches Some(quoted)
                &&& !(quoted is Null)
                &&& opt_text(r.text) == text_in(quoted.member("text"@))
                &&& opt_text(r.from_username) == text_in(quoted.member2("from"@, "username"@))
            },
        }
    }

    /// Reads an update out of the platform's JSON.
    pub fn from_json(j: &Json) -> (u: Update)
        ensures
            u.describes(*j),
    {
        let update_id: i64 = match integer_of(j.get("update_id")) {
            Some(id) => id,
            None => 0,
        };
        let text = match j.get2("message", "text") {
            None => TextField::Missing,
            Some(t) => match t {
                Json::Null => TextField::Missing,
                Json::Text(s) => TextField::Text(s.clone()),
                _ => TextField::Other,
            },
        };
        let reply_to = match j.get2("message", "reply_to_message") {
            None => None,
            Some(quoted) => match quoted {
                Json::Null => None,
                _ => Some(
                    Reply {
                        text: owned_text(quoted.get("text")),
                        from_username: owned_text(quoted.get2("from", "username")),
                    },
                ),
            },
        };
        Update {
            update_id,
            text,
            chat_id: integer_of(j.get3("message", "chat", "id")),
            chat_type: owned_text(j.get3("message", "chat", "type")),
            from_username: owned_text(j.get3("message", "from", "username")),
            message_id: integer_of(j.get2("message", "message_id")),
            reply_to,
        }
    }

    /// Whether the update is worth handing on: it carries a text, or
    /// something in the place of one. Changes of membership and other
    /// notifications do not.
    pub fn carries_text(&self) -> (r: bool)
        ensures
            r == !(self.text is Missing),
    {
        match &self.text {
            TextField::Missing => false,
            _ => true,
        }
    }

    /// The update comes from a one-to-one chat.
    pub open spec fn private(self) -> bool {
        opt_text(self.chat_type) == Some("private"@)
    }

    /// See [`Update::private`].
    pub fn is_private(&self) -> (r: bool)
        ensures
            r == self.private(),
    {
        match &self.chat_type {
            Some(kind) => same_text(kind.as_str(), "private"),
            None => false,
        }
    }
}

/// The cursor after one more update was seen: the larger of the two.
pub open spec fn cursor_next(cursor: i64, update_id: i64) -> i64 {
    if update_id > cursor {
        update_id
    } else {
        cursor
    }
}

/// The cursor after every update of `batch` was seen, in order.
pub open spec fn cursor_after(cursor: i64, batch: Seq<Update>) -> i64
    decreases batch.len(),
{
    if batch.len() == 0 {
        cursor
    } else {
        cursor_next(cursor_after(cursor, batch.drop_last()), batch.last().update_id)
    }
}

/// The cursor after every batch of `polls` was seen, in order.
pub open spec fn cursor_after_polls(cursor: i64, polls: Seq<Seq<Update>>) -> i64
    decreases polls.len(),
{
    if polls.len() == 0 {
        cursor
    } else {
        cursor_after(cursor_after_polls(cursor, polls.drop_last()), polls.last())
    }
}

/// The cursor never moves back over a batch, is at least every sequence
/// number in it, and is the old cursor or one of those numbers.
pub proof fn lemma_cursor_after(cursor: i64, batch: Seq<Update>)
    ensures
        cursor_after(cursor, batch) >= cursor,
        forall|i: int| 0 <= i < batch.len() ==> cursor_after(cursor, batch) >= batch[i].update_id,
        cursor_after(cursor, batch) == cursor || exists|i: int|
            0 <= i < batch.len() && cursor_after(cursor, batch) == batch[i].update_id,
    decreases batch.len(),
{
    if batch.len() > 0 {
        let front = batch.drop_last();
        lemma_cursor_after(cursor, front);
        let before = cursor_after(cursor, front);
        let after = cursor_after(cursor, batch);
        assert forall|i: int| 0 <= i < batch.len() implies after >= batch[i].update_id by {
            if i < front.len() {
                assert(front[i] == batch[i]);
            }
        }
        if after != cursor {
            if after == before {
                let i = choose|i: int| 0 <= i < front.len() && before == front[i].update_id;
                assert(front[i] == batch[i]);
            } else {
                assert(after == batch[batch.len() - 1].update_id);
            }
        }
    }
}

/// Over any sequence of polls the cursor never decreases from one poll to
/// the next, and after them it is the largest sequence number seen, or the
/// cursor the polls began with where that is larger still: so where any
/// number seen reaches the cursor that the polls began with, the cursor is
/// the largest number seen.
pub proof fn lemma_cursor_monotonic(cursor: i64, polls: Seq<Seq<Update>>)
    ensures
        cursor_after_polls(cursor, polls) >= cursor,
        forall|n: int|
            0 <= n < polls.len() ==> cursor_after_polls(cursor, #[trigger] polls.take(n))
                <= cursor_after_polls(cursor, polls.take(n + 1)),
        forall|n: int, i: int|
            0 <= n < polls.len() && 0 <= i < polls[n].len() ==> cursor_after_polls(cursor, polls)
                >= (#[trigger] polls[n][i]).update_id,
        cursor_after_polls(cursor, polls) == cursor || exists|n: int, i: int|
            0 <= n < polls.len() && 0 <= i < polls[n].len() && cursor_after_polls(cursor, polls)
                == (#[trigger] polls[n][i]).update_id,
        (exists|n: int, i: int|
            0 <= n < polls.len() && 0 <= i < polls[n].len() && (#[trigger] polls[n][i]).update_id
                >= cursor) ==> exists|n: int, i: int|
            0 <= n < polls.len() && 0 <= i < polls[n].len() && cursor_after_polls(cursor, polls)
                == (#[trigger] polls[n][i]).update_id,
    decreases polls.len(),
{
    if polls.len() > 0 {
        let front = polls.drop_last();
        let before = cursor_after_polls(cursor, front);
        let after = cursor_after_polls(cursor, polls);
        lemma_cursor_monotonic(cursor, front);
        lemma_cursor_after(before, polls.last());
        assert forall|n: int| 0 <= n < polls.len() implies cursor_after_polls(
            cursor,
            #[trigger] polls.take(n),
        ) <= cursor_after_polls(cursor, polls.take(n + 1)) by {
            if n < front.len() {
                assert(front.take(n) =~= polls.take(n));
                assert(front.take(n + 1) =~= polls.take(n + 1));
            } else {
                assert(polls.take(n) =~= front);
                assert(polls.take(n + 1) =~= polls);
            }
        }
        assert forall|n: int, i: int|
            0 <= n < polls.len() && 0 <= i < polls[n].len() implies after >= (
        #[trigger] polls[n][i]).update_id by {
            if n < front.len() {
                assert(front[n] == polls[n]);
            }
        }
        if after != cursor {
            if after == before {
                let (n, i) = choose|n: int, i: int|
                    0 <= n < front.len() && 0 <= i < front[n].len() && before == (
                    #[trigger] front[n][i]).update_id;
                assert(front[n] == polls[n]);
                assert(after == polls[n][i].update_id);
            } else {
                let i = choose|i: int|
                    0 <= i < polls.last().len() && after == polls.last()[i].update_id;
                assert(after == polls[polls.len() - 1][i].update_id);
            }
        }
    }
}

/// The next poll: everything after the cursor.
pub fn poll_request(cursor: i64) -> (r: PollRequest)
    requires
        cursor < i64::MAX,
    ensures
        r.timeout == LONG_POLL_SECS,
        r.offset == cursor + 1,
        r.allowed_updates@.len() == 0,
{
    PollRequest { timeout: LONG_POLL_SECS, offset: cursor + 1, allowed_updates: Vec::new() }
}

/// Moves the cursor over one update. This happens before the update is
/// handled, so that an update that fails is not seen again.
pub fn advance_cursor(cursor: i64, update: &Update) -> (r: i64)
    ensures
        r == cursor_next(cursor, update.update_id),
        r >= cursor,
        r >= update.update_id,
{
    if update.update_id > cursor {
        update.update_id
    } else {
        cursor
    }
}

/// Moves the cursor over a whole batch.
pub fn advance_cursor_over(cursor: i64, batch: &Vec<Update>) -> (r: i64)
    ensures
        r == cursor_after(cursor, batch@),
{
    let mut at: i64 = cursor;
    let mut i: usize = 0;
    assert(batch@.take(0) =~= Seq::<Update>::empty());
    while i < batch.len()
        invariant
            i <= batch.len(),
            at == cursor_after(cursor, batch@.take(i as int)),
        decreases batch.len() - i,
    {
        proof {
            assert(batch@.take(i + 1).drop_last() =~= batch@.take(i as int));
        }
        at = advance_cursor(at, &batch[i]);
        i += 1;
    }
    assert(batch@.take(i as int) =~= batch@);
    at
}

/// A random number as a conversation id of 63 bits: the sign is cleared, the
/// other bits stay.
pub fn fresh_id(raw: i64) -> (id: i64)
    ensures
        0 <= id,
        raw >= 0 ==> id == raw,
        raw < 0 ==> id == raw - i64::MIN,
{
    if raw >= 0 {
        raw
    } else {
        raw - i64::MIN
    }
}

/// `rand::random` at the type `i64`: some number; nothing is known of it.
#[verifier::external_body]
pub(crate) fn random_i64() -> i64 {
    rand::random::<i64>()
}

/// A conversation id that no rule determines.
pub fn random_id() -> (id: i64)
    ensures
        0 <= id,
{
    fresh_id(random_i64())
}

/// The conversation that an update has without beginning one: a one-to-one
/// chat is its own conversation, and it is an error where such a chat has
/// no integer id; a reply elsewhere belongs to the conversation of the first
/// stored message with exactly the text replied to. `None` where the
/// update has none of these: it is no reply, it replies to something
/// without text, or no stored message has that text.
pub open spec fn known_conversation(update: Update, messages: Seq<StoredMessage>) -> Option<
    Result<i64, TelegramError>,
> {
    if update.private() {
        match update.chat_id {
            Some(id) => Some(Ok(id)),
            None => Some(Err(TelegramError::ChatIdNotInteger)),
        }
    } else {
        match update.reply_to {
            Some(reply) => match reply.text {
                Some(text) => match first_with_text(messages, text@) {
                    Some(id) => Some(Ok(id)),
                    None => None,
                },
                None => None,
            },
            None => None,
        }
    }
}

/// The conversation of an update, given the stored messages and the id
/// `fresh` for a conversation that begins: the conversation that the update
/// has already, and a new one in every other case. Finding none is never
/// an error.
pub open spec fn conversation_of(update: Update, messages: Seq<StoredMessage>, fresh: i64)
    -> Result<i64, TelegramError> {
    match known_conversation(update, messages) {
        Some(known) => known,
        None => Ok(fresh),
    }
}

/// The conversation that `update` has without beginning one.
pub fn find_conversation(db: &ChatHistoryDb, update: &Update) -> (r: Option<
    Result<i64, TelegramError>,
>)
    ensures
        r == known_conversation(*update, db.messages()),
{
    if update.is_private() {
        match update.chat_id {
            Some(id) => Some(Ok(id)),
            None => Some(Err(TelegramError::ChatIdNotInteger)),
        }
    } else {
        match &update.reply_to {
            Some(reply) => match &reply.text {
                Some(text) => match db.txt_to_id(text.as_str()) {
                    Some(id) => Some(Ok(id)),
                    None => None,
                },
                None => None,
            },
            None => None,
        }
    }
}

/// The conversation that `update` belongs to, with `fresh` as the id of a
/// conversation that begins.
pub fn resolve_conversation(db: &ChatHistoryDb, update: &Update, fresh: i64) -> (r: Result<
    i64,
    TelegramError,
>)
    ensures
        r == conversation_of(*update, db.messages(), fresh),
{
    match find_conversation(db, update) {
        Some(known) => known,
        None => Ok(fresh),
    }
}

/// The conversation that `update` belongs to. Where the update has a
/// conversation already, that is the result, whatever else holds; only a
/// conversation that begins gets an id drawn at random, of 63 bits.
pub fn get_convo_id(db: &ChatHistoryDb, update: &Update) -> (r: Result<i64, TelegramError>)
    ensures
        match known_conversation(*update, db.messages()) {
            Some(known) => r == known,
            None => r matches Ok(id) && 0 <= id,
        },
        exists|fresh: i64| 0 <= fresh && r == conversation_of(*update, db.messages(), fresh),
{
    match find_conversation(db, update) {
        Some(known) => {
            assert(known == conversation_of(*update, db.messages(), 0));
            known
        },
        None => {
            let fresh = random_id();
            assert(Ok::<i64, TelegramError>(fresh) == conversation_of(
                *update,
                db.messages(),
                fresh,
            ));
            Ok(fresh)
        },
    }
}

/// A one-to-one chat is its own conversation, whatever the store holds and
/// whatever id a new conversation would get.
pub proof fn lemma_private_chat(
    update: Update,
    chat: i64,
    messages: Seq<StoredMessage>,
    fresh: i64,
)
    requires
        update.private(),
        update.chat_id == Some(chat),
    ensures
        conversation_of(update, messages, fresh) == Ok::<i64, TelegramError>(chat),
{
}

/// A reply outside a one-to-one chat belongs to the conversation of the
/// first stored message that has exactly the text replied to.
pub proof fn lemma_reply_known(
    update: Update,
    reply: Reply,
    text: String,
    messages: Seq<StoredMessage>,
    at: int,
    fresh: i64,
)
    requires
        !update.private(),
        update.reply_to == Some(reply),
        reply.text == Some(text),
        first_at(messages, text@, at),
    ensures
        conversation_of(update, messages, fresh) == Ok::<i64, TelegramError>(
            messages[at].convo_id,
        ),
{
    lemma_first_with_text(messages, text@, at);
}

/// A reply outside a one-to-one chat begins a conversation where no stored
/// message has exactly the text replied to.
pub proof fn lemma_reply_unknown(
    update: Update,
    reply: Reply,
    text: String,
    messages: Seq<StoredMessage>,
    fresh: i64,
)
    requires
        !update.private(),
        update.reply_to == Some(reply),
        reply.text == Some(text),
        forall|i: int| 0 <= i < messages.len() ==> (#[trigger] messages[i]).text@ != text@,
    ensures
        conversation_of(update, messages, fresh) == Ok::<i64, TelegramError>(fresh),
{
    lemma_no_such_text(messages, text@);
}

/// A reply outside a one-to-one chat to something without text, such as a
/// picture, begins a conversation: there is no text to find it by.
pub proof fn lemma_reply_without_text(
    update: Update,
    reply: Reply,
    messages: Seq<StoredMessage>,
    fresh: i64,
)
    requires
        !update.private(),
        update.reply_to == Some(reply),
        reply.text is None,
    ensures
        conversation_of(update, messages, fresh) == Ok::<i64, TelegramError>(fresh),
{
}

/// Outside a one-to-one chat the resolution never fails.
pub proof fn lemma_resolution_succeeds(update: Update, messages: Seq<StoredMessage>, fresh: i64)
    requires
        !update.private(),
    ensures
        conversation_of(update, messages, fresh) is Ok,
{
}

/// The token by which the bot is mentioned.
pub open spec fn mention(bot_uname: Seq<char>) -> Seq<char> {
    "@"@ + bot_uname
}

/// The update is meant for the bot: its text mentions the bot, it replies to
/// a message of the bot, or it comes from a one-to-one chat.
pub open spec fn addressed(update: Update, text: Seq<char>, bot_uname: Seq<char>) -> bool {
    ||| contains_text(text, mention(bot_uname))
    ||| (update.reply_to matches Some(reply) && opt_text(reply.from_username) == Some(bot_uname))
    ||| update.private()
}

/// The turn as it is answered and stored: the text without mentions of the
/// bot, behind the sender's name where the sender has one.
pub open spec fn turn_text(update: Update, text: Seq<char>, bot_uname: Seq<char>) -> Seq<char> {
    let bare = without(text, mention(bot_uname));
    match update.from_username {
        Some(name) => name@ + ": "@ + bare,
        None => bare,
    }
}

/// The sender's name, empty where the sender has none.
pub open spec fn sender_name(update: Update) -> Seq<char> {
    match update.from_username {
        Some(name) => name@,
        None => Seq::empty(),
    }
}

/// A turn teaches a fact where the administrator wrote it and it holds the
/// tag `#learn`.
pub open spec fn teaches(update: Update, turn: Seq<char>, admin_uname: Seq<char>) -> bool {
    sender_name(update) == admin_uname && contains_text(turn, "#learn"@)
}

/// What becomes of an update whose conversation was asked for with the
/// outcome `convo`: nothing where it has no text or is not meant for the
/// bot, else the job of answering it.
pub open spec fn planned_for(
    update: Update,
    convo: Result<i64, TelegramError>,
    bot_uname: Seq<char>,
    admin_uname: Seq<char>,
    r: Result<Option<Job>, TelegramError>,
) -> bool {
    match update.text {
        TextField::Missing => r == Ok::<Option<Job>, TelegramError>(None),
        TextField::Other => match convo {
            Err(e) => r == Err::<Option<Job>, TelegramError>(e),
            Ok(_) => r == Err::<Option<Job>, TelegramError>(TelegramError::TextNotString),
        },
        TextField::Text(text) => match convo {
            Err(e) => r == Err::<Option<Job>, TelegramError>(e),
            Ok(id) => if addressed(update, text@, bot_uname) {
                &&& r matches Ok(Some(job))
                &&& job.message.convo_id == id
                &&& job.message.text@ == turn_text(update, text@, bot_uname)
                &&& job.intent == if teaches(update, job.message.text@, admin_uname) {
                    Intent::Learn
                } else {
                    Intent::Respond
                }
            } else {
                r == Ok::<Option<Job>, TelegramError>(None)
            },
        },
    }
}

/// What becomes of an update, given the id `fresh` for a conversation that
/// begins.
pub open spec fn planned(
    update: Update,
    messages: Seq<StoredMessage>,
    bot_uname: Seq<char>,
    admin_uname: Seq<char>,
    fresh: i64,
    r: Result<Option<Job>, TelegramError>,
) -> bool {
    planned_for(update, conversation_of(update, messages, fresh), bot_uname, admin_uname, r)
}

/// An update without text, such as a change of membership, comes to
/// nothing whatever the store holds, whoever the bot and its administrator
/// are, and whatever id a new conversation would get: its conversation is
/// never asked for.
pub proof fn lemma_no_text_no_work(
    update: Update,
    messages: Seq<StoredMessage>,
    bot_uname: Seq<char>,
    admin_uname: Seq<char>,
    fresh: i64,
    r: Result<Option<Job>, TelegramError>,
)
    requires
        update.text is Missing,
        planned(update, messages, bot_uname, admin_uname, fresh, r),
    ensures
        r == Ok::<Option<Job>, TelegramError>(None),
{
}

/// Decides what an update asks for, once its conversation was asked for
/// with the outcome `convo`.
pub fn plan_job(update: &Update, convo: Result<i64, TelegramError>, bot_uname: &str, admin_uname: &str)
    -> (r: Result<Option<Job>, TelegramError>)
    ensures
        planned_for(*update, convo, bot_uname@, admin_uname@, r),
{
    match &update.text {
        TextField::Missing => Ok(None),
        TextField::Other => match convo {
            Err(e) => Err(e),
            Ok(_) => Err(TelegramError::TextNotString),
        },
        TextField::Text(text) => {
            let convo_id: i64 = match convo {
                Err(e) => {
                    return Err(e);
                },
                Ok(id) => id,
            };
            let token = concat2("@", bot_uname);
            let replies_to_bot = match &update.reply_to {
                Some(reply) => match &reply.from_username {
                    Some(name) => same_text(name.as_str(), bot_uname),
                    None => false,
                },
                None => false,
            };
            if contains(text.as_str(), token.as_str()) || replies_to_bot || update.is_private() {
                let bare = remove_all(text.as_str(), token.as_str());
                let (turn, from_admin) = match &update.from_username {
                    Some(name) => {
                        let mut turn = concat2(name.as_str(), ": ");
                        turn.append(bare.as_str());
                        (turn, same_text(name.as_str(), admin_uname))
                    },
                    None => (bare, same_text("", admin_uname)),
                };
                proof {
                    reveal_strlit("");
                    assert(""@ =~= Seq::<char>::empty());
                }
                let intent = if from_admin && contains(turn.as_str(), "#learn") {
                    Intent::Learn
                } else {
                    Intent::Respond
                };
                Ok(Some(Job { message: Message { text: turn, convo_id }, intent }))
            } else {
                Ok(None)
            }
        },
    }
}

/// Decides what an update asks for, with `fresh` as the id of a
/// conversation that begins. An update without text never reaches the
/// resolution of its conversation: it is dropped whatever the store holds
/// and whatever `fresh` is.
pub fn plan_update(
    db: &ChatHistoryDb,
    update: &Update,
    bot_uname: &str,
    admin_uname: &str,
    fresh: i64,
) -> (r: Result<Option<Job>, TelegramError>)
    ensures
        planned(*update, db.messages(), bot_uname@, admin_uname@, fresh, r),
        update.text is Missing ==> r == Ok::<Option<Job>, TelegramError>(None),
{
    if !update.carries_text() {
        return Ok(None);
    }
    plan_job(update, resolve_conversation(db, update, fresh), bot_uname, admin_uname)
}

/// Decides what an update asks for. An update without text is dropped
/// before its conversation is asked for; a conversation that begins gets a
/// random id of 63 bits.
pub fn handle_update(db: &ChatHistoryDb, update: &Update, bot_uname: &str, admin_uname: &str) -> (r:
    Result<Option<Job>, TelegramError>)
    ensures
        exists|fresh: i64|
            0 <= fresh && planned(*update, db.messages(), bot_uname@, admin_uname@, fresh, r),
        update.text is Missing ==> r == Ok::<Option<Job>, TelegramError>(None),
        match known_conversation(*update, db.messages()) {
            Some(known) => planned_for(*update, known, bot_uname@, admin_uname@, r),
            None => exists|fresh: i64|
                0 <= fresh && planned_for(
                    *update,
                    Ok::<i64, TelegramError>(fresh),
                    bot_uname@,
                    admin_uname@,
                    r,
                ),
        },
{
    if !update.carries_text() {
        assert(planned(*update, db.messages(), bot_uname@, admin_uname@, 0, Ok(None)));
        assert(planned_for(*update, Ok::<i64, TelegramError>(0), bot_uname@, admin_uname@, Ok(None)));
        return Ok(None);
    }
    let convo = get_convo_id(db, update);
    let r = plan_job(update, convo, bot_uname, admin_uname);
    proof {
        let fresh = choose|fresh: i64|
            0 <= fresh && convo == conversation_of(*update, db.messages(), fresh);
        assert(planned(*update, db.messages(), bot_uname@, admin_uname@, fresh, r));
        if known_conversation(*update, db.messages()) is None {
            assert(planned_for(
                *update,
                Ok::<i64, TelegramError>(fresh),
                bot_uname@,
                admin_uname@,
                r,
            ));
        }
    }
    r
}

/// Stores the exchange and names what to send. Where the answer is
/// suppressed or empty, nothing is stored and nothing is sent. Otherwise
/// the turn of the user and the answer are appended to the store, in this
/// order, under a conversation of this platform with its standing
/// metadata, and the answer goes to the chat of the update, as a reply to
/// its message; where the update names no chat or no message the exchange
/// is stored all the same, and the failure says what was missing.
pub fn settle_reply(db: &mut ChatHistoryDb, update: &Update, message: &Message, answer: &Answer)
    -> (r: Result<Option<Outbound>, TelegramError>)
    requires
        old(db).wf(),
    ensures
        final(db).wf(),
        match answer.deliverable() {
            None => {
                &&& r == Ok::<Option<Outbound>, TelegramError>(None)
                &&& final(db).messages() == old(db).messages()
                &&& final(db).conversations() == old(db).conversations()
                &&& final(db).facts() == old(db).facts()
            },
            Some(reply) => {
                &&& final(db).holds_exchange(*old(db), message.convo_id, message.text@, reply)
                &&& final(db).conversations().last().convo_id == message.convo_id
                &&& final(db).conversations().last().platform == Platform::Telegram
                &&& final(db).conversations().last().metadata@ == CHAT_METADATA@
                &&& match (update.chat_id, update.message_id) {
                    (None, _) => r == Err::<Option<Outbound>, TelegramError>(
                        TelegramError::NoChatId,
                    ),
                    (Some(_), None) => r == Err::<Option<Outbound>, TelegramError>(
                        TelegramError::NoMessageId,
                    ),
                    (Some(chat), Some(id)) => {
                        &&& r matches Ok(Some(out))
                        &&& out.chat_id == chat
                        &&& out.reply_to_message_id == id
                        &&& out.text@ == reply
                    },
                }
            },
        },
{
    match answer.text_to_deliver() {
        None => Ok(None),
        Some(reply) => {
            db.insert_exchange(message, reply, Platform::Telegram, CHAT_METADATA);
            match update.chat_id {
                None => Err(TelegramError::NoChatId),
                Some(chat) => match update.message_id {
                    None => Err(TelegramError::NoMessageId),
                    Some(id) => Ok(
                        Some(
                            Outbound {
                                chat_id: chat,
                                text: String::from_str(reply),
                                reply_to_message_id: id,
                            },
                        ),
                    ),
                },
            }
        },
    }
}

/// A client of the platform's bot interface, as far as it computes: the
/// address of a method, and the reading of an answer.
#[derive(Clone, Debug)]
pub struct TelegramBot {
    token: String,
}

impl TelegramBot {
    /// The token that the bot identifies itself with.
    pub closed spec fn token(self) -> Seq<char> {
        self.token@
    }

    /// A client for the bot with this token.
    pub fn new(token: &str) -> (bot: Self)
        ensures
            bot.token() == token@,
    {
        TelegramBot { token: String::from_str(token) }
    }

    /// The address to which a call of `method` is posted.
    pub fn method_url(&self, method: &str) -> (url: String)
        ensures
            url@ == "https://api.telegram.org/bot"@ + self.token() + "/"@ + method@,
    {
        let mut url = concat2("https://api.telegram.org/bot", self.token.as_str());
        url.append("/");
        url.append(method);
        url
    }
}

/// What an answer of the platform means: the member `result` where the
/// member `ok` is true (null where there is none), else the failure with the
/// error code that the answer names.
pub open spec fn answer_of(body: Json) -> Result<Json, TelegramError> {
    if body.member("ok"@) matches Some(ok) && ok.truth() == Some(true) {
        match body.member("result"@) {
            Some(result) => Ok(result),
            None => Ok(Json::Null),
        }
    } else {
        match integer_in(body.member("error_code"@)) {
            Some(code) => Err(TelegramError::Failed(code)),
            None => Err(TelegramError::NoErrorCode),
        }
    }
}

/// The updates in the result of a poll.
pub open spec fn updates_in(result: Json, r: Result<Vec<Update>, TelegramError>) -> bool {
    match result {
        Json::List(items) => {
            &&& r matches Ok(updates)
            &&& updates@.len() == items@.len()
            &&& forall|i: int| 0 <= i < items@.len() ==> (#[trigger] updates@[i]).describes(items@[i])
        },
        _ => r == Err::<Vec<Update>, TelegramError>(TelegramError::UpdatesNotList),
    }
}

/// Reads the updates out of the result of a poll, in the order given.
pub fn read_updates(result: &Json) -> (r: Result<Vec<Update>, TelegramError>)
    ensures
        updates_in(*result, r),
{
    match result {
        Json::List(items) => {
            let mut updates: Vec<Update> = Vec::new();
            let mut i: usize = 0;
            while i < items.len()
                invariant
                    i <= items.len(),
                    updates@.len() == i,
                    forall|k: int| 0 <= k < i ==> (#[trigger] updates@[k]).describes(items@[k]),
                decreases items.len() - i,
            {
                updates.push(Update::from_json(&items[i]));
                i += 1;
            }
            Ok(updates)
        },
        _ => Err(TelegramError::UpdatesNotList),
    }
}

/// Reads the answer to a poll: the document, what it means, the updates in
/// it.
pub fn read_poll_answer(body: &str) -> (r: Result<Vec<Update>, TelegramError>)
    ensures
        match crate::json::json_document(body@) {
            None => r == Err::<Vec<Update>, TelegramError>(TelegramError::NotJson),
            Some(doc) => match answer_of(doc) {
                Err(e) => r == Err::<Vec<Update>, TelegramError>(e),
                Ok(result) => updates_in(result, r),
            },
        },
{
    match crate::json::parse_json(body) {
        None => Err(TelegramError::NotJson),
        Some(doc) => {
            let is_ok = match doc.get("ok") {
                Some(ok) => match ok.as_bool() {
                    Some(b) => b,
                    None => false,
                },
                None => false,
            };
            if is_ok {
                match doc.get("result") {
                    Some(result) => read_updates(result),
                    None => read_updates(&Json::Null),
                }
            } else {
                match integer_of(doc.get("error_code")) {
                    Some(code) => Err(TelegramError::Failed(code)),
                    None => Err(TelegramError::NoErrorCode),
                }
            }
        },
    }
}

/// Reads the answer to a call whose result is not looked at: whether the
/// platform accepted it.
pub fn read_call_answer(body: &str) -> (r: Result<(), TelegramError>)
    ensures
        match crate::json::json_document(body@) {
            None => r == Err::<(), TelegramError>(TelegramError::NotJson),
            Some(doc) => match answer_of(doc) {
                Err(e) => r == Err::<(), TelegramError>(e),
                Ok(_) => r == Ok::<(), TelegramError>(()),
            },
        },
{
    match crate::json::parse_json(body) {
        None => Err(TelegramError::NotJson),
        Some(doc) => {
            let is_ok = match doc.get("ok") {
                Some(ok) => match ok.as_bool() {
                    Some(b) => b,
                    None => false,
                },
                None => false,
            };
            if is_ok {
                Ok(())
            } else {
                match integer_of(doc.get("error_code")) {
                    Some(code) => Err(TelegramError::Failed(code)),
                    None => Err(TelegramError::NoErrorCode),
                }
            }
        },
    }
}

} // verus!
