//! The conversation store: conversations, their messages in the order they
//! were stored, the facts an administrator taught, and the rule that keeps a
//! history within its budget.

use vstd::prelude::*;
use vstd::string::*;
use crate::text::same_text;

verus! {

/// Who wrote a stored message.
#[derive(Clone, Copy, Debug, PartialEq, Eq, Structural)]
pub enum Role {
    User,
    Assistant,
}

impl Role {
    /// The name under which the role is stored and sent to a model.
    pub open spec fn name(self) -> Seq<char> {
        match self {
            Role::User => "user"@,
            Role::Assistant => "assistant"@,
        }
    }

    pub fn to_string(&self) -> (r: String)
        ensures
            r@ == self.name(),
    {
        match self {
            Role::User => "user".to_owned(),
            Role::Assistant => "assistant".to_owned(),
        }
    }

    /// The role that is stored under `name`.
    pub fn from_name(name: &str) -> (r: Option<Role>)
        ensures
            match r {
                Some(role) => role.name() == name@,
                None => name@ != Role::User.name() && name@ != Role::Assistant.name(),
            },
    {
        if same_text(name, "user") {
            Some(Role::User)
        } else if same_text(name, "assistant") {
            Some(Role::Assistant)
        } else {
            None
        }
    }
}

/// Where a conversation takes place.
#[derive(Clone, Copy, Debug, PartialEq, Eq, Structural)]
pub enum Platform {
    Telegram,
    Email,
}

impl Platform {
    /// The tag under which the platform is stored.
    pub open spec fn name(self) -> Seq<char> {
        match self {
            Platform::Telegram => "telegram"@,
            Platform::Email => "email"@,
        }
    }

    pub fn to_string(&self) -> (r: String)
        ensures
            r@ == self.name(),
    {
        match self {
            Platform::Telegram => "telegram".to_owned(),
            Platform::Email => "email".to_owned(),
        }
    }

    /// The platform that is stored under `name`.
    pub fn from_name(name: &str) -> (r: Option<Platform>)
        ensures
            match r {
                Some(platform) => platform.name() == name@,
                None => name@ != Platform::Telegram.name() && name@ != Platform::Email.name(),
            },
    {
        if same_text(name, "telegram") {
            Some(Platform::Telegram)
        } else if same_text(name, "email") {
            Some(Platform::Email)
        } else {
            None
        }
    }
}

/// One turn on its way through the pipeline: its text and the conversation
/// it belongs to.
#[derive(Clone, Debug, PartialEq, Eq)]
pub struct Message {
    pub text: String,
    pub convo_id: i64,
}

/// A conversation as the store knows it. `metadata` is opaque to the store;
/// for an email thread it identifies the sender.
#[derive(Clone, Debug, PartialEq, Eq)]
pub struct Conversation {
    pub convo_id: i64,
    pub platform: Platform,
    pub metadata: String,
}

/// A message as stored: immutable, ordered by insertion.
#[derive(Clone, Debug, PartialEq, Eq)]
pub struct StoredMessage {
    pub convo_id: i64,
    pub text: String,
    pub sender: Role,
}

/// The number of characters a history may hold when it is handed to a model.
pub const HISTORY_BUDGET: usize = 10000;

/// The characters of one turn: sender name and text together.
pub open spec fn turn_chars(turn: (Seq<char>, Seq<char>)) -> nat {
    turn.0.len() + turn.1.len()
}

/// The characters of a whole history.
pub open spec fn history_chars(history: Seq<(Seq<char>, Seq<char>)>) -> nat
    decreases history.len(),
{
    if history.len() == 0 {
        0
    } else {
        turn_chars(history[0]) + history_chars(history.drop_first())
    }
}

/// `history` after its oldest turns were dropped, one by one, for as long as
/// it held more than `budget` characters.
pub open spec fn trimmed_history(history: Seq<(Seq<char>, Seq<char>)>, budget: nat) -> Seq<
    (Seq<char>, Seq<char>),
>
    decreases history.len(),
{
    if history_chars(history) > budget && history.len() > 0 {
        trimmed_history(history.drop_first(), budget)
    } else {
        history
    }
}

/// What a model sees of a turn: the characters of sender and text.
pub open spec fn turn_view(turn: (String, String)) -> (Seq<char>, Seq<char>) {
    (turn.0@, turn.1@)
}

/// What a model sees of a history.
pub open spec fn turns_view(history: Seq<(String, String)>) -> Seq<(Seq<char>, Seq<char>)> {
    history.map_values(|turn: (String, String)| turn_view(turn))
}

/// Some conversation in `conversations` has the id `convo_id`.
pub open spec fn has_conversation(conversations: Seq<Conversation>, convo_id: i64) -> bool {
    exists|i: int| 0 <= i < conversations.len() && conversations[i].convo_id == convo_id
}

/// No two conversations share an id.
pub open spec fn ids_unique(conversations: Seq<Conversation>) -> bool {
    forall|i: int, j: int|
        0 <= i < j < conversations.len() ==> conversations[i].convo_id
            != conversations[j].convo_id
}

/// `conversations` without those that have the id `convo_id`, order kept.
pub open spec fn without_conversation(conversations: Seq<Conversation>, convo_id: i64) -> Seq<
    Conversation,
>
    decreases conversations.len(),
{
    if conversations.len() == 0 {
        conversations
    } else {
        let rest = without_conversation(conversations.drop_last(), convo_id);
        if conversations.last().convo_id == convo_id {
            rest
        } else {
            rest.push(conversations.last())
        }
    }
}

/// The id of the first message, in insertion order, whose text is exactly
/// `text`.
pub open spec fn first_with_text(messages: Seq<StoredMessage>, text: Seq<char>) -> Option<i64>
    decreases messages.len(),
{
    if messages.len() == 0 {
        None
    } else if messages[0].text@ == text {
        Some(messages[0].convo_id)
    } else {
        first_with_text(messages.drop_first(), text)
    }
}

/// The id of the first conversation whose metadata is exactly `metadata`.
pub open spec fn first_with_metadata(conversations: Seq<Conversation>, metadata: Seq<char>)
    -> Option<i64>
    decreases conversations.len(),
{
    if conversations.len() == 0 {
        None
    } else if conversations[0].metadata@ == metadata {
        Some(conversations[0].convo_id)
    } else {
        first_with_metadata(conversations.drop_first(), metadata)
    }
}

/// The turns of the conversation `convo_id`, oldest first, as a model sees
/// them.
pub open spec fn history_of(messages: Seq<StoredMessage>, convo_id: i64) -> Seq<
    (Seq<char>, Seq<char>),
>
    decreases messages.len(),
{
    if messages.len() == 0 {
        Seq::empty()
    } else {
        let rest = history_of(messages.drop_last(), convo_id);
        if messages.last().convo_id == convo_id {
            rest.push((messages.last().sender.name(), messages.last().text@))
        } else {
            rest
        }
    }
}

/// The store. Messages and facts are only ever appended; a conversation is
/// replaced when it is stored again under the same id.
pub struct ChatHistoryDb {
    conversations: Vec<Conversation>,
    messages: Vec<StoredMessage>,
    facts: Vec<String>,
}

impl ChatHistoryDb {
    /// The conversations, in the order in which they were last stored.
    pub closed spec fn conversations(self) -> Seq<Conversation> {
        self.conversations@
    }

    /// The messages, oldest first.
    pub closed spec fn messages(self) -> Seq<StoredMessage> {
        self.messages@
    }

    /// The facts, oldest first.
    pub closed spec fn facts(self) -> Seq<String> {
        self.facts@
    }

    /// Conversation ids are unique, and every message belongs to a stored
    /// conversation.
    pub open spec fn wf(self) -> bool {
        &&& ids_unique(self.conversations())
        &&& forall|i: int|
            0 <= i < self.messages().len() ==> has_conversation(
                self.conversations(),
                #[trigger] self.messages()[i].convo_id,
            )
    }

    /// `self` came out of `before` by appending: every message and every
    /// fact of `before` is still there, unchanged and at its place.
    pub open spec fn extends(self, before: Self) -> bool {
        &&& before.messages().len() <= self.messages().len()
        &&& self.messages().take(before.messages().len() as int) == before.messages()
        &&& before.facts().len() <= self.facts().len()
        &&& self.facts().take(before.facts().len() as int) == before.facts()
    }

    /// An empty store.
    pub fn new() -> (db: Self)
        ensures
            db.wf(),
            db.conversations().len() == 0,
            db.messages().len() == 0,
            db.facts().len() == 0,
    {
        ChatHistoryDb { conversations: Vec::new(), messages: Vec::new(), facts: Vec::new() }
    }

    /// How many messages are stored.
    pub fn message_count(&self) -> (n: usize)
        ensures
            n == self.messages().len(),
    {
        self.messages.len()
    }

    /// The stored message at `index`, counting from the oldest.
    pub fn message(&self, index: usize) -> (m: &StoredMessage)
        requires
            index < self.messages().len(),
        ensures
            *m == self.messages()[index as int],
    {
        &self.messages[index]
    }

    /// The stored conversation with the id `convo_id`.
    pub fn conversation(&self, convo_id: i64) -> (r: Option<&Conversation>)
        ensures
            r is Some == has_conversation(self.conversations(), convo_id),
            r matches Some(c) ==> c.convo_id == convo_id && self.conversations().contains(*c),
    {
        let mut i: usize = 0;
        while i < self.conversations.len()
            invariant
                i <= self.conversations.len(),
                forall|k: int| 0 <= k < i ==> self.conversations@[k].convo_id != convo_id,
            decreases self.conversations.len() - i,
        {
            if self.conversations[i].convo_id == convo_id {
                return Some(&self.conversations[i]);
            }
            i += 1;
        }
        None
    }

    /// Appends a fact. Nothing is deduplicated.
    pub fn insert_fact(&mut self, fact: &str)
        ensures
            final(self).facts().len() == old(self).facts().len() + 1,
            final(self).facts().drop_last() == old(self).facts(),
            final(self).facts().last()@ == fact@,
            final(self).conversations() == old(self).conversations(),
            final(self).messages() == old(self).messages(),
            final(self).extends(*old(self)),
            old(self).wf() ==> final(self).wf(),
    {
        self.facts.push(String::from_str(fact));
        assert(self.facts@.drop_last() =~= old(self).facts@);
        assert(self.facts@.take(old(self).facts@.len() as int) =~= old(self).facts@);
        assert(self.messages@.take(self.messages@.len() as int) =~= self.messages@);
    }

    /// All facts, oldest first.
    pub fn get_all_facts(&self) -> (r: Vec<String>)
        ensures
            r@ == self.facts(),
    {
        let mut out: Vec<String> = Vec::new();
        let mut i: usize = 0;
        while i < self.facts.len()
            invariant
                i <= self.facts.len(),
                out@ == self.facts@.take(i as int),
            decreases self.facts.len() - i,
        {
            out.push(self.facts[i].clone());
            i += 1;
            assert(out@ =~= self.facts@.take(i as int));
        }
        assert(self.facts@.take(i as int) =~= self.facts@);
        out
    }

    /// Stores the conversation of `msg` anew, in place of any stored under
    /// the same id, and appends `msg` to the messages.
    pub fn insert_msg(&mut self, msg: &Message, platform: Platform, role: Role, metadata: &str)
        requires
            old(self).wf(),
        ensures
            final(self).wf(),
            final(self).extends(*old(self)),
            final(self).facts() == old(self).facts(),
            final(self).messages().len() == old(self).messages().len() + 1,
            final(self).messages().drop_last() == old(self).messages(),
            final(self).messages().last().convo_id == msg.convo_id,
            final(self).messages().last().text@ == msg.text@,
            final(self).messages().last().sender == role,
            final(self).conversations().len() > 0,
            final(self).conversations().drop_last() == without_conversation(
                old(self).conversations(),
                msg.convo_id,
            ),
            final(self).conversations().last().convo_id == msg.convo_id,
            final(self).conversations().last().platform == platform,
            final(self).conversations().last().metadata@ == metadata@,
    {
        let ghost before = self.conversations@;
        let mut i: usize = 0;
        proof {
            assert(before.take(0) =~= Seq::<Conversation>::empty());
        }
        while i < self.conversations.len()
            invariant
                i <= self.conversations.len(),
                self.messages == old(self).messages,
                self.facts == old(self).facts,
                self.conversations@.len() <= before.len(),
                self.conversations@.take(i as int) == without_conversation(
                    before.take(before.len() - (self.conversations@.len() - i)),
                    msg.convo_id,
                ),
                self.conversations@.skip(i as int) == before.skip(
                    before.len() - (self.conversations@.len() - i),
                ),
            decreases self.conversations.len() - i,
        {
            let ghost k = before.len() - (self.conversations@.len() - i);
            let ghost now = self.conversations@;
            proof {
                assert(now.skip(i as int)[0] == before.skip(k)[0]);
                assert(before.take(k + 1).drop_last() =~= before.take(k));
                assert(before.take(k + 1).last() == before[k]);
            }
            if self.conversations[i].convo_id == msg.convo_id {
                self.conversations.remove(i);
                proof {
                    assert(self.conversations@.take(i as int) =~= now.take(i as int));
                    assert(self.conversations@.skip(i as int) =~= now.skip(i as int).skip(1));
                    assert(before.skip(k).skip(1) =~= before.skip(k + 1));
                }
            } else {
                i += 1;
                proof {
                    assert(now.take(i as int) =~= now.take(i - 1).push(now[i - 1]));
                    assert(now.skip(i as int) =~= now.skip(i - 1).skip(1));
                    assert(before.skip(k).skip(1) =~= before.skip(k + 1));
                }
            }
        }
        proof {
            assert(before.take(before.len() as int) =~= before);
            assert(self.conversations@.take(i as int) =~= self.conversations@);
            lemma_without_conversation(before, msg.convo_id);
        }
        let ghost kept = self.conversations@;
        self.conversations.push(
            Conversation {
                convo_id: msg.convo_id,
                platform,
                metadata: String::from_str(metadata),
            },
        );
        self.messages.push(
            StoredMessage { convo_id: msg.convo_id, text: msg.text.clone(), sender: role },
        );
        proof {
            assert(self.conversations@.drop_last() =~= kept);
            assert(self.messages@.drop_last() =~= old(self).messages@);
            let stored_before = old(self).messages@;
            assert(self.messages@.take(stored_before.len() as int) =~= stored_before);
            assert(self.facts@.take(self.facts@.len() as int) =~= self.facts@);
            let convs = self.conversations@;
            let last = convs.len() - 1;
            assert forall|a: int, b: int| 0 <= a < b < convs.len() implies convs[a].convo_id
                != convs[b].convo_id by {
                if b == last {
                    assert(convs[a] == kept[a]);
                } else {
                    assert(convs[a] == kept[a]);
                    assert(convs[b] == kept[b]);
                }
            }
            assert forall|m: int| 0 <= m < self.messages@.len() implies has_conversation(
                convs,
                #[trigger] self.messages@[m].convo_id,
            ) by {
                let id = self.messages@[m].convo_id;
                if id == msg.convo_id {
                    assert(convs[last].convo_id == id);
                } else {
                    assert(self.messages@[m] == old(self).messages@[m]);
                    assert(has_conversation(before, id));
                    let w = choose|w: int| 0 <= w < before.len() && before[w].convo_id == id;
                    lemma_without_conversation_keeps(before, msg.convo_id, w);
                    let x = choose|x: int| 0 <= x < kept.len() && kept[x] == before[w];
                    assert(convs[x] == kept[x]);
                }
            }
        }
    }

    /// `self` is `before` with one exchange more: the turn `question` of the
    /// user and, right after it, the `answer` of the assistant, both in the
    /// conversation `convo_id`. Nothing that was stored before has changed.
    pub open spec fn holds_exchange(
        self,
        before: Self,
        convo_id: i64,
        question: Seq<char>,
        answer: Seq<char>,
    ) -> bool {
        let stored = self.messages();
        let n = before.messages().len() as int;
        &&& self.extends(before)
        &&& self.facts() == before.facts()
        &&& stored.len() == n + 2
        &&& stored.take(n) == before.messages()
        &&& stored[n].convo_id == convo_id
        &&& stored[n].text@ == question
        &&& stored[n].sender == Role::User
        &&& stored[n + 1].convo_id == convo_id
        &&& stored[n + 1].text@ == answer
        &&& stored[n + 1].sender == Role::Assistant
        &&& has_conversation(self.conversations(), convo_id)
    }

    /// Stores an exchange: first the turn of the user, then the answer.
    pub fn insert_exchange(
        &mut self,
        question: &Message,
        answer: &str,
        platform: Platform,
        metadata: &str,
    )
        requires
            old(self).wf(),
        ensures
            final(self).wf(),
            final(self).holds_exchange(*old(self), question.convo_id, question.text@, answer@),
            final(self).conversations().last().platform == platform,
            final(self).conversations().last().metadata@ == metadata@,
            final(self).conversations().last().convo_id == question.convo_id,
    {
        let ghost before = self.messages();
        self.insert_msg(question, platform, Role::User, metadata);
        let ghost between = self.messages();
        let reply = Message { text: String::from_str(answer), convo_id: question.convo_id };
        self.insert_msg(&reply, platform, Role::Assistant, metadata);
        proof {
            let stored = self.messages();
            let n = before.len() as int;
            assert(stored.drop_last() == between);
            assert(between.drop_last() == before);
            assert(stored.take(n) =~= before) by {
                assert forall|i: int| 0 <= i < n implies stored[i] == before[i] by {
                    assert(stored.drop_last()[i] == stored[i]);
                    assert(between.drop_last()[i] == between[i]);
                }
            }
            assert(stored[n] == between.last()) by {
                assert(stored.drop_last()[n] == stored[n]);
            }
            let convs = self.conversations();
            assert(convs[convs.len() - 1].convo_id == question.convo_id);
            assert(self.facts().take(self.facts().len() as int) =~= self.facts());
        }
    }

    /// The conversation of the first stored message whose text is exactly
    /// `text`; `None` where no stored message has that text.
    pub fn txt_to_id(&self, text: &str) -> (r: Option<i64>)
        ensures
            r == first_with_text(self.messages(), text@),
    {
        let wanted = String::from_str(text);
        let mut i: usize = 0;
        assert(self.messages@.skip(0) =~= self.messages@);
        while i < self.messages.len()
            invariant
                i <= self.messages.len(),
                wanted@ == text@,
                first_with_text(self.messages@, text@) == first_with_text(
                    self.messages@.skip(i as int),
                    text@,
                ),
            decreases self.messages.len() - i,
        {
            let ghost rest = self.messages@.skip(i as int);
            assert(rest[0] == self.messages@[i as int]);
            assert(rest.drop_first() =~= self.messages@.skip(i + 1));
            if self.messages[i].text == wanted {
                return Some(self.messages[i].convo_id);
            }
            i += 1;
        }
        None
    }

    /// The first stored conversation whose metadata is exactly `metadata`;
    /// `None` where there is none.
    pub fn email_metadata_to_id(&self, metadata: &str) -> (r: Option<i64>)
        ensures
            r == first_with_metadata(self.conversations(), metadata@),
    {
        let wanted = String::from_str(metadata);
        let mut i: usize = 0;
        assert(self.conversations@.skip(0) =~= self.conversations@);
        while i < self.conversations.len()
            invariant
                i <= self.conversations.len(),
                wanted@ == metadata@,
                first_with_metadata(self.conversations@, metadata@) == first_with_metadata(
                    self.conversations@.skip(i as int),
                    metadata@,
                ),
            decreases self.conversations.len() - i,
        {
            let ghost rest = self.conversations@.skip(i as int);
            assert(rest[0] == self.conversations@[i as int]);
            assert(rest.drop_first() =~= self.conversations@.skip(i + 1));
            if self.conversations[i].metadata == wanted {
                return Some(self.conversations[i].convo_id);
            }
            i += 1;
        }
        None
    }

    /// The turns of one conversation as (sender, text), oldest first.
    pub fn get_convo_history(&self, convo_id: i64) -> (r: Vec<(String, String)>)
        ensures
            turns_view(r@) == history_of(self.messages(), convo_id),
    {
        let mut out: Vec<(String, String)> = Vec::new();
        let mut i: usize = 0;
        proof {
            assert(self.messages@.take(0) =~= Seq::<StoredMessage>::empty());
            assert(turns_view(out@) =~= Seq::<(Seq<char>, Seq<char>)>::empty());
        }
        while i < self.messages.len()
            invariant
                i <= self.messages.len(),
                turns_view(out@) == history_of(self.messages@.take(i as int), convo_id),
            decreases self.messages.len() - i,
        {
            let ghost seen = self.messages@.take(i + 1);
            proof {
                assert(seen.drop_last() =~= self.messages@.take(i as int));
                assert(seen.last() == self.messages@[i as int]);
            }
            if self.messages[i].convo_id == convo_id {
                let ghost earlier = out@;
                out.push((self.messages[i].sender.to_string(), self.messages[i].text.clone()));
                assert(turns_view(out@) =~= turns_view(earlier).push(turn_view(out@.last())));
            }
            i += 1;
        }
        assert(self.messages@.take(i as int) =~= self.messages@);
        out
    }
}

/// The characters from turn `k` on are those of turn `k` and those after it.
proof fn lemma_history_chars_skip(history: Seq<(Seq<char>, Seq<char>)>, k: int)
    requires
        0 <= k < history.len(),
    ensures
        history_chars(history.skip(k)) == turn_chars(history[k]) + history_chars(
            history.skip(k + 1),
        ),
{
    assert(history.skip(k).drop_first() =~= history.skip(k + 1));
}

/// Dropping more of the oldest turns never adds characters.
proof fn lemma_history_chars_monotonic(history: Seq<(Seq<char>, Seq<char>)>, j: int, k: int)
    requires
        0 <= j <= k <= history.len(),
    ensures
        history_chars(history.skip(j)) >= history_chars(history.skip(k)),
    decreases k - j,
{
    if j < k {
        lemma_history_chars_skip(history, j);
        lemma_history_chars_monotonic(history, j + 1, k);
    }
}

/// Trimming keeps the newest turns and drops exactly as many of the oldest
/// as it takes to come within the budget: what is kept is a suffix of the
/// history, it holds at most `budget` characters, and every longer suffix
/// holds more.
pub proof fn lemma_trimmed_history(history: Seq<(Seq<char>, Seq<char>)>, budget: nat)
    ensures
        trimmed_history(history, budget).len() <= history.len(),
        trimmed_history(history, budget) == history.skip(
            history.len() - trimmed_history(history, budget).len(),
        ),
        history_chars(trimmed_history(history, budget)) <= budget,
        forall|k: int|
            0 <= k < history.len() - trimmed_history(history, budget).len() ==> history_chars(
                #[trigger] history.skip(k),
            ) > budget,
    decreases history.len(),
{
    let kept = trimmed_history(history, budget);
    if history_chars(history) > budget && history.len() > 0 {
        let rest = history.drop_first();
        lemma_trimmed_history(rest, budget);
        let dropped = history.len() - kept.len();
        assert(rest.skip(rest.len() - kept.len()) =~= history.skip(dropped));
        assert forall|k: int| 0 <= k < dropped implies history_chars(#[trigger] history.skip(k))
            > budget by {
            if k == 0 {
                assert(history.skip(0) =~= history);
            } else {
                assert(rest.skip(k - 1) =~= history.skip(k));
            }
        }
    } else {
        assert(history.skip(0) =~= history);
    }
}

/// The suffix from `k` on is what trimming keeps where it is the longest
/// suffix within the budget.
proof fn lemma_trimmed_is_skip(history: Seq<(Seq<char>, Seq<char>)>, budget: nat, k: int)
    requires
        0 <= k <= history.len(),
        history_chars(history.skip(k)) <= budget,
        k > 0 ==> history_chars(history.skip(k - 1)) > budget,
    ensures
        trimmed_history(history, budget) == history.skip(k),
    decreases k,
{
    assert(history.skip(0) =~= history);
    if k > 0 {
        lemma_history_chars_monotonic(history, 0, k - 1);
        let rest = history.drop_first();
        assert(rest.skip(k - 1) =~= history.skip(k));
        if k > 1 {
            assert(rest.skip(k - 2) =~= history.skip(k - 1));
        }
        lemma_trimmed_is_skip(rest, budget, k - 1);
    }
}

/// Drops the oldest turns of `context` until what is left holds no more
/// than `HISTORY_BUDGET` characters. What is left are the newest turns as
/// they were given.
pub fn trim_convo_history(context: Vec<(String, String)>) -> (r: Vec<(String, String)>)
    ensures
        r@.len() <= context@.len(),
        r@ == context@.skip(context@.len() - r@.len()),
        turns_view(r@) == trimmed_history(turns_view(context@), HISTORY_BUDGET as nat),
{
    let mut context = context;
    let ghost whole = context@;
    let ghost turns = turns_view(whole);
    let mut k: usize = context.len();
    let mut total: usize = 0;
    let mut full = false;
    assert(turns.skip(k as int) =~= Seq::<(Seq<char>, Seq<char>)>::empty());
    while k > 0 && !full
        invariant
            k <= context.len(),
            context@ == whole,
            turns == turns_view(whole),
            total == history_chars(turns.skip(k as int)),
            total <= HISTORY_BUDGET,
            full ==> k > 0 && history_chars(turns.skip(k - 1)) > HISTORY_BUDGET,
        decreases k + (if full { 0int } else { 1int }),
    {
        let name_chars: usize = context[k - 1].0.as_str().unicode_len();
        let text_chars: usize = context[k - 1].1.as_str().unicode_len();
        proof {
            lemma_history_chars_skip(turns, k - 1);
            assert(turns[k - 1] == turn_view(whole[k - 1]));
        }
        if name_chars > HISTORY_BUDGET - total || text_chars > HISTORY_BUDGET - total
            - name_chars {
            full = true;
        } else {
            total = total + name_chars + text_chars;
            k -= 1;
        }
    }
    proof {
        lemma_trimmed_is_skip(turns, HISTORY_BUDGET as nat, k as int);
    }
    let kept = context.split_off(k);
    assert(kept@ =~= whole.skip(k as int));
    assert(turns_view(kept@) =~= turns.skip(k as int));
    kept
}

/// The context of a new turn: the history within its budget, then the new
/// turn as a turn of the user.
pub open spec fn context_of(history: Seq<(Seq<char>, Seq<char>)>, text: Seq<char>) -> Seq<
    (Seq<char>, Seq<char>),
> {
    trimmed_history(history, HISTORY_BUDGET as nat).push((Role::User.name(), text))
}

/// The context for a new turn: the stored history within its budget, and
/// after it, whatever was dropped, the new turn of the user.
pub fn assemble_context(history: Vec<(String, String)>, text: &str) -> (r: Vec<(String, String)>)
    ensures
        turns_view(r@) == context_of(turns_view(history@), text@),
{
    let mut context = trim_convo_history(history);
    let ghost kept = context@;
    context.push(("user".to_owned(), String::from_str(text)));
    assert(turns_view(context@) =~= turns_view(kept).push(turn_view(context@.last())));
    context
}

/// Nothing that was ever stored is lost or changed: what extends a store
/// that extends another extends that other one too.
pub proof fn lemma_extends_transitive(first: ChatHistoryDb, second: ChatHistoryDb, third: ChatHistoryDb)
    requires
        second.extends(first),
        third.extends(second),
    ensures
        third.extends(first),
{
    let m = first.messages().len() as int;
    let f = first.facts().len() as int;
    assert(third.messages().take(m) =~= first.messages()) by {
        assert forall|i: int| 0 <= i < m implies third.messages()[i] == first.messages()[i] by {
            assert(second.messages().take(m)[i] == second.messages()[i]);
            assert(third.messages().take(second.messages().len() as int)[i]
                == third.messages()[i]);
        }
    }
    assert(third.facts().take(f) =~= first.facts()) by {
        assert forall|i: int| 0 <= i < f implies third.facts()[i] == first.facts()[i] by {
            assert(second.facts().take(f)[i] == second.facts()[i]);
            assert(third.facts().take(second.facts().len() as int)[i] == third.facts()[i]);
        }
    }
}

/// The message at `at` is the first, in insertion order, whose text is
/// exactly `text`.
pub open spec fn first_at(messages: Seq<StoredMessage>, text: Seq<char>, at: int) -> bool {
    &&& 0 <= at < messages.len()
    &&& messages[at].text@ == text
    &&& forall|j: int| 0 <= j < at ==> (#[trigger] messages[j]).text@ != text
}

/// The lookup by text finds the conversation of the first message whose
/// text is exactly the text asked for.
pub proof fn lemma_first_with_text(messages: Seq<StoredMessage>, text: Seq<char>, at: int)
    requires
        first_at(messages, text, at),
    ensures
        first_with_text(messages, text) == Some(messages[at].convo_id),
    decreases at,
{
    if at > 0 {
        let rest = messages.drop_first();
        assert(messages[0].text@ != text);
        assert(rest[at - 1] == messages[at]);
        assert forall|j: int| 0 <= j < at - 1 implies (#[trigger] rest[j]).text@ != text by {
            assert(rest[j] == messages[j + 1]);
        }
        lemma_first_with_text(rest, text, at - 1);
    }
}

/// The lookup by text finds nothing exactly where every stored text
/// differs from the text asked for, be it by a single character.
pub proof fn lemma_no_such_text(messages: Seq<StoredMessage>, text: Seq<char>)
    ensures
        first_with_text(messages, text) is None <==> forall|i: int|
            0 <= i < messages.len() ==> (#[trigger] messages[i]).text@ != text,
    decreases messages.len(),
{
    if messages.len() > 0 {
        let rest = messages.drop_first();
        lemma_no_such_text(rest, text);
        if messages[0].text@ != text {
            if first_with_text(rest, text) is None {
                assert forall|i: int| 0 <= i < messages.len() implies (
                #[trigger] messages[i]).text@ != text by {
                    if i > 0 {
                        assert(rest[i - 1] == messages[i]);
                    }
                }
            } else {
                let i = choose|i: int| 0 <= i < rest.len() && (#[trigger] rest[i]).text@ == text;
                assert(messages[i + 1] == rest[i]);
            }
        }
    }
}

/// What `without_conversation` keeps: nothing with the id, and no two with
/// the same id where there were none before.
pub proof fn lemma_without_conversation(conversations: Seq<Conversation>, convo_id: i64)
    ensures
        !has_conversation(without_conversation(conversations, convo_id), convo_id),
        without_conversation(conversations, convo_id).len() <= conversations.len(),
        forall|x: int|
            0 <= x < without_conversation(conversations, convo_id).len() ==> has_conversation(
                conversations,
                #[trigger] without_conversation(conversations, convo_id)[x].convo_id,
            ),
        ids_unique(conversations) ==> ids_unique(without_conversation(conversations, convo_id)),
    decreases conversations.len(),
{
    let out = without_conversation(conversations, convo_id);
    if conversations.len() > 0 {
        let front = conversations.drop_last();
        let rest = without_conversation(front, convo_id);
        lemma_without_conversation(front, convo_id);
        assert forall|x: int| 0 <= x < out.len() implies has_conversation(
            conversations,
            #[trigger] out[x].convo_id,
        ) by {
            if x < rest.len() {
                assert(out[x] == rest[x]);
                assert(has_conversation(front, rest[x].convo_id));
                let w = choose|w: int| 0 <= w < front.len() && front[w].convo_id == rest[x].convo_id;
                assert(conversations[w] == front[w]);
            } else {
                assert(out[x] == conversations.last());
                assert(conversations[conversations.len() - 1].convo_id == out[x].convo_id);
            }
        }
        if ids_unique(conversations) {
            assert(ids_unique(front)) by {
                assert forall|i: int, j: int| 0 <= i < j < front.len() implies front[i].convo_id
                    != front[j].convo_id by {
                    assert(front[i] == conversations[i]);
                    assert(front[j] == conversations[j]);
                }
            }
            assert forall|i: int, j: int| 0 <= i < j < out.len() implies out[i].convo_id
                != out[j].convo_id by {
                if j < rest.len() {
                    assert(out[i] == rest[i]);
                    assert(out[j] == rest[j]);
                } else {
                    assert(out[i] == rest[i]);
                    assert(has_conversation(front, rest[i].convo_id));
                    let w = choose|w: int|
                        0 <= w < front.len() && front[w].convo_id == rest[i].convo_id;
                    assert(conversations[w] == front[w]);
                }
            }
        }
        assert(!has_conversation(out, convo_id)) by {
            if has_conversation(out, convo_id) {
                let x = choose|x: int| 0 <= x < out.len() && out[x].convo_id == convo_id;
                if x < rest.len() {
                    assert(out[x] == rest[x]);
                    assert(has_conversation(rest, convo_id));
                }
            }
        }
    }
}

/// A conversation with another id survives `without_conversation`.
pub proof fn lemma_without_conversation_keeps(
    conversations: Seq<Conversation>,
    convo_id: i64,
    at: int,
)
    requires
        0 <= at < conversations.len(),
        conversations[at].convo_id != convo_id,
    ensures
        exists|x: int|
            0 <= x < without_conversation(conversations, convo_id).len()
                && without_conversation(conversations, convo_id)[x] == conversations[at],
    decreases conversations.len(),
{
    let out = without_conversation(conversations, convo_id);
    let front = conversations.drop_last();
    let rest = without_conversation(front, convo_id);
    if at == conversations.len() - 1 {
        assert(out[out.len() - 1] == conversations[at]);
    } else {
        lemma_without_conversation_keeps(front, convo_id, at);
        let x = choose|x: int| 0 <= x < rest.len() && rest[x] == front[at];
        assert(out[x] == rest[x]);
    }
}

} // verus!
