//! Learning: an administrator teaches the bot a fact by way of a
//! conversation, and a model sums up what there is to learn.

use vstd::prelude::*;
use vstd::string::*;
use crate::database::{
    assemble_context, context_of, history_of, turn_view, turns_view, ChatHistoryDb, Message,
};
use crate::openai::{completion_request, CompletionRequest, MAX_TOKENS};
use crate::responder::Answer;
use crate::text::{concat2, join, joined, remove_all, without};

verus! {

/// What the summarizing model is told.
pub const LEARN_PROMPT: &'static str =
    "You are a summarizing assistant bot who works for a customer support bot. Your objective is to look at a conversation and make concise notes about what the customer support bot in the conversation needs to learn. Note that everything that nullchinchilla says should be treated as authoritative. Return an abbreviated *one-sentence* summary of what you learned. For instance, if you are asked to #learn the sky is pink in Geph land, return 'Geph land sky color is pink'. Do not say 'I have learned' or similar, return a simple proposition that can later be put into a database of facts.";

/// The model that sums up.
pub const LEARN_MODEL: &'static str = "gpt-4";

/// The mention that is taken out of a turn before it is summed up.
pub const LEARN_MENTION: &'static str = "@GephSupportBot";

/// One turn as a line: who, a colon, what.
pub open spec fn line_of(turn: (Seq<char>, Seq<char>)) -> Seq<char> {
    turn.0 + ": "@ + turn.1
}

/// A conversation as text: one line per turn, oldest first.
pub open spec fn material_text(turns: Seq<(Seq<char>, Seq<char>)>) -> Seq<char>
    decreases turns.len(),
{
    if turns.len() == 0 {
        Seq::empty()
    } else if turns.len() == 1 {
        line_of(turns[0])
    } else {
        material_text(turns.drop_last()) + "\n"@ + line_of(turns.last())
    }
}

proof fn lemma_material_text(lines: Seq<String>, turns: Seq<(Seq<char>, Seq<char>)>)
    requires
        lines.len() == turns.len(),
        forall|i: int| 0 <= i < lines.len() ==> (#[trigger] lines[i])@ == line_of(turns[i]),
    ensures
        joined(lines, "\n"@) == material_text(turns),
    decreases lines.len(),
{
    if lines.len() > 1 {
        let front = lines.drop_last();
        assert forall|i: int| 0 <= i < front.len() implies (#[trigger] front[i])@ == line_of(
            turns.drop_last()[i],
        ) by {
            assert(front[i] == lines[i]);
        }
        lemma_material_text(front, turns.drop_last());
        assert(lines.last() == lines[lines.len() - 1]);
    } else if lines.len() == 1 {
        assert(lines[0]@ == line_of(turns[0]));
    }
}

/// A conversation as the single turn of a user that holds it as text.
pub fn format_learn_material(role_contents: Vec<(String, String)>) -> (r: Vec<(String, String)>)
    ensures
        r@.len() == 1,
        r@[0].0@ == "user"@,
        r@[0].1@ == material_text(turns_view(role_contents@)),
{
    let mut lines: Vec<String> = Vec::new();
    let mut i: usize = 0;
    while i < role_contents.len()
        invariant
            i <= role_contents.len(),
            lines@.len() == i,
            forall|k: int|
                0 <= k < i ==> (#[trigger] lines@[k])@ == line_of(turn_view(role_contents@[k])),
        decreases role_contents.len() - i,
    {
        let mut line = concat2(role_contents[i].0.as_str(), ": ");
        line.append(role_contents[i].1.as_str());
        lines.push(line);
        i += 1;
    }
    proof {
        lemma_material_text(lines@, turns_view(role_contents@));
    }
    let content = join(&lines, "\n");
    let mut out: Vec<(String, String)> = Vec::new();
    out.push(("user".to_owned(), content));
    out
}

/// The request that sums up what the turn `msg` teaches: the summarizing
/// prompt, and as the only turn the conversation as text, which is its
/// stored history within the budget and then the turn itself without the
/// mention.
pub fn plan_learning(db: &ChatHistoryDb, msg: &Message) -> (r: CompletionRequest)
    ensures
        r.model@ == LEARN_MODEL@,
        r.max_tokens == Some(MAX_TOKENS),
        r.messages@.len() == 2,
        r.messages@[0].0@ == "system"@,
        r.messages@[0].1@ == LEARN_PROMPT@,
        r.messages@[1].0@ == "user"@,
        r.messages@[1].1@ == material_text(
            context_of(
                history_of(db.messages(), msg.convo_id),
                without(msg.text@, LEARN_MENTION@),
            ),
        ),
{
    let history = db.get_convo_history(msg.convo_id);
    let latest = remove_all(msg.text.as_str(), LEARN_MENTION);
    let context = assemble_context(history, latest.as_str());
    let material = format_learn_material(context);
    completion_request(LEARN_MODEL, LEARN_PROMPT, &material)
}

/// Stores what was learned as a fact, after the facts that are there, and
/// hands it on as the answer to the administrator.
pub fn record_learning(db: &mut ChatHistoryDb, learned: &str) -> (r: Answer)
    ensures
        r matches Answer::Text(text) && text@ == learned@,
        final(db).facts().len() == old(db).facts().len() + 1,
        final(db).facts().drop_last() == old(db).facts(),
        final(db).facts().last()@ == learned@,
        final(db).messages() == old(db).messages(),
        final(db).conversations() == old(db).conversations(),
        final(db).extends(*old(db)),
        old(db).wf() ==> final(db).wf(),
{
    db.insert_fact(learned);
    Answer::Text(String::from_str(learned))
}

} // verus!
