//! Answering a turn: the two requests that race, the race itself, the
//! reading of the winner's output, and what follows from its action.

use vstd::prelude::*;
use vstd::string::*;
use crate::actions::{
    parse_ai_response, response_in, transfer_plus, Action, ActionView, AiResponse, BoundUpdate,
    TransferProgress, RECURRING_UPDATE, SUBSCRIPTIONS_UPDATE,
};
use crate::database::{
    assemble_context, context_of, history_of, turns_view, ChatHistoryDb, Message,
};
use crate::json::json_document;
use crate::openai::{
    completion_request, get_chatbot_prompt, prompt_text, CompletionRequest, GatewayError,
    MAX_TOKENS,
};

verus! {

/// Seconds the primary model has before the fallback model is asked.
pub const DEADLINE_SECS: u64 = 500;

/// How turns are answered.
#[derive(Clone, Debug, PartialEq, Eq)]
pub struct ResponderConfig {
    /// The standing instructions at the head of every prompt.
    pub initial_prompt: String,
    /// Whether the model may ask for actions.
    pub actions_enabled: bool,
    /// The model that is asked first.
    pub main_model: String,
    /// The model that is asked when the first one is late.
    pub fallback_model: String,
}

/// The two requests of one turn. They differ in the model only.
#[derive(Clone, Debug, PartialEq, Eq)]
pub struct Exchange {
    pub primary: CompletionRequest,
    pub fallback: CompletionRequest,
}

/// Where the race between the primary model and the deadline stands.
#[derive(Clone, Copy, Debug, PartialEq, Eq, Structural)]
pub enum RaceState {
    /// The primary model was asked; neither it nor the deadline came.
    Primary,
    /// The deadline came first; the fallback model was asked.
    Fallback,
    /// The outcome is decided.
    Finished,
}

/// What can happen during a race.
#[derive(Debug, PartialEq, Eq)]
pub enum RaceEvent {
    /// The primary model answered or failed.
    PrimaryReplied(Result<String, GatewayError>),
    /// The deadline passed.
    DeadlineElapsed,
    /// The fallback model answered or failed.
    FallbackReplied(Result<String, GatewayError>),
}

/// What the driver of a race does next.
#[derive(Debug, PartialEq, Eq)]
pub enum RaceAction {
    /// Nothing: whatever came is discarded.
    Wait,
    /// Ask the fallback model.
    InvokeFallback,
    /// The race is over, with this outcome.
    Deliver(Result<String, GatewayError>),
}

/// One step of the race. The primary model decides where it comes before
/// the deadline, whether it answered or failed. Once the deadline came, the
/// primary model is abandoned: what it still sends is discarded, and the
/// fallback model decides. Once the outcome is decided nothing changes it.
pub open spec fn race_step(state: RaceState, event: RaceEvent) -> (RaceState, RaceAction) {
    match (state, event) {
        (RaceState::Primary, RaceEvent::PrimaryReplied(outcome)) => (
            RaceState::Finished,
            RaceAction::Deliver(outcome),
        ),
        (RaceState::Primary, RaceEvent::DeadlineElapsed) => (
            RaceState::Fallback,
            RaceAction::InvokeFallback,
        ),
        (RaceState::Fallback, RaceEvent::FallbackReplied(outcome)) => (
            RaceState::Finished,
            RaceAction::Deliver(outcome),
        ),
        _ => (state, RaceAction::Wait),
    }
}

/// See [`race_step`].
pub fn step(state: RaceState, event: RaceEvent) -> (r: (RaceState, RaceAction))
    ensures
        r == race_step(state, event),
{
    match state {
        RaceState::Primary => match event {
            RaceEvent::PrimaryReplied(outcome) => (RaceState::Finished, RaceAction::Deliver(outcome)),
            RaceEvent::DeadlineElapsed => (RaceState::Fallback, RaceAction::InvokeFallback),
            RaceEvent::FallbackReplied(_) => (RaceState::Primary, RaceAction::Wait),
        },
        RaceState::Fallback => match event {
            RaceEvent::FallbackReplied(outcome) => (
                RaceState::Finished,
                RaceAction::Deliver(outcome),
            ),
            _ => (RaceState::Fallback, RaceAction::Wait),
        },
        RaceState::Finished => (RaceState::Finished, RaceAction::Wait),
    }
}

/// The state of a race after `events`, from its beginning.
pub open spec fn race_state(events: Seq<RaceEvent>) -> RaceState
    decreases events.len(),
{
    if events.len() == 0 {
        RaceState::Primary
    } else {
        race_step(race_state(events.drop_last()), events.last()).0
    }
}

/// What the driver did upon the last of `events`.
pub open spec fn race_action(events: Seq<RaceEvent>) -> RaceAction
    recommends
        events.len() > 0,
{
    race_step(race_state(events.drop_last()), events.last()).1
}

/// How often the fallback model was asked during `events`.
pub open spec fn fallback_calls(events: Seq<RaceEvent>) -> nat
    decreases events.len(),
{
    if events.len() == 0 {
        0
    } else {
        fallback_calls(events.drop_last()) + if race_action(events) is InvokeFallback {
            1nat
        } else {
            0nat
        }
    }
}

/// How often an outcome was delivered during `events`.
pub open spec fn deliveries(events: Seq<RaceEvent>) -> nat
    decreases events.len(),
{
    if events.len() == 0 {
        0
    } else {
        deliveries(events.drop_last()) + if race_action(events) is Deliver {
            1nat
        } else {
            0nat
        }
    }
}

/// The outcome that was delivered during `events`, where one was.
pub open spec fn delivered(events: Seq<RaceEvent>) -> Option<Result<String, GatewayError>>
    decreases events.len(),
{
    if events.len() == 0 {
        None
    } else {
        match delivered(events.drop_last()) {
            Some(outcome) => Some(outcome),
            None => match race_action(events) {
                RaceAction::Deliver(outcome) => Some(outcome),
                _ => None,
            },
        }
    }
}

/// Whatever happens and in whatever order: while the primary model is
/// awaited the fallback model was never asked; it is asked exactly once when
/// the deadline comes first, and never again; and an outcome is delivered
/// exactly once, when the race finishes.
pub proof fn lemma_race(events: Seq<RaceEvent>)
    ensures
        race_state(events) is Primary ==> fallback_calls(events) == 0 && deliveries(events) == 0,
        race_state(events) is Fallback ==> fallback_calls(events) == 1 && deliveries(events) == 0,
        race_state(events) is Finished ==> fallback_calls(events) <= 1 && deliveries(events) == 1,
        deliveries(events) == 0 <==> delivered(events) is None,
    decreases events.len(),
{
    if events.len() > 0 {
        lemma_race(events.drop_last());
    }
}

/// Where the primary model comes first, its outcome is the outcome of the
/// race, answer or failure, and the fallback model is never asked, whatever
/// comes later.
pub proof fn lemma_primary_first(events: Seq<RaceEvent>, outcome: Result<String, GatewayError>)
    requires
        events.len() > 0,
        events[0] == RaceEvent::PrimaryReplied(outcome),
    ensures
        race_state(events) is Finished,
        fallback_calls(events) == 0,
        delivered(events) == Some(outcome),
    decreases events.len(),
{
    let front = events.drop_last();
    if events.len() == 1 {
        assert(front.len() == 0);
        assert(events.last() == events[0]);
        assert(race_state(front) is Primary);
        assert(fallback_calls(front) == 0);
        assert(delivered(front) is None);
    } else {
        assert(front[0] == events[0]);
        lemma_primary_first(front, outcome);
    }
}

/// Where the deadline comes first, the fallback model is asked at once and
/// exactly once, and everything that the primary model sends afterwards is
/// discarded: the race stays open until the fallback model comes.
pub proof fn lemma_deadline_first(events: Seq<RaceEvent>)
    requires
        events.len() > 0,
        events[0] is DeadlineElapsed,
    ensures
        fallback_calls(events) == 1,
        !(race_state(events) is Primary),
        (forall|i: int| 0 <= i < events.len() ==> !(#[trigger] events[i] is FallbackReplied))
            ==> race_state(events) is Fallback && delivered(events) is None,
    decreases events.len(),
{
    if events.len() == 1 {
        let front = events.drop_last();
        assert(front.len() == 0);
        assert(events.last() == events[0]);
        assert(race_state(front) is Primary);
        assert(fallback_calls(front) == 0);
        assert(delivered(front) is None);
    } else {
        let front = events.drop_last();
        assert(front[0] == events[0]);
        lemma_deadline_first(front);
        lemma_race(front);
        if forall|i: int| 0 <= i < events.len() ==> !(#[trigger] events[i] is FallbackReplied) {
            assert forall|i: int| 0 <= i < front.len() implies !(
            #[trigger] front[i] is FallbackReplied) by {
                assert(front[i] == events[i]);
            }
            assert(!(events.last() is FallbackReplied)) by {
                assert(events.last() == events[events.len() - 1]);
            }
        }
    }
}

/// Once the fallback model was asked, its outcome is final: the first of
/// its answers or failures is what the race delivers, and nothing that
/// comes later changes that.
pub proof fn lemma_fallback_final(
    events: Seq<RaceEvent>,
    outcome: Result<String, GatewayError>,
    later: Seq<RaceEvent>,
)
    requires
        race_state(events) is Fallback,
    ensures
        race_state(events.push(RaceEvent::FallbackReplied(outcome)) + later) is Finished,
        delivered(events.push(RaceEvent::FallbackReplied(outcome)) + later) == Some(outcome),
        fallback_calls(events.push(RaceEvent::FallbackReplied(outcome)) + later) == 1,
    decreases later.len(),
{
    let decided = events.push(RaceEvent::FallbackReplied(outcome));
    lemma_race(events);
    if later.len() == 0 {
        assert(decided + later =~= decided);
        assert(decided.drop_last() =~= events);
        assert(decided.last() == RaceEvent::FallbackReplied(outcome));
    } else {
        let whole = decided + later;
        assert(whole.drop_last() =~= decided + later.drop_last());
        lemma_fallback_final(events, outcome, later.drop_last());
    }
}

/// The two requests for the turn `msg`: the prompt with the stored facts,
/// the stored history of the conversation within its budget, and the turn
/// itself last.
pub fn plan_response(db: &ChatHistoryDb, msg: &Message, config: &ResponderConfig) -> (r: Exchange)
    ensures
        r.primary.model@ == config.main_model@,
        r.fallback.model@ == config.fallback_model@,
        asks(r.primary, *db, *msg, *config),
        asks(r.fallback, *db, *msg, *config),
{
    let facts = db.get_all_facts();
    let prompt = get_chatbot_prompt(
        config.initial_prompt.as_str(),
        config.actions_enabled,
        &facts,
    );
    let history = db.get_convo_history(msg.convo_id);
    let context = assemble_context(history, msg.text.as_str());
    let primary = completion_request(config.main_model.as_str(), prompt.as_str(), &context);
    let fallback = completion_request(config.fallback_model.as_str(), prompt.as_str(), &context);
    proof {
        lemma_request_turns(primary, context@);
        lemma_request_turns(fallback, context@);
    }
    Exchange { primary, fallback }
}

/// `request` asks for the answer to `msg`: under the prompt of the
/// configuration with the stored facts, and with the stored history of the
/// conversation within its budget, then the turn itself.
pub open spec fn asks(
    request: CompletionRequest,
    db: ChatHistoryDb,
    msg: Message,
    config: ResponderConfig,
) -> bool {
    &&& request.max_tokens == Some(MAX_TOKENS)
    &&& request.messages@.len() > 0
    &&& request.messages@[0].0@ == "system"@
    &&& request.messages@[0].1@ == prompt_text(
        config.initial_prompt@,
        config.actions_enabled,
        db.facts(),
    )
    &&& turns_view(request.messages@.skip(1)) == context_of(
        history_of(db.messages(), msg.convo_id),
        msg.text@,
    )
}

proof fn lemma_request_turns(request: CompletionRequest, context: Seq<(String, String)>)
    requires
        request.messages@.len() == context.len() + 1,
        forall|i: int|
            0 <= i < context.len() ==> (#[trigger] request.messages@[i + 1]).0@ == context[i].0@
                && request.messages@[i + 1].1@ == context[i].1@,
    ensures
        turns_view(request.messages@.skip(1)) == turns_view(context),
{
    let sent = request.messages@.skip(1);
    assert forall|i: int| 0 <= i < context.len() implies turns_view(sent)[i] == turns_view(
        context,
    )[i] by {
        assert(sent[i] == request.messages@[i + 1]);
    }
    assert(turns_view(sent) =~= turns_view(context));
}

/// What the output of a model means: a structured record where actions are
/// enabled and the output is one, a plain reply otherwise.
pub fn interpret_reply(raw: &str, actions_enabled: bool) -> (r: AiResponse)
    ensures
        actions_enabled ==> r@ == response_in(raw@, json_document(raw@)),
        !actions_enabled ==> r@ == crate::actions::plain_reply(raw@),
{
    if actions_enabled {
        parse_ai_response(raw)
    } else {
        AiResponse { action: Action::Null, text: String::from_str(raw) }
    }
}

/// What an action asks of the outside world.
#[derive(Clone, Debug, PartialEq, Eq)]
pub enum Effect {
    /// Nothing: the reply is all there is.
    Nothing,
    /// Run these updates, in order, and stop at the first that fails.
    Transfer(Vec<BoundUpdate>),
    /// Send nothing and store nothing.
    Suppress,
}

/// What `action` asks of the outside world: nothing for `Null`, the two
/// updates of the transfer for `TransferPlus`, silence for `Abort`.
pub fn effect_of(action: &Action) -> (r: Effect)
    ensures
        match action@ {
            ActionView::Null => r is Nothing,
            ActionView::Abort => r is Suppress,
            ActionView::TransferPlus { old_uname, new_uname } => {
                &&& r matches Effect::Transfer(plan)
                &&& plan@.len() == 2
                &&& plan@[0].moves(SUBSCRIPTIONS_UPDATE@, old_uname, new_uname)
                &&& plan@[1].moves(RECURRING_UPDATE@, old_uname, new_uname)
            },
        },
{
    match action {
        Action::Null => Effect::Nothing,
        Action::Abort => Effect::Suppress,
        Action::TransferPlus { old_uname, new_uname } => Effect::Transfer(
            transfer_plus(old_uname.as_str(), new_uname.as_str()),
        ),
    }
}

/// What is said back for a turn.
#[derive(Clone, Debug, PartialEq, Eq)]
pub enum Answer {
    /// Nothing is sent and nothing is stored.
    Suppressed,
    /// This text, where it is not empty.
    Text(String),
}

impl Answer {
    /// The text to send and to store, where there is any.
    pub open spec fn deliverable(self) -> Option<Seq<char>> {
        match self {
            Answer::Text(text) => if text@.len() > 0 {
                Some(text@)
            } else {
                None
            },
            Answer::Suppressed => None,
        }
    }

    /// See [`Answer::deliverable`].
    pub fn text_to_deliver<'a>(&'a self) -> (r: Option<&'a str>)
        ensures
            r is Some == self.deliverable() is Some,
            r matches Some(text) ==> self.deliverable() == Some(text@),
    {
        match self {
            Answer::Text(text) => if text.as_str().unicode_len() > 0 {
                Some(text.as_str())
            } else {
                None
            },
            Answer::Suppressed => None,
        }
    }
}

/// The failure of the one action that changes accounts. It ends the turn
/// without a reply.
#[derive(Clone, Copy, Debug, PartialEq, Eq, Structural)]
pub enum RespondError {
    /// An update of the transfer failed.
    TransferFailed,
    /// The transfer is not finished: an update of its plan is still to run.
    TransferPending,
}

/// The answer to a turn once its action was carried out, `transfer` telling
/// where the transfer stands that a `TransferPlus` asked for. `Abort`
/// suppresses the answer. A transfer that failed ends the turn with a
/// failure and without an answer; one that succeeded, whatever it changed,
/// lets the reply through. `Null` lets the reply through.
pub fn conclude(response: AiResponse, transfer: TransferProgress) -> (r: Result<Answer, RespondError>)
    ensures
        match response.action@ {
            ActionView::Abort => r matches Ok(Answer::Suppressed),
            ActionView::Null => r matches Ok(Answer::Text(text)) && text@ == response.text@,
            ActionView::TransferPlus { .. } => match transfer {
                TransferProgress::Succeeded => r matches Ok(Answer::Text(text)) && text@
                    == response.text@,
                TransferProgress::Failed => r == Err::<Answer, RespondError>(
                    RespondError::TransferFailed,
                ),
                TransferProgress::Run(_) => r == Err::<Answer, RespondError>(
                    RespondError::TransferPending,
                ),
            },
        },
{
    match response.action {
        Action::Abort => Ok(Answer::Suppressed),
        Action::Null => Ok(Answer::Text(response.text)),
        Action::TransferPlus { .. } => match transfer {
            TransferProgress::Succeeded => Ok(Answer::Text(response.text)),
            TransferProgress::Failed => Err(RespondError::TransferFailed),
            TransferProgress::Run(_) => Err(RespondError::TransferPending),
        },
    }
}

} // verus!
