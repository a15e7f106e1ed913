//! The update of the configuration, from request to reply.
//!
//! A request passes through three steps in a fixed order, each tried once:
//! its signature is checked, its text is written to the configuration file,
//! the daemon is reloaded. The first step is decided here. The other two are
//! carried out by the caller, who is told what to do by an [`Action`] and
//! tells how it went by an [`Event`]. Every way through ends in one reply.

use vstd::prelude::*;
use crate::persist::{WriteReport, WriteReportView};
use crate::reload::{
    restart_verdict, restart_wireguard, CommandOutcome, CommandOutcomeView, RestartError,
    RestartErrorView,
};
use crate::reply::{
    handle_rejection, rejection_reply, updated, updated_reply, Rejection, Reply, ReplyView,
};
use crate::signature::{authentic, verify_signature, TrustedKey};

verus! {

/// A request to install a configuration: the text, and the base64 text of a
/// signature over the bytes of that text.
#[derive(Clone, Debug, PartialEq, Eq)]
pub struct Message {
    pub message: String,
    pub signature: String,
}

/// A [`Message`] as sequences of characters.
pub ghost struct MessageView {
    pub message: Seq<char>,
    pub signature: Seq<char>,
}

impl View for Message {
    type V = MessageView;

    open spec fn view(&self) -> MessageView {
        MessageView { message: self.message@, signature: self.signature@ }
    }
}

/// How a request ended. Each one is answered with one reply.
#[derive(Clone, Debug, PartialEq, Eq)]
pub enum Outcome {
    /// The daemon runs with the new configuration.
    Applied,
    /// The signature does not hold. Nothing was written.
    AuthenticationFailed,
    /// The text could not be written; the detail is for the server's log.
    /// The daemon was left alone.
    PersistError(String),
    /// The text was written and the daemon did not take it up; the detail is
    /// for the server's log. The file keeps the new text.
    ReloadError(RestartError),
    /// The caller reported something that the stage was not waiting for.
    Unhandled,
}

/// How far a request has come.
#[derive(Clone, Debug, PartialEq, Eq)]
pub enum Stage {
    /// Nothing was decided yet.
    Received,
    /// The signature holds; the text is being written.
    Authenticated(String),
    /// The text was written; the daemon is being reloaded.
    Persisted,
    /// The request is done.
    Finished(Outcome),
}

/// What the caller reports.
#[derive(Clone, Debug, PartialEq, Eq)]
pub enum Event {
    /// A request came in.
    Request(Message),
    /// The writing of the configuration file ended.
    Written(WriteReport),
    /// The reload command was run.
    Reloaded(CommandOutcome),
}

/// What the caller is to do next.
#[derive(Clone, Debug, PartialEq, Eq)]
pub enum Action {
    /// Write this text to the configuration file and report `Written`.
    Persist(String),
    /// Run the reload command and report `Reloaded`.
    Reload,
    /// Send this reply. The request is done.
    Respond(Reply),
}

/// An [`Outcome`] as plain sequences.
pub ghost enum OutcomeView {
    Applied,
    AuthenticationFailed,
    PersistError(Seq<char>),
    ReloadError(RestartErrorView),
    Unhandled,
}

impl View for Outcome {
    type V = OutcomeView;

    open spec fn view(&self) -> OutcomeView {
        match self {
            Outcome::Applied => OutcomeView::Applied,
            Outcome::AuthenticationFailed => OutcomeView::AuthenticationFailed,
            Outcome::PersistError(detail) => OutcomeView::PersistError(detail@),
            Outcome::ReloadError(error) => OutcomeView::ReloadError(error@),
            Outcome::Unhandled => OutcomeView::Unhandled,
        }
    }
}

/// A [`Stage`] as plain sequences.
pub ghost enum StageView {
    Received,
    Authenticated(Seq<char>),
    Persisted,
    Finished(OutcomeView),
}

impl View for Stage {
    type V = StageView;

    open spec fn view(&self) -> StageView {
        match self {
            Stage::Received => StageView::Received,
            Stage::Authenticated(config) => StageView::Authenticated(config@),
            Stage::Persisted => StageView::Persisted,
            Stage::Finished(outcome) => StageView::Finished(outcome@),
        }
    }
}

/// An [`Event`] as plain sequences.
pub ghost enum EventView {
    Request(MessageView),
    Written(WriteReportView),
    Reloaded(CommandOutcomeView),
}

impl View for Event {
    type V = EventView;

    open spec fn view(&self) -> EventView {
        match self {
            Event::Request(request) => EventView::Request(request@),
            Event::Written(report) => EventView::Written(report@),
            Event::Reloaded(command) => EventView::Reloaded(command@),
        }
    }
}

/// An [`Action`] as plain sequences.
pub ghost enum ActionView {
    Persist(Seq<char>),
    Reload,
    Respond(ReplyView),
}

impl View for Action {
    type V = ActionView;

    open spec fn view(&self) -> ActionView {
        match self {
            Action::Persist(config) => ActionView::Persist(config@),
            Action::Reload => ActionView::Reload,
            Action::Respond(reply) => ActionView::Respond(reply@),
        }
    }
}

/// The rejection that stands for an outcome towards the client; none for the
/// one good outcome. The detail of a failure is left behind here.
pub open spec fn rejection_of(outcome: OutcomeView) -> Option<Rejection> {
    match outcome {
        OutcomeView::Applied => None,
        OutcomeView::AuthenticationFailed => Some(Rejection::IncorrectSignature),
        OutcomeView::PersistError(_) => Some(Rejection::FailWritingConfig),
        OutcomeView::ReloadError(_) => Some(Rejection::FailRestartingWireguard),
        OutcomeView::Unhandled => Some(Rejection::Unhandled),
    }
}

/// The reply that answers an outcome.
pub open spec fn reply_to(outcome: OutcomeView) -> ReplyView {
    match rejection_of(outcome) {
        None => updated_reply(),
        Some(err) => rejection_reply(err),
    }
}

/// What a stage asks of the caller. A request that was not looked at yet
/// asks for nothing; a request that is done asks for its reply to be sent.
pub open spec fn pending(stage: StageView) -> Option<ActionView> {
    match stage {
        StageView::Received => None,
        StageView::Authenticated(config) => Some(ActionView::Persist(config)),
        StageView::Persisted => Some(ActionView::Reload),
        StageView::Finished(outcome) => Some(ActionView::Respond(reply_to(outcome))),
    }
}

/// Whether `event` is a request whose signature holds under `key`.
pub open spec fn authentic_request(key: Seq<u8>, event: EventView) -> bool {
    event matches EventView::Request(request) && authentic(
        key,
        request.message,
        request.signature,
    )
}

/// The stage that follows `stage` on `event`, where `valid` tells whether the
/// signature of a request holds.
///
/// There is no way back and no second try: a request that is done stays as
/// it is, and a stage that is told what it was not waiting for ends as
/// `Unhandled`. Only a request that was just received looks at `valid`.
pub open spec fn transition_on(stage: StageView, event: EventView, valid: bool) -> StageView {
    match stage {
        StageView::Received => match event {
            EventView::Request(request) => if valid {
                StageView::Authenticated(request.message)
            } else {
                StageView::Finished(OutcomeView::AuthenticationFailed)
            },
            _ => StageView::Finished(OutcomeView::Unhandled),
        },
        StageView::Authenticated(_) => match event {
            EventView::Written(report) => match report {
                WriteReportView::Failed(detail) => StageView::Finished(
                    OutcomeView::PersistError(detail),
                ),
                _ => StageView::Persisted,
            },
            _ => StageView::Finished(OutcomeView::Unhandled),
        },
        StageView::Persisted => match event {
            EventView::Reloaded(command) => match restart_verdict(command) {
                Ok(_) => StageView::Finished(OutcomeView::Applied),
                Err(error) => StageView::Finished(OutcomeView::ReloadError(error)),
            },
            _ => StageView::Finished(OutcomeView::Unhandled),
        },
        StageView::Finished(outcome) => StageView::Finished(outcome),
    }
}

/// The stage that follows `stage` on `event`, with `key` as the trusted key:
/// a request is valid if its signature holds under that key.
pub open spec fn transition(key: Seq<u8>, stage: StageView, event: EventView) -> StageView {
    transition_on(stage, event, authentic_request(key, event))
}

impl Outcome {
    /// The rejection that stands for this outcome towards the client.
    pub fn rejection(&self) -> (err: Option<Rejection>)
        ensures
            err == rejection_of(self@),
    {
        match self {
            Outcome::Applied => None,
            Outcome::AuthenticationFailed => Some(Rejection::IncorrectSignature),
            Outcome::PersistError(_) => Some(Rejection::FailWritingConfig),
            Outcome::ReloadError(_) => Some(Rejection::FailRestartingWireguard),
            Outcome::Unhandled => Some(Rejection::Unhandled),
        }
    }

    /// The reply that answers this outcome.
    pub fn reply(&self) -> (reply: Reply)
        ensures
            reply@ == reply_to(self@),
    {
        match self.rejection() {
            None => updated(),
            Some(err) => handle_rejection(err),
        }
    }
}

/// What a stage asks of the caller, if anything.
pub fn pending_action(stage: &Stage) -> (action: Option<Action>)
    ensures
        action.is_some() == pending(stage@).is_some(),
        action.is_some() ==> action.unwrap()@ == pending(stage@).unwrap(),
{
    match stage {
        Stage::Received => None,
        Stage::Authenticated(config) => Some(Action::Persist(config.clone())),
        Stage::Persisted => Some(Action::Reload),
        Stage::Finished(outcome) => Some(Action::Respond(outcome.reply())),
    }
}

/// A request that is done, with the reply that answers it.
fn finish(outcome: Outcome) -> (step: (Stage, Action))
    ensures
        step.0@ == StageView::Finished(outcome@),
        Some(step.1@) == pending(step.0@),
{
    let reply = outcome.reply();
    (Stage::Finished(outcome), Action::Respond(reply))
}

/// Takes a request one step further, given the verdict on its signature:
/// returns the stage that follows `stage` on `event`, and what that stage
/// asks of the caller.
///
/// `valid` is read only when a request arrives at a stage that was waiting
/// for one. [`update`] is this function with the verdict of the trusted key.
pub fn advance(stage: Stage, event: Event, valid: bool) -> (step: (Stage, Action))
    ensures
        step.0@ == transition_on(stage@, event@, valid),
        Some(step.1@) == pending(step.0@),
{
    match stage {
        Stage::Received => match event {
            Event::Request(request) => {
                if valid {
                    let config = request.message.clone();
                    (Stage::Authenticated(request.message), Action::Persist(config))
                } else {
                    finish(Outcome::AuthenticationFailed)
                }
            },
            _ => finish(Outcome::Unhandled),
        },
        Stage::Authenticated(_) => match event {
            Event::Written(report) => match report {
                WriteReport::Failed(detail) => finish(Outcome::PersistError(detail)),
                _ => (Stage::Persisted, Action::Reload),
            },
            _ => finish(Outcome::Unhandled),
        },
        Stage::Persisted => match event {
            Event::Reloaded(command) => match restart_wireguard(command) {
                Ok(_) => finish(Outcome::Applied),
                Err(error) => finish(Outcome::ReloadError(error)),
            },
            _ => finish(Outcome::Unhandled),
        },
        Stage::Finished(outcome) => finish(outcome),
    }
}

/// Takes a request one step further: returns the stage that follows `stage`
/// on `event`, and what that stage asks of the caller.
///
/// The signature of a request is checked here, against the exact bytes of
/// its text. The text is handed out for writing only on a request whose
/// signature holds, and the reload is asked for only after the writing has
/// succeeded.
pub fn update(key: &TrustedKey, stage: Stage, event: Event) -> (step: (Stage, Action))
    ensures
        step.0@ == transition(key@, stage@, event@),
        Some(step.1@) == pending(step.0@),
{
    let valid = match (&stage, &event) {
        (Stage::Received, Event::Request(request)) => verify_signature(
            key,
            request.message.as_str(),
            request.signature.as_str(),
        ),
        _ => false,
    };
    advance(stage, event, valid)
}

/// The stage that a request has reached after `events`, told in this order
/// to a request that was just received.
pub open spec fn stage_after(key: Seq<u8>, events: Seq<EventView>) -> StageView
    decreases events.len(),
{
    if events.len() == 0 {
        StageView::Received
    } else {
        transition(key, stage_after(key, events.drop_last()), events.last())
    }
}

/// What the caller is asked to do in answer to `events[i]`.
pub open spec fn action_after(key: Seq<u8>, events: Seq<EventView>, i: int) -> ActionView
    recommends
        0 <= i < events.len(),
{
    pending(stage_after(key, events.take(i + 1))).unwrap()
}

/// Whether `event` reports that the configuration file holds the text.
pub open spec fn good_write(event: EventView) -> bool {
    event matches EventView::Written(report) && !(report is Failed)
}

/// Whether `event` reports that the reload command exited with status zero.
pub open spec fn good_reload(event: EventView) -> bool {
    event matches EventView::Reloaded(command) && restart_verdict(command) is Ok
}

/// Each event takes the request one transition further.
pub proof fn lemma_stage_after_step(key: Seq<u8>, events: Seq<EventView>, i: int)
    requires
        0 <= i < events.len(),
    ensures
        stage_after(key, events.take(i + 1)) == transition(
            key,
            stage_after(key, events.take(i)),
            events[i],
        ),
        pending(stage_after(key, events.take(i + 1))) is Some,
{
    assert(events.take(i + 1).drop_last() =~= events.take(i));
    assert(events.take(i + 1).last() == events[i]);
}

/// A request that is done stays as it is: once some events have led to an
/// outcome, every longer run of the same events has that outcome.
pub proof fn lemma_outcome_is_final(key: Seq<u8>, events: Seq<EventView>, done: int, i: int)
    requires
        0 <= done <= i <= events.len(),
        stage_after(key, events.take(done)) is Finished,
    ensures
        stage_after(key, events.take(i)) == stage_after(key, events.take(done)),
    decreases i - done,
{
    if i > done {
        lemma_outcome_is_final(key, events, done, i - 1);
        lemma_stage_after_step(key, events, i - 1);
    }
}

/// A request whose signature holds under the trusted key is authenticated,
/// and its text, unchanged, is handed out to be written.
pub proof fn lemma_valid_signature_is_persisted(key: Seq<u8>, events: Seq<EventView>)
    requires
        events.len() >= 1,
        authentic_request(key, events[0]),
    ensures
        stage_after(key, events.take(1)) == StageView::Authenticated(
            events[0]->Request_0.message,
        ),
        action_after(key, events, 0) == ActionView::Persist(events[0]->Request_0.message),
{
    lemma_stage_after_step(key, events, 0);
    assert(events.take(0).len() == 0);
}

/// A request whose signature does not hold is answered with the fixed 401
/// reply, and nothing else is ever asked for on its behalf: neither a write
/// nor a reload, whatever is reported afterwards.
pub proof fn lemma_invalid_signature_is_rejected(key: Seq<u8>, events: Seq<EventView>, i: int)
    requires
        0 <= i < events.len(),
        events[0] is Request,
        !authentic_request(key, events[0]),
    ensures
        stage_after(key, events.take(i + 1)) == StageView::Finished(
            OutcomeView::AuthenticationFailed,
        ),
        action_after(key, events, i) == ActionView::Respond(
            rejection_reply(Rejection::IncorrectSignature),
        ),
{
    lemma_stage_after_step(key, events, 0);
    assert(events.take(0).len() == 0);
    lemma_outcome_is_final(key, events, 1, i + 1);
}

/// When the signature holds and the writing fails, the answer is the fixed
/// 500 reply of the writing, and the reload is never asked for.
pub proof fn lemma_failed_write_is_reported(key: Seq<u8>, events: Seq<EventView>, i: int)
    requires
        1 <= i < events.len(),
        authentic_request(key, events[0]),
        events[1] is Written,
        !good_write(events[1]),
    ensures
        stage_after(key, events.take(i + 1)) == StageView::Finished(
            OutcomeView::PersistError(events[1]->Written_0->Failed_0),
        ),
        action_after(key, events, i) == ActionView::Respond(
            rejection_reply(Rejection::FailWritingConfig),
        ),
{
    lemma_valid_signature_is_persisted(key, events);
    lemma_stage_after_step(key, events, 1);
    lemma_outcome_is_final(key, events, 2, i + 1);
}

/// When the text was written and the reload command fails, the answer is the
/// fixed 500 reply of the reload. Nothing is asked for after that: the file
/// is not written again, so it keeps the new text.
pub proof fn lemma_failed_reload_is_reported(key: Seq<u8>, events: Seq<EventView>, i: int)
    requires
        2 <= i < events.len(),
        authentic_request(key, events[0]),
        good_write(events[1]),
        events[2] is Reloaded,
        !good_reload(events[2]),
    ensures
        stage_after(key, events.take(i + 1)) == StageView::Finished(
            OutcomeView::ReloadError(restart_verdict(events[2]->Reloaded_0)->Err_0),
        ),
        action_after(key, events, i) == ActionView::Respond(
            rejection_reply(Rejection::FailRestartingWireguard),
        ),
{
    lemma_valid_signature_is_persisted(key, events);
    lemma_stage_after_step(key, events, 1);
    lemma_stage_after_step(key, events, 2);
    lemma_outcome_is_final(key, events, 3, i + 1);
}

/// When all three steps succeed, the answer is the 200 reply of an update,
/// from the third event on.
pub proof fn lemma_success_is_reported(key: Seq<u8>, events: Seq<EventView>, i: int)
    requires
        2 <= i < events.len(),
        authentic_request(key, events[0]),
        good_write(events[1]),
        good_reload(events[2]),
    ensures
        action_after(key, events, 1) == ActionView::Reload,
        stage_after(key, events.take(i + 1)) == StageView::Finished(OutcomeView::Applied),
        action_after(key, events, i) == ActionView::Respond(updated_reply()),
{
    lemma_valid_signature_is_persisted(key, events);
    lemma_stage_after_step(key, events, 1);
    lemma_stage_after_step(key, events, 2);
    lemma_outcome_is_final(key, events, 3, i + 1);
}

/// Where each stage can only be found: a request is `Received` before the
/// first event and never again, `Authenticated` only right after a first
/// event that is a request whose signature holds, and `Persisted` only right
/// after a second event that reports a good write.
pub proof fn lemma_stages_in_order(key: Seq<u8>, events: Seq<EventView>, i: int)
    requires
        0 <= i <= events.len(),
    ensures
        stage_after(key, events.take(i)) is Received <==> i == 0,
        stage_after(key, events.take(i)) is Authenticated ==> i == 1 && authentic_request(
            key,
            events[0],
        ) && stage_after(key, events.take(i)) == StageView::Authenticated(
            events[0]->Request_0.message,
        ),
        stage_after(key, events.take(i)) is Persisted ==> i == 2 && authentic_request(
            key,
            events[0],
        ) && good_write(events[1]),
    decreases i,
{
    if i == 0 {
        assert(events.take(0).len() == 0);
    } else {
        lemma_stages_in_order(key, events, i - 1);
        lemma_stage_after_step(key, events, i - 1);
    }
}

/// The text is handed out for writing at most once, in answer to the first
/// event, only if that is a request whose signature holds, and it is that
/// request's text.
pub proof fn lemma_persist_needs_authentication(key: Seq<u8>, events: Seq<EventView>, i: int)
    requires
        0 <= i < events.len(),
        action_after(key, events, i) is Persist,
    ensures
        i == 0,
        authentic_request(key, events[0]),
        action_after(key, events, i) == ActionView::Persist(events[0]->Request_0.message),
{
    lemma_stages_in_order(key, events, i + 1);
}

/// The reload is asked for at most once, in answer to the second event, only
/// if the first was a request whose signature holds and the second reports a
/// good write.
pub proof fn lemma_reload_needs_persisted(key: Seq<u8>, events: Seq<EventView>, i: int)
    requires
        0 <= i < events.len(),
        action_after(key, events, i) is Reload,
    ensures
        i == 1,
        authentic_request(key, events[0]),
        good_write(events[1]),
        action_after(key, events, 0) is Persist,
{
    lemma_stages_in_order(key, events, i + 1);
    lemma_valid_signature_is_persisted(key, events);
}

/// The 200 reply of an update is sent only when all three steps succeeded.
pub proof fn lemma_success_needs_every_step(key: Seq<u8>, events: Seq<EventView>, i: int)
    requires
        0 <= i < events.len(),
        action_after(key, events, i) == ActionView::Respond(updated_reply()),
    ensures
        i >= 2,
        authentic_request(key, events[0]),
        good_write(events[1]),
        good_reload(events[2]),
    decreases i,
{
    lemma_stage_after_step(key, events, i);
    lemma_stages_in_order(key, events, i);
    lemma_stages_in_order(key, events, i + 1);
    let before = stage_after(key, events.take(i));
    let after = stage_after(key, events.take(i + 1));
    assert(after == StageView::Finished(OutcomeView::Applied));
    if before is Finished {
        lemma_stage_after_step(key, events, i - 1);
        assert(action_after(key, events, i - 1) == ActionView::Respond(updated_reply()));
        lemma_success_needs_every_step(key, events, i - 1);
    }
}

/// No reply tells more of a failure than its kind: two outcomes of one kind
/// are answered alike, whatever detail they hold.
pub proof fn lemma_reply_hides_detail(first: OutcomeView, second: OutcomeView)
    ensures
        first is PersistError && second is PersistError ==> reply_to(first) == reply_to(second),
        first is ReloadError && second is ReloadError ==> reply_to(first) == reply_to(second),
{
}

} // verus!
