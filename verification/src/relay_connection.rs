//! A client's websocket connection to the relay: what each incoming message
//! is answered with, and when a run of failures closes the connection.
use vstd::prelude::*;

use crate::nostr_event::{
    client_message_from_json, parse_client_message, ClientMessage, ClientMessageView, EventView,
    NostrEvent,
};

verus! {

/// After this many failed iterations in a row the connection is closed.
pub const MAX_CONSECUTIVE_ERRORS: u32 = 10;

/// What the relay answers to an `EVENT` message.
pub const EVENT_BLOCKED_MESSAGE: &'static str = "blocked: This relay does not store events";

/// What the relay answers to any other client message.
pub const UNSUPPORTED_MESSAGE: &'static str = "Unsupported message.";

/// The state of a client connection: how many iterations in a row have
/// failed.
pub struct RelayConnection {
    consecutive_errors: u32,
}

/// Whether the read loop goes on after an iteration.
#[derive(PartialEq, Eq, Structural, Clone, Copy, Debug)]
pub enum LoopControl {
    Continue,
    Close,
}

/// A relay message that answers a client.
pub enum RelayReply {
    /// `["OK", <event id>, <status>, <message>]`: whether an event was accepted
    EventOk { event_id: String, status: bool, message: String },
    /// `["NOTICE", <message>]`
    Notice { message: String },
}

/// A frame read from the websocket.
pub enum IncomingMessage {
    Text(String),
    /// A binary, ping, pong, close or raw frame.
    Other,
}

/// What an iteration of the read loop does with a frame.
pub enum IterationPlan {
    /// Nothing: the frame is not text.
    Ignore,
    /// The text is not a client message: the iteration fails.
    Fail,
    /// Send the reply.
    Reply(RelayReply),
    /// Save the event and send notifications for it, then send the reply.
    ProcessEventThenReply(NostrEvent, RelayReply),
}

/// The reply to a client message, by its values: an event is refused
/// storage with an `OK` that names it, anything else gets a notice.
pub open spec fn reply_for(message: ClientMessageView) -> (Option<Seq<char>>, bool, Seq<char>) {
    match message {
        ClientMessageView::Event(ev) => (Some(ev.id), false, EVENT_BLOCKED_MESSAGE@),
        ClientMessageView::Other => (None, false, UNSUPPORTED_MESSAGE@),
    }
}

/// A reply by its values: the event id for `OK` (`None` for a notice), the
/// status and the message.
pub open spec fn reply_view(r: RelayReply) -> (Option<Seq<char>>, bool, Seq<char>) {
    match r {
        RelayReply::EventOk { event_id, status, message } => (Some(event_id@), status, message@),
        RelayReply::Notice { message } => (None, false, message@),
    }
}

/// The consecutive-failure count after one more iteration.
pub open spec fn next_error_count(errors: nat, succeeded: bool) -> nat {
    if succeeded {
        0
    } else {
        errors + 1
    }
}

/// The consecutive-failure count after a run of iteration outcomes, from a
/// fresh connection.
pub open spec fn error_count_after(outcomes: Seq<bool>) -> nat
    decreases outcomes.len(),
{
    if outcomes.len() == 0 {
        0
    } else {
        next_error_count(error_count_after(outcomes.drop_last()), outcomes.last())
    }
}

/// Whether `r` is what an iteration does with `frame`: a text frame that
/// holds a client message is answered (an event is first saved and
/// notified), a text frame that does not fails, any other frame is ignored.
pub open spec fn iteration_plan_matches(r: IterationPlan, frame: IncomingMessage) -> bool {
    match frame {
        IncomingMessage::Other => r is Ignore,
        IncomingMessage::Text(text) => match client_message_from_json(text@) {
            None => r is Fail,
            Some(ClientMessageView::Event(ev)) => r matches IterationPlan::ProcessEventThenReply(
                e,
                reply,
            ) && e@ == ev && reply_view(reply) == reply_for(ClientMessageView::Event(ev)),
            Some(ClientMessageView::Other) => r matches IterationPlan::Reply(reply) && reply_view(
                reply,
            ) == reply_for(ClientMessageView::Other),
        },
    }
}

/// One thing that an iteration of the read loop does.
pub enum Effect {
    /// Save the iteration's event, where the relay keeps it.
    SaveEvent,
    /// Send the notifications that the iteration's event calls for.
    SendNotifications,
    /// Send the reply to the client.
    Send(RelayReply),
    /// Fail the iteration.
    Fail,
}

pub enum EffectView {
    SaveEvent,
    SendNotifications,
    Send((Option<Seq<char>>, bool, Seq<char>)),
    Fail,
}

pub open spec fn effect_view(e: Effect) -> EffectView {
    match e {
        Effect::SaveEvent => EffectView::SaveEvent,
        Effect::SendNotifications => EffectView::SendNotifications,
        Effect::Send(reply) => EffectView::Send(reply_view(reply)),
        Effect::Fail => EffectView::Fail,
    }
}

pub open spec fn effects_view(es: Vec<Effect>) -> Seq<EffectView> {
    es@.map_values(|e: Effect| effect_view(e))
}

/// What an iteration does with a frame, in order, and the event that its
/// effects are about: an event is saved, then notified, then answered; any
/// other client message is answered; text that is no client message fails
/// the iteration; any other frame does nothing.
pub open spec fn frame_effects(frame: IncomingMessage) -> (Option<EventView>, Seq<EffectView>) {
    match frame {
        IncomingMessage::Other => (None, seq![]),
        IncomingMessage::Text(text) => match client_message_from_json(text@) {
            None => (None, seq![EffectView::Fail]),
            Some(ClientMessageView::Event(ev)) => (
                Some(ev),
                seq![
                    EffectView::SaveEvent,
                    EffectView::SendNotifications,
                    EffectView::Send(reply_for(ClientMessageView::Event(ev))),
                ],
            ),
            Some(ClientMessageView::Other) => (
                None,
                seq![EffectView::Send(reply_for(ClientMessageView::Other))],
            ),
        },
    }
}

/// The effects of a plan, in order, and the event they are about.
pub open spec fn plan_effects(plan: IterationPlan) -> (Option<EventView>, Seq<EffectView>) {
    match plan {
        IterationPlan::Ignore => (None, seq![]),
        IterationPlan::Fail => (None, seq![EffectView::Fail]),
        IterationPlan::Reply(reply) => (None, seq![EffectView::Send(reply_view(reply))]),
        IterationPlan::ProcessEventThenReply(event, reply) => (
            Some(event@),
            seq![EffectView::SaveEvent, EffectView::SendNotifications, EffectView::Send(reply_view(reply))],
        ),
    }
}

impl IterationPlan {
    /// The plan's effects, in the order in which they are carried out, and
    /// the event that they are about.
    pub fn into_effects(self) -> (r: (Option<NostrEvent>, Vec<Effect>))
        ensures
            (
                match r.0 {
                    Some(e) => Some(e@),
                    None => None::<EventView>,
                },
                effects_view(r.1),
            ) == plan_effects(self),
    {
        let mut effects: Vec<Effect> = Vec::new();
        match self {
            IterationPlan::Ignore => {
                assert(effects_view(effects) =~= Seq::<EffectView>::empty());
                (None, effects)
            },
            IterationPlan::Fail => {
                effects.push(Effect::Fail);
                assert(effects_view(effects) =~= seq![EffectView::Fail]);
                (None, effects)
            },
            IterationPlan::Reply(reply) => {
                let ghost rv = reply_view(reply);
                effects.push(Effect::Send(reply));
                assert(effects_view(effects) =~= seq![EffectView::Send(rv)]);
                (None, effects)
            },
            IterationPlan::ProcessEventThenReply(event, reply) => {
                let ghost rv = reply_view(reply);
                effects.push(Effect::SaveEvent);
                effects.push(Effect::SendNotifications);
                effects.push(Effect::Send(reply));
                assert(effects_view(effects) =~= seq![
                    EffectView::SaveEvent,
                    EffectView::SendNotifications,
                    EffectView::Send(rv),
                ]);
                (Some(event), effects)
            },
        }
    }
}

/// An iteration's plan has the effects that its frame calls for, in order:
/// an event is saved once, then notified once, then answered.
pub proof fn lemma_iteration_effects_in_order(r: IterationPlan, frame: IncomingMessage)
    requires
        iteration_plan_matches(r, frame),
    ensures
        plan_effects(r) == frame_effects(frame),
{
}

impl RelayConnection {
    /// The number of iterations in a row that have failed.
    pub closed spec fn errors(&self) -> nat {
        self.consecutive_errors as nat
    }

    /// Whether the connection has been closed for failing too often.
    pub open spec fn is_closed(&self) -> bool {
        self.errors() >= MAX_CONSECUTIVE_ERRORS
    }

    /// A new connection, with no failures.
    pub fn new() -> (r: RelayConnection)
        ensures
            r.errors() == 0,
    {
        RelayConnection { consecutive_errors: 0 }
    }

    /// The number of iterations in a row that have failed.
    pub fn consecutive_errors(&self) -> (r: u32)
        ensures
            r == self.errors(),
    {
        self.consecutive_errors
    }

    /// Records the outcome of an iteration of the read loop: a success
    /// resets the count of failures, a failure adds one, and the loop is
    /// closed when the count reaches `MAX_CONSECUTIVE_ERRORS`.
    pub fn record_iteration(&mut self, succeeded: bool) -> (r: LoopControl)
        requires
            !old(self).is_closed(),
        ensures
            final(self).errors() == next_error_count(old(self).errors(), succeeded),
            r == (if final(self).is_closed() {
                LoopControl::Close
            } else {
                LoopControl::Continue
            }),
    {
        if succeeded {
            self.consecutive_errors = 0;
            LoopControl::Continue
        } else {
            self.consecutive_errors = self.consecutive_errors + 1;
            if self.consecutive_errors >= MAX_CONSECUTIVE_ERRORS {
                LoopControl::Close
            } else {
                LoopControl::Continue
            }
        }
    }

    /// The reply to a client message: an `OK` that refuses to store an
    /// event, or a notice that the message is not supported.
    pub fn handle_client_message(&self, message: &ClientMessage) -> (r: RelayReply)
        ensures
            reply_view(r) == reply_for(message@),
    {
        match message {
            ClientMessage::Event(event) => RelayReply::EventOk {
                event_id: event.id().clone(),
                status: false,
                message: EVENT_BLOCKED_MESSAGE.to_owned(),
            },
            ClientMessage::Other => RelayReply::Notice { message: UNSUPPORTED_MESSAGE.to_owned() },
        }
    }

    /// An iteration of the read loop on what reading the websocket gave:
    /// `None` when the read failed, which fails the iteration.
    pub fn run_loop_iteration_if_raw_message_is_ok(
        &self,
        raw_message: Option<IncomingMessage>,
    ) -> (r: IterationPlan)
        ensures
            match raw_message {
                None => r is Fail,
                Some(frame) => iteration_plan_matches(r, frame),
            },
    {
        match raw_message {
            None => IterationPlan::Fail,
            Some(frame) => self.run_loop_iteration(frame),
        }
    }

    /// What an iteration of the read loop does with a frame: a text frame
    /// that holds a client message is answered (an event is first saved and
    /// notified), a text frame that does not fails, any other frame is
    /// ignored.
    pub fn run_loop_iteration(&self, frame: IncomingMessage) -> (r: IterationPlan)
        ensures
            iteration_plan_matches(r, frame),
            plan_effects(r) == frame_effects(frame),
    {
        let ghost f = frame;
        let r = self.plan_iteration(frame);
        proof {
            lemma_iteration_effects_in_order(r, f);
        }
        r
    }

    fn plan_iteration(&self, frame: IncomingMessage) -> (r: IterationPlan)
        ensures
            iteration_plan_matches(r, frame),
    {
        match frame {
            IncomingMessage::Other => IterationPlan::Ignore,
            IncomingMessage::Text(text) => match parse_client_message(text.as_str()) {
                None => IterationPlan::Fail,
                Some(message) => {
                    let reply = self.handle_client_message(&message);
                    match message {
                        ClientMessage::Event(event) => IterationPlan::ProcessEventThenReply(
                            event,
                            reply,
                        ),
                        ClientMessage::Other => IterationPlan::Reply(reply),
                    }
                },
            },
        }
    }
}

/// Iterations in a row fail exactly as often as the trailing failures of
/// the outcomes: the count starts at zero and every success resets it.
pub proof fn lemma_error_count_is_trailing_failures(outcomes: Seq<bool>, k: nat)
    requires
        k <= outcomes.len(),
    ensures
        error_count_after(outcomes) >= k <==> forall|i: int|
            outcomes.len() - k <= i < outcomes.len() ==> !#[trigger] outcomes[i],
    decreases outcomes.len(),
{
    if outcomes.len() > 0 && k > 0 {
        let prev = outcomes.drop_last();
        lemma_error_count_is_trailing_failures(prev, (k - 1) as nat);
        if error_count_after(outcomes) >= k {
            assert forall|i: int| outcomes.len() - k <= i < outcomes.len() implies !#[trigger] outcomes[i] by {
                if i < outcomes.len() - 1 {
                    assert(prev[i] == outcomes[i]);
                }
            }
        }
        if forall|i: int| outcomes.len() - k <= i < outcomes.len() ==> !#[trigger] outcomes[i] {
            assert(!outcomes[outcomes.len() - 1]);
            assert forall|i: int| prev.len() - (k - 1) <= i < prev.len() implies !#[trigger] prev[i] by {
                assert(prev[i] == outcomes[i]);
            }
        }
    }
}

/// The connection is closed after a run of outcomes exactly when its last
/// `MAX_CONSECUTIVE_ERRORS` iterations all failed, and a success always
/// keeps it open.
pub proof fn lemma_closes_after_max_consecutive_failures(outcomes: Seq<bool>)
    ensures
        error_count_after(outcomes) >= MAX_CONSECUTIVE_ERRORS <==> (outcomes.len()
            >= MAX_CONSECUTIVE_ERRORS && forall|i: int|
            outcomes.len() - MAX_CONSECUTIVE_ERRORS <= i < outcomes.len() ==> !#[trigger] outcomes[i]),
        outcomes.len() > 0 && outcomes.last() ==> error_count_after(outcomes) == 0,
{
    lemma_error_count_never_exceeds_length(outcomes);
    if outcomes.len() >= MAX_CONSECUTIVE_ERRORS {
        lemma_error_count_is_trailing_failures(outcomes, MAX_CONSECUTIVE_ERRORS as nat);
    }
}

/// Recording one more outcome on a connection that has recorded `outcomes`
/// from new gives the count after `outcomes` and that outcome: a
/// connection's count is always `error_count_after` of what it recorded.
pub proof fn lemma_error_count_after_push(outcomes: Seq<bool>, succeeded: bool)
    ensures
        error_count_after(outcomes.push(succeeded)) == next_error_count(
            error_count_after(outcomes),
            succeeded,
        ),
{
    assert(outcomes.push(succeeded).drop_last() =~= outcomes);
}

/// Whether the read loop closes the connection right after the iteration
/// with index `i` of a run of outcomes.
pub open spec fn closes_after(outcomes: Seq<bool>, i: int) -> bool {
    error_count_after(outcomes.take(i + 1)) >= MAX_CONSECUTIVE_ERRORS
}

/// The read loop closes the connection right after iteration `i` exactly
/// when that iteration and the nine before it all failed; it stops at the
/// first such iteration, and with no such iteration it runs until the
/// stream ends (so nine failures, a success and nine failures never close
/// it).
pub proof fn lemma_run_loop_closes_at_ten_failures_in_a_row(outcomes: Seq<bool>, i: int)
    requires
        0 <= i < outcomes.len(),
    ensures
        closes_after(outcomes, i) <==> (i >= MAX_CONSECUTIVE_ERRORS - 1 && forall|k: int|
            i - (MAX_CONSECUTIVE_ERRORS - 1) <= k <= i ==> !#[trigger] outcomes[k]),
{
    let prefix = outcomes.take(i + 1);
    lemma_error_count_never_exceeds_length(prefix);
    if i >= MAX_CONSECUTIVE_ERRORS - 1 {
        lemma_error_count_is_trailing_failures(prefix, MAX_CONSECUTIVE_ERRORS as nat);
        if closes_after(outcomes, i) {
            assert forall|k: int| i - (MAX_CONSECUTIVE_ERRORS - 1) <= k <= i implies !#[trigger] outcomes[k] by {
                assert(prefix[k] == outcomes[k]);
            }
        }
        if forall|k: int| i - (MAX_CONSECUTIVE_ERRORS - 1) <= k <= i ==> !#[trigger] outcomes[k] {
            assert forall|k: int| prefix.len() - MAX_CONSECUTIVE_ERRORS <= k < prefix.len() implies !#[trigger] prefix[k] by {
                assert(prefix[k] == outcomes[k]);
            }
        }
    }
}

proof fn lemma_error_count_never_exceeds_length(outcomes: Seq<bool>)
    ensures
        error_count_after(outcomes) <= outcomes.len(),
    decreases outcomes.len(),
{
    if outcomes.len() > 0 {
        lemma_error_count_never_exceeds_length(outcomes.drop_last());
    }
}

} // verus!
