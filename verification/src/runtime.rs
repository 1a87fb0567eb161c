//! The actor runtime: one actor, its state, and the messages it is sent.
//!
//! The runtime is the only owner of the actor's state. It handles one message
//! at a time: the component host is run on the message and the current state,
//! and only a call that succeeded in full replaces the state. A message that
//! fails is answered with its error and changes nothing; the runtime goes on
//! with the next one.
//!
//! Waiting for the next message is the caller's part. So is what leaves the
//! process: every step hands back the log lines to print and the messages to
//! deliver, each of which has been recorded in the chain before.
use vstd::prelude::*;
use vstd::string::StringExecFns;
use crate::actor::{message_data, Event, EventModel, ACTOR_MESSAGE};
use crate::chain_emitter::{
    extend_history, lemma_extend_history_concat, ChainEmitter, ChainEvent, ChainEventModel,
};
use crate::error::ActorError;
use crate::json::{json_model, json_parse, Json};
use crate::store::{effect_views, EffectModel, HostEffect};
use crate::envelope::{body_of, body_view, header_views, headers_of, request_json, status_of};
use crate::wasm::{
    handle_call, http_call, is_invocation_error, CallModel, HttpOutcome, Invocation, WasmActor,
};

verus! {

#[verifier::external_type_specification]
#[verifier::external_body]
#[verifier::reject_recursive_types(T)]
pub struct ExReplySender<T>(tokio::sync::oneshot::Sender<T>);

/// `tokio::sync::oneshot::Sender::send`. Assumed, as documented: a value that
/// could not be sent is handed back.
pub assume_specification<T>[ tokio::sync::oneshot::Sender::<T>::send ](
    tx: tokio::sync::oneshot::Sender<T>,
    t: T,
) -> (r: Result<(), T>)
    ensures
        r matches Err(back) ==> back == t,
;

/// The answer to an HTTP request: status, headers and body.
pub type HttpResponse = (u16, Vec<(String, String)>, Option<Vec<u8>>);

/// A work item for the actor.
#[derive(Debug)]
#[allow(inconsistent_fields)]
pub enum ActorMessage {
    /// A message for the actor. The reply slot, where there is one, is
    /// resolved with the output or with the error.
    Regular {
        content: serde_json::Value,
        response: Option<tokio::sync::oneshot::Sender<Result<serde_json::Value, ActorError>>>,
    },
    /// An HTTP request for the actor. The reply slot is resolved with the
    /// response or with the error.
    Http {
        method: String,
        uri: String,
        headers: Vec<(String, String)>,
        body: Option<Vec<u8>>,
        response: tokio::sync::oneshot::Sender<Result<HttpResponse, ActorError>>,
    },
}

/// A message to deliver to another actor: a POST of `payload` to `address`.
#[derive(Debug)]
pub struct Delivery {
    pub address: String,
    pub payload: serde_json::Value,
}

/// What a [`Delivery`] holds.
pub struct DeliveryModel {
    pub address: Seq<char>,
    pub payload: Json,
}

impl View for Delivery {
    type V = DeliveryModel;

    open spec fn view(&self) -> DeliveryModel {
        DeliveryModel { address: self.address@, payload: json_model(self.payload) }
    }
}

/// What the caller has to do after a step: print the log lines and attempt
/// the deliveries, both in order. `failure` is the error that the message was
/// answered with, if it failed.
#[derive(Debug)]
pub struct Step {
    pub log_lines: Vec<String>,
    pub deliveries: Vec<Delivery>,
    pub failure: Option<ActorError>,
}

/// What answering one message left behind: the call that was made of the
/// sandbox, if one was made, the reply for the caller, and the step.
pub struct Answer<T> {
    pub call: Ghost<Option<CallModel>>,
    pub reply: Result<T, ActorError>,
    pub step: Step,
}

/// The call of the sandbox that a message asks for, given the state it finds
/// and whether the actor has the HTTP interface: `handle` for a regular
/// message, `handle-http` for an HTTP request to an actor with the interface,
/// and none for one to an actor without.
pub open spec fn expected_call(http_enabled: bool, msg: ActorMessage, state: Json) -> Option<
    CallModel,
> {
    match msg {
        ActorMessage::Regular { content, .. } => Some(handle_call(json_model(content), state)),
        ActorMessage::Http { method, uri, headers, body, .. } => if http_enabled {
            Some(
                http_call(
                    request_json(method@, uri@, header_views(headers@), body_view(body)),
                    state,
                ),
            )
        } else {
            None
        },
    }
}

/// What a step made of the state: the state it left, or the error that it
/// failed with.
pub open spec fn round_outcome(failure: Option<ActorError>, state: Json) -> Result<
    Json,
    ActorError,
> {
    match failure {
        None => Ok(state),
        Some(e) => Err(e),
    }
}

/// One message handled: the call that was made of the sandbox, if one was
/// made, and what the step made of the state.
pub struct Round {
    pub call: Option<CallModel>,
    pub outcome: Result<Json, ActorError>,
}

/// The outcomes of a list of rounds.
pub open spec fn outcomes_of(rounds: Seq<Round>) -> Seq<Result<Json, ActorError>> {
    rounds.map_values(|r: Round| r.outcome)
}

/// The deliveries of a list of steps, in the order of the steps.
pub open spec fn all_deliveries(steps: Seq<Step>) -> Seq<DeliveryModel>
    decreases steps.len(),
{
    if steps.len() == 0 {
        seq![]
    } else {
        all_deliveries(steps.drop_last()) + delivery_views(steps.last().deliveries@)
    }
}

/// What a list of deliveries holds.
pub open spec fn delivery_views(deliveries: Seq<Delivery>) -> Seq<DeliveryModel> {
    deliveries.map_values(|d: Delivery| d@)
}

/// The texts of a list of lines.
pub open spec fn line_views(lines: Seq<String>) -> Seq<Seq<char>> {
    lines.map_values(|l: String| l@)
}

/// The log lines among a list of effects, in order.
pub open spec fn log_lines_of(effects: Seq<EffectModel>) -> Seq<Seq<char>>
    decreases effects.len(),
{
    if effects.len() == 0 {
        seq![]
    } else {
        match effects.last() {
            EffectModel::Log { line } => log_lines_of(effects.drop_last()).push(line),
            EffectModel::Send { .. } => log_lines_of(effects.drop_last()),
        }
    }
}

/// The deliveries among a list of effects, in order.
pub open spec fn deliveries_of(effects: Seq<EffectModel>) -> Seq<DeliveryModel>
    decreases effects.len(),
{
    if effects.len() == 0 {
        seq![]
    } else {
        match effects.last() {
            EffectModel::Log { .. } => deliveries_of(effects.drop_last()),
            EffectModel::Send { address, payload } => deliveries_of(effects.drop_last()).push(
                DeliveryModel { address, payload },
            ),
        }
    }
}

/// The chain record of a delivery made at `timestamp`: an event of type
/// `actor-message` that names the address and the message.
pub open spec fn record_of(delivery: DeliveryModel, timestamp: Seq<char>) -> ChainEventModel {
    ChainEventModel {
        event: EventModel {
            type_: ACTOR_MESSAGE@,
            data: message_data(delivery.address, delivery.payload),
        },
        timestamp,
    }
}

/// The chain records of a list of deliveries.
pub open spec fn records_of(deliveries: Seq<DeliveryModel>, timestamp: Seq<char>) -> Seq<
    ChainEventModel,
> {
    deliveries.map_values(|d: DeliveryModel| record_of(d, timestamp))
}

/// The state after an outcome is committed: a success replaces the state
/// with its new state, a failure leaves the state as it was.
pub open spec fn committed(state: Json, outcome: Result<Json, ActorError>) -> Json {
    match outcome {
        Ok(new_state) => new_state,
        Err(_) => state,
    }
}

/// The state after a list of outcomes is committed one after the other,
/// from `state` on.
pub open spec fn state_after(state: Json, outcomes: Seq<Result<Json, ActorError>>) -> Json
    decreases outcomes.len(),
{
    if outcomes.len() == 0 {
        state
    } else {
        committed(state_after(state, outcomes.drop_last()), outcomes.last())
    }
}

/// The failure of an outcome, if it is one.
pub open spec fn failure_of<T>(outcome: Result<T, ActorError>) -> Option<ActorError> {
    match outcome {
        Ok(_) => None,
        Err(e) => Some(e),
    }
}

/// The call of `handle-http` that a request asks for on a state: the call
/// for an actor with the HTTP interface, none for one without.
pub open spec fn expected_http_call(http_enabled: bool, request: Json, state: Json) -> Option<
    CallModel,
> {
    if http_enabled {
        Some(http_call(request, state))
    } else {
        None
    }
}

/// The new state that the outcome of `handle` brings, or its error.
pub open spec fn handled_state(
    outcome: Result<(serde_json::Value, serde_json::Value), ActorError>,
) -> Result<Json, ActorError> {
    match outcome {
        Ok(pair) => Ok(json_model(pair.1)),
        Err(e) => Err(e),
    }
}

/// The new state that the outcome of `handle-http` brings, or its error.
pub open spec fn http_state(outcome: Result<HttpOutcome, ActorError>) -> Result<Json, ActorError> {
    match outcome {
        Ok(out) => Ok(json_model(out.3)),
        Err(e) => Err(e),
    }
}

/// The actor with its state and its chain.
pub struct ActorRuntime {
    actor: WasmActor,
    state: serde_json::Value,
    chain: ChainEmitter,
}

impl ActorRuntime {
    /// The current state.
    pub closed spec fn state(&self) -> Json {
        json_model(self.state)
    }

    /// The events that the chain keeps.
    pub closed spec fn history(&self) -> Seq<ChainEventModel> {
        self.chain.history()
    }

    /// How many events the chain keeps at most.
    pub closed spec fn capacity(&self) -> nat {
        self.chain.capacity()
    }

    /// The component host.
    pub closed spec fn actor(&self) -> WasmActor {
        self.actor
    }

    /// A runtime for an actor whose first state is known.
    pub fn new(actor: WasmActor, state: serde_json::Value, chain: ChainEmitter) -> (runtime:
        ActorRuntime)
        ensures
            runtime.state() == json_model(state),
            runtime.history() == chain.history(),
            runtime.capacity() == chain.capacity(),
            runtime.actor() == actor,
    {
        ActorRuntime { actor, state, chain }
    }

    /// Makes the runtime of an actor from what its export `init` left
    /// behind. A first state gives the runtime that holds it; an error gives
    /// no runtime, and is the failure of the step. What `init` asked of the
    /// outside world is recorded and handed back either way.
    pub fn from_init(
        actor: WasmActor,
        chain: ChainEmitter,
        outcome: Result<serde_json::Value, ActorError>,
        effects: Vec<HostEffect>,
        timestamp: &str,
    ) -> (r: (Result<ActorRuntime, ActorError>, Step))
        ensures
            match outcome {
                Ok(first) => {
                    &&& r.0 matches Ok(runtime)
                    &&& runtime.state() == json_model(first)
                    &&& runtime.actor() == actor
                    &&& runtime.capacity() == chain.capacity()
                    &&& runtime.history() == extend_history(
                        chain.history(),
                        records_of(deliveries_of(effect_views(effects@)), timestamp@),
                        chain.capacity(),
                    )
                },
                Err(e) => r.0 == Err::<ActorRuntime, ActorError>(e),
            },
            r.1.failure == failure_of(outcome),
            line_views(r.1.log_lines@) == log_lines_of(effect_views(effects@)),
            delivery_views(r.1.deliveries@) == deliveries_of(effect_views(effects@)),
    {
        let mut chain = chain;
        let (log_lines, deliveries) = absorb(&mut chain, effects, timestamp);
        match outcome {
            Ok(state) => (
                Ok(ActorRuntime { actor, state, chain }),
                Step { log_lines, deliveries, failure: None },
            ),
            Err(e) => (Err(e), Step { log_lines, deliveries, failure: Some(e) }),
        }
    }

    /// Starts an actor: the export `init` is run, and what it left behind
    /// makes the runtime as [`ActorRuntime::from_init`] says. There is a
    /// runtime exactly where the step has no failure; its state is the value
    /// that the bytes returned by `init` decode to.
    pub fn start(actor: WasmActor, chain: ChainEmitter, timestamp: &str) -> (r: (
        Result<ActorRuntime, ActorError>,
        Step,
    ))
        ensures
            r.0 is Ok <==> r.1.failure is None,
            r.0 matches Ok(runtime) ==> runtime.actor() == actor && runtime.capacity()
                == chain.capacity() && runtime.history() == extend_history(
                chain.history(),
                records_of(delivery_views(r.1.deliveries@), timestamp@),
                chain.capacity(),
            ),
            r.0 matches Ok(runtime) ==> exists|bytes: Seq<u8>| #[trigger]
                json_parse(bytes) == Some(runtime.state()),
            r.0 matches Err(e) ==> r.1.failure == Some(e) && is_invocation_error(e),
    {
        let Invocation { outcome, effects, .. } = actor.init();
        Self::from_init(actor, chain, outcome, effects, timestamp)
    }

    /// The current state.
    pub fn current_state(&self) -> (state: &serde_json::Value)
        ensures
            json_model(*state) == self.state(),
    {
        &self.state
    }

    /// The chain.
    pub fn chain(&self) -> (chain: &ChainEmitter)
        ensures
            chain.history() == self.history(),
            chain.capacity() == self.capacity(),
    {
        &self.chain
    }

    /// Commits the outcome of `handle`: a success replaces the state with the
    /// new state and is answered with the output; a failure leaves the state
    /// as it was and is answered with the error.
    pub fn commit(&mut self, outcome: Result<(serde_json::Value, serde_json::Value), ActorError>) -> (reply:
        Result<serde_json::Value, ActorError>)
        ensures
            final(self).state() == committed(old(self).state(), handled_state(outcome)),
            final(self).history() == old(self).history(),
            final(self).capacity() == old(self).capacity(),
            final(self).actor() == old(self).actor(),
            match outcome {
                Ok(pair) => reply matches Ok(output) && json_model(output) == json_model(pair.0),
                Err(e) => reply == Err::<serde_json::Value, ActorError>(e),
            },
    {
        match outcome {
            Ok((output, new_state)) => {
                self.state = new_state;
                Ok(output)
            },
            Err(e) => Err(e),
        }
    }

    /// Commits the outcome of `handle-http`: a success replaces the state
    /// with the new state and is answered with the response; a failure leaves
    /// the state as it was and is answered with the error.
    pub fn commit_http(&mut self, outcome: Result<HttpOutcome, ActorError>) -> (reply: Result<
        HttpResponse,
        ActorError,
    >)
        ensures
            final(self).state() == committed(old(self).state(), http_state(outcome)),
            final(self).history() == old(self).history(),
            final(self).capacity() == old(self).capacity(),
            final(self).actor() == old(self).actor(),
            match outcome {
                Ok(out) => reply matches Ok(response) && response.0 == out.0 && response.1
                    == out.1 && response.2 == out.2,
                Err(e) => reply == Err::<HttpResponse, ActorError>(e),
            },
    {
        match outcome {
            Ok((status, headers, body, new_state)) => {
                self.state = new_state;
                Ok((status, headers, body))
            },
            Err(e) => Err(e),
        }
    }

    /// Settles what `handle` left behind: the effects are recorded as
    /// [`absorb`] says, and the outcome is committed as
    /// [`ActorRuntime::commit`] says. Hands back the reply for the caller
    /// and the step.
    pub fn settle(
        &mut self,
        outcome: Result<(serde_json::Value, serde_json::Value), ActorError>,
        effects: Vec<HostEffect>,
        timestamp: &str,
    ) -> (r: (Result<serde_json::Value, ActorError>, Step))
        ensures
            final(self).actor() == old(self).actor(),
            final(self).capacity() == old(self).capacity(),
            final(self).state() == committed(old(self).state(), handled_state(outcome)),
            final(self).history() == extend_history(
                old(self).history(),
                records_of(deliveries_of(effect_views(effects@)), timestamp@),
                old(self).capacity(),
            ),
            match outcome {
                Ok(pair) => r.0 matches Ok(output) && json_model(output) == json_model(pair.0),
                Err(e) => r.0 == Err::<serde_json::Value, ActorError>(e),
            },
            r.1.failure == failure_of(outcome),
            line_views(r.1.log_lines@) == log_lines_of(effect_views(effects@)),
            delivery_views(r.1.deliveries@) == deliveries_of(effect_views(effects@)),
    {
        let (log_lines, deliveries) = absorb(&mut self.chain, effects, timestamp);
        let failure = match &outcome {
            Ok(_) => None,
            Err(e) => Some(*e),
        };
        let reply = self.commit(outcome);
        (reply, Step { log_lines, deliveries, failure })
    }

    /// Settles what `handle-http` left behind: the effects are recorded as
    /// [`absorb`] says, and the outcome is committed as
    /// [`ActorRuntime::commit_http`] says. Hands back the reply for the
    /// caller and the step.
    pub fn settle_http(
        &mut self,
        outcome: Result<HttpOutcome, ActorError>,
        effects: Vec<HostEffect>,
        timestamp: &str,
    ) -> (r: (Result<HttpResponse, ActorError>, Step))
        ensures
            final(self).actor() == old(self).actor(),
            final(self).capacity() == old(self).capacity(),
            final(self).state() == committed(old(self).state(), http_state(outcome)),
            final(self).history() == extend_history(
                old(self).history(),
                records_of(deliveries_of(effect_views(effects@)), timestamp@),
                old(self).capacity(),
            ),
            match outcome {
                Ok(out) => r.0 matches Ok(response) && response.0 == out.0 && response.1 == out.1
                    && response.2 == out.2,
                Err(e) => r.0 == Err::<HttpResponse, ActorError>(e),
            },
            r.1.failure == failure_of(outcome),
            line_views(r.1.log_lines@) == log_lines_of(effect_views(effects@)),
            delivery_views(r.1.deliveries@) == deliveries_of(effect_views(effects@)),
    {
        let (log_lines, deliveries) = absorb(&mut self.chain, effects, timestamp);
        let failure = match &outcome {
            Ok(_) => None,
            Err(e) => Some(*e),
        };
        let reply = self.commit_http(outcome);
        (reply, Step { log_lines, deliveries, failure })
    }

    /// Handles a message: the component host is run on it and the current
    /// state, and what it left behind is settled. Hands back the reply for
    /// the caller and the step. A success is answered with the output, which
    /// is the new state; a failure is answered with its error and leaves the
    /// state as it was.
    pub fn respond(&mut self, content: &serde_json::Value, timestamp: &str) -> (r: Answer<
        serde_json::Value,
    >)
        ensures
            r.call@ == Some(handle_call(json_model(*content), old(self).state())),
            final(self).actor() == old(self).actor(),
            final(self).capacity() == old(self).capacity(),
            final(self).history() == extend_history(
                old(self).history(),
                records_of(delivery_views(r.step.deliveries@), timestamp@),
                old(self).capacity(),
            ),
            r.step.failure == failure_of(r.reply),
            r.reply matches Ok(output) ==> json_model(output) == final(self).state() && exists|
                bytes: Seq<u8>,
            | #[trigger] json_parse(bytes) == Some(final(self).state()),
            r.reply matches Err(e) ==> final(self).state() == old(self).state()
                && is_invocation_error(e),
    {
        let Invocation { call, outcome, effects } = self.actor.handle_message(
            content,
            &self.state,
        );
        let (reply, step) = self.settle(outcome, effects, timestamp);
        Answer { call, reply, step }
    }

    /// Handles an HTTP request: the component host is run on it and the
    /// current state, and what it left behind is settled. Hands back the
    /// reply for the caller and the step. An actor without the HTTP interface
    /// answers `UnsupportedCapability`, and no other actor does; state and
    /// chain then stay as they were.
    pub fn respond_http(
        &mut self,
        method: String,
        uri: String,
        headers: Vec<(String, String)>,
        body: Option<Vec<u8>>,
        timestamp: &str,
    ) -> (r: Answer<HttpResponse>)
        ensures
            r.call@ == expected_http_call(
                old(self).actor().http_enabled(),
                request_json(method@, uri@, header_views(headers@), body_view(body)),
                old(self).state(),
            ),
            final(self).actor() == old(self).actor(),
            final(self).capacity() == old(self).capacity(),
            final(self).history() == extend_history(
                old(self).history(),
                records_of(delivery_views(r.step.deliveries@), timestamp@),
                old(self).capacity(),
            ),
            r.step.failure == failure_of(r.reply),
            r.reply matches Ok(response) ==> exists|bytes: Seq<u8>| #[trigger]
                json_parse(bytes) matches Some(envelope) && final(self).state()
                    == envelope.member("state"@) && response.0 == status_of(
                    envelope.member("response"@),
                ) && header_views(response.1@) == headers_of(envelope.member("response"@))
                    && body_view(response.2) == body_of(envelope.member("response"@)),
            r.reply matches Err(e) ==> final(self).state() == old(self).state(),
            !old(self).actor().http_enabled() ==> r.reply == Err::<HttpResponse, ActorError>(
                ActorError::UnsupportedCapability,
            ) && r.step.deliveries@.len() == 0 && r.step.log_lines@.len() == 0
                && final(self).history() == old(self).history(),
            old(self).actor().http_enabled() ==> (r.reply matches Err(e)
                ==> is_invocation_error(e)),
    {
        let Invocation { call, outcome, effects } = self.actor.handle_http(
            method,
            uri,
            headers,
            body,
            &self.state,
        );
        let ghost none = effect_views(effects@).len() == 0;
        let (reply, step) = self.settle_http(outcome, effects, timestamp);
        proof {
            if none {
                assert(line_views(step.log_lines@).len() == 0);
                assert(delivery_views(step.deliveries@).len() == 0);
                assert(records_of(delivery_views(step.deliveries@), timestamp@).len() == 0);
            }
        }
        Answer { call, reply, step }
    }

    /// Handles one message: answers it as [`ActorRuntime::respond`] or
    /// [`ActorRuntime::respond_http`] says, and resolves the reply slot with
    /// the reply.
    ///
    /// A message that fails leaves the state as it was. An HTTP request to an
    /// actor without the HTTP interface fails with `UnsupportedCapability`,
    /// and nothing else does. Every delivery handed back has its record in
    /// the chain.
    pub fn process(&mut self, msg: ActorMessage, timestamp: &str) -> (step: Step)
        ensures
            final(self).actor() == old(self).actor(),
            final(self).capacity() == old(self).capacity(),
            final(self).history() == extend_history(
                old(self).history(),
                records_of(delivery_views(step.deliveries@), timestamp@),
                old(self).capacity(),
            ),
            step.failure is Some ==> final(self).state() == old(self).state(),
            step.failure is None ==> exists|bytes: Seq<u8>| #[trigger]
                json_parse(bytes) matches Some(computed) && (final(self).state() == computed
                    || final(self).state() == computed.member("state"@)),
            step.failure == Some(ActorError::UnsupportedCapability) <==> msg is Http && !old(
                self,
            ).actor().http_enabled(),
            msg is Http && !old(self).actor().http_enabled() ==> step.deliveries@.len() == 0
                && step.log_lines@.len() == 0 && final(self).history() == old(self).history(),
            step.failure matches Some(e) ==> e == ActorError::UnsupportedCapability
                || is_invocation_error(e),
    {
        let (step, _) = self.answer(msg, timestamp);
        step
    }

    /// Handles one message as [`ActorRuntime::process`] says, and tells which
    /// call was made of the sandbox.
    fn answer(&mut self, msg: ActorMessage, timestamp: &str) -> (r: (
        Step,
        Ghost<Option<CallModel>>,
    ))
        ensures
            r.1@ == expected_call(old(self).actor().http_enabled(), msg, old(self).state()),
            final(self).actor() == old(self).actor(),
            final(self).capacity() == old(self).capacity(),
            final(self).history() == extend_history(
                old(self).history(),
                records_of(delivery_views(r.0.deliveries@), timestamp@),
                old(self).capacity(),
            ),
            r.0.failure is Some ==> final(self).state() == old(self).state(),
            r.0.failure is None ==> exists|bytes: Seq<u8>| #[trigger]
                json_parse(bytes) matches Some(computed) && (final(self).state() == computed
                    || final(self).state() == computed.member("state"@)),
            r.0.failure == Some(ActorError::UnsupportedCapability) <==> msg is Http && !old(
                self,
            ).actor().http_enabled(),
            msg is Http && !old(self).actor().http_enabled() ==> r.0.deliveries@.len() == 0
                && r.0.log_lines@.len() == 0 && final(self).history() == old(self).history(),
            r.0.failure matches Some(e) ==> e == ActorError::UnsupportedCapability
                || is_invocation_error(e),
    {
        match msg {
            ActorMessage::Regular { content, response } => {
                let Answer { call, reply, step } = self.respond(&content, timestamp);
                match response {
                    Some(tx) => {
                        let _ = tx.send(reply);
                    },
                    None => {},
                }
                (step, call)
            },
            ActorMessage::Http { method, uri, headers, body, response } => {
                let Answer { call, reply, step } = self.respond_http(
                    method,
                    uri,
                    headers,
                    body,
                    timestamp,
                );
                let _ = response.send(reply);
                (step, call)
            },
        }
    }

    /// Handles a list of messages, first message first, each as
    /// [`ActorRuntime::process`] says. There is one step and one round for
    /// each message, in the order of the messages. The call of a round is
    /// the one that its message asks for on the state that the rounds before
    /// it left; the state in the end is the state after all rounds.
    pub fn process_all(&mut self, messages: Vec<ActorMessage>, timestamp: &str) -> (r: (
        Vec<Step>,
        Ghost<Seq<Round>>,
    ))
        ensures
            r.0@.len() == messages@.len(),
            r.1@.len() == messages@.len(),
            final(self).actor() == old(self).actor(),
            final(self).capacity() == old(self).capacity(),
            forall|i: int|
                0 <= i < messages@.len() ==> (#[trigger] r.1@[i]).call == expected_call(
                    old(self).actor().http_enabled(),
                    messages@[i],
                    state_after(old(self).state(), outcomes_of(r.1@).take(i)),
                ),
            forall|i: int|
                0 <= i < messages@.len() ==> (#[trigger] r.0@[i]).failure == failure_of(
                    r.1@[i].outcome,
                ),
            final(self).state() == state_after(old(self).state(), outcomes_of(r.1@)),
            final(self).history() == extend_history(
                old(self).history(),
                records_of(all_deliveries(r.0@), timestamp@),
                old(self).capacity(),
            ),
    {
        let ghost all = messages@;
        let ghost first_state = self.state();
        let ghost first_history = self.history();
        let ghost http = self.actor().http_enabled();
        let mut messages = messages;
        let mut pending: Vec<ActorMessage> = Vec::new();
        // Messages can only be taken from the end, so they are turned round
        // first.
        while messages.len() > 0
            invariant
                pending@.len() + messages@.len() == all.len(),
                messages@ == all.take(messages@.len() as int),
                forall|k: int|
                    0 <= k < pending@.len() ==> #[trigger] pending@[k] == all[all.len() - 1 - k],
            decreases messages@.len(),
        {
            let ghost before = messages@;
            match messages.pop() {
                Some(msg) => {
                    assert(msg == before[before.len() - 1]);
                    pending.push(msg);
                    assert(messages@ =~= all.take(messages@.len() as int));
                },
                None => {},
            }
        }
        let mut steps: Vec<Step> = Vec::new();
        let ghost mut rounds: Seq<Round> = Seq::empty();
        proof {
            assert(outcomes_of(rounds) =~= Seq::<Result<Json, ActorError>>::empty());
            assert(records_of(all_deliveries(steps@), timestamp@) =~= Seq::<
                ChainEventModel,
            >::empty());
        }
        while pending.len() > 0
            invariant
                pending@.len() <= all.len(),
                forall|k: int|
                    0 <= k < pending@.len() ==> #[trigger] pending@[k] == all[all.len() - 1 - k],
                steps@.len() == all.len() - pending@.len(),
                rounds.len() == steps@.len(),
                self.actor() == old(self).actor(),
                self.actor().http_enabled() == http,
                self.capacity() == old(self).capacity(),
                first_state == old(self).state(),
                first_history == old(self).history(),
                forall|i: int|
                    0 <= i < rounds.len() ==> (#[trigger] rounds[i]).call == expected_call(
                        http,
                        all[i],
                        state_after(first_state, outcomes_of(rounds).take(i)),
                    ),
                forall|i: int|
                    0 <= i < rounds.len() ==> (#[trigger] steps@[i]).failure == failure_of(
                        rounds[i].outcome,
                    ),
                self.state() == state_after(first_state, outcomes_of(rounds)),
                self.history() == extend_history(
                    first_history,
                    records_of(all_deliveries(steps@), timestamp@),
                    self.capacity(),
                ),
            decreases pending@.len(),
        {
            let ghost n = all.len() - pending@.len();
            let ghost rounds_before = rounds;
            let ghost steps_before = steps@;
            match pending.pop() {
                Some(msg) => {
                    assert(msg == all[n]);
                    let (step, call) = self.answer(msg, timestamp);
                    let ghost round = Round {
                        call: call@,
                        outcome: round_outcome(step.failure, self.state()),
                    };
                    let ghost made = delivery_views(step.deliveries@);
                    steps.push(step);
                    proof {
                        rounds = rounds_before.push(round);
                        let outcomes = outcomes_of(rounds);
                        let outcomes_before = outcomes_of(rounds_before);
                        assert(outcomes =~= outcomes_before.push(round.outcome));
                        assert(outcomes.drop_last() =~= outcomes_before);
                        assert(outcomes.take(n) =~= outcomes_before);
                        assert forall|i: int| 0 <= i < rounds.len() implies (#[trigger] rounds[i]).call
                            == expected_call(
                            http,
                            all[i],
                            state_after(first_state, outcomes.take(i)),
                        ) by {
                            if i < n {
                                assert(rounds[i] == rounds_before[i]);
                                assert(outcomes.take(i) =~= outcomes_before.take(i));
                            }
                        }
                        assert forall|i: int| 0 <= i < rounds.len() implies (#[trigger] steps@[i]).failure
                            == failure_of(rounds[i].outcome) by {
                            if i < n {
                                assert(steps@[i] == steps_before[i]);
                                assert(rounds[i] == rounds_before[i]);
                            }
                        }
                        assert(steps@.drop_last() =~= steps_before);
                        assert(all_deliveries(steps@) == all_deliveries(steps_before) + made);
                        assert(records_of(all_deliveries(steps@), timestamp@) =~= records_of(
                            all_deliveries(steps_before),
                            timestamp@,
                        ) + records_of(made, timestamp@));
                        lemma_extend_history_concat(
                            first_history,
                            records_of(all_deliveries(steps_before), timestamp@),
                            records_of(made, timestamp@),
                            self.capacity(),
                        );
                    }
                },
                None => {},
            }
        }
        (steps, Ghost(rounds))
    }
}

/// Records the effects of an invocation, in order. A log line is handed back
/// for printing. A message is first recorded in the chain, as an event of
/// type `actor-message` made at `timestamp`, and then handed back for
/// delivery.
pub fn absorb(chain: &mut ChainEmitter, effects: Vec<HostEffect>, timestamp: &str) -> (r: (
    Vec<String>,
    Vec<Delivery>,
))
    ensures
        final(chain).capacity() == old(chain).capacity(),
        line_views(r.0@) == log_lines_of(effect_views(effects@)),
        delivery_views(r.1@) == deliveries_of(effect_views(effects@)),
        final(chain).history() == extend_history(
            old(chain).history(),
            records_of(deliveries_of(effect_views(effects@)), timestamp@),
            old(chain).capacity(),
        ),
{
    let mut log_lines: Vec<String> = Vec::new();
    let mut deliveries: Vec<Delivery> = Vec::new();
    let mut effects = effects;
    let ghost all = effect_views(effects@);
    let ghost capacity = chain.capacity();
    let ghost start = chain.history();
    let mut pending: Vec<HostEffect> = Vec::new();
    // Effects can only be taken from the end, so they are turned round first.
    while effects.len() > 0
        invariant
            pending@.len() + effects@.len() == all.len(),
            effect_views(effects@) == all.take(effects@.len() as int),
            forall|k: int|
                0 <= k < pending@.len() ==> (#[trigger] pending@[k])@ == all[all.len() - 1 - k],
        decreases effects@.len(),
    {
        let ghost before = effect_views(effects@);
        match effects.pop() {
            Some(effect) => {
                assert(effect@ == before[before.len() - 1]);
                pending.push(effect);
                assert(effect_views(effects@) =~= all.take(effects@.len() as int));
            },
            None => {},
        }
    }
    assert(all.take(0) =~= Seq::<EffectModel>::empty());
    assert(line_views(log_lines@) =~= log_lines_of(all.take(0)));
    assert(delivery_views(deliveries@) =~= deliveries_of(all.take(0)));
    assert(records_of(deliveries_of(all.take(0)), timestamp@) =~= Seq::<ChainEventModel>::empty());
    while pending.len() > 0
        invariant
            pending@.len() <= all.len(),
            forall|k: int|
                0 <= k < pending@.len() ==> (#[trigger] pending@[k])@ == all[all.len() - 1 - k],
            chain.capacity() == capacity,
            line_views(log_lines@) == log_lines_of(all.take(all.len() - pending@.len())),
            delivery_views(deliveries@) == deliveries_of(all.take(all.len() - pending@.len())),
            chain.history() == extend_history(
                start,
                records_of(deliveries_of(all.take(all.len() - pending@.len())), timestamp@),
                capacity,
            ),
        decreases pending@.len(),
    {
        let ghost n = all.len() - pending@.len();
        let ghost seen = all.take(n);
        let ghost next = all.take(n + 1);
        let ghost lines_before = line_views(log_lines@);
        let ghost deliveries_before = delivery_views(deliveries@);
        match pending.pop() {
            Some(effect) => {
                proof {
                    assert(effect@ == all[n]);
                    assert(next.drop_last() =~= seen);
                    assert(next.last() == all[n]);
                }
                match effect {
                    HostEffect::Log { line } => {
                        log_lines.push(line);
                        assert(line_views(log_lines@) =~= lines_before.push(line@));
                    },
                    HostEffect::Send { address, payload } => {
                        let event = Event::actor_message(address.as_str(), &payload);
                        let record = ChainEvent::new(event, String::from_str(timestamp));
                        let ghost model = DeliveryModel {
                            address: address@,
                            payload: json_model(payload),
                        };
                        assert(record@ == record_of(model, timestamp@));
                        let _ = chain.emit(record);
                        deliveries.push(Delivery { address, payload });
                        proof {
                            assert(delivery_views(deliveries@) =~= deliveries_before.push(model));
                            assert(deliveries_of(next) == deliveries_of(seen).push(model));
                            assert(records_of(deliveries_of(next), timestamp@).drop_last()
                                =~= records_of(deliveries_of(seen), timestamp@));
                            assert(records_of(deliveries_of(next), timestamp@).last()
                                == record_of(model, timestamp@));
                        }
                    },
                }
            },
            None => {},
        }
    }
    assert(all.take(all.len() as int) =~= all);
    (log_lines, deliveries)
}

/// Messages are committed one at a time, each on the state that the one
/// before it left: the state after a list of outcomes and one more is what
/// the last outcome makes of the state after the list.
pub proof fn lemma_commits_are_serial(
    state: Json,
    outcomes: Seq<Result<Json, ActorError>>,
    next: Result<Json, ActorError>,
)
    ensures
        state_after(state, outcomes.push(next)) == committed(state_after(state, outcomes), next),
{
    assert(outcomes.push(next).drop_last() =~= outcomes);
}

/// Outcomes take effect in the order in which their messages were handled:
/// the state after two lists of outcomes, one after the other, is the state
/// after their concatenation.
pub proof fn lemma_commits_in_order(
    state: Json,
    first: Seq<Result<Json, ActorError>>,
    second: Seq<Result<Json, ActorError>>,
)
    ensures
        state_after(state_after(state, first), second) == state_after(state, first + second),
    decreases second.len(),
{
    if second.len() == 0 {
        assert(first + second =~= first);
    } else {
        lemma_commits_in_order(state, first, second.drop_last());
        assert((first + second).drop_last() =~= first + second.drop_last());
    }
}

/// Messages that fail leave the state as it was: the state after a list of
/// outcomes is the state after its successes alone.
pub proof fn lemma_failures_keep_state(state: Json, outcomes: Seq<Result<Json, ActorError>>)
    ensures
        state_after(state, outcomes) == state_after(
            state,
            outcomes.filter(|o: Result<Json, ActorError>| o is Ok),
        ),
    decreases outcomes.len(),
{
    reveal(Seq::filter);
    if outcomes.len() > 0 {
        lemma_failures_keep_state(state, outcomes.drop_last());
    }
}

} // verus!
