//! What a sandbox may do to the outside world while it runs.
//!
//! A host function never performs an effect itself. It records the effect in
//! the [`HostState`] of the running sandbox; when the call is over the
//! recorded effects are handed to whoever runs the actor. A host function
//! that refuses a payload records that too, so that the caller learns why
//! the call ended.
use vstd::prelude::*;
use crate::json::{json_model, Json};

verus! {

/// One effect that a sandbox asked for.
#[derive(Debug)]
pub enum HostEffect {
    /// A line for the operator's log.
    Log { line: String },
    /// A message for another actor: `payload` is to be recorded in the chain
    /// and then delivered to `address`.
    Send { address: String, payload: serde_json::Value },
}

/// What a [`HostEffect`] holds.
pub enum EffectModel {
    Log { line: Seq<char> },
    Send { address: Seq<char>, payload: Json },
}

impl View for HostEffect {
    type V = EffectModel;

    open spec fn view(&self) -> EffectModel {
        match self {
            HostEffect::Log { line } => EffectModel::Log { line: line@ },
            HostEffect::Send { address, payload } => EffectModel::Send {
                address: address@,
                payload: json_model(*payload),
            },
        }
    }
}

/// What a list of effects holds, effect by effect.
pub open spec fn effect_views(effects: Seq<HostEffect>) -> Seq<EffectModel> {
    effects.map_values(|e: HostEffect| e@)
}

/// The data of one running sandbox: the effects recorded so far, oldest
/// first, and whether a payload was refused.
pub struct HostState {
    effects: Vec<HostEffect>,
    payload_refused: bool,
}

impl HostState {
    /// The effects recorded so far.
    pub closed spec fn effects(&self) -> Seq<EffectModel> {
        effect_views(self.effects@)
    }

    /// Whether a host function refused a payload that was no structured
    /// value.
    pub closed spec fn refused(&self) -> bool {
        self.payload_refused
    }

    /// A state with no effect recorded and nothing refused.
    pub fn new() -> (state: HostState)
        ensures
            state.effects() == Seq::<EffectModel>::empty(),
            !state.refused(),
    {
        HostState { effects: Vec::new(), payload_refused: false }
    }

    /// Adds an effect after those recorded so far.
    pub fn record(&mut self, effect: HostEffect)
        ensures
            final(self).effects() == old(self).effects().push(effect@),
            final(self).refused() == old(self).refused(),
    {
        self.effects.push(effect);
    }

    /// Records that a payload was refused.
    pub fn refuse_payload(&mut self)
        ensures
            final(self).effects() == old(self).effects(),
            final(self).refused(),
    {
        self.payload_refused = true;
    }

    /// See [`HostState::refused`].
    pub fn payload_refused(&self) -> (refused: bool)
        ensures
            refused == self.refused(),
    {
        self.payload_refused
    }

    /// Hands out the recorded effects, oldest first.
    pub fn into_effects(self) -> (effects: Vec<HostEffect>)
        ensures
            effect_views(effects@) == self.effects(),
    {
        self.effects
    }
}

} // verus!
