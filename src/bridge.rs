//! The callback bridge: pending host callbacks, keyed by single-use tokens.
//!
//! When the guest calls a host import, the worker running that call registers
//! the callback here and waits. The host answers through
//! `receive_callback_result`; the worker then takes the outcome with
//! `take_reply`, which retires the token. A token that is retired or unknown
//! accepts no reply.
use std::collections::HashMap;
use vstd::prelude::*;

use crate::values::{decode_callback_results, decode_spec, seq_result, ArgError, HostValue, ValKind, WasmValue};

verus! {

broadcast use vstd::std_specs::hash::group_hash_axioms;

/// Why a pending callback ended without values for the guest.
#[derive(Clone, Copy, Debug, PartialEq, Eq, Structural)]
pub enum AbortReason {
    /// The host reported that its own callback failed.
    HostFailure,
    /// The host's values did not fit the import's result kinds.
    BadResults(ArgError),
}

/// Where a registered callback stands.
#[derive(Clone, Debug)]
pub enum CallbackState {
    AwaitingReply,
    Resolved(Vec<WasmValue>),
    Aborted(AbortReason),
}

/// A registered callback: the result kinds its reply must have, and its state.
#[derive(Clone, Debug)]
pub struct PendingCallback {
    pub return_types: Vec<ValKind>,
    pub state: CallbackState,
}

/// Why a reply was refused.
#[derive(Clone, Copy, Debug, PartialEq, Eq, Structural)]
pub enum ReplyError {
    /// No callback is registered under the token.
    UnknownToken,
    /// The callback under the token has had its reply already.
    AlreadyAnswered,
    /// The values did not fit the result kinds; the waiting call is aborted.
    BadResults(ArgError),
}

/// The outcome a waiting call receives.
pub type CallbackOutcome = Result<Vec<WasmValue>, AbortReason>;

/// The registry of pending callbacks. Tokens come from a counter and are
/// never handed out twice.
pub struct CallbackRegistry {
    next_token: u64,
    pending: HashMap<u64, PendingCallback>,
}

/// The state a settled callback's outcome stands for.
pub open spec fn settled_outcome(s: CallbackState) -> Option<Result<Seq<WasmValue>, AbortReason>> {
    match s {
        CallbackState::AwaitingReply => None,
        CallbackState::Resolved(v) => Some(Ok(v@)),
        CallbackState::Aborted(a) => Some(Err(a)),
    }
}

/// What a reply does to a registry: `old` and `new` are the registered
/// callbacks before and after, `r` is what the replier is told.
pub open spec fn reply_spec(
    old: Map<u64, PendingCallback>,
    token: u64,
    success: bool,
    results: Seq<HostValue>,
    r: Result<(), ReplyError>,
    new: Map<u64, PendingCallback>,
) -> bool {
    if !old.contains_key(token) {
        r == Err::<(), ReplyError>(ReplyError::UnknownToken) && new == old
    } else if !(old[token].state is AwaitingReply) {
        r == Err::<(), ReplyError>(ReplyError::AlreadyAnswered) && new == old
    } else {
        let kinds = old[token].return_types;
        &&& new.dom() == old.dom()
        &&& forall|t: u64| #[trigger] new.contains_key(t) && t != token ==> new[t] == old[t]
        &&& new[token].return_types@ == kinds@
        &&& if !success {
            r == Ok::<(), ReplyError>(()) && settled_outcome(new[token].state) == Some(
                Err::<Seq<WasmValue>, AbortReason>(AbortReason::HostFailure),
            )
        } else {
            match settled_outcome(new[token].state) {
                Some(Ok(vals)) => r == Ok::<(), ReplyError>(()) && decode_spec(
                    kinds@,
                    results,
                    false,
                    Ok(vals),
                ),
                Some(Err(AbortReason::BadResults(e))) => r == Err::<(), ReplyError>(
                    ReplyError::BadResults(e),
                ) && decode_spec(kinds@, results, false, Err(e)),
                _ => false,
            }
        }
    }
}

/// A token takes one reply: once a reply has been delivered for it, every
/// further reply is refused and leaves the registered callbacks unchanged.
pub proof fn lemma_reply_consumed_once(
    s0: Map<u64, PendingCallback>,
    token: u64,
    success1: bool,
    results1: Seq<HostValue>,
    r1: Result<(), ReplyError>,
    s1: Map<u64, PendingCallback>,
    success2: bool,
    results2: Seq<HostValue>,
    r2: Result<(), ReplyError>,
    s2: Map<u64, PendingCallback>,
)
    requires
        s0.contains_key(token) && s0[token].state is AwaitingReply,
        reply_spec(s0, token, success1, results1, r1, s1),
        reply_spec(s1, token, success2, results2, r2, s2),
    ensures
        s1.contains_key(token) && !(s1[token].state is AwaitingReply),
        r2 == Err::<(), ReplyError>(ReplyError::AlreadyAnswered),
        s2 == s1,
{
}

/// A retired or never issued token takes no reply at all.
pub proof fn lemma_no_reply_without_token(
    s0: Map<u64, PendingCallback>,
    token: u64,
    success: bool,
    results: Seq<HostValue>,
    r: Result<(), ReplyError>,
    s1: Map<u64, PendingCallback>,
)
    requires
        !s0.contains_key(token),
        reply_spec(s0, token, success, results, r, s1),
    ensures
        r == Err::<(), ReplyError>(ReplyError::UnknownToken),
        s1 == s0,
{
}

impl CallbackRegistry {
    /// The registered callbacks, by token.
    pub closed spec fn callbacks(&self) -> Map<u64, PendingCallback> {
        self.pending@
    }

    /// The token the next registration receives.
    pub closed spec fn next(&self) -> u64 {
        self.next_token
    }

    /// Every registered token was handed out before the next one.
    pub closed spec fn wf(&self) -> bool {
        forall|t: u64| #[trigger] self.pending@.contains_key(t) ==> t < self.next_token
    }

    /// An empty registry.
    pub fn new() -> (r: CallbackRegistry)
        ensures
            r.wf(),
            r.callbacks() == Map::<u64, PendingCallback>::empty(),
            r.next() == 0,
    {
        CallbackRegistry { next_token: 0, pending: HashMap::new() }
    }

    /// Registers a callback that awaits a reply with values of
    /// `return_types`, and hands out its fresh token. Fails only when the
    /// token space is spent.
    pub fn register(&mut self, return_types: Vec<ValKind>) -> (r: Option<u64>)
        requires
            old(self).wf(),
        ensures
            final(self).wf(),
            old(self).next() == u64::MAX ==> r is None && final(self).callbacks() == old(
                self,
            ).callbacks() && final(self).next() == old(self).next(),
            old(self).next() < u64::MAX ==> r == Some(old(self).next()) && !old(
                self,
            ).callbacks().contains_key(old(self).next()) && final(self).callbacks() == old(
                self,
            ).callbacks().insert(
                old(self).next(),
                (PendingCallback { return_types, state: CallbackState::AwaitingReply }),
            ) && final(self).next() == old(self).next() + 1,
    {
        if self.next_token == u64::MAX {
            return None;
        }
        let token = self.next_token;
        self.pending.insert(
            token,
            PendingCallback { return_types, state: CallbackState::AwaitingReply },
        );
        self.next_token = token + 1;
        Some(token)
    }

    /// The callback registered under `token`, if any.
    pub fn get_caller(&self, token: u64) -> (r: Option<&PendingCallback>)
        ensures
            match r {
                Some(p) => self.callbacks().contains_key(token) && *p == self.callbacks()[token],
                None => !self.callbacks().contains_key(token),
            },
    {
        self.pending.get(&token)
    }

    /// Whether a callback under `token` still waits for its reply.
    pub fn is_awaiting(&self, token: u64) -> (r: bool)
        ensures
            r == (self.callbacks().contains_key(token)
                && self.callbacks()[token].state is AwaitingReply),
    {
        match self.pending.get(&token) {
            Some(p) => match p.state {
                CallbackState::AwaitingReply => true,
                _ => false,
            },
            None => false,
        }
    }

    /// Delivers the host's reply for `token`. A successful reply is decoded
    /// against the recorded result kinds; values that do not fit abort the
    /// waiting call, as does a reply that reports failure. Only a callback
    /// that still awaits its reply takes one.
    pub fn receive_callback_result(
        &mut self,
        token: u64,
        success: bool,
        results: Vec<HostValue>,
    ) -> (r: Result<(), ReplyError>)
        requires
            old(self).wf(),
        ensures
            final(self).wf(),
            final(self).next() == old(self).next(),
            reply_spec(old(self).callbacks(), token, success, results@, r, final(self).callbacks()),
    {
        let return_types = match self.pending.get(&token) {
            None => return Err(ReplyError::UnknownToken),
            Some(p) => match p.state {
                CallbackState::AwaitingReply => p.return_types.clone(),
                _ => return Err(ReplyError::AlreadyAnswered),
            },
        };
        assert(return_types@ == self.pending@[token].return_types@);
        let (state, r) = if !success {
            (CallbackState::Aborted(AbortReason::HostFailure), Ok(()))
        } else {
            match decode_callback_results(&return_types, &results) {
                Ok(vals) => (CallbackState::Resolved(vals), Ok(())),
                Err(e) => (CallbackState::Aborted(AbortReason::BadResults(e)), Err(ReplyError::BadResults(e))),
            }
        };
        let ghost before = self.pending@;
        self.pending.insert(token, PendingCallback { return_types, state });
        assert(self.pending@.dom() =~= before.dom());
        r
    }

    /// Takes the outcome of a settled callback and retires its token. Leaves
    /// the registry alone while the callback still awaits its reply.
    pub fn take_reply(&mut self, token: u64) -> (r: Option<CallbackOutcome>)
        requires
            old(self).wf(),
        ensures
            final(self).wf(),
            final(self).next() == old(self).next(),
            match r {
                Some(out) => old(self).callbacks().contains_key(token) && settled_outcome(
                    old(self).callbacks()[token].state,
                ) == Some(seq_result(out)) && final(self).callbacks() == old(
                    self,
                ).callbacks().remove(token),
                None => final(self).callbacks() == old(self).callbacks() && !(old(
                    self,
                ).callbacks().contains_key(token) && settled_outcome(
                    old(self).callbacks()[token].state,
                ) is Some),
            },
    {
        let settled = match self.pending.get(&token) {
            None => false,
            Some(p) => match p.state {
                CallbackState::AwaitingReply => false,
                _ => true,
            },
        };
        if !settled {
            return None;
        }
        match self.pending.remove(&token) {
            Some(p) => match p.state {
                CallbackState::Resolved(v) => Some(Ok(v)),
                CallbackState::Aborted(a) => Some(Err(a)),
                CallbackState::AwaitingReply => None,
            },
            None => None,
        }
    }

    /// Retires `token` whatever its state: the call that registered it has
    /// returned or unwound, and no reply may reach it any more.
    pub fn remove_caller(&mut self, token: u64)
        requires
            old(self).wf(),
        ensures
            final(self).wf(),
            final(self).next() == old(self).next(),
            final(self).callbacks() == old(self).callbacks().remove(token),
    {
        self.pending.remove(&token);
    }
}

} // verus!
