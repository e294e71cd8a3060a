//! The state of one asynchronous deployment.
//!
//! A deployment is pending until the external runtime reports how it ended,
//! and resolved from then on. The first resolution is the only one: whatever
//! is reported afterwards leaves the result as it is.

use vstd::prelude::*;

use crate::errors::CompletionCode;
use crate::errors::ExecutionError;
use crate::errors::ExecutionErrorView;
use crate::errors::decode_spec;

verus! {

/// What polling a deployment that has not failed yields.
#[derive(Clone, Copy, Debug, PartialEq, Eq, Structural)]
pub enum Async {
    /// The deployment succeeded.
    Ready,
    /// The deployment is still pending.
    NotReady,
}

/// How a deployment ended.
pub enum Resolution {
    Succeeded,
    Failed(ExecutionErrorView),
}

/// One deployment in flight, or its outcome. The state has one owner: a
/// deployment is moved, never copied, so that whoever holds it sees every
/// resolution.
#[derive(Debug, PartialEq, Eq)]
pub struct PendingDeployment {
    result: Option<Result<(), ExecutionError>>,
    parked: bool,
}

impl View for PendingDeployment {
    type V = Option<Resolution>;

    /// `None` while pending, and the outcome once resolved. Whether
    /// somebody waits for the outcome is no part of the view: see
    /// [`PendingDeployment::is_parked`].
    closed spec fn view(&self) -> Option<Resolution> {
        match self.result {
            None => None,
            Some(Ok(())) => Some(Resolution::Succeeded),
            Some(Err(e)) => Some(Resolution::Failed(e@)),
        }
    }
}

/// The outcome that a completion status stands for.
pub open spec fn resolution_of(status: u8) -> Resolution {
    if status == 0 {
        Resolution::Succeeded
    } else {
        Resolution::Failed(decode_spec(status).error())
    }
}

/// The state after `outcome` is reported for a deployment in state `state`:
/// a pending deployment takes the outcome, a resolved one keeps its own.
pub open spec fn resolve(state: Option<Resolution>, outcome: Resolution) -> Option<Resolution> {
    match state {
        None => Some(outcome),
        Some(first) => Some(first),
    }
}

impl PendingDeployment {
    /// Whether a poll found the deployment pending, so that whoever polled
    /// waits to be woken.
    pub closed spec fn is_parked(&self) -> bool {
        self.parked
    }

    /// A deployment that has just been started.
    pub fn new() -> (d: PendingDeployment)
        ensures
            d@ is None,
            !d.is_parked(),
    {
        PendingDeployment { result: None, parked: false }
    }

    /// Whether the outcome is known.
    pub fn is_resolved(&self) -> (b: bool)
        ensures
            b <==> self@ is Some,
    {
        self.result.is_some()
    }

    /// Records that the deployment succeeded. Returns whether a waiter has to
    /// be woken: that is so when this call resolved the deployment and a
    /// poll had found it pending.
    pub fn complete(&mut self) -> (wake: bool)
        ensures
            final(self)@ == resolve(old(self)@, Resolution::Succeeded),
            wake <==> old(self)@ is None && old(self).is_parked(),
            final(self).is_parked() == (old(self).is_parked() && !wake),
    {
        if self.result.is_some() {
            false
        } else {
            let wake = self.parked;
            self.result = Some(Ok(()));
            self.parked = false;
            wake
        }
    }

    /// Records that the deployment failed with `err`. Returns whether a
    /// waiter has to be woken, as [`PendingDeployment::complete`] does.
    pub fn error(&mut self, err: ExecutionError) -> (wake: bool)
        ensures
            final(self)@ == resolve(old(self)@, Resolution::Failed(err@)),
            wake <==> old(self)@ is None && old(self).is_parked(),
            final(self).is_parked() == (old(self).is_parked() && !wake),
    {
        if self.result.is_some() {
            false
        } else {
            let wake = self.parked;
            self.result = Some(Err(err));
            self.parked = false;
            wake
        }
    }

    /// Records the completion status that the external runtime reported:
    /// success for zero, and otherwise the error that the status decodes to.
    pub fn resolve_with(&mut self, status: u8) -> (wake: bool)
        ensures
            final(self)@ == resolve(old(self)@, resolution_of(status)),
            wake <==> old(self)@ is None && old(self).is_parked(),
            final(self).is_parked() == (old(self).is_parked() && !wake),
    {
        match CompletionCode::decode(status) {
            CompletionCode::Success => self.complete(),
            code => self.error(code.to_error()),
        }
    }

    /// Asks how the deployment stands. A resolved deployment answers with its
    /// outcome, every time the same. A pending one answers `NotReady` and
    /// remembers that somebody waits for it.
    pub fn poll(&mut self) -> (r: Result<Async, ExecutionError>)
        ensures
            final(self)@ == old(self)@,
            match old(self)@ {
                None => r == Ok::<Async, ExecutionError>(Async::NotReady) && final(self).is_parked(),
                Some(Resolution::Succeeded) => r == Ok::<Async, ExecutionError>(Async::Ready)
                    && final(self).is_parked() == old(self).is_parked(),
                Some(Resolution::Failed(e)) => r matches Err(err) && err@ == e
                    && final(self).is_parked() == old(self).is_parked(),
            },
    {
        match &self.result {
            Some(Ok(())) => Ok(Async::Ready),
            Some(Err(e)) => Err(e.clone()),
            None => {
                self.parked = true;
                Ok(Async::NotReady)
            },
        }
    }

    /// The outcome, without registering a waiter: `None` while pending.
    pub fn outcome(&self) -> (r: Option<Result<(), ExecutionError>>)
        ensures
            match self@ {
                None => r is None,
                Some(Resolution::Succeeded) => r == Some(Ok::<(), ExecutionError>(())),
                Some(Resolution::Failed(e)) => r matches Some(Err(err)) && err@ == e,
            },
    {
        match &self.result {
            None => None,
            Some(Ok(())) => Some(Ok(())),
            Some(Err(e)) => Some(Err(e.clone())),
        }
    }
}

/// Resolution happens once: a resolved deployment stays as it is, whatever is
/// reported for it afterwards.
pub proof fn lemma_resolution_is_final(
    state: Option<Resolution>,
    first: Resolution,
    later: Resolution,
)
    ensures
        resolve(state, first) is Some,
        resolve(resolve(state, first), later) == resolve(state, first),
        state is None ==> resolve(state, first) == Some(first),
{
}

/// A completion status resolves to success exactly when it is zero.
pub proof fn lemma_resolution_of_status(status: u8)
    ensures
        resolution_of(status) is Succeeded <==> status == 0,
{
}

} // verus!
