//! One open camera and its capture state.
//!
//! A `Toupcam` stands for a camera from the moment the driver has opened it
//! until the value is dropped. This library makes no native call itself: the
//! caller makes each call and hands over what the driver answered, and the
//! methods here decide what that answer means. A value cannot be copied, and
//! only `open` makes one, so no operation can be had without an open camera.

use vstd::prelude::*;
use crate::result::{accept, accept_spec, Error, HResult};

verus! {

/// The number of events the queue between the driver and the capture loop
/// holds before the driver has to wait. The driver posts a handful of events
/// when capture starts.
pub const EVENT_QUEUE_CAPACITY: usize = 10;

/// Whether the driver delivers frames.
#[derive(Copy, Clone, PartialEq, Eq, Debug, Structural)]
pub enum CaptureState {
    /// The camera is open and no capture runs.
    Idle,
    /// The driver's callback is registered and frames arrive.
    Capturing,
}

impl CaptureState {
    /// The state after the driver answered a request to start capture.
    pub open spec fn start(self, result: HResult) -> CaptureState {
        if result.is_success() {
            CaptureState::Capturing
        } else {
            self
        }
    }

    /// The state after the driver answered a request to stop capture.
    pub open spec fn stop(self, result: HResult) -> CaptureState {
        if result.is_success() {
            CaptureState::Idle
        } else {
            self
        }
    }
}

/// The state after each of `results` in turn has answered a start and the
/// stop that follows it.
pub open spec fn after_cycles(state: CaptureState, results: Seq<(HResult, HResult)>) -> CaptureState
    decreases results.len(),
{
    if results.len() == 0 {
        state
    } else {
        after_cycles(state, results.drop_last()).start(results.last().0).stop(results.last().1)
    }
}

/// An open camera.
#[derive(Debug)]
pub struct Toupcam {
    state: CaptureState,
}

/// Whether an error names the identifier that was asked for.
pub open spec fn names_id(id: Option<String>, unique_id: Option<&str>) -> bool {
    match (id, unique_id) {
        (None, None) => true,
        (Some(a), Some(b)) => a@ == b@,
        _ => false,
    }
}

impl Toupcam {
    /// The capture state of the camera.
    pub closed spec fn state(&self) -> CaptureState {
        self.state
    }

    /// Whether capture runs.
    pub open spec fn is_capturing_spec(&self) -> bool {
        self.state() == CaptureState::Capturing
    }

    /// Whether capture runs.
    #[verifier::when_used_as_spec(is_capturing_spec)]
    pub fn is_capturing(&self) -> (capturing: bool)
        ensures
            capturing == self.is_capturing_spec(),
    {
        match self.state {
            CaptureState::Capturing => true,
            CaptureState::Idle => false,
        }
    }

    /// Decides what the driver's answer to a request to open a camera means.
    ///
    /// `unique_id` is the identifier that was asked for, `None` for the first
    /// camera; `found` says whether the driver handed back a handle. Without a
    /// handle there is no camera, and the error names the identifier.
    pub fn open(unique_id: Option<&str>, found: bool) -> (r: Result<Toupcam, Error>)
        ensures
            found ==> (r matches Ok(camera) && camera.state() == CaptureState::Idle),
            !found ==> (r matches Err(Error::DeviceNotFound(id)) && names_id(id, unique_id)),
    {
        if found {
            Ok(Toupcam { state: CaptureState::Idle })
        } else {
            let id = match unique_id {
                Some(text) => Some(text.to_owned()),
                None => None,
            };
            Err(Error::DeviceNotFound(id))
        }
    }

    /// Records the driver's answer to a request to start capture.
    ///
    /// On success the camera is capturing; on failure nothing has changed.
    pub fn start(&mut self, result: HResult) -> (r: Result<(), Error>)
        requires
            old(self).state() == CaptureState::Idle,
        ensures
            r == accept_spec(result),
            final(self).state() == old(self).state().start(result),
    {
        accept(result)?;
        self.state = CaptureState::Capturing;
        Ok(())
    }

    /// Records the driver's answer to the request to stop capture that ends
    /// a capture loop.
    ///
    /// On success the camera is idle again; on failure nothing has changed.
    pub fn stop(&mut self, result: HResult) -> (r: Result<(), Error>)
        requires
            old(self).state() == CaptureState::Capturing,
        ensures
            r == accept_spec(result),
            final(self).state() == old(self).state().stop(result),
    {
        accept(result)?;
        self.state = CaptureState::Idle;
        Ok(())
    }
}

/// A capture that started and stopped leaves the camera as it was, so that
/// capture can start again.
pub proof fn lemma_start_stop_cycle(state: CaptureState, started: HResult, stopped: HResult)
    requires
        state == CaptureState::Idle,
        started.is_success(),
        stopped.is_success(),
    ensures
        state.start(started) == CaptureState::Capturing,
        state.start(started).stop(stopped) == CaptureState::Idle,
        state.start(started).stop(stopped) == state,
{
}

/// Starting and stopping can be repeated without end: after any number of
/// captures that started and stopped, an idle camera is idle.
pub proof fn lemma_cycles_end_idle(results: Seq<(HResult, HResult)>)
    requires
        forall|i: int|
            0 <= i < results.len() ==> (#[trigger] results[i]).0.is_success()
                && results[i].1.is_success(),
    ensures
        after_cycles(CaptureState::Idle, results) == CaptureState::Idle,
    decreases results.len(),
{
    if results.len() > 0 {
        let earlier = results.drop_last();
        assert forall|i: int| 0 <= i < earlier.len() implies (#[trigger] earlier[i]).0.is_success()
            && earlier[i].1.is_success() by {
            assert(earlier[i] == results[i]);
        }
        lemma_cycles_end_idle(earlier);
        assert(results.last() == results[results.len() - 1]);
    }
}

} // verus!
