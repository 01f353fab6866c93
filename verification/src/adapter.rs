//! The decisions of the readiness-driven adapter: when an operation waits,
//! when it attempts its system call, and when it is complete.
//!
//! The adapter itself lives with the reactor. It reports what the reactor
//! and the system call said, and does what the decision says.

use crate::codec::TunPacketCodec;
use crate::platform::Platform;
use vstd::prelude::*;

verus! {

/// Where one operation (a read, a write, a flush) stands.
#[derive(Debug, Clone, Copy, PartialEq, Eq, Structural)]
pub enum PollState {
    /// The reactor is to be asked whether the descriptor is ready.
    WaitReadiness,
    /// The descriptor was reported ready; the system call is to be attempted.
    AttemptIo,
}

/// What the adapter reports.
#[derive(Debug)]
pub enum Signal<T> {
    /// The reactor has no readiness to report; a wake-up is registered.
    NotReady,
    /// The reactor reports the descriptor as ready.
    Ready,
    /// Asking the reactor failed.
    ReadinessFailed(std::io::Error),
    /// The system call would have blocked: the readiness was speculative.
    WouldBlock,
    /// The system call returned, with success or with a hard error.
    Finished(Result<T, std::io::Error>),
}

/// What the adapter is to do.
#[derive(Debug)]
pub enum Decision<T> {
    /// Return to the driving task as pending; it polls again when woken.
    Suspend,
    /// Attempt the non-blocking system call.
    Attempt,
    /// Clear the readiness that turned out wrong, and ask the reactor again.
    ClearReadiness,
    /// The operation is complete, with this result.
    Complete(Result<T, std::io::Error>),
    /// The signal answers nothing that the operation asked for. It is handed
    /// back, and the operation stands where it stood.
    Refused(Signal<T>),
}

/// The next state and the decision, for a state and a signal.
pub open spec fn transition<T>(state: PollState, signal: Signal<T>) -> (PollState, Decision<T>) {
    match (state, signal) {
        (PollState::WaitReadiness, Signal::NotReady) => (
            PollState::WaitReadiness,
            Decision::Suspend,
        ),
        (PollState::WaitReadiness, Signal::Ready) => (PollState::AttemptIo, Decision::Attempt),
        (PollState::WaitReadiness, Signal::ReadinessFailed(e)) => (
            PollState::WaitReadiness,
            Decision::Complete(Err(e)),
        ),
        (PollState::AttemptIo, Signal::WouldBlock) => (
            PollState::WaitReadiness,
            Decision::ClearReadiness,
        ),
        (PollState::AttemptIo, Signal::Finished(r)) => (
            PollState::WaitReadiness,
            Decision::Complete(r),
        ),
        (state, signal) => (state, Decision::Refused(signal)),
    }
}

/// One operation of the adapter.
#[derive(Debug)]
pub struct Operation {
    state: PollState,
}

impl View for Operation {
    type V = PollState;

    closed spec fn view(&self) -> PollState {
        self.state
    }
}

impl Operation {
    /// An operation begins by waiting for readiness.
    pub fn new() -> (op: Self)
        ensures
            op@ == PollState::WaitReadiness,
    {
        Operation { state: PollState::WaitReadiness }
    }

    /// Where the operation stands.
    pub fn state(&self) -> (state: PollState)
        ensures
            state == self@,
    {
        self.state
    }

    /// Takes what the adapter reports and decides what it does next.
    pub fn step<T>(&mut self, signal: Signal<T>) -> (decision: Decision<T>)
        ensures
            (final(self)@, decision) == transition(old(self)@, signal),
    {
        match (self.state, signal) {
            (PollState::WaitReadiness, Signal::NotReady) => Decision::Suspend,
            (PollState::WaitReadiness, Signal::Ready) => {
                self.state = PollState::AttemptIo;
                Decision::Attempt
            },
            (PollState::WaitReadiness, Signal::ReadinessFailed(e)) => Decision::Complete(Err(e)),
            (PollState::AttemptIo, Signal::WouldBlock) => {
                self.state = PollState::WaitReadiness;
                Decision::ClearReadiness
            },
            (PollState::AttemptIo, Signal::Finished(r)) => {
                self.state = PollState::WaitReadiness;
                Decision::Complete(r)
            },
            (_, signal) => Decision::Refused(signal),
        }
    }

    /// Shutting down the write side: there is nothing to close by halves, so
    /// it succeeds at once.
    pub fn shutdown() -> (decision: Decision<()>)
        ensures
            decision == Decision::Complete(Ok::<(), std::io::Error>(())),
    {
        Decision::Complete(Ok(()))
    }
}

/// The system call is attempted only on a report of readiness, and only by
/// an operation that was waiting for one.
pub proof fn lemma_attempt_needs_readiness<T>(state: PollState, signal: Signal<T>)
    requires
        transition(state, signal).1 is Attempt,
    ensures
        state == PollState::WaitReadiness,
        signal is Ready,
        transition(state, signal).0 == PollState::AttemptIo,
{
}

/// A system call that would have blocked leads to clearing the readiness and
/// back to waiting, never to a second attempt or to completion; and the
/// readiness is cleared on no other occasion.
pub proof fn lemma_would_block_clears_readiness<T>(state: PollState, signal: Signal<T>)
    ensures
        state == PollState::AttemptIo && signal is WouldBlock ==> transition(state, signal) == (
            PollState::WaitReadiness,
            Decision::<T>::ClearReadiness,
        ),
        transition(state, signal).1 is ClearReadiness ==> state == PollState::AttemptIo
            && signal is WouldBlock,
{
}

/// An operation completes only with what the reactor or the system call
/// returned, unchanged: a hard error is not retried, and a result is neither
/// lost nor made up.
pub proof fn lemma_completion_is_the_outcome<T>(state: PollState, signal: Signal<T>)
    ensures
        transition(state, signal).1 matches Decision::Complete(r) ==> {
            ||| signal == Signal::Finished(r) && state == PollState::AttemptIo
            ||| r is Err && signal == Signal::<T>::ReadinessFailed(r->Err_0) && state
                == PollState::WaitReadiness
        },
        state == PollState::AttemptIo && signal is Finished ==> transition(state, signal).1
            == Decision::Complete(signal->Finished_0),
{
}

/// An operation polled while its descriptor is not ready suspends without a
/// system call, and is left exactly as an operation that was never polled.
/// Polled again once the descriptor is ready, it attempts the call once and
/// completes with its result.
pub proof fn lemma_pending_then_complete<T>(outcome: Result<T, std::io::Error>)
    ensures
        transition(PollState::WaitReadiness, Signal::<T>::NotReady) == (
            PollState::WaitReadiness,
            Decision::<T>::Suspend,
        ),
        transition(PollState::WaitReadiness, Signal::<T>::Ready) == (
            PollState::AttemptIo,
            Decision::<T>::Attempt,
        ),
        transition(PollState::AttemptIo, Signal::Finished(outcome)) == (
            PollState::WaitReadiness,
            Decision::Complete(outcome),
        ),
{
}

/// The frame size to make room for when the largest packet size is not
/// known: the usual 1500 bytes and a header.
pub const DEFAULT_FRAME_SIZE: i64 = 1504;

/// The length of the header that the frame size allows for.
pub const HEADER_SIZE: i64 = 4;

/// The frame-size hint for the codec of a queue: the largest packet size of
/// the interface and a header, or the default where the size cannot be
/// read.
pub open spec fn frame_size_of(mtu: Option<i32>) -> int {
    match mtu {
        Some(mtu) => mtu + HEADER_SIZE,
        None => DEFAULT_FRAME_SIZE as int,
    }
}

/// Works out the frame-size hint for the codec of a queue.
pub fn frame_size(mtu: Option<i32>) -> (size: i64)
    ensures
        size == frame_size_of(mtu),
{
    match mtu {
        Some(mtu) => mtu as i64 + HEADER_SIZE,
        None => DEFAULT_FRAME_SIZE,
    }
}

/// The codec for the stream of a queue: with the queue's choice of the
/// header, and with the frame-size hint for the interface's largest packet
/// size.
pub fn framed_codec(pi: bool, mtu: Option<i32>, platform: Platform) -> (codec: TunPacketCodec)
    ensures
        codec.packet_information() == pi,
        codec.frame_size() == frame_size_of(mtu),
        codec.platform() == platform,
{
    TunPacketCodec::with_frame_size(pi, frame_size(mtu), platform)
}

} // verus!
