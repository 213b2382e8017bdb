//! The rules of playing one audio source.
//!
//! [`advance`] decides; it performs nothing itself. It takes where a playback
//! stands and what happened, and returns what to do next.

use vstd::prelude::*;

verus! {

/// How long to wait before looking again whether a playback is over, in
/// milliseconds.
pub const POLL_MILLIS: u64 = 50;

/// Where a playback stands.
#[derive(Clone, Copy, Debug, Eq, PartialEq, Structural)]
pub enum PlayPhase {
    /// Waiting for whether it was cancelled before it began.
    Queued,
    /// Waiting for the output device.
    Opening,
    /// Waiting for the decoded source.
    Loading,
    /// Waiting for whether it was cancelled while loading.
    Ready,
    /// Waiting for the source to be handed to the output.
    Starting,
    /// Waiting for whether the output has played everything.
    Playing,
    /// Waiting for the time to look again.
    Pausing,
    /// Waiting for whether it was cancelled while playing.
    Checking,
    /// Over.
    Finished,
}

/// What happened to a playback; `E` is what can go wrong with it.
#[derive(Debug)]
pub enum PlayEvent<E> {
    /// It was cancelled, or not.
    Cancelled(bool),
    /// The output device is open.
    Opened,
    /// The source is open and decodes.
    Loaded,
    /// The source was handed to the output.
    Started,
    /// The output has played everything, or not.
    Drained(bool),
    /// The pause is over.
    Paused,
    /// The output device or the source failed.
    Failed(E),
}

/// What to do next about a playback.
#[derive(Debug)]
pub enum PlayAction<E> {
    /// Look whether it was cancelled.
    CheckCancelled,
    /// Open the output device.
    OpenOutput,
    /// Open and decode the source.
    LoadSource,
    /// Hand the source to the output.
    StartSource,
    /// Look whether the output has played everything.
    CheckDrained,
    /// Wait for a number of milliseconds.
    Pause(u64),
    /// Nothing; it is over.
    Finish(Result<(), E>),
}

/// Which events can happen where a playback stands.
pub open spec fn can_happen<E>(phase: PlayPhase, event: PlayEvent<E>) -> bool {
    match event {
        PlayEvent::Cancelled(_) => phase is Queued || phase is Ready || phase is Checking,
        PlayEvent::Opened => phase is Opening,
        PlayEvent::Loaded => phase is Loading,
        PlayEvent::Started => phase is Starting,
        PlayEvent::Drained(_) => phase is Playing,
        PlayEvent::Paused => phase is Pausing,
        PlayEvent::Failed(_) => phase is Opening || phase is Loading,
    }
}

/// Where a playback stands after an event, and what to do.
pub open spec fn after_event<E>(phase: PlayPhase, event: PlayEvent<E>) -> (
    PlayPhase,
    PlayAction<E>,
) {
    match event {
        PlayEvent::Cancelled(cancelled) => if cancelled {
            (PlayPhase::Finished, PlayAction::Finish(Ok(())))
        } else if phase is Queued {
            (PlayPhase::Opening, PlayAction::OpenOutput)
        } else if phase is Ready {
            (PlayPhase::Starting, PlayAction::StartSource)
        } else {
            (PlayPhase::Playing, PlayAction::CheckDrained)
        },
        PlayEvent::Opened => (PlayPhase::Loading, PlayAction::LoadSource),
        PlayEvent::Loaded => (PlayPhase::Ready, PlayAction::CheckCancelled),
        PlayEvent::Started => (PlayPhase::Playing, PlayAction::CheckDrained),
        PlayEvent::Drained(drained) => if drained {
            (PlayPhase::Finished, PlayAction::Finish(Ok(())))
        } else {
            (PlayPhase::Pausing, PlayAction::Pause(POLL_MILLIS))
        },
        PlayEvent::Paused => (PlayPhase::Checking, PlayAction::CheckCancelled),
        PlayEvent::Failed(error) => (PlayPhase::Finished, PlayAction::Finish(Err(error))),
    }
}

/// Starts a playback.
pub fn start<E>() -> (step: (PlayPhase, PlayAction<E>))
    ensures
        step == (PlayPhase::Queued, PlayAction::<E>::CheckCancelled),
{
    (PlayPhase::Queued, PlayAction::CheckCancelled)
}

/// Takes a playback one step on.
pub fn advance<E>(phase: PlayPhase, event: PlayEvent<E>) -> (step: (PlayPhase, PlayAction<E>))
    requires
        can_happen(phase, event),
    ensures
        step == after_event(phase, event),
{
    match event {
        PlayEvent::Cancelled(cancelled) => {
            // A handle dropped before the playback got its turn should not
            // open the device and emit a stray blip.
            if cancelled {
                (PlayPhase::Finished, PlayAction::Finish(Ok(())))
            } else if phase == PlayPhase::Queued {
                (PlayPhase::Opening, PlayAction::OpenOutput)
            } else if phase == PlayPhase::Ready {
                (PlayPhase::Starting, PlayAction::StartSource)
            } else {
                (PlayPhase::Playing, PlayAction::CheckDrained)
            }
        },
        PlayEvent::Opened => (PlayPhase::Loading, PlayAction::LoadSource),
        PlayEvent::Loaded => (PlayPhase::Ready, PlayAction::CheckCancelled),
        PlayEvent::Started => (PlayPhase::Playing, PlayAction::CheckDrained),
        PlayEvent::Drained(drained) => {
            if drained {
                (PlayPhase::Finished, PlayAction::Finish(Ok(())))
            } else {
                (PlayPhase::Pausing, PlayAction::Pause(POLL_MILLIS))
            }
        },
        PlayEvent::Paused => (PlayPhase::Checking, PlayAction::CheckCancelled),
        PlayEvent::Failed(error) => (PlayPhase::Finished, PlayAction::Finish(Err(error))),
    }
}

/// A cancelled playback is over without an error, and neither the device is
/// opened nor the source started without looking for a cancellation first.
pub proof fn law_cancelled_playback_stops<E>(phase: PlayPhase, event: PlayEvent<E>)
    requires
        can_happen(phase, event),
    ensures
        ({
            let (next, action) = after_event(phase, event);
            &&& event == PlayEvent::<E>::Cancelled(true) ==> next is Finished && action
                == PlayAction::<E>::Finish(Ok(()))
            &&& action is OpenOutput || action is StartSource ==> event == PlayEvent::<E>::Cancelled(
                false,
            )
            &&& event is Paused ==> action is CheckCancelled
        }),
{
}

/// A playback starts by looking whether it was cancelled.
pub proof fn law_playback_starts_with_a_look<E>(step: (PlayPhase, PlayAction<E>))
    requires
        call_ensures(start::<E>, (), step),
    ensures
        step.0 is Queued,
        step.1 is CheckCancelled,
{
}

/// Every event of a playback can happen exactly when it is awaited.
pub proof fn law_playback_awaits_its_events<E>(phase: PlayPhase, event: PlayEvent<E>)
    ensures
        event is Cancelled ==> (can_happen(phase, event) <==> phase is Queued || phase is Ready
            || phase is Checking),
        event is Opened ==> (can_happen(phase, event) <==> phase is Opening),
        event is Loaded ==> (can_happen(phase, event) <==> phase is Loading),
        event is Started ==> (can_happen(phase, event) <==> phase is Starting),
        event is Drained ==> (can_happen(phase, event) <==> phase is Playing),
        event is Paused ==> (can_happen(phase, event) <==> phase is Pausing),
        event is Failed ==> (can_happen(phase, event) <==> phase is Opening || phase is Loading),
{
}

/// Everything a playback comes to wait for has its one cause.
pub proof fn law_playback_goes_step_by_step<E>(
    phase: PlayPhase,
    event: PlayEvent<E>,
    step: (PlayPhase, PlayAction<E>),
)
    requires
        can_happen(phase, event),
        call_ensures(advance::<E>, (phase, event), step),
    ensures
        ({
            let next = step.0;
            let wanted = event == PlayEvent::<E>::Cancelled(false);
            &&& !(next is Queued)
            &&& next is Opening <==> phase is Queued && wanted
            &&& next is Loading <==> event is Opened
            &&& next is Ready <==> event is Loaded
            &&& next is Starting <==> phase is Ready && wanted
            &&& next is Playing <==> event is Started || phase is Checking && wanted
            &&& next is Pausing <==> event == PlayEvent::<E>::Drained(false)
            &&& next is Checking <==> event is Paused
            &&& next is Finished <==> event == PlayEvent::<E>::Cancelled(true) || event
                == PlayEvent::<E>::Drained(true) || event is Failed
        }),
{
}

/// Whatever a playback does is what it then waits for, with 50 milliseconds
/// between two looks; it fails exactly if something failed, with that very
/// failure.
pub proof fn law_playback_awaits_what_it_does<E>(
    phase: PlayPhase,
    event: PlayEvent<E>,
    step: (PlayPhase, PlayAction<E>),
)
    requires
        can_happen(phase, event),
        call_ensures(advance::<E>, (phase, event), step),
    ensures
        ({
            let (next, action) = step;
            &&& next is Opening <==> action is OpenOutput
            &&& next is Loading <==> action is LoadSource
            &&& next is Ready || next is Checking <==> action is CheckCancelled
            &&& next is Starting <==> action is StartSource
            &&& next is Playing <==> action is CheckDrained
            &&& next is Pausing <==> action == PlayAction::<E>::Pause(50)
            &&& action is Pause ==> next is Pausing
            &&& next is Finished <==> action is Finish
            &&& (event matches PlayEvent::Failed(error) ==> action == PlayAction::Finish(
                Err::<(), E>(error),
            ))
            &&& (action matches PlayAction::Finish(Err(_)) ==> event is Failed)
        }),
{
}

} // verus!
