use bloop_client_framework::audio::{advance, start, PlayAction, PlayEvent, PlayPhase};

fn step(phase: PlayPhase, event: PlayEvent<&'static str>) -> (PlayPhase, PlayAction<&'static str>) {
    advance(phase, event)
}

#[test]
fn playback_runs_to_its_end() {
    let (phase, action) = start::<&'static str>();
    assert!(matches!(action, PlayAction::CheckCancelled));
    let (phase, action) = step(phase, PlayEvent::Cancelled(false));
    assert!(matches!(action, PlayAction::OpenOutput));
    let (phase, action) = step(phase, PlayEvent::Opened);
    assert!(matches!(action, PlayAction::LoadSource));
    let (phase, action) = step(phase, PlayEvent::Loaded);
    assert!(matches!(action, PlayAction::CheckCancelled));
    let (phase, action) = step(phase, PlayEvent::Cancelled(false));
    assert!(matches!(action, PlayAction::StartSource));
    let (phase, action) = step(phase, PlayEvent::Started);
    assert!(matches!(action, PlayAction::CheckDrained));
    let (phase, action) = step(phase, PlayEvent::Drained(false));
    assert!(matches!(action, PlayAction::Pause(50)));
    let (phase, action) = step(phase, PlayEvent::Paused);
    assert!(matches!(action, PlayAction::CheckCancelled));
    let (phase, action) = step(phase, PlayEvent::Cancelled(false));
    assert!(matches!(action, PlayAction::CheckDrained));
    let (phase, action) = step(phase, PlayEvent::Drained(true));
    assert_eq!(phase, PlayPhase::Finished);
    assert!(matches!(action, PlayAction::Finish(Ok(()))));
}

#[test]
fn cancelled_playback_stops() {
    for phase in [PlayPhase::Queued, PlayPhase::Ready, PlayPhase::Checking] {
        let (next, action) = step(phase, PlayEvent::Cancelled(true));
        assert_eq!(next, PlayPhase::Finished);
        assert!(matches!(action, PlayAction::Finish(Ok(()))));
    }
}

#[test]
fn failed_playback_reports_why() {
    for phase in [PlayPhase::Opening, PlayPhase::Loading] {
        let (next, action) = step(phase, PlayEvent::Failed("no device"));
        assert_eq!(next, PlayPhase::Finished);
        assert!(matches!(action, PlayAction::Finish(Err("no device"))));
    }
}
