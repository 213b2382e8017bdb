use std::path::PathBuf;

use bloop_client_framework::audio_cache::{
    file_extension, refusal_is_skipped, temp_name, AudioCache, AudioCacheError, EnsureAction,
    EnsureEvent, EnsurePhase, SyncAction, SyncEvent, SyncPhase,
};
use bloop_client_framework::protocol::{AchievementRecord, DataHash, ErrorResponse};
use bloop_client_framework::request::RequestError;

const ID_TEXT: &str = "07070707-0707-0707-0707-070707070707";

fn record() -> AchievementRecord {
    AchievementRecord {
        id: [7; 16],
        audio_hash: DataHash::from_bytes(vec![9; 16]),
    }
}

fn silent() -> AchievementRecord {
    AchievementRecord {
        id: [8; 16],
        audio_hash: None,
    }
}

fn name() -> String {
    format!("{ID_TEXT}_{}.mp3", "09".repeat(16))
}

fn refused(response: ErrorResponse) -> AudioCacheError {
    AudioCacheError::Request(RequestError::Error(response))
}

fn broken() -> std::io::Error {
    std::io::Error::from(std::io::ErrorKind::PermissionDenied)
}

#[test]
fn paths_embed_id_and_hash() {
    let cache = AudioCache::new(PathBuf::from("/cache"));
    let path = cache.path_for(&record()).unwrap();

    assert_eq!(cache.base_path(), &PathBuf::from("/cache"));
    assert_eq!(path.directory, &PathBuf::from("/cache"));
    assert_eq!(path.file_name, name());
    assert!(cache.path_for(&silent()).is_none());
    assert_eq!(cache.clone().base_path(), cache.base_path());
}

#[test]
fn file_names_tell_audio_apart() {
    let cache = AudioCache::new(PathBuf::new());
    let mut other = record();
    other.audio_hash = DataHash::from_bytes(vec![9; 15]);

    assert_ne!(
        cache.path_for(&record()).unwrap().file_name,
        cache.path_for(&other).unwrap().file_name
    );
}

#[test]
fn temporary_names_are_numbered() {
    assert_eq!(temp_name(&[7; 16], 0), format!("{ID_TEXT}.0.download"));
    assert_eq!(
        temp_name(&[7; 16], u64::MAX),
        format!("{ID_TEXT}.18446744073709551615.download")
    );
    assert_ne!(temp_name(&[7; 16], 1), temp_name(&[7; 16], 11));
}

#[test]
fn extensions_are_those_of_paths() {
    for name in [
        "a.mp3", ".mp3", "a", "", ".", "..", "...", "a.", "a.b.c", "..mp3", ".a.mp3", "a..",
    ] {
        let expected = PathBuf::from(name)
            .extension()
            .map(|extension| extension.to_str().unwrap().as_bytes().to_vec());

        // A lone dot names a directory and has no extension either way.
        assert_eq!(
            file_extension(name.as_bytes()).map(|found| found.to_vec()),
            expected,
            "{name}"
        );
    }
}

#[test]
fn missing_audio_is_downloaded() {
    let cache = AudioCache::new(PathBuf::from("/cache"));
    let (mut task, action) = cache.ensure(&record());
    assert!(matches!(action, EnsureAction::Check(file) if file == name()));

    let action = task.step(EnsureEvent::Checked(false));
    assert!(matches!(action, EnsureAction::CreateDirectory));

    let action = task.step(EnsureEvent::Prepared);
    assert!(matches!(action, EnsureAction::Retrieve(id) if id == [7; 16]));

    let action = task.step(EnsureEvent::Retrieved {
        data: vec![1, 2, 3],
        counter: 5,
    });
    match action {
        EnsureAction::Write { temp_name, data } => {
            assert_eq!(temp_name, format!("{ID_TEXT}.5.download"));
            assert_eq!(data, vec![1, 2, 3]);
        }
        _ => panic!("not written"),
    }

    let action = task.step(EnsureEvent::Written);
    match action {
        EnsureAction::Rename {
            temp_name,
            file_name,
        } => {
            assert_eq!(temp_name, format!("{ID_TEXT}.5.download"));
            assert_eq!(file_name, name());
        }
        _ => panic!("not renamed"),
    }

    let action = task.step(EnsureEvent::Renamed);
    assert!(matches!(action, EnsureAction::Finish(Ok(Some(file))) if file == name()));
    assert_eq!(task.phase(), EnsurePhase::Finished);
}

#[test]
fn cached_audio_is_not_downloaded_again() {
    let cache = AudioCache::new(PathBuf::from("/cache"));
    let (mut task, _) = cache.ensure(&record());
    let action = task.step(EnsureEvent::Checked(true));

    assert!(matches!(action, EnsureAction::Finish(Ok(Some(file))) if file == name()));
}

#[test]
fn absent_audio_is_done_at_once() {
    let cache = AudioCache::new(PathBuf::from("/cache"));
    let (task, action) = cache.ensure(&silent());

    assert!(matches!(action, EnsureAction::Finish(Ok(None))));
    assert_eq!(task.phase(), EnsurePhase::Finished);
}

#[test]
fn failed_downloads_have_their_error() {
    let cache = AudioCache::new(PathBuf::from("/cache"));

    let (mut task, _) = cache.ensure(&record());
    let action = task.step(EnsureEvent::Failed(broken()));
    assert!(matches!(
        action,
        EnsureAction::Finish(Err(AudioCacheError::Io(error)))
            if error.kind() == std::io::ErrorKind::PermissionDenied
    ));

    let (mut task, _) = cache.ensure(&record());
    task.step(EnsureEvent::Checked(false));
    task.step(EnsureEvent::Prepared);
    let action = task.step(EnsureEvent::Refused(RequestError::Disconnected));
    assert!(matches!(
        action,
        EnsureAction::Finish(Err(AudioCacheError::Request(RequestError::Disconnected)))
    ));
}

#[test]
fn sync_prunes_then_downloads() {
    let cache = AudioCache::new(PathBuf::from("/cache"));
    let records = [record(), silent()];
    let (mut task, action) = cache.sync(&records);
    assert!(matches!(action, SyncAction::CreateDirectory));
    assert!(matches!(task.step(SyncEvent::Prepared), SyncAction::Open));
    assert!(matches!(task.step(SyncEvent::Opened), SyncAction::NextEntry));

    let outdated = format!("{ID_TEXT}_{}.mp3", "0a".repeat(16));
    for (entry, removed) in [
        ("stale.mp3".to_string(), true),
        (outdated, true),
        (name(), false),
        (temp_name(&[1; 16], 3), true),
        ("notes.txt".to_string(), false),
        (".mp3".to_string(), false),
        ("mp3".to_string(), false),
    ] {
        let action = task.step(SyncEvent::Entry(entry.clone().into_bytes()));

        if removed {
            assert!(matches!(action, SyncAction::Remove(file) if file == entry.as_bytes()));
            assert!(matches!(
                task.step(SyncEvent::Removed),
                SyncAction::NextEntry
            ));
        } else {
            assert!(matches!(action, SyncAction::NextEntry), "{entry}");
        }
    }

    let action = task.step(SyncEvent::EntriesEnded);
    assert!(matches!(action, SyncAction::Ensure(0)));
    let action = task.step(SyncEvent::Ensured(Ok(Some(name()))));
    assert!(matches!(action, SyncAction::Ensure(1)));
    let action = task.step(SyncEvent::Ensured(Ok(None)));
    assert!(matches!(action, SyncAction::Finish(Ok(skipped)) if skipped.is_empty()));
    assert_eq!(task.phase(), SyncPhase::Finished);
}

#[test]
fn refusals_are_reported_in_order() {
    let cache = AudioCache::new(PathBuf::from("/cache"));
    let records = [record(), silent(), record(), silent()];
    let (mut task, _) = cache.sync(&records);
    task.step(SyncEvent::Prepared);
    task.step(SyncEvent::Opened);
    task.step(SyncEvent::EntriesEnded);

    task.step(SyncEvent::Ensured(Err(refused(
        ErrorResponse::AudioUnavailable,
    ))));
    task.step(SyncEvent::Ensured(Ok(None)));
    task.step(SyncEvent::Ensured(Ok(None)));
    let action = task.step(SyncEvent::Ensured(Err(refused(ErrorResponse::Custom(0x90)))));

    match action {
        SyncAction::Finish(Ok(skipped)) => assert_eq!(skipped, vec![[7; 16], [8; 16]]),
        _ => panic!("not finished"),
    }
}

#[test]
fn sync_fails_on_anything_else() {
    let cache = AudioCache::new(PathBuf::from("/cache"));
    let records = [record(), record()];

    for error in [
        refused(ErrorResponse::UnexpectedMessage),
        AudioCacheError::Request(RequestError::Disconnected),
        AudioCacheError::Io(broken()),
    ] {
        assert!(!refusal_is_skipped(&error));

        let (mut task, _) = cache.sync(&records);
        task.step(SyncEvent::Prepared);
        task.step(SyncEvent::Opened);
        task.step(SyncEvent::EntriesEnded);
        let action = task.step(SyncEvent::Ensured(Err(error)));

        assert!(matches!(action, SyncAction::Finish(Err(_))));
    }

    let (mut task, _) = cache.sync(&records);
    let action = task.step(SyncEvent::Failed(broken()));
    assert!(matches!(
        action,
        SyncAction::Finish(Err(AudioCacheError::Io(_)))
    ));
    assert!(refusal_is_skipped(&refused(
        ErrorResponse::AudioUnavailable
    )));
}

#[test]
fn failed_removal_fails_the_sync() {
    let cache = AudioCache::new(PathBuf::from("/cache"));
    let (mut task, _) = cache.sync(&[]);
    task.step(SyncEvent::Prepared);
    task.step(SyncEvent::Opened);
    let action = task.step(SyncEvent::Entry(b"old.mp3".to_vec()));
    assert!(matches!(action, SyncAction::Remove(_)));

    let action = task.step(SyncEvent::Failed(broken()));
    assert!(matches!(
        action,
        SyncAction::Finish(Err(AudioCacheError::Io(error)))
            if error.kind() == std::io::ErrorKind::PermissionDenied
    ));
    assert_eq!(task.phase(), SyncPhase::Finished);
}

#[test]
fn empty_sync_finishes_after_pruning() {
    let cache = AudioCache::new(PathBuf::from("/cache"));
    let (mut task, _) = cache.sync(&[]);
    task.step(SyncEvent::Prepared);
    task.step(SyncEvent::Opened);
    assert!(task.prunes(name().as_bytes()));

    let action = task.step(SyncEvent::EntriesEnded);
    assert!(matches!(action, SyncAction::Finish(Ok(skipped)) if skipped.is_empty()));
}
