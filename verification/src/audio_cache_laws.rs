//! What holds of the audio cache over any course of events.

use vstd::prelude::*;
use vstd::utf8::encode_utf8;

use crate::audio_cache::{
    audio_file_name, extension, file_extension, is_expected, is_pruned, is_skipped, last_dot,
    record_file_name, refusal_is_skipped, temp_file_name, temp_name, AudioCache, AudioCacheError,
    CachePath, EnsureAction, EnsureEvent, EnsureModel, EnsurePhase, EnsureTask, SyncAction,
    SyncEvent, SyncModel, SyncPhase, SyncTask,
};
use crate::protocol::{record_models, AchievementRecord, RecordModel};
use crate::request::RequestError;
use crate::text::{decimal, hex, lemma_hex_range, lemma_uuid_text, uuid_text};

verus! {

/// Every step of a synchronization or a download is one of its model, whatever
/// happened before.
pub proof fn law_tasks_follow_their_models()
    ensures
        forall|task: &mut SyncTask, event: SyncEvent, action: SyncAction| #[trigger]
            call_ensures(SyncTask::step, (task, event), action) ==> task@.leads_to(
                event,
                final(task)@,
                action,
            ),
        forall|task: &SyncTask, phase: SyncPhase| #[trigger]
            call_ensures(SyncTask::phase, (task,), phase) ==> phase == task@.phase,
        forall|task: &mut EnsureTask, event: EnsureEvent, action: EnsureAction| #[trigger]
            call_ensures(EnsureTask::step, (task, event), action) ==> task@.leads_to(
                event,
                final(task)@,
                action,
            ),
        forall|task: &EnsureTask, phase: EnsurePhase| #[trigger]
            call_ensures(EnsureTask::phase, (task,), phase) ==> phase == task@.phase,
{
}

/// A synchronization starts by creating the directory of the cache, with the
/// records as given and nothing skipped.
pub proof fn law_sync_starts_afresh<'a>(
    cache: &AudioCache,
    records: &'a [AchievementRecord],
    started: (SyncTask<'a>, SyncAction),
)
    requires
        call_ensures(AudioCache::sync, (cache, records), started),
    ensures
        started.0@.records == records@,
        started.0@.skipped.len() == 0,
        started.0@.phase is Preparing,
        started.1 is CreateDirectory,
{
}

/// Every event of a synchronization is accepted exactly when it is awaited.
pub proof fn law_sync_awaits_its_events(task: SyncModel, event: SyncEvent)
    ensures
        event is Prepared ==> (task.accepts(event) <==> task.phase is Preparing),
        event is Opened ==> (task.accepts(event) <==> task.phase is Opening),
        event is Entry ==> (task.accepts(event) <==> task.phase is Listing),
        event is EntriesEnded ==> (task.accepts(event) <==> task.phase is Listing),
        event is Removed ==> (task.accepts(event) <==> task.phase is Removing),
        event is Ensured ==> (task.accepts(event) <==> task.phase is Ensuring),
        event is Failed ==> (task.accepts(event) <==> !(task.phase is Ensuring
            || task.phase is Finished)),
        task.is_valid() <==> forall|index: usize| #[trigger]
            is_turn_of(task, index) ==> index < task.records.len(),
{
    if !task.is_valid() {
        assert(is_turn_of(task, task.phase->Ensuring_0));
    }
}

/// Whether the audio file of the record with the given index is awaited.
pub open spec fn is_turn_of(task: SyncModel, index: usize) -> bool {
    task.phase == SyncPhase::Ensuring(index)
}

/// Whatever is asked for is what is then awaited.
pub proof fn law_sync_awaits_what_it_asks_for(
    task: SyncModel,
    event: SyncEvent,
    next: SyncModel,
    action: SyncAction,
)
    requires
        task.is_valid(),
        task.accepts(event),
        task.leads_to(event, next, action),
    ensures
        next.is_valid(),
        next.records == task.records,
        !(action is CreateDirectory) && !(next.phase is Preparing),
        action is Open <==> next.phase is Opening,
        action is NextEntry <==> next.phase is Listing,
        action is Remove <==> next.phase is Removing,
        action is Ensure <==> next.phase is Ensuring,
        action is Finish <==> next.phase is Finished,
        next.phase matches SyncPhase::Ensuring(index) ==> action == SyncAction::Ensure(index),
{
}

/// The records are turned to one after the other from the first on, whatever
/// was skipped, and the synchronization is over when the last one is done.
pub proof fn law_sync_takes_records_in_order(
    task: SyncModel,
    event: SyncEvent,
    next: SyncModel,
    action: SyncAction,
)
    requires
        task.is_valid(),
        task.accepts(event),
        task.records.len() <= usize::MAX,
        task.leads_to(event, next, action),
    ensures
        action matches SyncAction::Ensure(index) ==> if event is EntriesEnded {
            index == 0
        } else {
            index > 0 && task.phase == SyncPhase::Ensuring((index - 1) as usize)
        },
        event is EntriesEnded && task.records.len() > 0 ==> action == SyncAction::Ensure(0),
        event is EntriesEnded && task.records.len() == 0 ==> action is Finish,
        task.phase matches SyncPhase::Ensuring(index) ==> {
            ||| action == SyncAction::Ensure((index + 1) as usize) && index + 1 < task.records.len()
            ||| action matches SyncAction::Finish(Ok(_)) && index + 1 == task.records.len()
            ||| action matches SyncAction::Finish(Err(_))
        },
        action matches SyncAction::Finish(Ok(reported)) ==> reported@ == next.skipped,
        action matches SyncAction::Finish(Ok(_)) ==> event is EntriesEnded || event is Ensured,
{
}

/// Whether making sure of a record ended in a way that lets the
/// synchronization go on.
pub open spec fn lets_go_on(result: Result<Option<String>, AudioCacheError>) -> bool {
    match result {
        Ok(_) => true,
        Err(AudioCacheError::Request(RequestError::Error(error))) => error is UnknownNfcUid
            || error is NfcUidThrottled || error is AudioUnavailable || error is Custom,
        Err(_) => false,
    }
}

/// Over a synchronization that does not fail every record is made sure of
/// exactly once, in order: the first action is about the first record, the
/// second about the second, and so on to the end.
pub proof fn law_sync_ensures_every_record_once(
    tasks: Seq<SyncModel>,
    results: Seq<Result<Option<String>, AudioCacheError>>,
    actions: Seq<SyncAction>,
    count: nat,
)
    requires
        tasks.len() == results.len() + 2,
        actions.len() == results.len() + 1,
        results.len() <= tasks[0].records.len() <= usize::MAX,
        tasks[0].leads_to(SyncEvent::EntriesEnded, tasks[1], actions[0]),
        forall|i: int|
            0 <= i < results.len() ==> #[trigger] tasks[i + 1].leads_to(
                SyncEvent::Ensured(results[i]),
                tasks[i + 2],
                actions[i + 1],
            ),
        forall|i: int| 0 <= i < results.len() ==> lets_go_on(#[trigger] results[i]),
        count <= results.len(),
    ensures
        tasks[1int + count].records == tasks[0].records,
        count < tasks[0].records.len() ==> actions[count as int] == SyncAction::Ensure(
            count as usize,
        ) && tasks[1int + count].phase == SyncPhase::Ensuring(count as usize),
        count == tasks[0].records.len() ==> (actions[count as int] matches SyncAction::Finish(
            Ok(reported),
        ) && reported@ == tasks[1int + count].skipped),
    decreases count,
{
    if count > 0 {
        let i = count - 1;
        law_sync_ensures_every_record_once(tasks, results, actions, i as nat);
        assert(tasks[i + 1].leads_to(
            SyncEvent::Ensured(results[i]),
            tasks[i + 2],
            actions[i + 1],
        ));
        assert(lets_go_on(results[i]));
    }
}

/// A record is skipped exactly if the server refuses its audio without closing
/// the connection; it is then added to those skipped, by its own ID, and
/// nothing else ever changes what was skipped.
pub proof fn law_sync_skips_refusals(
    task: SyncModel,
    event: SyncEvent,
    next: SyncModel,
    action: SyncAction,
    index: usize,
)
    requires
        task.is_valid(),
        task.accepts(event),
        task.leads_to(event, next, action),
    ensures
        !(event is Ensured) ==> next.skipped == task.skipped,
        event matches SyncEvent::Ensured(Ok(_)) ==> next.skipped == task.skipped,
        event matches SyncEvent::Ensured(Err(error)) ==> if lets_go_on(Err(error)) {
            task.phase == SyncPhase::Ensuring(index) ==> next.skipped.len() == 1
                + task.skipped.len() && next.skipped.drop_last() == task.skipped
                && next.skipped.last() == task.records[index as int].id
        } else {
            next.skipped == task.skipped
        },
{
    if event matches SyncEvent::Ensured(Err(error)) && is_skipped(error) && task.phase
        == SyncPhase::Ensuring(index) {
        assert(next.skipped.drop_last() =~= task.skipped);
    }
}

/// A synchronization fails exactly if the file system does or the making sure
/// of a record does in a way that is not skipped, and with that very failure.
pub proof fn law_sync_fails_as_it_was_failed(
    task: SyncModel,
    event: SyncEvent,
    next: SyncModel,
    action: SyncAction,
)
    requires
        task.is_valid(),
        task.accepts(event),
        task.leads_to(event, next, action),
    ensures
        event matches SyncEvent::Failed(error) ==> action == SyncAction::Finish(
            Err(AudioCacheError::Io(error)),
        ),
        event matches SyncEvent::Ensured(Err(error)) ==> (!lets_go_on(Err(error)) ==> action
            == SyncAction::Finish(Err(error))),
        action matches SyncAction::Finish(Err(_)) ==> event is Failed || (
        event matches SyncEvent::Ensured(result) && !lets_go_on(result)),
{
}

/// Before any record is turned to, the directory is listed to its end, and of
/// every entry exactly the file that no one needs is removed.
pub proof fn law_sync_prunes_first(
    task: SyncModel,
    event: SyncEvent,
    next: SyncModel,
    action: SyncAction,
)
    requires
        task.is_valid(),
        task.accepts(event),
        task.leads_to(event, next, action),
    ensures
        event is Prepared <==> action is Open,
        event is Opened ==> action is NextEntry,
        event is Removed ==> action is NextEntry,
        event matches SyncEvent::Entry(name) ==> if is_needless(
            name@,
            record_models(task.records),
        ) {
            action == SyncAction::Remove(name)
        } else {
            action is NextEntry
        },
        action is Remove ==> event is Entry,
        task.phase is Listing && action is Ensure ==> event is EntriesEnded,
{
    if let SyncEvent::Entry(name) = event {
        lemma_pruned(name@, record_models(task.records));
    }
}

/// Whether a file is needless: it ends in `.download`, or in `.mp3` without
/// being the audio file of any record. Neither ending is a whole name.
pub open spec fn is_needless(name: Seq<u8>, records: Seq<RecordModel>) -> bool {
    ||| name.len() > 9 && name.skip(name.len() - 9) == seq![
        0x2eu8,
        0x64,
        0x6f,
        0x77,
        0x6e,
        0x6c,
        0x6f,
        0x61,
        0x64,
    ]
    ||| name.len() > 4 && name.skip(name.len() - 4) == seq![0x2eu8, 0x6d, 0x70, 0x33] && forall|
        i: int,
    |
        0 <= i < records.len() ==> ((#[trigger] records[i]).audio_hash matches Some(hash)
            ==> encode_utf8(audio_file_name(records[i].id, hash)) != name)
}

/// A synchronization prunes exactly what is needless.
pub proof fn law_needless_files_go<'a>(task: &SyncTask<'a>, name: &[u8], pruned: bool)
    requires
        call_ensures(SyncTask::prunes, (task, name), pruned),
    ensures
        pruned <==> is_needless(name@, record_models(task@.records)),
{
    lemma_pruned(name@, record_models(task@.records));
}

/// The last dot of a name is a dot, and none follows.
proof fn lemma_last_dot_found(name: Seq<u8>)
    ensures
        -1 <= last_dot(name) < name.len(),
        last_dot(name) >= 0 ==> name[last_dot(name)] == 0x2e,
        forall|i: int| last_dot(name) < i < name.len() ==> name[i] != 0x2e,
    decreases name.len(),
{
    if name.len() > 0 && name.last() != 0x2e {
        lemma_last_dot_found(name.drop_last());
        assert forall|i: int| last_dot(name) < i < name.len() implies name[i] != 0x2e by {
            if i < name.len() - 1 {
                assert(name.drop_last()[i] == name[i]);
            }
        }
    }
}

/// A name that ends in a dot and something without dots has that extension,
/// unless the dot is its first byte.
proof fn lemma_ending(name: Seq<u8>, found: Seq<u8>)
    requires
        found.len() > 0,
        forall|i: int| 0 <= i < found.len() ==> found[i] != 0x2e,
    ensures
        extension(name) == Some(found) <==> name.len() > 1 + found.len() && name.skip(
            name.len() - found.len() - 1,
        ) == seq![0x2eu8] + found,
{
    lemma_last_dot_found(name);
    let dot = name.len() - found.len() - 1;
    if name.len() > 1 + found.len() && name.skip(dot) == seq![0x2eu8] + found {
        let tail = name.skip(dot);
        assert(tail[0] == name[dot]);
        assert forall|i: int| dot < i < name.len() implies name[i] != 0x2e by {
            assert(tail[i - dot] == name[i]);
            assert(tail[i - dot] == found[i - dot - 1]);
        }
        assert(last_dot(name) == dot);
        assert(name[name.len() - 1] != 0x2e);
        assert(name.skip(dot + 1) =~= found) by {
            assert forall|i: int| 0 <= i < found.len() implies name.skip(dot + 1)[i] == found[i] by {
                assert(tail[i + 1] == found[i]);
            }
        }
        assert(name != seq![0x2eu8, 0x2e]);
    }
    if extension(name) == Some(found) {
        assert(name.skip(last_dot(name) + 1).len() == found.len());
        assert(last_dot(name) == dot);
        assert(name.skip(dot) =~= seq![0x2eu8] + name.skip(dot + 1));
    }
}

/// What is pruned is needless, and the other way round.
proof fn lemma_pruned(name: Seq<u8>, records: Seq<RecordModel>)
    ensures
        is_pruned(name, records) <==> is_needless(name, records),
{
    let audio = seq![0x6du8, 0x70, 0x33];
    let temp = seq![0x64u8, 0x6f, 0x77, 0x6e, 0x6c, 0x6f, 0x61, 0x64];
    lemma_ending(name, audio);
    lemma_ending(name, temp);
    assert(seq![0x2eu8] + audio =~= seq![0x2eu8, 0x6d, 0x70, 0x33]);
    assert(seq![0x2eu8] + temp =~= seq![0x2eu8, 0x64, 0x6f, 0x77, 0x6e, 0x6c, 0x6f, 0x61, 0x64]);
    if is_expected(name, records) {
        let i = choose|i: int|
            0 <= i < records.len() && (record_file_name(#[trigger] records[i]) matches Some(
                expected,
            ) && encode_utf8(expected) == name);
        assert(records[i].audio_hash is Some);
    } else {
        assert forall|i: int| 0 <= i < records.len() implies ((
        #[trigger] records[i]).audio_hash matches Some(hash) ==> encode_utf8(
            audio_file_name(records[i].id, hash),
        ) != name) by {
            if let Some(hash) = records[i].audio_hash {
                assert(record_file_name(records[i]) == Some(audio_file_name(records[i].id, hash)));
            }
        }
    }
}

/// The extension of a name is what follows its last dot: it has no dot, and
/// with something, a dot and itself it makes up the name. A name without one
/// has no dot beyond its first byte, or is that of the parent directory.
pub proof fn law_extension_follows_the_last_dot(name: &[u8], found: Option<&[u8]>, i: int)
    requires
        call_ensures(file_extension, (name,), found),
    ensures
        found matches Some(ending) ==> {
            &&& ending@.len() + 1 < name@.len()
            &&& name@[name@.len() - ending@.len() - 1] == 0x2e
            &&& name@.skip(name@.len() - ending@.len()) == ending@
            &&& 0 <= i < ending@.len() ==> ending@[i] != 0x2e
            &&& name@ != seq![0x2eu8, 0x2e]
        },
        found is None ==> name@ == seq![0x2eu8, 0x2e] || (0 < i < name@.len() ==> name@[i]
            != 0x2e),
{
    lemma_last_dot_found(name@);
    if let Some(ending) = found {
        let dot = last_dot(name@);
        assert(ending@.len() == name@.len() - dot - 1);
        if 0 <= i < ending@.len() {
            assert(ending@[i] == name@[dot + 1 + i]);
        }
    }
}

/// A failed download is skipped exactly if the server refused it with an error
/// that leaves the connection open.
pub proof fn law_refusals_are_skipped(error: &AudioCacheError, skipped: bool)
    requires
        call_ensures(refusal_is_skipped, (error,), skipped),
    ensures
        skipped == is_skipped(*error),
        skipped <==> lets_go_on(Err(*error)),
{
}

/// A record's audio file lies in the cache directory, under the ID, an
/// underscore, the hash and `.mp3`; a record without audio has none.
pub proof fn law_audio_files_are_named<'a>(
    cache: &'a AudioCache,
    record: &AchievementRecord,
    path: Option<CachePath<'a>>,
)
    requires
        call_ensures(AudioCache::path_for, (cache, record), path),
    ensures
        path is Some <==> record.audio_hash is Some,
        path matches Some(path) ==> {
            let name = path.file_name@;
            &&& *path.directory == cache.directory()
            &&& name.len() == 41 + 2 * record.audio_hash->Some_0@.len()
            &&& name.take(36) == uuid_text(record.id@)
            &&& name[36] == '_'
            &&& name.subrange(37, name.len() - 4) == hex(record.audio_hash->Some_0@)
            &&& name.skip(name.len() - 4) == seq!['.', 'm', 'p', '3']
        },
{
    if let Some(path) = path {
        let name = path.file_name@;
        let hash = record.audio_hash->Some_0@;
        lemma_uuid_text(record.id@);
        lemma_hex_range(hash);
        assert(name == audio_file_name(record.id@, hash));
        assert(name.take(36) =~= uuid_text(record.id@));
        assert(name.subrange(37, name.len() - 4) =~= hex(hash));
        assert(name.skip(name.len() - 4) =~= seq!['.', 'm', 'p', '3']);
    }
}

/// The cache lies where it was told to.
pub proof fn law_cache_stays_in_its_directory(
    base_path: std::path::PathBuf,
    cache: AudioCache,
    copy: AudioCache,
    shown: &std::path::PathBuf,
)
    requires
        call_ensures(AudioCache::new, (base_path,), cache),
        call_ensures(<AudioCache as Clone>::clone, (&cache,), copy),
        call_ensures(AudioCache::base_path, (&copy,), shown),
    ensures
        *shown == base_path,
{
}

/// A download is written under the ID, a dot, its number and `.download`.
pub proof fn law_downloads_are_named(id: &[u8; 16], counter: u64, name: String)
    requires
        call_ensures(temp_name, (id, counter), name),
    ensures
        name@ == temp_file_name(id@, counter),
        name@.take(36) == uuid_text(id@),
        name@[36] == '.',
        name@.subrange(37, name@.len() - 9) == decimal(counter as nat),
        name@.skip(name@.len() - 9) == seq!['.', 'd', 'o', 'w', 'n', 'l', 'o', 'a', 'd'],
{
    lemma_uuid_text(id@);
    assert(name@.take(36) =~= uuid_text(id@));
    assert(name@.subrange(37, name@.len() - 9) =~= decimal(counter as nat));
    assert(name@.skip(name@.len() - 9) =~= seq!['.', 'd', 'o', 'w', 'n', 'l', 'o', 'a', 'd']);
}

/// Making sure of a record starts with a look for its file, or ends at once if
/// it has none.
pub proof fn law_ensure_starts_with_a_look(
    cache: &AudioCache,
    record: &AchievementRecord,
    started: (EnsureTask, EnsureAction),
)
    requires
        call_ensures(AudioCache::ensure, (cache, record), started),
    ensures
        record.audio_hash matches Some(hash) ==> {
            &&& started.1 matches EnsureAction::Check(file_name)
            &&& file_name@ == audio_file_name(record.id@, hash@)
            &&& started.0@.phase is Checking
            &&& started.0@.file_name == audio_file_name(record.id@, hash@)
            &&& started.0@.id == record.id
        },
        record.audio_hash is None ==> started.1 == EnsureAction::Finish(Ok(None))
            && started.0@.phase is Finished,
{
}

/// Every event of a download is accepted exactly when it is awaited.
pub proof fn law_download_awaits_its_events(task: EnsureModel, event: EnsureEvent)
    ensures
        event is Checked ==> (task.accepts(event) <==> task.phase is Checking),
        event is Prepared ==> (task.accepts(event) <==> task.phase is Preparing),
        event is Retrieved ==> (task.accepts(event) <==> task.phase is Retrieving),
        event is Refused ==> (task.accepts(event) <==> task.phase is Retrieving),
        event is Written ==> (task.accepts(event) <==> task.phase is Writing),
        event is Renamed ==> (task.accepts(event) <==> task.phase is Renaming),
        event is Failed ==> (task.accepts(event) <==> !(task.phase is Retrieving
            || task.phase is Finished)),
{
}

/// Every action of a download has its one cause, and what it asks for is then
/// awaited; record and file stay the same throughout.
pub proof fn law_download_goes_step_by_step(
    task: EnsureModel,
    event: EnsureEvent,
    next: EnsureModel,
    action: EnsureAction,
)
    requires
        task.accepts(event),
        task.leads_to(event, next, action),
    ensures
        next.id == task.id,
        next.file_name == task.file_name,
        next.temp_name != task.temp_name ==> event is Retrieved,
        !(action is Check) && !(next.phase is Checking),
        action is CreateDirectory <==> event == EnsureEvent::Checked(false),
        action is CreateDirectory <==> next.phase is Preparing,
        action is Retrieve <==> event is Prepared,
        action is Retrieve <==> next.phase is Retrieving,
        action is Write <==> event is Retrieved,
        action is Write <==> next.phase is Writing,
        action is Rename <==> event is Written,
        action is Rename <==> next.phase is Renaming,
        action is Finish <==> next.phase is Finished,
        action is Finish <==> event == EnsureEvent::Checked(true) || event is Renamed
            || event is Refused || event is Failed,
        action matches EnsureAction::Retrieve(id) ==> id == task.id,
        action matches EnsureAction::Write { temp_name, data: written } ==> {
            &&& event matches EnsureEvent::Retrieved { data, counter }
            &&& written == data
            &&& temp_name@ == next.temp_name
            &&& temp_name@ == temp_file_name(task.id@, counter)
        },
        action matches EnsureAction::Rename { temp_name, file_name } ==> temp_name@
            == task.temp_name && file_name@ == task.file_name,
{
}

/// A download ends with its file where the file is there or was renamed to,
/// and otherwise with the very failure that ended it.
pub proof fn law_download_ends_as_it_went(
    task: EnsureModel,
    event: EnsureEvent,
    next: EnsureModel,
    action: EnsureAction,
)
    requires
        task.accepts(event),
        task.leads_to(event, next, action),
    ensures
        event == EnsureEvent::Checked(true) || event is Renamed ==> (action matches
            EnsureAction::Finish(Ok(Some(file_name))) && file_name@ == task.file_name),
        event matches EnsureEvent::Refused(error) ==> action == EnsureAction::Finish(
            Err(AudioCacheError::Request(error)),
        ),
        event matches EnsureEvent::Failed(error) ==> action == EnsureAction::Finish(
            Err(AudioCacheError::Io(error)),
        ),
{
}

/// A download that nothing fails asks for the achievement's audio, writes what
/// came to a file of its own, and renames that very file to the one that was
/// looked for.
pub proof fn law_download_delivers_the_audio(
    tasks: Seq<EnsureModel>,
    actions: Seq<EnsureAction>,
    data: Vec<u8>,
    counter: u64,
)
    requires
        tasks.len() == 6,
        actions.len() == 5,
        tasks[0].phase is Checking,
        tasks[0].leads_to(EnsureEvent::Checked(false), tasks[1], actions[0]),
        tasks[1].leads_to(EnsureEvent::Prepared, tasks[2], actions[1]),
        tasks[2].leads_to(EnsureEvent::Retrieved { data, counter }, tasks[3], actions[2]),
        tasks[3].leads_to(EnsureEvent::Written, tasks[4], actions[3]),
        tasks[4].leads_to(EnsureEvent::Renamed, tasks[5], actions[4]),
    ensures
        actions[0] is CreateDirectory,
        actions[1] == EnsureAction::Retrieve(tasks[0].id),
        actions[2] matches EnsureAction::Write { temp_name: written_name, data: written } && (
        actions[3] matches EnsureAction::Rename { temp_name: renamed_name, file_name: renamed }
            && written == data && written_name@ == renamed_name@ && renamed@
            == tasks[0].file_name),
        actions[4] matches EnsureAction::Finish(Ok(Some(file_name))) && file_name@
            == tasks[0].file_name,
{
}

} // verus!
