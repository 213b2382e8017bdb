//! Disk caching for achievement audio files: what the files are called, when
//! they are downloaded, and which of them go.
//!
//! [`EnsureTask`] and [`SyncTask`] decide; they perform nothing themselves.
//! Each takes what happened and returns what to do next.

use vstd::pervasive::unreached;
use vstd::prelude::*;
use vstd::slice::slice_subrange;
use vstd::string::*;
use vstd::utf8::{
    encode_utf8, encode_utf8_decode_utf8, is_ascii_chars, is_ascii_chars_encode_utf8,
};

use crate::protocol::{is_fatal_error, record_models, AchievementRecord, DataHash, RecordModel};
use crate::request::RequestError;
use crate::text::{
    decimal, decimal_text, hex, hyphenated, lemma_decimal_injective, lemma_decimal_range,
    lemma_hex_injective, lemma_hex_range, lemma_uuid_text, lemma_uuid_text_injective, uuid_text,
};

verus! {

/// A path of the file system, carried along unread.
#[verifier::external_type_specification]
#[verifier::external_body]
pub struct ExPathBuf(std::path::PathBuf);

/// `PathBuf::clone`: a duplicate of the path.
pub assume_specification[ <std::path::PathBuf as Clone>::clone ](
    path: &std::path::PathBuf,
) -> (copy: std::path::PathBuf)
    ensures
        copy == *path,
;

/// Errors that can occur while maintaining the audio cache.
#[derive(Debug)]
#[non_exhaustive]
pub enum AudioCacheError {
    /// Reading or writing the cache directory failed.
    Io(std::io::Error),
    /// Downloading audio data from the server failed.
    Request(RequestError),
}

/// A disk cache for achievement audio files.
///
/// File names embed both the achievement ID and the audio hash, so
/// server-side audio updates change the file name and naturally invalidate
/// stale entries; [`sync`](Self::sync) removes them.
#[derive(Debug)]
pub struct AudioCache {
    base_path: std::path::PathBuf,
}

impl Clone for AudioCache {
    fn clone(&self) -> (copy: Self)
        ensures
            copy.directory() == self.directory(),
    {
        AudioCache { base_path: self.base_path.clone() }
    }
}

/// Where a file of the cache lies.
#[derive(Debug)]
pub struct CachePath<'a> {
    pub directory: &'a std::path::PathBuf,
    pub file_name: String,
}

/// The name of an audio file: ID and hash, as an MP3 file.
pub open spec fn audio_file_name(id: Seq<u8>, hash: Seq<u8>) -> Seq<char> {
    uuid_text(id) + seq!['_'] + hex(hash) + seq!['.', 'm', 'p', '3']
}

/// The name of a record's audio file, if it has audio.
pub open spec fn record_file_name(record: RecordModel) -> Option<Seq<char>> {
    match record.audio_hash {
        Some(hash) => Some(audio_file_name(record.id, hash)),
        None => None,
    }
}

/// The name of a download in progress: ID and a number, as a leftover until
/// renamed.
pub open spec fn temp_file_name(id: Seq<u8>, counter: u64) -> Seq<char> {
    uuid_text(id) + seq!['.'] + decimal(counter as nat) + seq![
        '.',
        'd',
        'o',
        'w',
        'n',
        'l',
        'o',
        'a',
        'd',
    ]
}

/// Where the last dot of a file name is; -1 if there is none.
pub open spec fn last_dot(name: Seq<u8>) -> int
    decreases name.len(),
{
    if name.len() == 0 {
        -1
    } else if name.last() == 0x2e {
        name.len() - 1
    } else {
        last_dot(name.drop_last())
    }
}

/// The extension of a file name: what follows its last dot, unless that is
/// its first byte or there is none. The parent directory's name has none.
pub open spec fn extension(name: Seq<u8>) -> Option<Seq<u8>> {
    if last_dot(name) <= 0 || name == seq![0x2eu8, 0x2e] {
        None
    } else {
        Some(name.skip(last_dot(name) + 1))
    }
}

/// `mp3`
pub open spec fn audio_extension() -> Seq<u8> {
    seq![0x6du8, 0x70, 0x33]
}

/// `download`
pub open spec fn temp_extension() -> Seq<u8> {
    seq![0x64u8, 0x6f, 0x77, 0x6e, 0x6c, 0x6f, 0x61, 0x64]
}

/// Whether a file name is that of a record's audio file.
pub open spec fn is_expected(name: Seq<u8>, records: Seq<RecordModel>) -> bool {
    exists|i: int|
        0 <= i < records.len() && (record_file_name(#[trigger] records[i]) matches Some(expected)
            && encode_utf8(expected) == name)
}

/// Whether a file is pruned: an MP3 file no record refers to, or the leftover
/// of a download.
pub open spec fn is_pruned(name: Seq<u8>, records: Seq<RecordModel>) -> bool {
    match extension(name) {
        Some(extension) => {
            ||| extension == audio_extension() && !is_expected(name, records)
            ||| extension == temp_extension()
        },
        None => false,
    }
}

/// Whether a failed download is skipped: the server refused it, but did not
/// close the connection over it.
pub open spec fn is_skipped(error: AudioCacheError) -> bool {
    error matches AudioCacheError::Request(RequestError::Error(response)) && !is_fatal_error(
        response,
    )
}

/// Returns the name of an audio file.
fn audio_name(id: &[u8; 16], hash: &DataHash) -> (name: String)
    ensures
        name@ == audio_file_name(id@, hash@),
{
    proof {
        reveal_strlit("_");
        reveal_strlit(".mp3");
    }
    let mut name = hyphenated(id);
    name.append("_");
    name.append(hash.text().as_str());
    name.append(".mp3");
    assert("_"@ =~= seq!['_']);
    assert(".mp3"@ =~= seq!['.', 'm', 'p', '3']);
    name
}

/// Returns the name of a download in progress.
pub fn temp_name(id: &[u8; 16], counter: u64) -> (name: String)
    ensures
        name@ == temp_file_name(id@, counter),
{
    proof {
        reveal_strlit(".");
        reveal_strlit(".download");
    }
    let mut name = hyphenated(id);
    name.append(".");
    name.append(decimal_text(counter).as_str());
    name.append(".download");
    assert("."@ =~= seq!['.']);
    assert(".download"@ =~= seq!['.', 'd', 'o', 'w', 'n', 'l', 'o', 'a', 'd']);
    name
}

/// Returns whether two byte strings are equal.
fn same_bytes(left: &[u8], right: &[u8]) -> (same: bool)
    ensures
        same == (left@ == right@),
{
    if left.len() != right.len() {
        return false;
    }
    let mut i: usize = 0;
    while i < left.len()
        invariant
            i <= left@.len(),
            left@.len() == right@.len(),
            left@.take(i as int) == right@.take(i as int),
        decreases left@.len() - i,
    {
        if left[i] != right[i] {
            return false;
        }
        i = i + 1;
        assert(left@.take(i as int) =~= left@.take(i - 1).push(left@[i - 1]));
        assert(right@.take(i as int) =~= right@.take(i - 1).push(right@[i - 1]));
    }
    assert(left@.take(i as int) =~= left@);
    assert(right@.take(i as int) =~= right@);
    true
}

/// Returns the extension of a file name.
pub fn file_extension(name: &[u8]) -> (found: Option<&[u8]>)
    ensures
        match found {
            Some(found) => extension(name@) == Some(found@),
            None => extension(name@) is None,
        },
{
    let mut end: usize = name.len();
    assert(name@.take(end as int) =~= name@);
    while end > 0 && name[end - 1] != 0x2e
        invariant
            end <= name@.len(),
            last_dot(name@) == last_dot(name@.take(end as int)),
        decreases end,
    {
        assert(name@.take(end as int).drop_last() =~= name@.take(end - 1));
        end = end - 1;
    }
    if end <= 1 {
        return None;
    }
    let parent: [u8; 2] = [0x2e, 0x2e];
    if same_bytes(name, parent.as_slice()) {
        assert(name@ =~= seq![0x2eu8, 0x2e]);
        return None;
    }
    assert(parent@ =~= seq![0x2eu8, 0x2e]);
    let found = slice_subrange(name, end, name.len());
    assert(found@ =~= name@.skip(end as int));
    Some(found)
}

/// Whether the names are those of the records' audio files.
pub open spec fn are_expected_names(names: Seq<String>, records: Seq<RecordModel>) -> bool {
    forall|name: Seq<u8>|
        #![trigger is_expected(name, records)]
        is_expected(name, records) <==> exists|i: int|
            0 <= i < names.len() && encode_utf8((#[trigger] names[i])@) == name
}

/// Returns the names of the records' audio files.
fn expected_names(records: &[AchievementRecord]) -> (names: Vec<String>)
    ensures
        are_expected_names(names@, record_models(records@)),
{
    let mut names: Vec<String> = Vec::new();
    let ghost models = record_models(records@);
    let mut i: usize = 0;
    while i < records.len()
        invariant
            i <= records@.len(),
            models == record_models(records@),
            are_expected_names(names@, models.take(i as int)),
        decreases records@.len() - i,
    {
        let ghost before = names@;
        let ghost known = models.take(i as int);
        let ghost grown = models.take(i + 1);
        assert(grown =~= known.push(models[i as int]));
        match &records[i].audio_hash {
            Some(hash) => {
                let name = audio_name(&records[i].id, hash);
                let ghost added = encode_utf8(name@);
                names.push(name);
                assert(record_file_name(models[i as int]) == Some(name@));
                assert forall|name: Seq<u8>| #[trigger] is_expected(name, grown) <==> exists|j: int|
                    0 <= j < names@.len() && encode_utf8((#[trigger] names@[j])@) == name by {
                    lemma_expected_push(name, known, models[i as int]);
                    if is_expected(name, known) {
                        let j = choose|j: int|
                            0 <= j < before.len() && encode_utf8((#[trigger] before[j])@) == name;
                        assert(names@[j] == before[j]);
                    }
                    if name == added {
                        assert(encode_utf8(names@[before.len() as int]@) == name);
                    }
                    if exists|j: int|
                        0 <= j < names@.len() && encode_utf8((#[trigger] names@[j])@) == name {
                        let j = choose|j: int|
                            0 <= j < names@.len() && encode_utf8((#[trigger] names@[j])@) == name;
                        if j < before.len() {
                            assert(before[j] == names@[j]);
                            assert(is_expected(name, known));
                        }
                    }
                }
            },
            None => {
                assert(record_file_name(models[i as int]) is None);
                assert forall|name: Seq<u8>| #[trigger]
                    is_expected(name, grown) <==> is_expected(name, known) by {
                    lemma_expected_push(name, known, models[i as int]);
                }
                assert forall|name: Seq<u8>| #[trigger] is_expected(name, grown) <==> exists|j: int|
                    0 <= j < names@.len() && encode_utf8((#[trigger] names@[j])@) == name by {
                    assert(is_expected(name, grown) <==> is_expected(name, known));
                }
            },
        }
        i = i + 1;
    }
    assert(models.take(i as int) =~= models);
    names
}

/// A name is expected of more records if it is of fewer or of the last.
proof fn lemma_expected_push(name: Seq<u8>, records: Seq<RecordModel>, record: RecordModel)
    ensures
        is_expected(name, records.push(record)) <==> is_expected(name, records) || (
        record_file_name(record) matches Some(expected) && encode_utf8(expected) == name),
{
    let grown = records.push(record);
    if is_expected(name, records) {
        let i = choose|i: int|
            0 <= i < records.len() && (record_file_name(#[trigger] records[i]) matches Some(
                expected,
            ) && encode_utf8(expected) == name);
        assert(grown[i] == records[i]);
    }
    if record_file_name(record) matches Some(expected) && encode_utf8(expected) == name {
        assert(grown[records.len() as int] == record);
    }
    if is_expected(name, grown) {
        let i = choose|i: int|
            0 <= i < grown.len() && (record_file_name(#[trigger] grown[i]) matches Some(expected)
                && encode_utf8(expected) == name);
        if i < records.len() {
            assert(records[i] == grown[i]);
        }
    }
}

impl AudioCache {
    /// The directory the cache is rooted at.
    pub closed spec fn directory(&self) -> std::path::PathBuf {
        self.base_path
    }

    /// Creates a cache rooted at the given directory.
    pub fn new(base_path: std::path::PathBuf) -> (cache: AudioCache)
        ensures
            cache.directory() == base_path,
    {
        AudioCache { base_path }
    }

    /// Returns the directory the cache is rooted at.
    pub fn base_path(&self) -> (base_path: &std::path::PathBuf)
        ensures
            *base_path == self.directory(),
    {
        &self.base_path
    }

    /// Returns where a record's audio file is cached.
    ///
    /// Returns `None` when the achievement has no audio.
    pub fn path_for(&self, record: &AchievementRecord) -> (path: Option<CachePath<'_>>)
        ensures
            match path {
                Some(path) => *path.directory == self.directory() && record_file_name(record@)
                    == Some(path.file_name@),
                None => record_file_name(record@) is None,
            },
    {
        match &record.audio_hash {
            Some(hash) => Some(
                CachePath {
                    directory: &self.base_path,
                    file_name: audio_name(&record.id, hash),
                },
            ),
            None => None,
        }
    }
}

/// What a download in progress is waiting for.
#[derive(Clone, Copy, Debug, Eq, PartialEq, Structural)]
pub enum EnsurePhase {
    /// Whether the file is there.
    Checking,
    /// The cache directory.
    Preparing,
    /// The audio data.
    Retrieving,
    /// The data's being written under a temporary name.
    Writing,
    /// The file's being renamed.
    Renaming,
    /// Nothing; it is over.
    Finished,
}

/// What happened to a download in progress.
#[derive(Debug)]
pub enum EnsureEvent {
    /// The file is there, or not.
    Checked(bool),
    /// The cache directory is there.
    Prepared,
    /// The server delivered the audio data; the number is one that no other
    /// download has.
    Retrieved { data: Vec<u8>, counter: u64 },
    /// The audio data could not be had.
    Refused(RequestError),
    /// The data is written.
    Written,
    /// The file is renamed.
    Renamed,
    /// An operation of the file system failed.
    Failed(std::io::Error),
}

/// What to do next about a record's audio file; names are within the cache
/// directory.
#[derive(Debug)]
pub enum EnsureAction {
    /// Look whether the named file is there.
    Check(String),
    /// Create the cache directory if it is missing.
    CreateDirectory,
    /// Ask the server for the audio data of the achievement.
    Retrieve([u8; 16]),
    /// Write the data to the named file.
    Write { temp_name: String, data: Vec<u8> },
    /// Rename the one file to the other.
    Rename { temp_name: String, file_name: String },
    /// Nothing; the named file is cached, or there is no audio.
    Finish(Result<Option<String>, AudioCacheError>),
}

/// The making sure that a record's audio file is cached.
#[derive(Debug)]
pub struct EnsureTask {
    id: [u8; 16],
    file_name: String,
    temp_name: String,
    phase: EnsurePhase,
}

/// Everything an [`EnsureTask`] decides by.
pub struct EnsureModel {
    pub id: [u8; 16],
    pub file_name: Seq<char>,
    pub temp_name: Seq<char>,
    pub phase: EnsurePhase,
}

impl View for EnsureTask {
    type V = EnsureModel;

    closed spec fn view(&self) -> EnsureModel {
        EnsureModel {
            id: self.id,
            file_name: self.file_name@,
            temp_name: self.temp_name@,
            phase: self.phase,
        }
    }
}

impl EnsureModel {
    /// Which events can happen.
    pub open spec fn accepts(self, event: EnsureEvent) -> bool {
        match event {
            EnsureEvent::Checked(_) => self.phase is Checking,
            EnsureEvent::Prepared => self.phase is Preparing,
            EnsureEvent::Retrieved { .. } | EnsureEvent::Refused(_) => self.phase is Retrieving,
            EnsureEvent::Written => self.phase is Writing,
            EnsureEvent::Renamed => self.phase is Renaming,
            EnsureEvent::Failed(_) => !(self.phase is Retrieving || self.phase is Finished),
        }
    }

    /// Whether the task goes on to a phase and nothing else changes.
    pub open spec fn goes_on(self, next: EnsureModel, phase: EnsurePhase) -> bool {
        next == EnsureModel { phase, ..self }
    }

    /// Whether an event leads to the given task and action: a file that is
    /// there is done with; else it is retrieved, written under a temporary
    /// name, and renamed.
    pub open spec fn leads_to(
        self,
        event: EnsureEvent,
        next: EnsureModel,
        action: EnsureAction,
    ) -> bool {
        match event {
            EnsureEvent::Checked(found) => if found {
                &&& self.goes_on(next, EnsurePhase::Finished)
                &&& action matches EnsureAction::Finish(Ok(Some(file_name)))
                &&& file_name@ == self.file_name
            } else {
                &&& self.goes_on(next, EnsurePhase::Preparing)
                &&& action is CreateDirectory
            },
            EnsureEvent::Prepared => {
                &&& self.goes_on(next, EnsurePhase::Retrieving)
                &&& action == EnsureAction::Retrieve(self.id)
            },
            EnsureEvent::Retrieved { data, counter } => {
                &&& next == EnsureModel {
                    phase: EnsurePhase::Writing,
                    temp_name: temp_file_name(self.id@, counter),
                    ..self
                }
                &&& action matches EnsureAction::Write { temp_name, data: written }
                &&& temp_name@ == temp_file_name(self.id@, counter)
                &&& written == data
            },
            EnsureEvent::Refused(error) => {
                &&& self.goes_on(next, EnsurePhase::Finished)
                &&& action == EnsureAction::Finish(Err(AudioCacheError::Request(error)))
            },
            EnsureEvent::Written => {
                &&& self.goes_on(next, EnsurePhase::Renaming)
                &&& action matches EnsureAction::Rename { temp_name, file_name }
                &&& temp_name@ == self.temp_name
                &&& file_name@ == self.file_name
            },
            EnsureEvent::Renamed => {
                &&& self.goes_on(next, EnsurePhase::Finished)
                &&& action matches EnsureAction::Finish(Ok(Some(file_name)))
                &&& file_name@ == self.file_name
            },
            EnsureEvent::Failed(error) => {
                &&& self.goes_on(next, EnsurePhase::Finished)
                &&& action == EnsureAction::Finish(Err(AudioCacheError::Io(error)))
            },
        }
    }
}

impl EnsureTask {
    /// Returns what the task is waiting for.
    pub fn phase(&self) -> (phase: EnsurePhase)
        ensures
            phase == self@.phase,
    {
        self.phase
    }

    /// Takes the task one step on.
    pub fn step(&mut self, event: EnsureEvent) -> (action: EnsureAction)
        requires
            old(self)@.accepts(event),
        ensures
            old(self)@.leads_to(event, final(self)@, action),
    {
        match event {
            EnsureEvent::Checked(found) => {
                if found {
                    self.phase = EnsurePhase::Finished;
                    EnsureAction::Finish(Ok(Some(self.file_name.clone())))
                } else {
                    self.phase = EnsurePhase::Preparing;
                    EnsureAction::CreateDirectory
                }
            },
            EnsureEvent::Prepared => {
                self.phase = EnsurePhase::Retrieving;
                EnsureAction::Retrieve(self.id)
            },
            EnsureEvent::Retrieved { data, counter } => {
                // Write-then-rename keeps a crash mid-download from leaving a
                // truncated file under the final name, which the existence
                // check would treat as cached forever. The unique number
                // keeps concurrent downloads of the same record apart.
                let name = temp_name(&self.id, counter);
                self.temp_name = name.clone();
                self.phase = EnsurePhase::Writing;
                EnsureAction::Write { temp_name: name, data }
            },
            EnsureEvent::Refused(error) => {
                self.phase = EnsurePhase::Finished;
                EnsureAction::Finish(Err(AudioCacheError::Request(error)))
            },
            EnsureEvent::Written => {
                self.phase = EnsurePhase::Renaming;
                EnsureAction::Rename {
                    temp_name: self.temp_name.clone(),
                    file_name: self.file_name.clone(),
                }
            },
            EnsureEvent::Renamed => {
                self.phase = EnsurePhase::Finished;
                EnsureAction::Finish(Ok(Some(self.file_name.clone())))
            },
            EnsureEvent::Failed(error) => {
                self.phase = EnsurePhase::Finished;
                EnsureAction::Finish(Err(AudioCacheError::Io(error)))
            },
        }
    }
}

/// What a synchronization is waiting for.
#[derive(Clone, Copy, Debug, Eq, PartialEq, Structural)]
pub enum SyncPhase {
    /// The cache directory.
    Preparing,
    /// The listing of the cache directory.
    Opening,
    /// The next entry of the listing.
    Listing,
    /// An entry's being removed.
    Removing,
    /// The audio file of the record with the given index.
    Ensuring(usize),
    /// Nothing; it is over.
    Finished,
}

/// What happened to a synchronization.
#[derive(Debug)]
pub enum SyncEvent {
    /// The cache directory is there.
    Prepared,
    /// The listing of the cache directory is open.
    Opened,
    /// The listing has an entry of the given name.
    Entry(Vec<u8>),
    /// The entry is removed.
    Removed,
    /// The listing has no more entries.
    EntriesEnded,
    /// The making sure of a record's audio file ended.
    Ensured(Result<Option<String>, AudioCacheError>),
    /// An operation of the file system failed.
    Failed(std::io::Error),
}

/// What to do next about the cache; names are within the cache directory.
#[derive(Debug)]
pub enum SyncAction {
    /// Create the cache directory if it is missing.
    CreateDirectory,
    /// Open the listing of the cache directory.
    Open,
    /// Ask for the next entry of the listing.
    NextEntry,
    /// Remove the named file.
    Remove(Vec<u8>),
    /// Make sure that the audio file of the record with the given index is
    /// cached.
    Ensure(usize),
    /// Nothing; the achievements given were skipped, or the synchronization
    /// failed.
    Finish(Result<Vec<[u8; 16]>, AudioCacheError>),
}

/// The bringing of the cache in line with a list of records.
#[derive(Debug)]
pub struct SyncTask<'a> {
    records: &'a [AchievementRecord],
    expected: Vec<String>,
    skipped: Vec<[u8; 16]>,
    phase: SyncPhase,
}

/// Everything a [`SyncTask`] decides by.
pub struct SyncModel {
    pub records: Seq<AchievementRecord>,
    pub skipped: Seq<[u8; 16]>,
    pub phase: SyncPhase,
}

impl View for SyncTask<'_> {
    type V = SyncModel;

    closed spec fn view(&self) -> SyncModel {
        SyncModel { records: self.records@, skipped: self.skipped@, phase: self.phase }
    }
}

impl SyncModel {
    /// What holds of a synchronization at all times.
    pub open spec fn is_valid(self) -> bool {
        self.phase matches SyncPhase::Ensuring(index) ==> index < self.records.len()
    }

    /// Which events can happen.
    pub open spec fn accepts(self, event: SyncEvent) -> bool {
        match event {
            SyncEvent::Prepared => self.phase is Preparing,
            SyncEvent::Opened => self.phase is Opening,
            SyncEvent::Entry(_) | SyncEvent::EntriesEnded => self.phase is Listing,
            SyncEvent::Removed => self.phase is Removing,
            SyncEvent::Ensured(_) => self.phase is Ensuring,
            SyncEvent::Failed(_) => self.phase is Preparing || self.phase is Opening
                || self.phase is Listing || self.phase is Removing,
        }
    }

    /// Whether the synchronization goes on to a phase and nothing else
    /// changes.
    pub open spec fn goes_on(self, next: SyncModel, phase: SyncPhase) -> bool {
        next == SyncModel { phase, ..self }
    }

    /// Whether the synchronization turns to the record with the given index,
    /// or finishes if there is none, with the given achievements skipped.
    pub open spec fn turns_to(
        self,
        index: int,
        skipped: Seq<[u8; 16]>,
        next: SyncModel,
        action: SyncAction,
    ) -> bool {
        if index < self.records.len() {
            &&& next == SyncModel { phase: SyncPhase::Ensuring(index as usize), skipped, ..self }
            &&& action == SyncAction::Ensure(index as usize)
        } else {
            &&& next == SyncModel { phase: SyncPhase::Finished, skipped, ..self }
            &&& action matches SyncAction::Finish(Ok(reported))
            &&& reported@ == skipped
        }
    }

    /// Whether an event leads to the given synchronization and action: prune
    /// first, then make sure of every record, skipping those whose download
    /// the server refuses.
    pub open spec fn leads_to(self, event: SyncEvent, next: SyncModel, action: SyncAction) -> bool {
        match event {
            SyncEvent::Prepared => self.goes_on(next, SyncPhase::Opening) && action is Open,
            SyncEvent::Opened => self.goes_on(next, SyncPhase::Listing) && action is NextEntry,
            SyncEvent::Entry(name) => if is_pruned(name@, record_models(self.records)) {
                self.goes_on(next, SyncPhase::Removing) && action == SyncAction::Remove(name)
            } else {
                self.goes_on(next, SyncPhase::Listing) && action is NextEntry
            },
            SyncEvent::Removed => self.goes_on(next, SyncPhase::Listing) && action is NextEntry,
            SyncEvent::EntriesEnded => self.turns_to(0, self.skipped, next, action),
            SyncEvent::Ensured(result) => {
                let index = self.phase->Ensuring_0 as int;
                match result {
                    Ok(_) => self.turns_to(index + 1, self.skipped, next, action),
                    Err(error) => if is_skipped(error) {
                        self.turns_to(
                            index + 1,
                            self.skipped.push(self.records[index].id),
                            next,
                            action,
                        )
                    } else {
                        &&& self.goes_on(next, SyncPhase::Finished)
                        &&& action == SyncAction::Finish(Err(error))
                    },
                }
            },
            SyncEvent::Failed(error) => {
                &&& self.goes_on(next, SyncPhase::Finished)
                &&& action == SyncAction::Finish(Err(AudioCacheError::Io(error)))
            },
        }
    }
}

impl<'a> SyncTask<'a> {
    #[verifier::type_invariant]
    spec fn knows_names(&self) -> bool {
        are_expected_names(self.expected@, record_models(self.records@))
    }

    /// Returns what the synchronization is waiting for.
    pub fn phase(&self) -> (phase: SyncPhase)
        ensures
            phase == self@.phase,
    {
        self.phase
    }

    /// Returns whether an entry of the cache directory is to be removed.
    pub fn prunes(&self, name: &[u8]) -> (pruned: bool)
        ensures
            pruned == is_pruned(name@, record_models(self@.records)),
    {
        let audio: [u8; 3] = [0x6d, 0x70, 0x33];
        let temp: [u8; 8] = [0x64, 0x6f, 0x77, 0x6e, 0x6c, 0x6f, 0x61, 0x64];
        assert(audio@ =~= audio_extension());
        assert(temp@ =~= temp_extension());
        match file_extension(name) {
            Some(found) => {
                let is_stale_audio = same_bytes(found, audio.as_slice()) && !self.expects(name);
                let is_leftover_download = same_bytes(found, temp.as_slice());
                is_stale_audio || is_leftover_download
            },
            None => false,
        }
    }

    /// Returns whether an entry is a record's audio file.
    fn expects(&self, name: &[u8]) -> (expected: bool)
        ensures
            expected == is_expected(name@, record_models(self@.records)),
    {
        proof {
            use_type_invariant(self);
        }
        let mut i: usize = 0;
        while i < self.expected.len()
            invariant
                i <= self.expected@.len(),
                forall|j: int|
                    0 <= j < i ==> encode_utf8((#[trigger] self.expected@[j])@) != name@,
                are_expected_names(self.expected@, record_models(self.records@)),
            decreases self.expected@.len() - i,
        {
            if same_bytes(self.expected[i].as_str().as_bytes(), name) {
                assert(encode_utf8(self.expected@[i as int]@) == name@);
                assert(is_expected(name@, record_models(self.records@)));
                return true;
            }
            i = i + 1;
        }
        assert(!is_expected(name@, record_models(self.records@)));
        false
    }

    /// Turns to the record with the given index, or finishes.
    fn turn_to(&mut self, index: usize) -> (action: SyncAction)
        ensures
            old(self)@.turns_to(index as int, old(self)@.skipped, final(self)@, action),
    {
        proof {
            use_type_invariant(&*self);
        }
        if index < self.records.len() {
            self.phase = SyncPhase::Ensuring(index);
            SyncAction::Ensure(index)
        } else {
            self.phase = SyncPhase::Finished;
            SyncAction::Finish(Ok(copy_ids(&self.skipped)))
        }
    }

    /// Takes the synchronization one step on.
    pub fn step(&mut self, event: SyncEvent) -> (action: SyncAction)
        requires
            old(self)@.is_valid(),
            old(self)@.accepts(event),
        ensures
            old(self)@.leads_to(event, final(self)@, action),
            final(self)@.is_valid(),
    {
        proof {
            use_type_invariant(&*self);
        }
        match event {
            SyncEvent::Prepared => {
                self.phase = SyncPhase::Opening;
                SyncAction::Open
            },
            SyncEvent::Opened | SyncEvent::Removed => {
                self.phase = SyncPhase::Listing;
                SyncAction::NextEntry
            },
            SyncEvent::Entry(name) => {
                if self.prunes(name.as_slice()) {
                    self.phase = SyncPhase::Removing;
                    SyncAction::Remove(name)
                } else {
                    SyncAction::NextEntry
                }
            },
            SyncEvent::EntriesEnded => self.turn_to(0),
            SyncEvent::Ensured(result) => match self.phase {
                SyncPhase::Ensuring(index) => {
                    let id = self.records[index].id;
                    match result {
                        Ok(_) => self.turn_to(index + 1),
                        // A fatal error means the server closed the
                        // connection; that is a failed synchronization, not
                        // a skippable record.
                        Err(error) => {
                            if refusal_is_skipped(&error) {
                                let mut skipped: Vec<[u8; 16]> = Vec::new();
                                std::mem::swap(&mut skipped, &mut self.skipped);
                                skipped.push(id);
                                self.skipped = skipped;
                                self.turn_to(index + 1)
                            } else {
                                self.phase = SyncPhase::Finished;
                                SyncAction::Finish(Err(error))
                            }
                        },
                    }
                },
                _ => unreached(),
            },
            SyncEvent::Failed(error) => {
                self.phase = SyncPhase::Finished;
                SyncAction::Finish(Err(AudioCacheError::Io(error)))
            },
        }
    }
}

/// Copies a list of IDs.
fn copy_ids(ids: &Vec<[u8; 16]>) -> (copy: Vec<[u8; 16]>)
    ensures
        copy@ == ids@,
{
    let mut copy: Vec<[u8; 16]> = Vec::new();
    for i in 0..ids.len()
        invariant
            copy@ == ids@.take(i as int),
    {
        copy.push(ids[i]);
        assert(copy@ =~= ids@.take(i + 1));
    }
    assert(ids@.take(ids@.len() as int) =~= ids@);
    copy
}

/// Returns whether a failed download is skipped.
pub fn refusal_is_skipped(error: &AudioCacheError) -> (skipped: bool)
    ensures
        skipped == is_skipped(*error),
{
    match error {
        AudioCacheError::Request(RequestError::Error(response)) => !response.is_fatal(),
        _ => false,
    }
}

impl AudioCache {
    /// Starts making sure that a record's audio file is cached.
    pub fn ensure(&self, record: &AchievementRecord) -> (started: (EnsureTask, EnsureAction))
        ensures
            started.0@.id == record.id,
            match record_file_name(record@) {
                Some(name) => {
                    &&& started.0@.phase is Checking
                    &&& started.0@.file_name == name
                    &&& started.1 matches EnsureAction::Check(file_name)
                    &&& file_name@ == name
                },
                None => {
                    &&& started.0@.phase is Finished
                    &&& started.1 == EnsureAction::Finish(Ok(None))
                },
            },
    {
        match self.path_for(record) {
            Some(path) => {
                let task = EnsureTask {
                    id: record.id,
                    file_name: path.file_name.clone(),
                    temp_name: String::new(),
                    phase: EnsurePhase::Checking,
                };
                (task, EnsureAction::Check(path.file_name))
            },
            None => {
                let task = EnsureTask {
                    id: record.id,
                    file_name: String::new(),
                    temp_name: String::new(),
                    phase: EnsurePhase::Finished,
                };
                (task, EnsureAction::Finish(Ok(None)))
            },
        }
    }

    /// Starts bringing the cache in line with a full list of records.
    ///
    /// Removes cached `.mp3` files no record refers to anymore, along with
    /// `.download` leftovers from interrupted downloads, and downloads
    /// missing audio files. Records whose download the server refuses are
    /// skipped, so one broken asset does not stall the rest; their IDs are
    /// reported so callers can treat the synchronization as partial.
    pub fn sync<'a>(&self, records: &'a [AchievementRecord]) -> (started: (
        SyncTask<'a>,
        SyncAction,
    ))
        ensures
            started.0@ == (SyncModel {
                records: records@,
                skipped: Seq::empty(),
                phase: SyncPhase::Preparing,
            }),
            started.0@.is_valid(),
            started.1 is CreateDirectory,
    {
        let task = SyncTask {
            records,
            expected: expected_names(records),
            skipped: Vec::new(),
            phase: SyncPhase::Preparing,
        };
        (task, SyncAction::CreateDirectory)
    }
}

/// The last dot is where one is and none follows.
proof fn lemma_last_dot(name: Seq<u8>, dot: int)
    requires
        0 <= dot < name.len(),
        name[dot] == 0x2e,
        forall|i: int| dot < i < name.len() ==> name[i] != 0x2e,
    ensures
        last_dot(name) == dot,
    decreases name.len(),
{
    if dot < name.len() - 1 {
        assert(name.last() == name[name.len() - 1]);
        lemma_last_dot(name.drop_last(), dot);
    }
}

/// The extension of a name put together from a stem, a dot and an extension.
proof fn lemma_extension(stem: Seq<char>, found: Seq<char>)
    requires
        stem.len() > 0,
        found.len() > 0,
        is_ascii_chars(stem),
        is_ascii_chars(found),
        forall|i: int| 0 <= i < found.len() ==> found[i] != '.',
    ensures
        extension(encode_utf8(stem + seq!['.'] + found)) == Some(
            Seq::new(found.len(), |i: int| found[i] as u8),
        ),
{
    let name = stem + seq!['.'] + found;
    let bytes = encode_utf8(name);
    assert(is_ascii_chars(name)) by {
        assert forall|i: int| 0 <= i < name.len() implies '\0' <= #[trigger] name[i] <= '\u{7f}' by {
            if i < stem.len() {
                assert(name[i] == stem[i]);
            } else if i > stem.len() {
                assert(name[i] == found[i - stem.len() - 1]);
            }
        }
    }
    is_ascii_chars_encode_utf8(name);
    assert(bytes.len() == name.len());
    assert(forall|i: int| 0 <= i < name.len() ==> #[trigger] bytes[i] == name[i] as u8);
    assert(bytes[stem.len() as int] == name[stem.len() as int] as u8);
    assert forall|i: int| stem.len() < i < bytes.len() implies bytes[i] != 0x2e by {
        assert(bytes[i] == name[i] as u8);
        assert(name[i] == found[i - stem.len() - 1]);
        assert('\0' <= name[i] <= '\u{7f}');
    }
    lemma_last_dot(bytes, stem.len() as int);
    assert(bytes.last() != 0x2e);
    assert(bytes != seq![0x2eu8, 0x2e]);
    assert(bytes.skip(1int + stem.len()) =~= Seq::new(found.len(), |i: int| found[i] as u8));
}

/// An audio file's name has the extension `mp3`.
proof fn lemma_audio_extension(id: Seq<u8>, hash: Seq<u8>)
    requires
        id.len() == 16,
    ensures
        extension(encode_utf8(audio_file_name(id, hash))) == Some(audio_extension()),
{
    let stem = uuid_text(id) + seq!['_'] + hex(hash);
    let found = seq!['m', 'p', '3'];
    lemma_uuid_text(id);
    lemma_hex_range(hash);
    assert(is_ascii_chars(stem)) by {
        assert forall|i: int| 0 <= i < stem.len() implies '\0' <= #[trigger] stem[i] <= '\u{7f}' by {
            if i < 36 {
                assert(uuid_text(id)[i] as int <= 'f' as int);
            } else if i > 36 {
                assert(hex(hash)[i - 37] as int <= 'f' as int);
            }
        }
    }
    lemma_extension(stem, found);
    assert(audio_file_name(id, hash) =~= stem + seq!['.'] + found);
    assert(Seq::new(found.len(), |i: int| found[i] as u8) =~= audio_extension());
}

/// A download's temporary name has the extension `download`.
proof fn lemma_temp_extension(id: Seq<u8>, counter: u64)
    requires
        id.len() == 16,
    ensures
        extension(encode_utf8(temp_file_name(id, counter))) == Some(temp_extension()),
{
    let number = decimal(counter as nat);
    let stem = uuid_text(id) + seq!['.'] + number;
    let found = seq!['d', 'o', 'w', 'n', 'l', 'o', 'a', 'd'];
    lemma_uuid_text(id);
    lemma_decimal_range(counter as nat);
    assert(is_ascii_chars(stem)) by {
        assert forall|i: int| 0 <= i < stem.len() implies '\0' <= #[trigger] stem[i] <= '\u{7f}' by {
            if i < 36 {
                assert(uuid_text(id)[i] as int <= 'f' as int);
            } else if i > 36 {
                assert(number[i - 37] as int <= '9' as int);
            }
        }
    }
    lemma_extension(stem, found);
    assert(temp_file_name(id, counter) =~= stem + seq!['.'] + found);
    assert(Seq::new(found.len(), |i: int| found[i] as u8) =~= temp_extension());
}

/// A file name tells achievement and hash: different audio never shares a
/// file.
pub proof fn law_file_name_tells_audio(
    id: Seq<u8>,
    hash: Seq<u8>,
    other_id: Seq<u8>,
    other_hash: Seq<u8>,
)
    requires
        id.len() == 16,
        other_id.len() == 16,
        audio_file_name(id, hash) == audio_file_name(other_id, other_hash),
    ensures
        id == other_id,
        hash == other_hash,
{
    let (name, other) = (audio_file_name(id, hash), audio_file_name(other_id, other_hash));
    lemma_uuid_text(id);
    lemma_uuid_text(other_id);
    lemma_hex_range(hash);
    lemma_hex_range(other_hash);
    assert(uuid_text(id) =~= name.take(36));
    assert(uuid_text(other_id) =~= other.take(36));
    assert(hex(hash) =~= name.subrange(37, name.len() - 4));
    assert(hex(other_hash) =~= other.subrange(37, other.len() - 4));
    lemma_uuid_text_injective(id, other_id);
    lemma_hex_injective(hash, other_hash);
}

/// Downloads with different numbers never share a temporary file, not even
/// those of the same achievement.
pub proof fn law_downloads_stay_apart(id: Seq<u8>, counter: u64, other_id: Seq<u8>, other: u64)
    requires
        id.len() == 16,
        other_id.len() == 16,
        temp_file_name(id, counter) == temp_file_name(other_id, other),
    ensures
        id == other_id,
        counter == other,
{
    let (name, other_name) = (temp_file_name(id, counter), temp_file_name(other_id, other));
    lemma_uuid_text(id);
    lemma_uuid_text(other_id);
    assert(uuid_text(id) =~= name.take(36));
    assert(uuid_text(other_id) =~= other_name.take(36));
    assert(decimal(counter as nat) =~= name.subrange(37, name.len() - 9));
    assert(decimal(other as nat) =~= other_name.subrange(37, other_name.len() - 9));
    lemma_uuid_text_injective(id, other_id);
    lemma_decimal_injective(counter as nat, other as nat);
}

/// The leftover of an interrupted download is pruned, whatever the records.
pub proof fn law_leftovers_go(id: Seq<u8>, counter: u64, records: Seq<RecordModel>)
    requires
        id.len() == 16,
    ensures
        is_pruned(encode_utf8(temp_file_name(id, counter)), records),
{
    lemma_temp_extension(id, counter);
}

/// Different texts have different UTF-8 bytes.
proof fn lemma_encode_injective(left: Seq<char>, right: Seq<char>)
    requires
        encode_utf8(left) == encode_utf8(right),
    ensures
        left == right,
{
    encode_utf8_decode_utf8(left);
    encode_utf8_decode_utf8(right);
}

/// A cached audio file is pruned exactly if no record has that achievement
/// with that hash: what is in use stays, and an update on the server
/// invalidates the old file.
pub proof fn law_outdated_audio_goes(id: Seq<u8>, hash: Seq<u8>, records: Seq<RecordModel>)
    requires
        id.len() == 16,
        forall|i: int| 0 <= i < records.len() ==> (#[trigger] records[i]).id.len() == 16,
    ensures
        is_pruned(encode_utf8(audio_file_name(id, hash)), records) <==> !exists|i: int|
            0 <= i < records.len() && (#[trigger] records[i]).id == id && records[i].audio_hash
                == Some(hash),
{
    let name = audio_file_name(id, hash);
    lemma_audio_extension(id, hash);
    assert(audio_extension().len() != temp_extension().len());
    if is_expected(encode_utf8(name), records) {
        let i = choose|i: int|
            0 <= i < records.len() && (record_file_name(#[trigger] records[i]) matches Some(
                expected,
            ) && encode_utf8(expected) == encode_utf8(name));
        let expected = record_file_name(records[i])->Some_0;
        lemma_encode_injective(expected, name);
        law_file_name_tells_audio(records[i].id, records[i].audio_hash->Some_0, id, hash);
        assert(records[i].id == id && records[i].audio_hash == Some(hash));
    }
    if exists|i: int|
        0 <= i < records.len() && (#[trigger] records[i]).id == id && records[i].audio_hash == Some(
            hash,
        ) {
        let i = choose|i: int|
            0 <= i < records.len() && (#[trigger] records[i]).id == id && records[i].audio_hash
                == Some(hash);
        assert(record_file_name(records[i]) == Some(name));
    }
}

/// Audio data is written under a name that is pruned as a leftover, and only
/// a completed write is renamed to the name that counts as cached.
pub proof fn law_truncated_audio_is_never_cached(
    task: EnsureModel,
    event: EnsureEvent,
    next: EnsureModel,
    action: EnsureAction,
    records: Seq<RecordModel>,
)
    requires
        task.accepts(event),
        task.leads_to(event, next, action),
    ensures
        action matches EnsureAction::Write { temp_name, .. } ==> is_pruned(
            encode_utf8(temp_name@),
            records,
        ),
        action is Rename ==> event is Written && task.phase is Writing,
        next.phase is Writing ==> action is Write,
{
    if let EnsureEvent::Retrieved { data: _, counter } = event {
        law_leftovers_go(task.id@, counter, records);
    }
}

/// The achievements whose download was skipped, in the order of the records.
pub open spec fn refused_ids(
    records: Seq<AchievementRecord>,
    results: Seq<Result<Option<String>, AudioCacheError>>,
) -> Seq<[u8; 16]>
    decreases results.len(),
{
    if results.len() == 0 {
        Seq::empty()
    } else {
        let before = refused_ids(records, results.drop_last());
        match results.last() {
            Ok(_) => before,
            Err(_) => before.push(records[results.len() - 1].id),
        }
    }
}

/// A synchronization in which each record is cached or refused succeeds, and
/// reports exactly the refused achievements, in order.
pub proof fn law_refusals_are_reported(
    tasks: Seq<SyncModel>,
    results: Seq<Result<Option<String>, AudioCacheError>>,
    actions: Seq<SyncAction>,
)
    requires
        tasks.len() == results.len() + 2,
        actions.len() == results.len() + 1,
        tasks[0].records.len() == results.len() <= usize::MAX,
        tasks[0].skipped == Seq::<[u8; 16]>::empty(),
        tasks[0].leads_to(SyncEvent::EntriesEnded, tasks[1], actions[0]),
        forall|i: int|
            0 <= i < results.len() ==> #[trigger] tasks[i + 1].leads_to(
                SyncEvent::Ensured(results[i]),
                tasks[i + 2],
                actions[i + 1],
            ),
        forall|i: int|
            0 <= i < results.len() ==> (#[trigger] results[i] matches Err(error) ==> is_skipped(
                error,
            )),
    ensures
        actions.last() matches SyncAction::Finish(Ok(reported)) && reported@ == refused_ids(
            tasks[0].records,
            results,
        ),
{
    lemma_refusals(tasks, results, actions, results.len());
    assert(results.take(results.len() as int) =~= results);
}

/// Where a synchronization stands after some of the records.
proof fn lemma_refusals(
    tasks: Seq<SyncModel>,
    results: Seq<Result<Option<String>, AudioCacheError>>,
    actions: Seq<SyncAction>,
    count: nat,
)
    requires
        tasks.len() == results.len() + 2,
        actions.len() == results.len() + 1,
        tasks[0].records.len() == results.len() <= usize::MAX,
        tasks[0].skipped == Seq::<[u8; 16]>::empty(),
        tasks[0].leads_to(SyncEvent::EntriesEnded, tasks[1], actions[0]),
        forall|i: int|
            0 <= i < results.len() ==> #[trigger] tasks[i + 1].leads_to(
                SyncEvent::Ensured(results[i]),
                tasks[i + 2],
                actions[i + 1],
            ),
        forall|i: int|
            0 <= i < results.len() ==> (#[trigger] results[i] matches Err(error) ==> is_skipped(
                error,
            )),
        count <= results.len(),
    ensures
        ({
            let task = tasks[1int + count];
            &&& task.records == tasks[0].records
            &&& task.skipped == refused_ids(tasks[0].records, results.take(count as int))
            &&& if count < results.len() {
                task.phase == SyncPhase::Ensuring(count as usize)
            } else {
                actions[count as int] matches SyncAction::Finish(Ok(reported)) && reported@
                    == task.skipped
            }
        }),
    decreases count,
{
    if count == 0 {
        assert(results.take(0) =~= Seq::empty());
    } else {
        let i = count - 1;
        lemma_refusals(tasks, results, actions, i as nat);
        assert(tasks[i + 1].leads_to(
            SyncEvent::Ensured(results[i]),
            tasks[i + 2],
            actions[i + 1],
        ));
        assert(results.take(count as int).drop_last() =~= results.take(i));
        assert(results.take(count as int).last() == results[i]);
    }
}

/// A failure of the file system ends a synchronization with that failure,
/// wherever it happens.
pub proof fn law_sync_reports_failures(
    task: SyncModel,
    error: std::io::Error,
    next: SyncModel,
    action: SyncAction,
)
    requires
        !(task.phase is Finished),
        task.phase is Ensuring ==> task.leads_to(
            SyncEvent::Ensured(Err(AudioCacheError::Io(error))),
            next,
            action,
        ),
        !(task.phase is Ensuring) ==> task.leads_to(SyncEvent::Failed(error), next, action),
    ensures
        task.phase is Ensuring || task.accepts(SyncEvent::Failed(error)),
        next.phase is Finished,
        action == SyncAction::Finish(Err(AudioCacheError::Io(error))),
{
}

} // verus!
