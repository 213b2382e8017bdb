//! What holds of the MFRC522 reader backend over any course of events.

use vstd::prelude::*;

use super::mfrc522::{
    advance_init, advance_serve, can_happen, can_serve, check_for_release, law_text_message_is_read,
    message_text, nfc_uid_from_mfrc522, path_of, spawn_outcome, start_init, InitAction, InitEvent,
    InitPhase, Mfrc522InitError, NfcReaderConfig, ReadAction, ReadModel, ReadPhase, ReaderRequest,
    ServeAction, ServeEvent, ServePhase, TagModel, TagReader, WakeUp,
};
use super::ndef::{
    law_chunks_join, law_progress_in_stream, parse_ndef_text_record, text_payload, text_record,
    NdefError, NdefTextRecord, TlvState,
};
use crate::protocol::NfcUid;
use crate::text::decimal;

verus! {

/// Every step of reading a tag is one of its model, whatever came before.
pub proof fn law_reader_follows_its_model()
    ensures
        forall|started: (TagReader, ReadAction)| #[trigger]
            call_ensures(TagReader::start, (), started) ==> started.0@ == TagModel::start()
                && started.1 == ReadAction::Read(3),
        forall|reader: &TagReader, phase: ReadPhase| #[trigger]
            call_ensures(TagReader::phase, (reader,), phase) ==> phase == reader@.phase,
        forall|reader: &mut TagReader, data: [u8; 16], action: ReadAction| #[trigger]
            call_ensures(TagReader::step, (reader, Some(data)), action) ==> (
                final(reader)@,
                action@,
            ) == reader@.on_pages(Some(data@)),
        forall|reader: &mut TagReader, action: ReadAction| #[trigger]
            call_ensures(TagReader::step, (reader, None), action) ==> (final(reader)@, action@)
                == reader@.on_pages(None),
{
}

/// An action says what it is, with the very text or reason.
pub proof fn law_action_says_what_it_is(action: ReadAction)
    ensures
        action matches ReadAction::Read(page) ==> action@ == ReadModel::Read(page),
        action matches ReadAction::Finish(Ok(text)) ==> action@ == ReadModel::Finish(Ok(text@)),
        action matches ReadAction::Finish(Err(reason)) ==> action@ == ReadModel::Finish(
            Err(reason@),
        ),
{
}

/// A tag is read four pages at a time without a gap or a repetition: the pages
/// asked for are always the four behind those asked for before, starting with
/// page 4, and none are asked for behind those the tag has or beyond page 255.
pub proof fn law_pages_come_in_order(task: TagModel, pages: Option<Seq<u8>>)
    requires
        task.is_valid(),
        !(task.phase is Finished),
    ensures
        ({
            let (next, action) = task.on_pages(pages);
            &&& next.is_valid()
            &&& action is Read <==> next.phase is Data
            &&& action is Finish <==> next.phase is Finished
            &&& action matches ReadModel::Read(page) ==> {
                &&& pages is Some
                &&& page as int == 4 * next.quad
                &&& next.quad == task.quad + 1
                &&& next.quad <= 63
                &&& next.quad <= next.total_quads
                &&& task.phase is Capabilities ==> page == 4
            }
            &&& task.phase is Data ==> next.total_quads == task.total_quads
            &&& task.phase is Capabilities && pages is Some ==> next.total_quads
                == pages->Some_0[2] / 2
        }),
{
}

/// The n-th read of data asks for page 4n, whatever the tag holds.
pub proof fn law_nth_read_asks_for_page_4n(
    tasks: Seq<TagModel>,
    pages: Seq<Seq<u8>>,
    actions: Seq<ReadModel>,
    n: nat,
)
    requires
        tasks.len() == pages.len() + 1,
        actions.len() == pages.len(),
        tasks[0] == TagModel::start(),
        forall|i: int|
            0 <= i < pages.len() ==> (tasks[i + 1], actions[i]) == (
            #[trigger] tasks[i]).on_pages(Some(pages[i])),
        1 <= n <= pages.len(),
        forall|i: int| 0 <= i < n ==> (#[trigger] actions[i]) is Read,
    ensures
        4 * n <= 252,
        actions[n - 1] == ReadModel::Read((4 * n) as u8),
        tasks[n as int].quad == n,
        tasks[n as int].phase is Data,
    decreases n,
{
    let i = n - 1;
    if n > 1 {
        law_nth_read_asks_for_page_4n(tasks, pages, actions, i as nat);
    }
    assert((tasks[i + 1], actions[i]) == tasks[i].on_pages(Some(pages[i])));
    assert(actions[i] is Read);
}

/// A failed read ends the reading with an error that names the very page that
/// was asked for; of the capability container it says so.
pub proof fn law_failed_read_names_its_page(task: TagModel, pages: Seq<u8>)
    requires
        task.is_valid(),
        !(task.phase is Finished),
    ensures
        TagModel::start().on_pages(None).1 == ReadModel::Finish(
            Err("failed to read capability container"@),
        ),
        task.on_pages(Some(pages)).1 matches ReadModel::Read(page) ==> task.on_pages(
            Some(pages),
        ).0.on_pages(None).1 == ReadModel::Finish(
            Err("failed to read block "@ + decimal(page as nat)),
        ),
        task.on_pages(None).0.phase is Finished,
{
}

/// What reading a tag comes to if every page asked for is answered with the
/// sixteen bytes of the tag's memory from that page on.
pub open spec fn reading_of(task: TagModel, page: u8, memory: Seq<u8>, fuel: nat) -> ReadModel
    decreases fuel,
{
    let (next, action) = task.on_pages(Some(memory.subrange(4 * page, 4 * page + 16)));
    match action {
        ReadModel::Read(asked) if fuel > 0 => reading_of(next, asked, memory, (fuel - 1) as nat),
        _ => action,
    }
}

/// The announcement of a message: `0x03` and its length in one byte, or
/// `0x03`, `0xff` and its length in two, high byte first.
pub open spec fn announcement(message: Seq<u8>, long: bool) -> Seq<u8> {
    if long {
        seq![0x03u8, 0xff, (message.len() / 0x100) as u8, (message.len() % 0x100) as u8]
    } else {
        seq![0x03u8, message.len() as u8]
    }
}

/// What a tag's memory comes to, whose data announces a message behind so many
/// bytes: the length of the data is in eights of bytes the byte at 14, and at
/// most 1008 bytes of it can be read.
pub open spec fn memory_outcome(
    memory: Seq<u8>,
    before: nat,
    message: Seq<u8>,
    long: bool,
) -> Result<Seq<char>, Seq<char>> {
    let quads = memory[14] as int / 2;
    let readable = if quads < 63 {
        16 * quads
    } else {
        1008
    };
    if before >= 32 && quads >= 2 {
        Err("no NDEF message found in first sector"@)
    } else if before + announcement(message, long).len() + message.len() <= readable {
        message_text(message)
    } else {
        Err("NDEF message incomplete"@)
    }
}

/// Whether a tag's memory is one whose data announces the message behind the
/// prefix.
pub open spec fn announces(
    memory: Seq<u8>,
    prefix: Seq<u8>,
    message: Seq<u8>,
    long: bool,
    rest: Seq<u8>,
) -> bool {
    &&& memory.len() >= 28
    &&& memory[14] as int / 2 >= 63 ==> memory.len() >= 1024
    &&& memory[14] as int / 2 < 63 ==> memory.len() >= 16 + 16 * (memory[14] as int / 2)
    &&& memory.skip(16) == prefix + announcement(message, long) + message + rest
    &&& !prefix.contains(0x03u8)
    &&& message.len() <= if long {
        0xffffnat
    } else {
        0xfe
    }
}

/// What reading comes to from four pages on.
proof fn lemma_reading(
    task: TagModel,
    memory: Seq<u8>,
    prefix: Seq<u8>,
    message: Seq<u8>,
    long: bool,
    rest: Seq<u8>,
    fuel: nat,
)
    requires
        announces(memory, prefix, message, long, rest),
        task.phase is Data,
        1 <= task.quad <= 63,
        task.quad <= task.total_quads == memory[14] as int / 2,
        task.parser == TlvState::start().after(memory.skip(16).take(16 * (task.quad - 1))),
        !task.parser.done(),
        task.quad > 2 ==> prefix.len() < 32,
        fuel >= 63 - task.quad,
    ensures
        reading_of(task, (4 * task.quad) as u8, memory, fuel) == ReadModel::Finish(
            memory_outcome(memory, prefix.len(), message, long),
        ),
    decreases fuel,
{
    let stream = prefix + announcement(message, long) + message + rest;
    assert(stream == memory.skip(16));
    let seen = 16 * (task.quad - 1);
    let behind = 16 * task.quad;
    let page = (4 * task.quad) as u8;
    let chunk = memory.subrange(4 * page, 4 * page + 16);
    assert(stream.take(behind) =~= stream.take(seen) + chunk) by {
        assert forall|i: int| 0 <= i < behind implies stream.take(behind)[i] == (stream.take(seen)
            + chunk)[i] by {
            assert(stream[i] == memory[i + 16]);
        }
    }
    law_chunks_join(TlvState::start(), stream.take(seen), chunk);
    law_progress_in_stream(prefix, message, long, rest, seen);
    law_progress_in_stream(prefix, message, long, rest, behind);
    let (next, action) = task.on_pages(Some(chunk));
    if action is Read {
        lemma_reading(next, memory, prefix, message, long, rest, (fuel - 1) as nat);
    }
}

/// What a tag's memory holds is what reading it comes to: if every page asked
/// for is answered with the bytes of the memory from that page on, and the
/// memory announces a message, reading comes to what that message says, as
/// long as it starts within the first 32 bytes of the data and ends within
/// what can be read.
pub proof fn law_memory_is_read(
    memory: Seq<u8>,
    prefix: Seq<u8>,
    message: Seq<u8>,
    long: bool,
    rest: Seq<u8>,
)
    requires
        announces(memory, prefix, message, long, rest),
    ensures
        reading_of(TagModel::start(), 3, memory, 63) == ReadModel::Finish(
            memory_outcome(memory, prefix.len(), message, long),
        ),
{
    let capabilities = memory.subrange(12, 28);
    assert(capabilities[2] == memory[14]);
    let (next, action) = TagModel::start().on_pages(Some(capabilities));
    assert(memory.skip(16).take(0) =~= Seq::<u8>::empty());
    if action is Read {
        lemma_reading(next, memory, prefix, message, long, rest, 62);
    }
}

/// A text on a tag is what reading the tag comes to.
pub proof fn law_text_on_a_tag_is_read(
    memory: Seq<u8>,
    prefix: Seq<u8>,
    language: Seq<u8>,
    text: Seq<char>,
    short: bool,
    long: bool,
    rest: Seq<u8>,
)
    requires
        language.len() <= 63,
        short ==> text_payload(language, text).len() < 0x100,
        announces(memory, prefix, text_record(text_payload(language, text), short), long, rest),
        prefix.len() < 32,
        ({
            let end = prefix.len() + (if long {
                4int
            } else {
                2
            }) + text_record(text_payload(language, text), short).len();
            end <= 16 * (memory[14] as int / 2) && end <= 1008
        }),
    ensures
        reading_of(TagModel::start(), 3, memory, 63) == ReadModel::Finish(Ok(text)),
{
    let payload = text_payload(language, text);
    law_memory_is_read(memory, prefix, text_record(payload, short), long, rest);
    law_text_message_is_read(language, text, short);
}

/// How many bytes of a tag's memory reading it can ask for: the first 16, and
/// 16 for each four pages of data that the byte at 14 counts, up to 63 times;
/// the capability container alone takes 28.
pub open spec fn asked_bytes(memory: Seq<u8>) -> int {
    let quads = memory[14] as int / 2;
    if quads == 0 {
        28
    } else if quads < 63 {
        16 + 16 * quads
    } else {
        1024
    }
}

/// Reading comes to the same on memories that agree in what can be asked for.
pub proof fn law_reading_asks_for_no_more(
    task: TagModel,
    page: u8,
    memory: Seq<u8>,
    other: Seq<u8>,
    fuel: nat,
)
    requires
        asked_bytes(memory) <= memory.len(),
        asked_bytes(memory) <= other.len(),
        memory.take(asked_bytes(memory)) == other.take(asked_bytes(memory)),
        task.is_valid(),
        task.phase is Capabilities ==> page == 3,
        task.phase is Data ==> page as int == 4 * task.quad && task.total_quads
            == memory[14] as int / 2,
        !(task.phase is Finished),
    ensures
        reading_of(task, page, memory, fuel) == reading_of(task, page, other, fuel),
    decreases fuel,
{
    let limit = asked_bytes(memory);
    let chunk = memory.subrange(4 * page, 4 * page + 16);
    assert(4 * page + 16 <= limit);
    assert(chunk =~= other.subrange(4 * page, 4 * page + 16)) by {
        assert forall|i: int| 0 <= i < limit implies memory[i] == other[i] by {
            assert(memory.take(limit)[i] == other.take(limit)[i]);
        }
    }
    law_pages_come_in_order(task, Some(chunk));
    let (next, action) = task.on_pages(Some(chunk));
    if fuel > 0 {
        if let ReadModel::Read(asked) = action {
            if task.phase is Capabilities {
                assert(chunk[2] == memory[14]);
            }
            law_reading_asks_for_no_more(next, asked, memory, other, (fuel - 1) as nat);
        }
    }
}

/// A tag whose data has no `0x03`, as far as it can be read, holds no message.
pub proof fn law_blank_memory_is_an_error(memory: Seq<u8>)
    requires
        memory.len() >= asked_bytes(memory),
        !memory.subrange(16, asked_bytes(memory)).contains(0x03u8),
    ensures
        reading_of(TagModel::start(), 3, memory, 63) == ReadModel::Finish(
            Err(
                if memory[14] >= 4 {
                    "no NDEF message found in first sector"@
                } else {
                    "NDEF message incomplete"@
                },
            ),
        ),
{
    let limit = asked_bytes(memory);
    let empty = Seq::<u8>::empty();
    let prefix = memory.subrange(16, limit);
    let header = announcement(empty, false);
    let marked = memory.take(limit) + header;
    assert(marked.skip(16) =~= prefix + header + empty + empty);
    assert(marked[14] == memory[14]);
    assert(marked.take(limit) =~= memory.take(limit));
    law_memory_is_read(marked, prefix, empty, false, empty);
    law_reading_asks_for_no_more(TagModel::start(), 3, memory, marked, 63);
}

/// What a message says is the text of its record, or the description of what
/// keeps it from being read.
pub proof fn law_message_says_its_record(
    message: &[u8],
    record: Result<NdefTextRecord, NdefError>,
    text: Result<String, NdefError>,
    description: String,
)
    requires
        call_ensures(parse_ndef_text_record, (message,), record),
        record matches Ok(record) ==> call_ensures(NdefTextRecord::text, (&record,), text),
        record matches Err(error) ==> call_ensures(NdefError::message, (&error,), description),
        record is Ok ==> (text matches Err(error) ==> call_ensures(
            NdefError::message,
            (&error,),
            description,
        )),
    ensures
        record is Err ==> message_text(message@) == Err::<Seq<char>, Seq<char>>(description@),
        record is Ok ==> (text matches Ok(chars) ==> message_text(message@) == Ok::<
            Seq<char>,
            Seq<char>,
        >(chars@)),
        record is Ok && text is Err ==> message_text(message@) == Err::<Seq<char>, Seq<char>>(
            description@,
        ),
{
}

/// The initialization starts with the SPI device.
pub proof fn law_init_starts_with_spi(step: (InitPhase, InitAction))
    requires
        call_ensures(start_init, (), step),
    ensures
        step.0 is Opening,
        step.1 is OpenSpi,
{
}

/// Every action of the initialization has its one cause, and is what is then
/// awaited; the line is low for 150 milliseconds, and the chip is given 50.
pub proof fn law_init_goes_step_by_step(
    phase: InitPhase,
    event: InitEvent,
    step: (InitPhase, InitAction),
)
    requires
        can_happen(phase, event),
        call_ensures(advance_init, (phase, event), step),
    ensures
        ({
            let (next, action) = step;
            let done = event is Done;
            &&& !(next is Opening) && !(action is OpenSpi)
            &&& next is Configuring <==> done && phase is Opening
            &&& next is Resetting <==> done && phase is Configuring
            &&& next is Holding <==> done && phase is Resetting
            &&& next is Releasing <==> done && phase is Holding
            &&& next is Starting <==> done && phase is Releasing
            &&& next is Waking <==> done && phase is Starting
            &&& next is Finished <==> !done || phase is Waking
            &&& next is Configuring <==> action is ConfigureSpi
            &&& next is Resetting <==> action is RequestLine
            &&& next is Holding ==> action == InitAction::Wait(150)
            &&& next is Releasing <==> action is ReleaseLine
            &&& next is Starting ==> action == InitAction::Wait(50)
            &&& action is Wait ==> next is Holding || next is Starting
            &&& next is Waking <==> action is InitChip
            &&& next is Finished <==> action is Finish
        }),
{
}

/// The initialization succeeds exactly once the chip is woken; every failure
/// ends it at once, as what it is.
pub proof fn law_init_ends_as_it_went(
    phase: InitPhase,
    event: InitEvent,
    step: (InitPhase, InitAction),
)
    requires
        can_happen(phase, event),
        call_ensures(advance_init, (phase, event), step),
    ensures
        step.1 == InitAction::Finish(Ok(())) <==> event is Done && phase is Waking,
        event matches InitEvent::SpiFailed(error) ==> step.1 == InitAction::Finish(
            Err(Mfrc522InitError::Io(error)),
        ),
        event matches InitEvent::GpioFailed(reason) ==> step.1 == InitAction::Finish(
            Err(Mfrc522InitError::Gpio(reason)),
        ),
        event matches InitEvent::ChipFailed(reason) ==> step.1 == InitAction::Finish(
            Err(Mfrc522InitError::Chip(reason)),
        ),
{
}

/// Every event of the initialization can happen exactly when it is awaited.
pub proof fn law_init_awaits_its_events(phase: InitPhase, event: InitEvent)
    ensures
        event is Done ==> (can_happen(phase, event) <==> !(phase is Finished)),
        event is SpiFailed ==> (can_happen(phase, event) <==> phase is Opening
            || phase is Configuring),
        event is GpioFailed ==> (can_happen(phase, event) <==> phase is Resetting
            || phase is Releasing),
        event is ChipFailed ==> (can_happen(phase, event) <==> phase is Waking),
{
}

/// What the reader thread reports is the outcome of starting it, and a thread
/// that reports nothing is a failed chip.
pub proof fn law_report_is_the_outcome(
    report: Option<Result<(), Mfrc522InitError>>,
    outcome: Result<(), Mfrc522InitError>,
)
    requires
        call_ensures(spawn_outcome, (report,), outcome),
    ensures
        report matches Some(reported) ==> outcome == reported,
        report is None ==> (outcome matches Err(Mfrc522InitError::Chip(reason)) && reason@
            == "reader thread died during initialization"@),
{
}

/// Every event of the backend can happen exactly when it is awaited.
pub proof fn law_backend_awaits_its_events(phase: ServePhase, event: ServeEvent)
    ensures
        event is Requested || event is HandlesGone ==> (can_serve(phase, event)
            <==> phase is Idle),
        event is Abandoned ==> (can_serve(phase, event) <==> phase is CardWanted
            || phase is RemovalWanted),
        event is Selected ==> (can_serve(phase, event) <==> phase is CardSelecting),
        event is Probed ==> (can_serve(phase, event) <==> phase is RemovalProbing),
        event is Paused ==> (can_serve(phase, event) <==> phase is CardPausing
            || phase is RemovalPausing),
        event is TextRead ==> (can_serve(phase, event) <==> phase is TextReading),
{
}

/// Everything the backend comes to wait for has its one cause.
pub proof fn law_backend_goes_step_by_step(
    phase: ServePhase,
    event: ServeEvent,
    step: (ServePhase, ServeAction),
)
    requires
        can_serve(phase, event),
        call_ensures(advance_serve, (phase, event), step),
    ensures
        ({
            let next = step.0;
            let asked = event == ServeEvent::Requested(ReaderRequest::WaitForCard);
            let awaited = event == ServeEvent::Requested(ReaderRequest::WaitForRemoval);
            &&& next is CardWanted <==> asked || phase is CardPausing
            &&& next is RemovalWanted <==> awaited || phase is RemovalPausing
            &&& next is CardSelecting <==> phase is CardWanted && event == ServeEvent::Abandoned(
                false,
            )
            &&& next is RemovalProbing <==> phase is RemovalWanted && event
                == ServeEvent::Abandoned(false)
            &&& next is CardPausing <==> event == ServeEvent::Selected(None)
            &&& next is RemovalPausing <==> event == ServeEvent::Probed(false)
            &&& next is TextReading <==> event == ServeEvent::Requested(ReaderRequest::ReadNdefText)
            &&& next is Stopped <==> event is HandlesGone
            &&& next is Idle <==> event == ServeEvent::Abandoned(true) || (
            event matches ServeEvent::Selected(Some(_))) || event == ServeEvent::Probed(true)
                || event is TextRead
        }),
{
}

/// Whatever the backend does is what it then waits for, with 50 milliseconds
/// between two attempts; every request is answered with what was found.
pub proof fn law_backend_answers_what_it_found(
    phase: ServePhase,
    event: ServeEvent,
    step: (ServePhase, ServeAction),
)
    requires
        can_serve(phase, event),
        call_ensures(advance_serve, (phase, event), step),
    ensures
        ({
            let (next, action) = step;
            &&& next is CardWanted || next is RemovalWanted <==> action is CheckCaller
            &&& next is CardSelecting <==> action is Select
            &&& next is RemovalProbing <==> action is Probe
            &&& next is CardPausing || next is RemovalPausing <==> action is Pause
            &&& next is TextReading <==> action is ReadText
            &&& next is Stopped <==> action is Stop
            &&& action is Receive <==> event == ServeEvent::Abandoned(true)
            &&& action is AnswerRemoval <==> event == ServeEvent::Probed(true)
            &&& (action matches ServeAction::Pause(millis) ==> millis == 50)
            &&& (action matches ServeAction::AnswerCard(uid) ==> event == ServeEvent::Selected(
                Some(uid),
            ))
            &&& (event matches ServeEvent::Selected(Some(uid)) ==> action
                == ServeAction::AnswerCard(uid))
            &&& (action matches ServeAction::AnswerText(text) ==> event == ServeEvent::TextRead(
                text,
            ))
            &&& (event matches ServeEvent::TextRead(text) ==> action == ServeAction::AnswerText(
                text,
            ))
        }),
{
}

/// A card is gone exactly if the first wake-up was not answered and the second
/// neither was nor collided; a first answer settles it.
pub proof fn law_card_is_gone_after_two_silences(
    first: WakeUp,
    second: Option<WakeUp>,
    gone: Option<bool>,
)
    requires
        call_ensures(check_for_release, (first, second), gone),
    ensures
        gone == Some(true) <==> !(first is Answered) && second == Some(WakeUp::Failed),
        gone is None <==> !(first is Answered) && second is None,
{
}

/// The UID that the chip reports is the one that callers get.
pub proof fn law_uid_is_passed_on(bytes: &[u8], uid: NfcUid)
    requires
        call_ensures(nfc_uid_from_mfrc522, (bytes,), uid),
    ensures
        uid@ == bytes@,
{
}

/// A UID of any of the three standard lengths is taken.
pub proof fn law_standard_uids_are_taken(bytes: &[u8])
    requires
        bytes@.len() == 4 || bytes@.len() == 7 || bytes@.len() == 10,
    ensures
        call_requires(nfc_uid_from_mfrc522, (bytes,)),
{
}

/// A copy of the wiring is wired the same.
pub proof fn law_wiring_is_copied(config: &NfcReaderConfig, copy: NfcReaderConfig)
    requires
        call_ensures(<NfcReaderConfig as Clone>::clone, (config,), copy),
    ensures
        copy == *config,
{
}

/// Without settings the reader is wired to the first SPI device, the first GPIO
/// chip and line 25.
pub proof fn law_wiring_by_default(config: NfcReaderConfig)
    requires
        call_ensures(<NfcReaderConfig as Default>::default, (), config),
    ensures
        config.spi_dev_path == path_of("/dev/spidev0.0"@),
        config.gpio_dev_path == path_of("/dev/gpiochip0"@),
        config.reset_pin_line == 25,
{
}

} // verus!
