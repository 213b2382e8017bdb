//! The rules of the built-in MFRC522 reader backend.
//!
//! Nothing here touches the hardware: [`advance_init`], [`advance_serve`] and
//! [`TagReader`] take what happened and return what to do next.

use vstd::prelude::*;
use vstd::string::*;

use super::ndef::{
    fault_message, law_chunks_join, law_progress_in_stream, law_text_is_stripped,
    law_text_record_is_read, longest_message, parse_ndef_text_record, payload_text, text_payload,
    text_record, text_record_fault, text_record_payload, tlv_header, NdefMessageParser, TlvState,
};
use crate::protocol::{is_uid_length, NfcUid};
use crate::text::{decimal, decimal_text};

verus! {

/// Errors that can occur while initializing the MFRC522 backend.
#[derive(Debug)]
#[non_exhaustive]
pub enum Mfrc522InitError {
    /// The SPI device could not be opened or configured, or the reader thread
    /// could not be started.
    Io(std::io::Error),
    /// The GPIO reset line could not be driven.
    Gpio(String),
    /// The MFRC522 chip failed to initialize.
    Chip(String),
}

/// The path that a text stands for.
pub uninterp spec fn path_of(text: Seq<char>) -> std::path::PathBuf;

/// `PathBuf::from` on a string: the path that the string stands for.
#[verifier::external_body]
fn path_from(text: &str) -> (path: std::path::PathBuf)
    ensures
        path == path_of(text@),
{
    std::path::PathBuf::from(text)
}

/// Hardware wiring of the MFRC522 reader.
#[derive(Debug)]
pub struct NfcReaderConfig {
    pub spi_dev_path: std::path::PathBuf,
    pub gpio_dev_path: std::path::PathBuf,
    pub reset_pin_line: u32,
}

impl Clone for NfcReaderConfig {
    fn clone(&self) -> (copy: Self)
        ensures
            copy == *self,
    {
        NfcReaderConfig {
            spi_dev_path: self.spi_dev_path.clone(),
            gpio_dev_path: self.gpio_dev_path.clone(),
            reset_pin_line: self.reset_pin_line,
        }
    }
}

impl Default for NfcReaderConfig {
    fn default() -> (config: Self)
        ensures
            config.spi_dev_path == path_of("/dev/spidev0.0"@),
            config.gpio_dev_path == path_of("/dev/gpiochip0"@),
            config.reset_pin_line == 25,
    {
        NfcReaderConfig {
            spi_dev_path: path_from("/dev/spidev0.0"),
            gpio_dev_path: path_from("/dev/gpiochip0"),
            reset_pin_line: 25,
        }
    }
}

/// Clock of the SPI bus, in hertz.
pub const SPI_SPEED_HZ: u32 = 1_000_000;

/// How long the reset line stays low, in milliseconds.
pub const RESET_MILLIS: u64 = 150;

/// How long the chip is given after a reset, in milliseconds.
pub const STARTUP_MILLIS: u64 = 50;

/// How long to wait before polling again, in milliseconds.
pub const POLL_MILLIS: u64 = 50;

/// How many times four pages can be addressed: the address of a page is one
/// byte.
pub const ADDRESSABLE_QUADS: u8 = 63;

/// Where the initialization stands.
#[derive(Clone, Copy, Debug, Eq, PartialEq, Structural)]
pub enum InitPhase {
    /// Waiting for the SPI device.
    Opening,
    /// Waiting for its configuration.
    Configuring,
    /// Waiting for the reset line, held low.
    Resetting,
    /// Waiting while the reset line is low.
    Holding,
    /// Waiting for the reset line to go high.
    Releasing,
    /// Waiting while the chip starts up.
    Starting,
    /// Waiting for the chip's initialization.
    Waking,
    /// Over.
    Finished,
}

/// What happened to the initialization.
#[derive(Debug)]
pub enum InitEvent {
    /// What was to be done is done.
    Done,
    /// The SPI device failed.
    SpiFailed(std::io::Error),
    /// The reset line failed.
    GpioFailed(String),
    /// The chip failed.
    ChipFailed(String),
}

/// What to do next about the initialization.
#[derive(Debug)]
pub enum InitAction {
    /// Open the SPI device.
    OpenSpi,
    /// Configure the SPI device.
    ConfigureSpi,
    /// Request the reset line as an output that is low.
    RequestLine,
    /// Wait for a number of milliseconds.
    Wait(u64),
    /// Drive the reset line high.
    ReleaseLine,
    /// Initialize the chip.
    InitChip,
    /// Nothing; the reader is ready, or cannot be.
    Finish(Result<(), Mfrc522InitError>),
}

/// Which events can happen where the initialization stands.
pub open spec fn can_happen(phase: InitPhase, event: InitEvent) -> bool {
    match event {
        InitEvent::Done => !(phase is Finished),
        InitEvent::SpiFailed(_) => phase is Opening || phase is Configuring,
        InitEvent::GpioFailed(_) => phase is Resetting || phase is Releasing,
        InitEvent::ChipFailed(_) => phase is Waking,
    }
}

/// Where the initialization stands after an event, and what to do: the line
/// is held low, then released, then the chip is woken; the first failure ends
/// it.
pub open spec fn after_init_event(phase: InitPhase, event: InitEvent) -> (InitPhase, InitAction) {
    match event {
        InitEvent::Done => match phase {
            InitPhase::Opening => (InitPhase::Configuring, InitAction::ConfigureSpi),
            InitPhase::Configuring => (InitPhase::Resetting, InitAction::RequestLine),
            InitPhase::Resetting => (InitPhase::Holding, InitAction::Wait(RESET_MILLIS)),
            InitPhase::Holding => (InitPhase::Releasing, InitAction::ReleaseLine),
            InitPhase::Releasing => (InitPhase::Starting, InitAction::Wait(STARTUP_MILLIS)),
            InitPhase::Starting => (InitPhase::Waking, InitAction::InitChip),
            _ => (InitPhase::Finished, InitAction::Finish(Ok(()))),
        },
        InitEvent::SpiFailed(error) => (
            InitPhase::Finished,
            InitAction::Finish(Err(Mfrc522InitError::Io(error))),
        ),
        InitEvent::GpioFailed(reason) => (
            InitPhase::Finished,
            InitAction::Finish(Err(Mfrc522InitError::Gpio(reason))),
        ),
        InitEvent::ChipFailed(reason) => (
            InitPhase::Finished,
            InitAction::Finish(Err(Mfrc522InitError::Chip(reason))),
        ),
    }
}

/// Starts the initialization.
pub fn start_init() -> (step: (InitPhase, InitAction))
    ensures
        step == (InitPhase::Opening, InitAction::OpenSpi),
{
    (InitPhase::Opening, InitAction::OpenSpi)
}

/// Takes the initialization one step on.
pub fn advance_init(phase: InitPhase, event: InitEvent) -> (step: (InitPhase, InitAction))
    requires
        can_happen(phase, event),
    ensures
        step == after_init_event(phase, event),
{
    match event {
        InitEvent::Done => match phase {
            InitPhase::Opening => (InitPhase::Configuring, InitAction::ConfigureSpi),
            InitPhase::Configuring => (InitPhase::Resetting, InitAction::RequestLine),
            InitPhase::Resetting => (InitPhase::Holding, InitAction::Wait(RESET_MILLIS)),
            InitPhase::Holding => (InitPhase::Releasing, InitAction::ReleaseLine),
            InitPhase::Releasing => (InitPhase::Starting, InitAction::Wait(STARTUP_MILLIS)),
            InitPhase::Starting => (InitPhase::Waking, InitAction::InitChip),
            _ => (InitPhase::Finished, InitAction::Finish(Ok(()))),
        },
        InitEvent::SpiFailed(error) => {
            (InitPhase::Finished, InitAction::Finish(Err(Mfrc522InitError::Io(error))))
        },
        InitEvent::GpioFailed(reason) => {
            (InitPhase::Finished, InitAction::Finish(Err(Mfrc522InitError::Gpio(reason))))
        },
        InitEvent::ChipFailed(reason) => {
            (InitPhase::Finished, InitAction::Finish(Err(Mfrc522InitError::Chip(reason))))
        },
    }
}

/// The chip is woken only after a full reset: the line low for its time, then
/// high for its time; and the reader is ready only once the chip is.
pub proof fn law_chip_wakes_after_reset(phase: InitPhase, event: InitEvent)
    requires
        can_happen(phase, event),
    ensures
        ({
            let (next, action) = after_init_event(phase, event);
            &&& next is Holding ==> phase is Resetting && action == InitAction::Wait(RESET_MILLIS)
            &&& action is ReleaseLine ==> phase is Holding
            &&& next is Starting ==> phase is Releasing && action == InitAction::Wait(
                STARTUP_MILLIS,
            )
            &&& action is InitChip ==> phase is Starting
            &&& action == InitAction::Finish(Ok(())) ==> phase is Waking && event is Done
        }),
{
}

/// Turns the report of the reader thread into the outcome of starting it;
/// `None` stands for a thread that ended without one.
pub fn spawn_outcome(report: Option<Result<(), Mfrc522InitError>>) -> (outcome: Result<
    (),
    Mfrc522InitError,
>)
    ensures
        match report {
            Some(report) => outcome == report,
            None => outcome matches Err(Mfrc522InitError::Chip(reason)) && reason@
                == "reader thread died during initialization"@,
        },
{
    match report {
        Some(report) => report,
        None => Err(
            Mfrc522InitError::Chip("reader thread died during initialization".to_owned()),
        ),
    }
}

/// A request to the reader backend.
#[derive(Clone, Copy, Debug, Eq, PartialEq, Structural)]
pub enum ReaderRequest {
    /// Poll until a card is present, answering with its UID.
    WaitForCard,
    /// Poll until the present card is gone.
    WaitForRemoval,
    /// Read the tag's NDEF text record.
    ReadNdefText,
}

/// What the backend is waiting for.
#[derive(Clone, Copy, Debug, Eq, PartialEq, Structural)]
pub enum ServePhase {
    /// The next request.
    Idle,
    /// Whether the caller still waits for a card.
    CardWanted,
    /// Whether a card is present.
    CardSelecting,
    /// The time to poll for a card again.
    CardPausing,
    /// Whether the caller still waits for the removal.
    RemovalWanted,
    /// Whether the card is gone.
    RemovalProbing,
    /// The time to poll for the removal again.
    RemovalPausing,
    /// The tag's text.
    TextReading,
    /// Nothing; every handle is gone.
    Stopped,
}

/// What happened to the backend.
#[derive(Debug)]
pub enum ServeEvent {
    /// A request arrived.
    Requested(ReaderRequest),
    /// Every handle is gone.
    HandlesGone,
    /// The caller gave up waiting, or not.
    Abandoned(bool),
    /// A card was selected, or none.
    Selected(Option<NfcUid>),
    /// The card is gone, or not.
    Probed(bool),
    /// The pause is over.
    Paused,
    /// The tag's text was read, or not, for a reason.
    TextRead(Result<String, String>),
}

/// What the backend does next.
#[derive(Debug)]
pub enum ServeAction {
    /// Wait for the next request.
    Receive,
    /// Look whether the caller gave up waiting.
    CheckCaller,
    /// Try to select a card.
    Select,
    /// Find out whether the card is gone.
    Probe,
    /// Wait for a number of milliseconds.
    Pause(u64),
    /// Read the tag's text.
    ReadText,
    /// Answer with the card's UID, then wait for the next request.
    AnswerCard(NfcUid),
    /// Answer that the card is gone, then wait for the next request.
    AnswerRemoval,
    /// Answer with the tag's text, then wait for the next request.
    AnswerText(Result<String, String>),
    /// Nothing; the backend is done.
    Stop,
}

/// Which events can happen to the backend.
pub open spec fn can_serve(phase: ServePhase, event: ServeEvent) -> bool {
    match event {
        ServeEvent::Requested(_) | ServeEvent::HandlesGone => phase is Idle,
        ServeEvent::Abandoned(_) => phase is CardWanted || phase is RemovalWanted,
        ServeEvent::Selected(_) => phase is CardSelecting,
        ServeEvent::Probed(_) => phase is RemovalProbing,
        ServeEvent::Paused => phase is CardPausing || phase is RemovalPausing,
        ServeEvent::TextRead(_) => phase is TextReading,
    }
}

/// What the backend is waiting for after an event, and what it does.
pub open spec fn after_serve_event(phase: ServePhase, event: ServeEvent) -> (
    ServePhase,
    ServeAction,
) {
    match event {
        ServeEvent::Requested(request) => match request {
            ReaderRequest::WaitForCard => (ServePhase::CardWanted, ServeAction::CheckCaller),
            ReaderRequest::WaitForRemoval => (ServePhase::RemovalWanted, ServeAction::CheckCaller),
            ReaderRequest::ReadNdefText => (ServePhase::TextReading, ServeAction::ReadText),
        },
        ServeEvent::HandlesGone => (ServePhase::Stopped, ServeAction::Stop),
        ServeEvent::Abandoned(abandoned) => if abandoned {
            (ServePhase::Idle, ServeAction::Receive)
        } else if phase is CardWanted {
            (ServePhase::CardSelecting, ServeAction::Select)
        } else {
            (ServePhase::RemovalProbing, ServeAction::Probe)
        },
        ServeEvent::Selected(card) => match card {
            Some(uid) => (ServePhase::Idle, ServeAction::AnswerCard(uid)),
            None => (ServePhase::CardPausing, ServeAction::Pause(POLL_MILLIS)),
        },
        ServeEvent::Probed(gone) => if gone {
            (ServePhase::Idle, ServeAction::AnswerRemoval)
        } else {
            (ServePhase::RemovalPausing, ServeAction::Pause(POLL_MILLIS))
        },
        ServeEvent::Paused => if phase is CardPausing {
            (ServePhase::CardWanted, ServeAction::CheckCaller)
        } else {
            (ServePhase::RemovalWanted, ServeAction::CheckCaller)
        },
        ServeEvent::TextRead(text) => (ServePhase::Idle, ServeAction::AnswerText(text)),
    }
}

/// Takes the backend one step on.
pub fn advance_serve(phase: ServePhase, event: ServeEvent) -> (step: (ServePhase, ServeAction))
    requires
        can_serve(phase, event),
    ensures
        step == after_serve_event(phase, event),
{
    match event {
        ServeEvent::Requested(request) => match request {
            ReaderRequest::WaitForCard => (ServePhase::CardWanted, ServeAction::CheckCaller),
            ReaderRequest::WaitForRemoval => (ServePhase::RemovalWanted, ServeAction::CheckCaller),
            ReaderRequest::ReadNdefText => (ServePhase::TextReading, ServeAction::ReadText),
        },
        ServeEvent::HandlesGone => (ServePhase::Stopped, ServeAction::Stop),
        ServeEvent::Abandoned(abandoned) => {
            if abandoned {
                (ServePhase::Idle, ServeAction::Receive)
            } else if phase == ServePhase::CardWanted {
                (ServePhase::CardSelecting, ServeAction::Select)
            } else {
                (ServePhase::RemovalProbing, ServeAction::Probe)
            }
        },
        ServeEvent::Selected(card) => match card {
            Some(uid) => (ServePhase::Idle, ServeAction::AnswerCard(uid)),
            None => (ServePhase::CardPausing, ServeAction::Pause(POLL_MILLIS)),
        },
        ServeEvent::Probed(gone) => {
            if gone {
                (ServePhase::Idle, ServeAction::AnswerRemoval)
            } else {
                (ServePhase::RemovalPausing, ServeAction::Pause(POLL_MILLIS))
            }
        },
        ServeEvent::Paused => {
            if phase == ServePhase::CardPausing {
                (ServePhase::CardWanted, ServeAction::CheckCaller)
            } else {
                (ServePhase::RemovalWanted, ServeAction::CheckCaller)
            }
        },
        ServeEvent::TextRead(text) => (ServePhase::Idle, ServeAction::AnswerText(text)),
    }
}

/// An abandoned wait is dropped before the hardware is asked again: the
/// caller is looked after before every attempt, and giving up leads straight
/// back to the next request.
pub proof fn law_abandoned_wait_ends(phase: ServePhase, event: ServeEvent)
    requires
        can_serve(phase, event),
    ensures
        ({
            let (next, action) = after_serve_event(phase, event);
            &&& action is Select || action is Probe ==> event == ServeEvent::Abandoned(false)
            &&& event == ServeEvent::Abandoned(true) ==> next is Idle && action is Receive
        }),
{
}

/// How a card answered a wake-up.
#[derive(Clone, Copy, Debug, Eq, PartialEq, Structural)]
pub enum WakeUp {
    /// A card answered.
    Answered,
    /// Several cards answered at once.
    Collision,
    /// No card answered, or the chip failed.
    Failed,
}

/// Decides whether the card is gone, by up to two wake-ups; `None` asks for
/// the second one.
///
/// The chip switches between found and not found, so one silent wake-up is
/// not enough.
pub fn check_for_release(first: WakeUp, second: Option<WakeUp>) -> (gone: Option<bool>)
    ensures
        gone == (if first is Answered {
            Some(false)
        } else {
            match second {
                Some(second) => Some(second is Failed),
                None => None,
            }
        }),
{
    if first == WakeUp::Answered {
        return Some(false);
    }
    match second {
        Some(WakeUp::Answered) => Some(false),
        Some(WakeUp::Collision) => Some(false),
        Some(WakeUp::Failed) => Some(true),
        None => None,
    }
}

/// Turns the UID the chip reports into the protocol's.
pub fn nfc_uid_from_mfrc522(bytes: &[u8]) -> (uid: NfcUid)
    requires
        is_uid_length(bytes@.len()),
    ensures
        uid@ == bytes@,
{
    match NfcUid::from_bytes(bytes) {
        Some(uid) => uid,
        None => vstd::pervasive::unreached(),
    }
}

/// What a message holds as text, or why it holds none.
pub open spec fn message_text(message: Seq<u8>) -> Result<Seq<char>, Seq<char>> {
    match text_record_fault(message) {
        Some(fault) => Err(fault_message(fault)),
        None => match payload_text(text_record_payload(message)) {
            Ok(text) => Ok(text),
            Err(fault) => Err(fault_message(fault)),
        },
    }
}

/// A message that holds a text comes to exactly that text.
pub proof fn law_text_message_is_read(language: Seq<u8>, text: Seq<char>, short: bool)
    requires
        language.len() <= 63,
        text_payload(language, text).len() < if short {
            0x100nat
        } else {
            0x1_0000_0000
        },
    ensures
        message_text(text_record(text_payload(language, text), short)) == Ok::<
            Seq<char>,
            Seq<char>,
        >(text),
{
    let record = text_record(text_payload(language, text), short);
    law_text_record_is_read(text_payload(language, text), short, Seq::empty());
    assert(record + Seq::<u8>::empty() =~= record);
    law_text_is_stripped(language, text);
}

/// Reads a message as text.
fn read_message(message: &[u8]) -> (text: Result<String, String>)
    ensures
        text_model(text) == message_text(message@),
{
    match parse_ndef_text_record(message) {
        Ok(record) => match record.text() {
            Ok(text) => Ok(text),
            Err(error) => Err(error.message()),
        },
        Err(error) => Err(error.message()),
    }
}

/// The characters of a text or a reason.
pub open spec fn text_model(text: Result<String, String>) -> Result<Seq<char>, Seq<char>> {
    match text {
        Ok(text) => Ok(text@),
        Err(reason) => Err(reason@),
    }
}

/// What to do next to read a tag.
#[derive(Debug)]
pub enum ReadAction {
    /// Read four pages from the given one on.
    Read(u8),
    /// Nothing; this is the tag's text, or the reason there is none.
    Finish(Result<String, String>),
}

/// What a [`ReadAction`] says.
pub enum ReadModel {
    Read(u8),
    Finish(Result<Seq<char>, Seq<char>>),
}

impl View for ReadAction {
    type V = ReadModel;

    open spec fn view(&self) -> ReadModel {
        match self {
            ReadAction::Read(page) => ReadModel::Read(*page),
            ReadAction::Finish(text) => ReadModel::Finish(text_model(*text)),
        }
    }
}

/// What the reading of a tag is waiting for.
#[derive(Clone, Copy, Debug, Eq, PartialEq, Structural)]
pub enum ReadPhase {
    /// The capability container.
    Capabilities,
    /// Four pages of data.
    Data,
    /// Nothing; it is over.
    Finished,
}

/// The reading of the text that a tag holds, four pages at a time.
pub struct TagReader {
    parser: NdefMessageParser,
    phase: ReadPhase,
    quad: u8,
    total_quads: u8,
}

/// Everything a [`TagReader`] decides by.
pub struct TagModel {
    pub parser: TlvState,
    pub phase: ReadPhase,
    /// Which four pages are being read.
    pub quad: int,
    /// How many times four pages the tag has.
    pub total_quads: int,
}

impl View for TagReader {
    type V = TagModel;

    closed spec fn view(&self) -> TagModel {
        TagModel {
            parser: self.parser@,
            phase: self.phase,
            quad: self.quad as int,
            total_quads: self.total_quads as int,
        }
    }
}

/// How many times four pages a tag has, by its capability container: the
/// third byte counts eights of bytes.
pub open spec fn declared_quads(capabilities: Seq<u8>) -> int {
    capabilities[2] as int * 8 / 4 / 4
}

impl TagModel {
    /// What holds of the reading at all times.
    pub open spec fn is_valid(self) -> bool {
        &&& 0 <= self.quad <= self.total_quads <= 127
        &&& self.phase is Capabilities ==> self.quad == 0
        &&& self.phase is Data ==> 1 <= self.quad <= ADDRESSABLE_QUADS
    }

    /// The reading at its start.
    pub open spec fn start() -> TagModel {
        TagModel {
            parser: TlvState::start(),
            phase: ReadPhase::Capabilities,
            quad: 0,
            total_quads: 0,
        }
    }

    /// The reading when it is over, and its outcome.
    pub open spec fn finished(self, text: Result<Seq<char>, Seq<char>>) -> (TagModel, ReadModel) {
        (TagModel { phase: ReadPhase::Finished, ..self }, ReadModel::Finish(text))
    }

    /// The reading when there is nothing more to read, and its outcome.
    pub open spec fn concluded(self) -> (TagModel, ReadModel) {
        if self.parser.done() {
            self.finished(message_text(self.parser.data))
        } else {
            self.finished(Err("NDEF message incomplete"@))
        }
    }

    /// The reading when it turns to the next four pages, and what to do; there
    /// are none behind the last that a byte can address.
    pub open spec fn turned(self) -> (TagModel, ReadModel) {
        if self.quad >= self.total_quads || self.quad >= ADDRESSABLE_QUADS {
            self.concluded()
        } else {
            (
                TagModel { phase: ReadPhase::Data, quad: self.quad + 1, ..self },
                ReadModel::Read((4 * (self.quad + 1)) as u8),
            )
        }
    }

    /// The reading after four pages arrived or failed to, and what to do.
    pub open spec fn on_pages(self, pages: Option<Seq<u8>>) -> (TagModel, ReadModel) {
        match pages {
            None => if self.phase is Capabilities {
                self.finished(Err("failed to read capability container"@))
            } else {
                self.finished(Err("failed to read block "@ + decimal((4 * self.quad) as nat)))
            },
            Some(data) => if self.phase is Capabilities {
                TagModel { total_quads: declared_quads(data), ..self }.turned()
            } else {
                let fed = TagModel { parser: self.parser.after(data), ..self };
                if fed.parser.done() {
                    fed.concluded()
                } else if self.quad == 2 && fed.parser.phase is Init {
                    fed.finished(Err("no NDEF message found in first sector"@))
                } else {
                    fed.turned()
                }
            },
        }
    }

    /// What reading a tag comes to, if the given pages arrive in order.
    pub open spec fn reads(self, pages: Seq<Seq<u8>>) -> ReadModel
        decreases pages.len(),
    {
        if pages.len() == 0 {
            ReadModel::Read((4 * self.quad) as u8)
        } else {
            let (next, outcome) = self.on_pages(Some(pages[0]));
            if outcome is Read {
                next.reads(pages.drop_first())
            } else {
                outcome
            }
        }
    }
}

/// The optional pages as bytes.
pub open spec fn pages_model(pages: Option<[u8; 16]>) -> Option<Seq<u8>> {
    match pages {
        Some(pages) => Some(pages@),
        None => None,
    }
}

impl TagReader {
    /// Starts reading a tag, with its capability container.
    pub fn start() -> (started: (TagReader, ReadAction))
        ensures
            started.0@ == TagModel::start(),
            started.0@.is_valid(),
            started.1@ == ReadModel::Read(3),
    {
        let reader = TagReader {
            parser: NdefMessageParser::new(),
            phase: ReadPhase::Capabilities,
            quad: 0,
            total_quads: 0,
        };
        (reader, ReadAction::Read(3))
    }

    /// Returns what the reading is waiting for.
    pub fn phase(&self) -> (phase: ReadPhase)
        ensures
            phase == self@.phase,
    {
        self.phase
    }

    /// Takes the four pages asked for, or `None` if they could not be read.
    pub fn step(&mut self, pages: Option<[u8; 16]>) -> (action: ReadAction)
        requires
            old(self)@.is_valid(),
            !(old(self)@.phase is Finished),
        ensures
            (final(self)@, action@) == old(self)@.on_pages(pages_model(pages)),
            final(self)@.is_valid(),
    {
        match pages {
            None => {
                if self.phase == ReadPhase::Capabilities {
                    self.phase = ReadPhase::Finished;
                    ReadAction::Finish(Err("failed to read capability container".to_owned()))
                } else {
                    let mut reason = "failed to read block ".to_owned();
                    reason.append(decimal_text(4 * (self.quad as u64)).as_str());
                    self.phase = ReadPhase::Finished;
                    ReadAction::Finish(Err(reason))
                }
            },
            Some(data) => {
                if self.phase == ReadPhase::Capabilities {
                    let total_bytes: usize = (data[2] as usize) * 8;
                    let total_pages: usize = total_bytes / 4;
                    self.total_quads = (total_pages / 4) as u8;
                    return self.turn();
                }
                self.parser.add_data(data.as_slice());
                if self.parser.is_done() {
                    return self.conclude();
                }
                if self.quad == 2 && !self.parser.has_started() {
                    self.phase = ReadPhase::Finished;
                    return ReadAction::Finish(
                        Err("no NDEF message found in first sector".to_owned()),
                    );
                }
                self.turn()
            },
        }
    }

    /// Turns to the next four pages.
    fn turn(&mut self) -> (action: ReadAction)
        requires
            old(self)@.is_valid(),
        ensures
            (final(self)@, action@) == old(self)@.turned(),
            final(self)@.is_valid(),
    {
        if self.quad >= self.total_quads || self.quad >= ADDRESSABLE_QUADS {
            return self.conclude();
        }
        self.quad = self.quad + 1;
        self.phase = ReadPhase::Data;
        ReadAction::Read(4 * self.quad)
    }

    /// Reads what was collected.
    fn conclude(&mut self) -> (action: ReadAction)
        ensures
            (final(self)@, action@) == old(self)@.concluded(),
    {
        self.phase = ReadPhase::Finished;
        if !self.parser.is_done() {
            return ReadAction::Finish(Err("NDEF message incomplete".to_owned()));
        }
        ReadAction::Finish(read_message(self.parser.data()))
    }
}

/// How many bytes of a tag can be read, by the number of its pages in fours.
pub open spec fn readable_bytes(quads: int) -> int {
    if quads <= ADDRESSABLE_QUADS {
        16 * quads
    } else {
        16 * ADDRESSABLE_QUADS
    }
}

/// What reading a tag comes to, whose data starts a message behind so many
/// bytes: the message's text if all of it can be read, else an error.
pub open spec fn tag_outcome(
    prefix: Seq<u8>,
    message: Seq<u8>,
    long: bool,
    quads: int,
) -> Result<Seq<char>, Seq<char>> {
    if prefix.len() >= 32 && quads >= 2 {
        Err("no NDEF message found in first sector"@)
    } else if prefix.len() + tlv_header(message, long).len() + message.len() <= readable_bytes(
        quads,
    ) {
        message_text(message)
    } else {
        Err("NDEF message incomplete"@)
    }
}

/// What reading comes to from four pages on.
proof fn lemma_reads(
    task: TagModel,
    pages: Seq<Seq<u8>>,
    prefix: Seq<u8>,
    message: Seq<u8>,
    long: bool,
    rest: Seq<u8>,
)
    requires
        task.phase is Data,
        1 <= task.quad <= ADDRESSABLE_QUADS,
        task.quad <= task.total_quads == pages.len(),
        forall|i: int| 0 <= i < pages.len() ==> (#[trigger] pages[i]).len() == 16,
        16 * pages.len() <= (prefix + tlv_header(message, long) + message + rest).len(),
        pages.flatten() == (prefix + tlv_header(message, long) + message + rest).take(
            16 * pages.len() as int,
        ),
        !prefix.contains(0x03u8),
        message.len() <= longest_message(long),
        task.parser == TlvState::start().after(
            (prefix + tlv_header(message, long) + message + rest).take(16 * (task.quad - 1)),
        ),
        !task.parser.done(),
        task.quad > 2 ==> prefix.len() < 32,
    ensures
        task.reads(pages.skip(task.quad - 1)) == ReadModel::Finish(
            tag_outcome(prefix, message, long, pages.len() as int),
        ),
    decreases pages.len() - task.quad,
{
    let stream = prefix + tlv_header(message, long) + message + rest;
    let at = task.quad - 1;
    let before = stream.take(16 * at);
    let behind = stream.take(16 * task.quad);
    let parser = task.parser.after(pages[at]);
    assert(behind =~= before + pages[at]) by {
        assert forall|i: int| 0 <= i < behind.len() implies behind[i] == (before + pages[at])[i] by {
            assert(stream[i] == pages.flatten()[i]) by {
                lemma_flat_length(pages);
            }
            lemma_flat_length(pages);
            lemma_flat_index(pages, i);
        }
    }
    law_chunks_join(TlvState::start(), before, pages[at]);
    assert(parser == TlvState::start().after(behind));
    law_progress_in_stream(prefix, message, long, rest, 16 * at);
    law_progress_in_stream(prefix, message, long, rest, 16 * task.quad);
    let (next, outcome) = task.on_pages(Some(pages[at]));
    let remaining = pages.skip(at);
    assert(remaining[0] == pages[at]);
    assert(remaining.drop_first() =~= pages.skip(task.quad));
    if outcome is Read {
        lemma_reads(next, pages, prefix, message, long, rest);
    }
}

/// What a tag holds is what reading it comes to: if the tag's data, as far as
/// it goes, is a TLV stream that announces a message, reading comes to the
/// message's text, or to the reason it holds none, if the message starts
/// within the first 32 bytes and ends within those that can be read; in every
/// other case it comes to an error.
pub proof fn law_tag_is_read(
    capabilities: Seq<u8>,
    pages: Seq<Seq<u8>>,
    prefix: Seq<u8>,
    message: Seq<u8>,
    long: bool,
    rest: Seq<u8>,
)
    requires
        capabilities.len() == 16,
        pages.len() == declared_quads(capabilities),
        forall|i: int| 0 <= i < pages.len() ==> (#[trigger] pages[i]).len() == 16,
        16 * pages.len() <= (prefix + tlv_header(message, long) + message + rest).len(),
        pages.flatten() == (prefix + tlv_header(message, long) + message + rest).take(
            16 * pages.len() as int,
        ),
        !prefix.contains(0x03u8),
        message.len() <= longest_message(long),
    ensures
        TagModel::start().reads(seq![capabilities] + pages) == ReadModel::Finish(
            tag_outcome(prefix, message, long, pages.len() as int),
        ),
{
    let stream = prefix + tlv_header(message, long) + message + rest;
    let all = seq![capabilities] + pages;
    let (begun, outcome) = TagModel::start().on_pages(Some(capabilities));
    assert(all[0] == capabilities);
    assert(all.drop_first() =~= pages);
    if pages.len() > 0 {
        assert(stream.take(0) =~= Seq::<u8>::empty());
        assert(pages.skip(0) =~= pages);
        lemma_reads(begun, pages, prefix, message, long, rest);
    }
}

/// A tag without the start of a message is an error as well.
pub proof fn law_blank_tag_is_an_error(capabilities: Seq<u8>, pages: Seq<Seq<u8>>)
    requires
        capabilities.len() == 16,
        pages.len() == declared_quads(capabilities),
        forall|i: int| 0 <= i < pages.len() ==> (#[trigger] pages[i]).len() == 16,
        !pages.flatten().contains(0x03u8),
    ensures
        TagModel::start().reads(seq![capabilities] + pages) matches ReadModel::Finish(Err(_)),
{
    let prefix = pages.flatten();
    lemma_flat_length(pages);
    let stream = prefix + tlv_header(Seq::empty(), false) + Seq::empty() + Seq::empty();
    assert(stream.take(16 * pages.len() as int) =~= prefix);
    law_tag_is_read(capabilities, pages, prefix, Seq::empty(), false, Seq::empty());
}

/// Chunks of sixteen bytes join to sixteen bytes each.
proof fn lemma_flat_length(chunks: Seq<Seq<u8>>)
    requires
        forall|i: int| 0 <= i < chunks.len() ==> (#[trigger] chunks[i]).len() == 16,
    ensures
        chunks.flatten().len() == 16 * chunks.len(),
    decreases chunks.len(),
{
    if chunks.len() > 0 {
        let rest = chunks.drop_first();
        assert(forall|i: int| 0 <= i < rest.len() ==> #[trigger] rest[i] == chunks[i + 1]);
        lemma_flat_length(rest);
        assert(chunks.flatten() == chunks[0] + rest.flatten());
    }
}

/// Where a byte of joined chunks of sixteen comes from.
proof fn lemma_flat_index(chunks: Seq<Seq<u8>>, at: int)
    requires
        forall|i: int| 0 <= i < chunks.len() ==> (#[trigger] chunks[i]).len() == 16,
        0 <= at < chunks.flatten().len(),
    ensures
        at / 16 < chunks.len(),
        chunks.flatten()[at] == chunks[at / 16][at % 16],
    decreases chunks.len(),
{
    lemma_flat_length(chunks);
    assert(chunks.len() > 0);
    let rest = chunks.drop_first();
    assert(forall|i: int| 0 <= i < rest.len() ==> #[trigger] rest[i] == chunks[i + 1]);
    assert(chunks.flatten() == chunks[0] + rest.flatten());
    if at >= 16 {
        lemma_flat_index(rest, at - 16);
    }
}

} // verus!
