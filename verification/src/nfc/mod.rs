//! NFC reader support.
//!
//! A reader backend serves requests one after the other: [`mfrc522`] holds the
//! rules of the built-in one, [`ndef`] the parsing of what a tag holds.

pub mod mfrc522;
pub mod mfrc522_laws;
pub mod ndef;
pub mod ndef_laws;

pub use mfrc522::NfcReaderConfig as Mfrc522Config;
pub use mfrc522::{Mfrc522InitError, NfcReaderConfig};
pub use ndef::{parse_ndef_text_record, NdefError, NdefMessageParser, NdefTextRecord};

use vstd::prelude::*;

verus! {

/// Errors that can occur while talking to the reader backend.
#[derive(Debug)]
#[non_exhaustive]
pub enum NfcReaderError {
    /// The reader backend is no longer running.
    Disconnected,
    /// Reading or parsing the tag's NDEF data failed.
    Read(String),
}

/// What became of a request handed to the reader backend.
#[derive(Debug)]
pub enum Roundtrip<T> {
    /// The backend is gone.
    Closed,
    /// The backend took the request and ended without answering it.
    Unanswered,
    /// The backend answered.
    Answered(T),
}

/// Turns what became of a request into what the caller gets.
pub fn roundtrip<T>(outcome: Roundtrip<T>) -> (answer: Result<T, NfcReaderError>)
    ensures
        answer == match outcome {
            Roundtrip::Answered(answer) => Ok(answer),
            _ => Err(NfcReaderError::Disconnected),
        },
{
    match outcome {
        Roundtrip::Answered(answer) => Ok(answer),
        _ => Err(NfcReaderError::Disconnected),
    }
}

/// Turns what became of a request for a tag's text into what the caller gets.
pub fn read_ndef_text(outcome: Roundtrip<Result<String, String>>) -> (text: Result<
    String,
    NfcReaderError,
>)
    ensures
        text == match outcome {
            Roundtrip::Answered(Ok(text)) => Ok(text),
            Roundtrip::Answered(Err(reason)) => Err(NfcReaderError::Read(reason)),
            _ => Err(NfcReaderError::Disconnected),
        },
{
    match roundtrip(outcome) {
        Ok(Ok(text)) => Ok(text),
        Ok(Err(reason)) => Err(NfcReaderError::Read(reason)),
        Err(error) => Err(error),
    }
}

/// An answer of the backend reaches the caller as it is; without one the
/// caller is disconnected.
pub proof fn law_answers_reach_the_caller<T>(
    outcome: Roundtrip<T>,
    answer: Result<T, NfcReaderError>,
)
    requires
        call_ensures(roundtrip::<T>, (outcome,), answer),
    ensures
        outcome matches Roundtrip::Answered(given) ==> answer == Ok::<T, NfcReaderError>(given),
        !(outcome is Answered) ==> answer == Err::<T, NfcReaderError>(NfcReaderError::Disconnected),
{
}

/// A tag's text reaches the caller as it was read, and the reason it could not
/// be read as a read error.
pub proof fn law_text_reaches_the_caller(
    outcome: Roundtrip<Result<String, String>>,
    text: Result<String, NfcReaderError>,
)
    requires
        call_ensures(read_ndef_text, (outcome,), text),
    ensures
        outcome matches Roundtrip::Answered(Ok(given)) ==> text == Ok::<String, NfcReaderError>(
            given,
        ),
        outcome matches Roundtrip::Answered(Err(reason)) ==> text == Err::<String, NfcReaderError>(
            NfcReaderError::Read(reason),
        ),
        !(outcome is Answered) ==> text == Err::<String, NfcReaderError>(
            NfcReaderError::Disconnected,
        ),
{
}

} // verus!
