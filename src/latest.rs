use vstd::prelude::*;

use crate::status::{decode, decode_spec, DecodeError, SensorStatus, StatusRecord};

verus! {

#[verifier::external_type_specification]
#[verifier::external_body]
#[verifier::reject_recursive_types(T)]
pub struct ExMutex<T: ?Sized>(std::sync::Mutex<T>);

/// Relies on `Mutex::new`: an unlocked mutex holding `text`.
#[verifier::external_body]
fn new_slot(text: String) -> (r: std::sync::Mutex<String>) {
    std::sync::Mutex::new(text)
}

/// Relies on `Mutex::lock`: replaces the slot's text while holding the lock,
/// so that no reader sees part of it. A slot poisoned by a panicking holder
/// is taken over as it is: the only write made under the lock is a single
/// assignment, which leaves a complete value behind. The lock is taken once
/// and released on return, so it is never requested by a thread that holds it.
#[verifier::external_body]
fn store(slot: &std::sync::Mutex<String>, text: String) {
    *slot.lock().unwrap_or_else(std::sync::PoisonError::into_inner) = text;
}

/// Relies on `Mutex::lock`: a copy of the slot's text, taken while holding
/// the lock, which is released on return. What it holds depends on the
/// writes of other threads.
#[verifier::external_body]
fn load(slot: &std::sync::Mutex<String>) -> (r: String) {
    slot.lock().unwrap_or_else(std::sync::PoisonError::into_inner).clone()
}

/// What `String::from_utf8_lossy` makes of the bytes `b`.
pub uninterp spec fn utf8_lossy(b: Seq<u8>) -> Seq<char>;

/// Relies on `String::from_utf8_lossy`: the bytes as text, with each invalid
/// UTF-8 sequence replaced by U+FFFD.
#[verifier::external_body]
fn lossy_text(b: &[u8]) -> (r: String)
    ensures
        r@ == utf8_lossy(b@),
{
    String::from_utf8_lossy(b).into_owned()
}

/// The text to publish for a payload read from the bus: the payload itself,
/// as text, when it decodes as a status record, and nothing otherwise.
pub fn status_text(payload: &[u8]) -> (r: Result<(SensorStatus, String), DecodeError>)
    ensures
        match r {
            Ok((s, t)) => decode_spec(payload@) == Ok::<StatusRecord, DecodeError>(s@) && t@ == utf8_lossy(
                payload@,
            ),
            Err(e) => decode_spec(payload@) == Err::<StatusRecord, _>(e),
        },
{
    match decode(payload) {
        Ok(s) => Ok((s, lossy_text(payload))),
        Err(e) => Err(e),
    }
}

/// A single-slot cell holding the latest status text, shared between the
/// thread that reads the bus (its one writer) and the UI (its reader).
/// Each write replaces the value; nothing is queued. Since any clone of a
/// handle may write at any time from another thread, nothing is promised of
/// what a read returns beyond its being a complete value once written.
#[derive(Clone)]
pub struct SharedLatest {
    slot: std::sync::Arc<std::sync::Mutex<String>>,
}

impl SharedLatest {
    /// A cell holding the empty string.
    pub fn new() -> (r: SharedLatest) {
        SharedLatest { slot: std::sync::Arc::new(new_slot(String::new())) }
    }

    /// Replaces the current text with `text`.
    pub fn write(&self, text: String) {
        store(&self.slot, text)
    }

    /// The text most recently written by any handle of this cell, or the
    /// empty string if none was written yet.
    pub fn read(&self) -> (r: String) {
        load(&self.slot)
    }

    /// Decodes `payload` and, when it is a status record, publishes the
    /// payload's text. A payload that does not decode leaves the cell as it
    /// was. Returns the decoded record or the reason it was refused.
    pub fn ingest(&self, payload: &[u8]) -> (r: Result<SensorStatus, DecodeError>)
        ensures
            match r {
                Ok(s) => decode_spec(payload@) == Ok::<StatusRecord, DecodeError>(s@),
                Err(e) => decode_spec(payload@) == Err::<StatusRecord, _>(e),
            },
    {
        match status_text(payload) {
            Ok((s, text)) => {
                self.write(text);
                Ok(s)
            },
            Err(e) => Err(e),
        }
    }
}

} // verus!
