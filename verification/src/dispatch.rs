//! What one incoming log call emits.

use vstd::prelude::*;
use jni::objects::JString;
use crate::jvm::{handed_out, string_bytes, Asked, Runtime};
use crate::runtime_text::{decode, decoded};
use crate::severity::Severity;

verus! {

/// One log record as it is handed to the logging backend.
#[derive(Clone, Debug, PartialEq, Eq)]
pub struct LogRecord {
    pub severity: Severity,
    pub text: String,
}

/// A log record as a value: its level and the characters of its text.
pub ghost struct LogRecordView {
    pub severity: Severity,
    pub text: Seq<char>,
}

impl View for LogRecord {
    type V = LogRecordView;

    open spec fn view(&self) -> LogRecordView {
        LogRecordView { severity: self.severity, text: self.text@ }
    }
}

/// The text of a message, given the bytes that the runtime handed out for
/// it: the text that they stand for in the runtime's encoding, and none
/// where there are no bytes or they stand for no text.
pub open spec fn converted(message: Option<Seq<u8>>) -> Option<Seq<char>> {
    match message {
        Some(bytes) => decoded(bytes),
        None => None,
    }
}

/// The record that a call with severity code `code` emits, given the text of
/// its message: none where the message could not be converted.
pub open spec fn emitted(code: int, text: Option<Seq<char>>) -> Option<LogRecordView> {
    match text {
        Some(text) => Some(LogRecordView { severity: Severity::of_code(code), text }),
        None => None,
    }
}

/// The characters of a text that may be missing.
pub open spec fn text_view(text: Option<String>) -> Option<Seq<char>> {
    match text {
        Some(text) => Some(text@),
        None => None,
    }
}

/// What was emitted, as a value.
pub open spec fn record_view(record: Option<LogRecord>) -> Option<LogRecordView> {
    match record {
        Some(record) => Some(record@),
        None => None,
    }
}

/// Decides what a log call emits once its message has been converted.
///
/// A converted message gives exactly one record, with the level of `code` and
/// the text as it came. A message that could not be converted gives nothing:
/// the call is dropped, and no error goes back to the caller.
pub fn dispatch(code: i32, text: Option<String>) -> (record: Option<LogRecord>)
    ensures
        record_view(record) == emitted(code as int, text_view(text)),
{
    match text {
        Some(text) => Some(LogRecord { severity: Severity::from_code(code), text }),
        None => None,
    }
}

/// Decides what a log call emits, given the bytes that the runtime handed out
/// for its message.
///
/// Bytes that stand for a text give exactly one record, with the level of
/// `code` and that text. Where the runtime handed out nothing, or bytes that
/// stand for no text, the call is dropped.
pub fn dispatch_bytes(code: i32, message: Option<Vec<u8>>) -> (record: Option<LogRecord>)
    ensures
        record_view(record) == emitted(code as int, converted(handed_out(message))),
{
    let text = match message {
        Some(bytes) => decode(&bytes),
        None => None,
    };
    dispatch(code, text)
}

/// Handles one call of the logger's native method: asks the runtime for the
/// bytes of the message and decides what the call emits.
///
/// The runtime is asked once, for the message, and for nothing else. What it
/// hands out decides: bytes that stand for a text give exactly one record,
/// with the level of `code` and that text; where it hands out nothing, or
/// bytes that stand for no text, nothing is emitted and nothing is reported.
pub fn receive_log_call<'a, 'local>(
    runtime: &mut Runtime<'a, 'local>,
    code: i32,
    message: &JString<'_>,
) -> (record: Option<LogRecord>)
    ensures
        final(runtime).asked().len() == old(runtime).asked().len() + 1,
        final(runtime).asked().drop_last() == old(runtime).asked(),
        final(runtime).asked().last() is Message,
        record_view(record) == emitted(
            code as int,
            converted(final(runtime).asked().last()->bytes),
        ),
{
    let ghost before = runtime.asked();
    let bytes = string_bytes(runtime, message);
    proof {
        let noted = Asked::Message { bytes: handed_out(bytes) };
        assert(before.push(noted).drop_last() =~= before);
    }
    dispatch_bytes(code, bytes)
}

} // verus!
