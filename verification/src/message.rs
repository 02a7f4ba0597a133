//! The status message: its text, and the bytes that stand for it in a
//! caller's buffer.

use vstd::prelude::*;
use vstd::utf8::*;

verus! {

/// Number of bytes that the message takes in a buffer, terminator included.
pub const STATUS_MESSAGE_LEN: usize = 44;

/// The characters of the status line.
pub open spec fn status_text_chars() -> Seq<char> {
    "VasionBridge v1.2: Victoria por Obediencia."@
}

/// The message as it is laid out in memory: the status line in UTF-8,
/// closed by a single zero byte.
pub open spec fn status_message() -> Seq<u8> {
    encode_utf8(status_text_chars()).push(0u8)
}

/// The status line is plain ASCII, so each of its characters is one byte of
/// the message, in the same place.
pub proof fn lemma_status_text_ascii()
    ensures
        status_text_chars().len() == STATUS_MESSAGE_LEN - 1,
        is_ascii_chars(status_text_chars()),
        encode_utf8(status_text_chars()).len() == status_text_chars().len(),
        forall|i: int|
            0 <= i < status_text_chars().len() ==> #[trigger] encode_utf8(status_text_chars())[i]
                == status_text_chars()[i] as u8,
{
    reveal_strlit("VasionBridge v1.2: Victoria por Obediencia.");
    let chars = status_text_chars();
    assert(chars.len() == 43);
    assert(is_ascii_chars(chars));
    is_ascii_chars_encode_utf8(chars);
}

/// The message, byte by byte.
pub proof fn lemma_status_message_bytes()
    ensures
        status_message().len() == STATUS_MESSAGE_LEN,
        status_message() == seq![
            0x56u8, 0x61, 0x73, 0x69, 0x6f, 0x6e, 0x42, 0x72,
            0x69, 0x64, 0x67, 0x65, 0x20, 0x76, 0x31, 0x2e,
            0x32, 0x3a, 0x20, 0x56, 0x69, 0x63, 0x74, 0x6f,
            0x72, 0x69, 0x61, 0x20, 0x70, 0x6f, 0x72, 0x20,
            0x4f, 0x62, 0x65, 0x64, 0x69, 0x65, 0x6e, 0x63,
            0x69, 0x61, 0x2e, 0x00,
        ],
{
    reveal_strlit("VasionBridge v1.2: Victoria por Obediencia.");
    lemma_status_text_ascii();
    let bytes = seq![
        0x56u8, 0x61, 0x73, 0x69, 0x6f, 0x6e, 0x42, 0x72,
        0x69, 0x64, 0x67, 0x65, 0x20, 0x76, 0x31, 0x2e,
        0x32, 0x3a, 0x20, 0x56, 0x69, 0x63, 0x74, 0x6f,
        0x72, 0x69, 0x61, 0x20, 0x70, 0x6f, 0x72, 0x20,
        0x4f, 0x62, 0x65, 0x64, 0x69, 0x65, 0x6e, 0x63,
        0x69, 0x61, 0x2e, 0x00,
    ];
    assert(status_message() =~= bytes);
}

/// The message is a well-formed C string: the terminator is its last byte
/// and its only zero byte.
pub proof fn lemma_status_message_terminated()
    ensures
        status_message().len() == STATUS_MESSAGE_LEN,
        status_message().last() == 0,
        forall|i: int| 0 <= i < STATUS_MESSAGE_LEN - 1 ==> #[trigger] status_message()[i] != 0,
{
    lemma_status_message_bytes();
}

/// The status line.
pub fn status_text() -> (text: &'static str)
    ensures
        text@ == status_text_chars(),
{
    "VasionBridge v1.2: Victoria por Obediencia."
}

} // verus!
