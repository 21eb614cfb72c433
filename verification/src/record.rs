//! The text of one log record and the place of the log file.
//!
//! A record is the epoch seconds in decimal, the separator ` >> `, the decoded
//! payload and a line feed. The payload is decoded leniently: bytes that are
//! not UTF-8 become replacement characters, so decoding never fails.

use crate::decimal::{
    all_digits, decimal, decimal_value, is_digit, lemma_decimal_shape, lemma_decimal_value,
    push_decimal,
};
use vstd::prelude::*;
use vstd::string::*;
use vstd::utf8::{decode_utf8, valid_utf8};

verus! {

/// The name of the log file inside the log directory.
pub const LOG_FILE_NAME: &'static str = "uart_log.txt";

/// What stands between the epoch seconds and the payload of a record.
pub open spec fn separator() -> Seq<char> {
    seq![' ', '>', '>', ' ']
}

/// The text of the record written for `text` received at `epoch` seconds.
pub open spec fn record_text(epoch: nat, text: Seq<char>) -> Seq<char> {
    decimal(epoch) + separator() + text + seq!['\n']
}

/// The longest prefix of `s` that is made of decimal digits.
pub open spec fn leading_digits(s: Seq<char>) -> Seq<char>
    decreases s.len(),
{
    if s.len() == 0 || !is_digit(s[0]) {
        Seq::empty()
    } else {
        seq![s[0]] + leading_digits(s.drop_first())
    }
}

/// The epoch seconds that a record starts with.
pub open spec fn record_epoch(record: Seq<char>) -> nat {
    decimal_value(leading_digits(record))
}

/// The payload of a record: what stands between the first separator and the
/// closing line feed.
pub open spec fn record_payload(record: Seq<char>) -> Seq<char> {
    record.subrange(
        leading_digits(record).len() as int + separator().len() as int,
        record.len() as int - 1,
    )
}

/// The text that lenient UTF-8 decoding gives for `bytes`: valid sequences
/// decode to their characters, each invalid sequence to a replacement character.
pub uninterp spec fn lossy_text(bytes: Seq<u8>) -> Seq<char>;

/// The path of the log file in the directory `dir`: the directory, a `/`
/// unless the directory is empty or already ends in one, and the file name.
pub open spec fn log_path_of(dir: Seq<char>) -> Seq<char> {
    if dir.len() == 0 || dir.last() == '/' {
        dir + LOG_FILE_NAME@
    } else {
        dir + seq!['/'] + LOG_FILE_NAME@
    }
}

/// A string of digits followed by something that does not start with a digit
/// has exactly those digits as its leading digits.
pub proof fn lemma_leading_digits(digits: Seq<char>, rest: Seq<char>)
    requires
        all_digits(digits),
        rest.len() == 0 || !is_digit(rest[0]),
    ensures
        leading_digits(digits + rest) == digits,
    decreases digits.len(),
{
    let whole = digits + rest;
    if digits.len() == 0 {
        assert(whole =~= rest);
    } else {
        assert(whole[0] == digits[0]);
        assert(is_digit(digits[0]));
        let tail = digits.drop_first();
        assert forall|i: int| 0 <= i < tail.len() implies is_digit(#[trigger] tail[i]) by {
            assert(tail[i] == digits[i + 1]);
        }
        lemma_leading_digits(tail, rest);
        assert(whole.drop_first() =~= tail + rest);
        assert(seq![digits[0]] + tail =~= digits);
    }
}

/// A record reads back as what it was made from: its leading digits are the
/// decimal epoch, their value is the epoch, and its payload is the text.
pub proof fn lemma_record_reads_back(epoch: nat, text: Seq<char>)
    ensures
        leading_digits(record_text(epoch, text)) == decimal(epoch),
        record_epoch(record_text(epoch, text)) == epoch,
        record_payload(record_text(epoch, text)) == text,
        record_text(epoch, text).last() == '\n',
{
    lemma_decimal_shape(epoch);
    lemma_decimal_value(epoch);
    let rest = separator() + text + seq!['\n'];
    assert(rest[0] == ' ');
    let record = record_text(epoch, text);
    assert(record =~= decimal(epoch) + rest);
    lemma_leading_digits(decimal(epoch), rest);
    assert(record_payload(record) =~= text);
}

/// The record for `text` received at `epoch_seconds`.
pub fn format_record(epoch_seconds: u64, text: &str) -> (record: String)
    ensures
        record@ == record_text(epoch_seconds as nat, text@),
{
    proof {
        reveal_strlit(" >> ");
        reveal_strlit("\n");
    }
    let mut record = String::new();
    push_decimal(&mut record, epoch_seconds);
    record.append(" >> ");
    record.append(text);
    record.append("\n");
    assert(" >> "@ =~= separator());
    assert("\n"@ =~= seq!['\n']);
    assert(record@ =~= record_text(epoch_seconds as nat, text@));
    record
}

/// Calls `String::from_utf8_lossy` and takes the text it gives as an owned
/// string. Trusted: the text is the lenient decoding of the bytes, which for
/// valid UTF-8 is their ordinary decoding.
#[verifier::external_body]
fn utf8_lossy(bytes: &[u8]) -> (text: String)
    ensures
        text@ == lossy_text(bytes@),
        valid_utf8(bytes@) ==> text@ == decode_utf8(bytes@),
{
    String::from_utf8_lossy(bytes).into_owned()
}

/// Decodes received bytes as text. Never fails: bytes that are not UTF-8 are
/// replaced, and valid UTF-8 decodes to exactly its characters.
pub fn decode_payload(bytes: &[u8]) -> (text: String)
    ensures
        text@ == lossy_text(bytes@),
        valid_utf8(bytes@) ==> text@ == decode_utf8(bytes@),
{
    utf8_lossy(bytes)
}

/// The path of the log file in the directory `dir`.
pub fn log_file_path(dir: &str) -> (path: String)
    ensures
        path@ == log_path_of(dir@),
{
    proof {
        reveal_strlit("/");
    }
    let mut path = String::new();
    path.append(dir);
    let len = dir.unicode_len();
    if len > 0 && dir.get_char(len - 1) != '/' {
        path.append("/");
    }
    path.append(LOG_FILE_NAME);
    assert("/"@ =~= seq!['/']);
    assert(path@ =~= log_path_of(dir@));
    path
}

} // verus!
