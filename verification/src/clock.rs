//! Readings of the wall clock, and the records built from them.
use vstd::prelude::*;

use crate::text::{get_or_whole, push_str, slice_ok, spec_word_count, word_count};

verus! {

/// The form every UTC time that `DateTime::to_rfc3339` writes has: ASCII
/// characters only, at least `YYYY-MM-DDTHH:MM:SS+00:00` long, and ending in
/// the zero offset `+00:00`.
pub open spec fn is_utc_rfc3339_text(s: Seq<char>) -> bool {
    &&& vstd::utf8::is_ascii_chars(s)
    &&& s.len() >= 25
    &&& s.subrange(s.len() - 6, s.len() as int) == "+00:00"@
}

/// The current UTC time as an RFC 3339 string (`chrono::Utc::now` then
/// `DateTime::to_rfc3339`). Which time it is depends on the clock; the claim
/// is only its form: `write_rfc3339` writes ASCII digits and separators, a
/// year of at least four characters, and for UTC the offset `+00:00`.
#[verifier::external_body]
fn now_iso() -> (r: String)
    ensures
        is_utc_rfc3339_text(r@),
{
    chrono::Utc::now().to_rfc3339()
}

/// The form every local time that `%Y-%m-%d_%H-%M-%S` writes has: a year of
/// at least four characters (digits, with a sign in front when outside
/// 0 to 9999), then `-MM-DD_HH-MM-SS` in two-digit fields.
pub open spec fn is_file_stamp(s: Seq<char>) -> bool {
    let k = s.len() - 15;
    &&& s.len() >= 19
    &&& forall|j: int| 0 <= j < k ==> crate::text::is_digit(#[trigger] s[j]) || (j == 0 && (s[0] == '+' || s[0]
        == '-'))
    &&& s[k] == '-' && s[k + 3] == '-' && s[k + 6] == '_' && s[k + 9] == '-' && s[k + 12] == '-'
    &&& forall|j: int| k <= j < s.len() && j != k && j != k + 3 && j != k + 6 && j != k + 9 && j != k + 12
        ==> crate::text::is_digit(#[trigger] s[j])
}

/// The current local time as `YYYY-MM-DD_HH-MM-SS` (`chrono::Local::now`, then
/// `DateTime::format` with `%Y-%m-%d_%H-%M-%S`). Which time it is depends on
/// the clock and the time zone; the claim is only its form: chrono writes the
/// year with `write_year` (four digits, or a sign and at least four digits)
/// and the other fields with `write_two`, zero-padded.
#[verifier::external_body]
fn local_file_stamp() -> (r: String)
    ensures
        is_file_stamp(r@),
{
    chrono::Local::now().format("%Y-%m-%d_%H-%M-%S").to_string()
}

/// The clock part of a timestamp: its bytes 11 to 19 (`HH:MM:SS` of an RFC
/// 3339 time) when those fall on character boundaries, else all of it.
pub fn display_time(ts: &str) -> (r: String)
    ensures
        slice_ok(ts@, 11, 19) ==> vstd::utf8::encode_utf8(r@) == vstd::utf8::encode_utf8(ts@).subrange(11, 19),
        !slice_ok(ts@, 11, 19) ==> r@ == ts@,
{
    get_or_whole(ts, 11, 19)
}

/// Whether `line` is the transcript line of `text` transcribed at `ts`:
/// `[`, the clock part of `ts` (its bytes 11 to 19 when those fall on
/// character boundaries, else all of it), `] `, then the text.
pub open spec fn is_transcript_line(line: Seq<char>, ts: Seq<char>, text: Seq<char>) -> bool {
    let d = line.subrange(1, line.len() - 2 - text.len());
    &&& line == seq!['['] + d + seq![']', ' '] + text
    &&& slice_ok(ts, 11, 19) ==> vstd::utf8::encode_utf8(d) == vstd::utf8::encode_utf8(ts).subrange(11, 19)
    &&& !slice_ok(ts, 11, 19) ==> d == ts
}

/// A transcribed utterance ready to be logged.
pub struct UtteranceRecord {
    /// When it was transcribed.
    pub ts: String,
    pub text: String,
    /// Its number of words, as stored in the database.
    pub word_count: i64,
    /// Its line in the transcript file, without the line break.
    pub line: String,
}

/// The record of `text` transcribed at time `ts`: the transcript line is
/// `[<clock part of ts>] <text>`.
pub fn utterance_record(ts: String, text: String) -> (r: UtteranceRecord)
    ensures
        r.ts == ts,
        r.text == text,
        r.word_count == spec_word_count(text@) as i64,
        is_transcript_line(r.line@, ts@, text@),
{
    let wc = word_count(text.as_str());
    let d = display_time(ts.as_str());
    let mut line = String::from_str("[");
    push_str(&mut line, d.as_str());
    push_str(&mut line, "] ");
    push_str(&mut line, text.as_str());
    proof {
        reveal_strlit("[");
        reveal_strlit("] ");
    }
    assert(line@ =~= seq!['['] + d@ + seq![']', ' '] + text@);
    assert(line@.subrange(1, line@.len() - 2 - text@.len()) =~= d@);
    UtteranceRecord { ts, text, word_count: wc as i64, line }
}

/// The record of `text` transcribed now.
pub fn stamp_utterance(text: String) -> (r: UtteranceRecord)
    ensures
        is_utc_rfc3339_text(r.ts@),
        r.text == text,
        r.word_count == spec_word_count(text@) as i64,
        is_transcript_line(r.line@, r.ts@, text@),
{
    let ts = now_iso();
    utterance_record(ts, text)
}

/// The current time as an RFC 3339 string in UTC, for the session rows.
pub fn session_time() -> (r: String)
    ensures
        is_utc_rfc3339_text(r@),
{
    now_iso()
}

/// The directory of the transcript files under the home directory `home`.
pub open spec fn transcript_dir(home: Seq<char>) -> Seq<char> {
    home + "/.local/share/voice-input/transcripts"@
}

/// A transcript file in the transcript directory named after the local time
/// `stamp`.
pub open spec fn transcript_file(home: Seq<char>, stamp: Seq<char>) -> Seq<char> {
    transcript_dir(home) + seq!['/'] + stamp + ".txt"@
}

/// The transcript directory and a new transcript file named after the
/// current local time.
pub fn new_transcript_path(home: &str) -> (r: (String, String))
    ensures
        r.0@ == transcript_dir(home@),
        exists|stamp: Seq<char>| is_file_stamp(stamp) && r.1@ == transcript_file(home@, stamp),
{
    let mut dir = String::from_str(home);
    push_str(&mut dir, "/.local/share/voice-input/transcripts");
    let stamp = local_file_stamp();
    let mut path = String::from_str(dir.as_str());
    crate::text::push_char(&mut path, '/');
    push_str(&mut path, stamp.as_str());
    push_str(&mut path, ".txt");
    assert(path@ =~= transcript_file(home@, stamp@));
    (dir, path)
}

} // verus!
