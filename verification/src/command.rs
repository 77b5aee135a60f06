//! The sensor console: a line typed on the serial port names the sensor to
//! read, "acc" for the accelerometer and "mag" for the magnetometer.
use vstd::prelude::*;
use vstd::utf8::{decode_utf8, encode_utf8, valid_utf8};
use crate::echo::CR;
use crate::line::{line_as_slice, line_contents, line_push, LineBuffer};

verus! {

/// What a typed line asks for.
#[derive(Clone, Copy, Debug, PartialEq, Eq)]
pub enum SensorCommand {
    /// Read the accelerometer.
    Acceleration,
    /// Read the magnetometer.
    Magnetometer,
    /// Anything else.
    Unknown,
}

/// What happens when a byte arrives while a command line is typed.
#[derive(Clone, Copy, Debug, PartialEq, Eq)]
pub enum CollectEvent {
    /// The byte was stored; the line goes on.
    Pending,
    /// A carriage return ended the line (it is not stored).
    Complete,
    /// The buffer was full: the byte was dropped and the line ends here.
    Full,
}

/// Whether `c` is white space: a code point with the Unicode `White_Space`
/// property (tab to carriage return, space, next line, no-break space, ogham
/// space mark, the spaces from en quad to hair space, line and paragraph
/// separators, narrow no-break space, medium mathematical space, ideographic
/// space).
pub open spec fn is_white_space(c: char) -> bool {
    let v = c as u32;
    ||| 0x09 <= v <= 0x0D
    ||| v == 0x20
    ||| v == 0x85
    ||| v == 0xA0
    ||| v == 0x1680
    ||| 0x2000 <= v <= 0x200A
    ||| v == 0x2028
    ||| v == 0x2029
    ||| v == 0x202F
    ||| v == 0x205F
    ||| v == 0x3000
}

/// `text` without its longest leading run of white space.
pub open spec fn trim_start(text: Seq<char>) -> Seq<char>
    decreases text.len(),
{
    if text.len() > 0 && is_white_space(text[0]) {
        trim_start(text.drop_first())
    } else {
        text
    }
}

/// `text` without its longest trailing run of white space.
pub open spec fn trim_end(text: Seq<char>) -> Seq<char>
    decreases text.len(),
{
    if text.len() > 0 && is_white_space(text.last()) {
        trim_end(text.drop_last())
    } else {
        text
    }
}

/// `text` without its leading and trailing white space.
pub open spec fn trimmed(text: Seq<char>) -> Seq<char> {
    trim_end(trim_start(text))
}

/// `core::str::from_utf8`: the text of `bytes` when they are valid UTF-8.
#[verifier::external_body]
fn utf8_text(bytes: &[u8]) -> (r: Option<&str>)
    ensures
        r is Some <==> valid_utf8(bytes@),
        r matches Some(s) ==> s@ == decode_utf8(bytes@),
{
    core::str::from_utf8(bytes).ok()
}

/// `str::trim`: the text without its leading and trailing runs of white
/// space, white space being the code points with the Unicode `White_Space`
/// property.
#[verifier::external_body]
fn trim_text<'a>(s: &'a str) -> (r: &'a str)
    ensures
        r@ == trimmed(s@),
{
    s.trim()
}

/// The UTF-8 bytes of the trimmed text of `line`.
pub open spec fn command_word(line: Seq<u8>) -> Seq<u8> {
    encode_utf8(trimmed(decode_utf8(line)))
}

/// The command that the word `word` (UTF-8 bytes) names: "acc" (bytes 61 63
/// 63 in hex) or "mag" (6D 61 67).
pub open spec fn word_command(word: Seq<u8>) -> SensorCommand {
    if word == seq![0x61u8, 0x63, 0x63] {
        SensorCommand::Acceleration
    } else if word == seq![0x6Du8, 0x61, 0x67] {
        SensorCommand::Magnetometer
    } else {
        SensorCommand::Unknown
    }
}

/// A word names the accelerometer exactly when it is the three bytes of
/// "acc", and the magnetometer exactly when it is the three bytes of "mag";
/// every other word, shorter or longer, names nothing.
pub proof fn lemma_word_command_exact(word: Seq<u8>)
    ensures
        (word_command(word) == SensorCommand::Acceleration) <==> (word.len() == 3 && word[0] == 0x61
            && word[1] == 0x63 && word[2] == 0x63),
        (word_command(word) == SensorCommand::Magnetometer) <==> (word.len() == 3 && word[0] == 0x6D
            && word[1] == 0x61 && word[2] == 0x67),
        word.len() != 3 ==> word_command(word) == SensorCommand::Unknown,
{
    if word.len() == 3 && word[0] == 0x61 && word[1] == 0x63 && word[2] == 0x63 {
        assert(word =~= seq![0x61u8, 0x63, 0x63]);
    }
    if word.len() == 3 && word[0] == 0x6D && word[1] == 0x61 && word[2] == 0x67 {
        assert(word =~= seq![0x6Du8, 0x61, 0x67]);
    }
}

/// The command that the line `line` names: its trimmed text's word, so
/// white space around the word is allowed.
pub open spec fn command_value(line: Seq<u8>) -> SensorCommand {
    word_command(command_word(line))
}

/// Whether `a` and `b` hold the same bytes.
fn same_bytes(a: &[u8], b: &[u8]) -> (r: bool)
    ensures
        r == (a@ == b@),
{
    if a.len() != b.len() {
        return false;
    }
    let mut i: usize = 0;
    while i < a.len()
        invariant
            i <= a@.len() == b@.len(),
            a@.take(i as int) == b@.take(i as int),
        decreases a@.len() - i,
    {
        if a[i] != b[i] {
            assert(a@[i as int] != b@[i as int]);
            return false;
        }
        assert(a@.take(i + 1) =~= a@.take(i as int).push(a@[i as int]));
        assert(b@.take(i + 1) =~= b@.take(i as int).push(b@[i as int]));
        i = i + 1;
    }
    assert(a@.take(a@.len() as int) =~= a@);
    assert(b@.take(b@.len() as int) =~= b@);
    true
}

/// The command that the word `word` names.
pub fn command_of_word(word: &[u8]) -> (c: SensorCommand)
    ensures
        c == word_command(word@),
{
    let acc = [0x61u8, 0x63, 0x63];
    let mag = [0x6Du8, 0x61, 0x67];
    assert(acc@ =~= seq![0x61u8, 0x63, 0x63]);
    assert(mag@ =~= seq![0x6Du8, 0x61, 0x67]);
    if same_bytes(word, &acc) {
        SensorCommand::Acceleration
    } else if same_bytes(word, &mag) {
        SensorCommand::Magnetometer
    } else {
        SensorCommand::Unknown
    }
}

/// Takes in `byte` while a command line is typed: a carriage return ends
/// the line; otherwise the byte is stored, or, when the buffer is full,
/// dropped and the line ends.
pub fn collect(buffer: &mut LineBuffer, byte: u8) -> (e: CollectEvent)
    ensures
        byte == CR ==> e == CollectEvent::Complete && line_contents(*final(buffer))
            == line_contents(*old(buffer)),
        byte != CR && line_contents(*old(buffer)).len() < 32 ==> e == CollectEvent::Pending
            && line_contents(*final(buffer)) == line_contents(*old(buffer)).push(byte),
        byte != CR && line_contents(*old(buffer)).len() >= 32 ==> e == CollectEvent::Full
            && line_contents(*final(buffer)) == line_contents(*old(buffer)),
{
    if byte == CR {
        return CollectEvent::Complete;
    }
    match line_push(buffer, byte) {
        Ok(()) => CollectEvent::Pending,
        Err(_) => CollectEvent::Full,
    }
}

/// The command that the typed line names, once it is known to be valid
/// UTF-8.
pub fn command_of(line: &LineBuffer) -> (c: SensorCommand)
    requires
        valid_utf8(line_contents(*line)),
    ensures
        c == command_value(line_contents(*line)),
{
    let bytes = line_as_slice(line);
    match utf8_text(bytes) {
        None => SensorCommand::Unknown,
        Some(text) => {
            let word = trim_text(text).as_bytes();
            command_of_word(word)
        },
    }
}

/// The command that the typed line names, or `None` when the line is not
/// valid UTF-8.
pub fn try_command(line: &LineBuffer) -> (c: Option<SensorCommand>)
    ensures
        c is None <==> !valid_utf8(line_contents(*line)),
        c matches Some(v) ==> v == command_value(line_contents(*line)),
{
    let bytes = line_as_slice(line);
    match utf8_text(bytes) {
        None => None,
        Some(_) => Some(command_of(line)),
    }
}

/// White space typed before or after a word does not change the trimmed
/// text.
pub proof fn lemma_surrounding_space_ignored(text: Seq<char>, c: char)
    requires
        is_white_space(c),
    ensures
        trim_start(seq![c] + text) == trim_start(text),
        trim_end(text + seq![c]) == trim_end(text),
{
    assert((seq![c] + text).drop_first() =~= text);
    assert((text + seq![c]).drop_last() =~= text);
}

} // verus!
