//! Results as Markdown blocks with a time stamp.

use vstd::prelude::*;

use super::config::OutputMode;
use crate::samples::concatenated;
use crate::text::{decimal, decimal_string, digit, number, trim, trimmed};

verus! {

/// Seconds in a day.
pub const DAY_SECS: u64 = 86_400;

/// A number below 100 with two digits.
pub open spec fn two_digits(n: int) -> Seq<char> {
    seq![digit(n / 10), digit(n % 10)]
}

/// The time of day, `HH:MM:SS`, so many seconds after midnight of some day.
pub open spec fn hms(secs: int) -> Seq<char> {
    let day = secs % (DAY_SECS as int);
    two_digits(day / 3_600) + seq![':'] + two_digits(day % 3_600 / 60) + seq![':'] + two_digits(
        day % 60,
    )
}

fn push_two_digits(out: &mut String, n: u64)
    requires
        n < 100,
    ensures
        final(out)@ == old(out)@ + two_digits(n as int),
{
    if n < 10 {
        out.push('0');
    }
    let digits = decimal_string(n);
    out.append(digits.as_str());
    proof {
        reveal_with_fuel(decimal, 3);
        assert(digit(0) == '0');
        assert(out@ =~= old(out)@ + two_digits(n as int));
    }
}

/// The time of day, in UTC, so many seconds after the epoch.
pub fn utc_hms(secs: u64) -> (time: String)
    ensures
        time@ == hms(secs as int),
{
    let day: u64 = secs % DAY_SECS;
    let mut time = String::new();
    push_two_digits(&mut time, day / 3_600);
    time.push(':');
    push_two_digits(&mut time, day % 3_600 / 60);
    time.push(':');
    push_two_digits(&mut time, day % 60);
    assert(time@ =~= hms(secs as int));
    time
}

/// The block of a window: number and time in its header, a rule at its end.
pub open spec fn block(n: nat, secs: int, latency: Seq<char>, body: Seq<char>) -> Seq<char> {
    "## window "@ + decimal(n) + " — "@ + hms(secs) + " UTC (+"@ + latency + "s)\n\n"@ + trimmed(
        body,
    ) + "\n\n---\n\n"@
}

/// What to do with a block.
#[derive(Debug)]
pub enum BlockWrite {
    /// Put it behind what the file holds.
    Append(String),
    /// Put it in place of what the file holds.
    Replace(String),
}

impl BlockWrite {
    /// What a file that held `file` holds after the write.
    pub open spec fn onto(self, file: Seq<char>) -> Seq<char> {
        match self {
            BlockWrite::Append(text) => file + text@,
            BlockWrite::Replace(text) => text@,
        }
    }
}

/// What a file that held `file` holds after one more block.
pub open spec fn with_block(file: Seq<char>, block: Seq<char>, mode: OutputMode) -> Seq<char> {
    match mode {
        OutputMode::Append => file + block,
        OutputMode::Overwrite => block,
    }
}

/// What a file that held `file` holds after a list of blocks.
pub open spec fn with_blocks(
    file: Seq<char>,
    blocks: Seq<Seq<char>>,
    mode: OutputMode,
) -> Seq<char>
    decreases blocks.len(),
{
    if blocks.len() == 0 {
        file
    } else {
        with_block(with_blocks(file, blocks.drop_last(), mode), blocks.last(), mode)
    }
}

/// The block of a window, and how it is written. `latency` is the time it took, in
/// seconds with one decimal.
pub fn write_block(
    window_n: u64,
    secs: u64,
    latency: &str,
    body: &str,
    mode: OutputMode,
) -> (write: BlockWrite)
    ensures
        match mode {
            OutputMode::Append => write matches BlockWrite::Append(text) && text@ == block(
                window_n as nat,
                secs as int,
                latency@,
                body@,
            ),
            OutputMode::Overwrite => write matches BlockWrite::Replace(text) && text@ == block(
                window_n as nat,
                secs as int,
                latency@,
                body@,
            ),
        },
        forall|file: Seq<char>| #[trigger]
            write.onto(file) == with_block(
                file,
                block(window_n as nat, secs as int, latency@, body@),
                mode,
            ),
{
    let mut text = "## window ".to_owned();
    text.append(decimal_string(window_n).as_str());
    text.append(" — ");
    text.append(utc_hms(secs).as_str());
    text.append(" UTC (+");
    text.append(latency);
    text.append("s)\n\n");
    text.append(trim(body));
    text.append("\n\n---\n\n");
    match mode {
        OutputMode::Append => BlockWrite::Append(text),
        OutputMode::Overwrite => BlockWrite::Replace(text),
    }
}

/// Appending keeps what the file held and then every block in order; overwriting keeps the
/// last block alone.
pub proof fn law_files_hold_the_blocks(file: Seq<char>, blocks: Seq<Seq<char>>)
    ensures
        with_blocks(file, blocks, OutputMode::Append) == file + concatenated(blocks),
        blocks.len() > 0 ==> with_blocks(file, blocks, OutputMode::Overwrite) == blocks.last(),
    decreases blocks.len(),
{
    if blocks.len() > 0 {
        law_files_hold_the_blocks(file, blocks.drop_last());
        assert(with_blocks(file, blocks, OutputMode::Append) =~= file + concatenated(blocks));
    } else {
        assert(file + concatenated(blocks) =~= file);
    }
}

/// The time stamp has eight characters, and repeats every day.
pub proof fn law_time_of_day(secs: int)
    requires
        secs >= 0,
    ensures
        hms(secs).len() == 8,
        hms(secs + DAY_SECS) == hms(secs),
        secs % (DAY_SECS as int) / 3_600 < 24,
{
    assert((secs + 86_400) % 86_400 == secs % 86_400);
    assert(hms(secs + DAY_SECS) == hms(secs));
}

/// The time stamp reads back: hours, minutes and seconds, two digits each with colons between
/// them, are the seconds since midnight.
pub proof fn law_time_stamp_reads_back(secs: int)
    requires
        secs >= 0,
    ensures
        ({
            let h = number(hms(secs).subrange(0, 2));
            let m = number(hms(secs).subrange(3, 5));
            let s = number(hms(secs).subrange(6, 8));
            &&& hms(secs)[2] == ':' && hms(secs)[5] == ':'
            &&& 0 <= h < 24 && 0 <= m < 60 && 0 <= s < 60
            &&& h * 3_600 + m * 60 + s == secs % 86_400
        }),
{
    let day = secs % 86_400;
    let (a, b, c) = (day / 3_600, day % 3_600 / 60, day % 60);
    let time = hms(secs);
    assert(time.subrange(0, 2) =~= two_digits(a));
    assert(time.subrange(3, 5) =~= two_digits(b));
    assert(time.subrange(6, 8) =~= two_digits(c));
    lemma_two_digits_read_back(a);
    lemma_two_digits_read_back(b);
    lemma_two_digits_read_back(c);
}

proof fn lemma_two_digits_read_back(n: int)
    requires
        0 <= n < 100,
    ensures
        number(two_digits(n)) == n,
{
    let two = two_digits(n);
    assert(two.drop_last() =~= seq![digit(n / 10)]);
    assert(two.drop_last().drop_last() =~= Seq::empty());
    reveal_with_fuel(number, 3);
    assert(digit(n / 10) as int == 48 + n / 10);
    assert(digit(n % 10) as int == 48 + n % 10);
}

/// A block begins with a header of the window's number, its time and how long it took, holds
/// the text without the white space around it, and ends with a rule.
pub proof fn law_block_holds_the_text(n: nat, secs: int, latency: Seq<char>, body: Seq<char>)
    requires
        secs >= 0,
    ensures
        ({
            let head = "## window "@ + decimal(n) + " — "@ + hms(secs) + " UTC (+"@ + latency
                + "s)\n\n"@;
            let rule = "\n\n---\n\n"@;
            let text = block(n, secs, latency, body);
            &&& text.len() == head.len() + trimmed(body).len() + rule.len()
            &&& text.take(head.len() as int) == head
            &&& text.subrange(head.len() as int, text.len() - rule.len()) == trimmed(body)
            &&& text.skip(text.len() - rule.len()) == rule
        }),
{
    let head = "## window "@ + decimal(n) + " — "@ + hms(secs) + " UTC (+"@ + latency + "s)\n\n"@;
    let rule = "\n\n---\n\n"@;
    let text = block(n, secs, latency, body);
    assert(text.take(head.len() as int) =~= head);
    assert(text.subrange(head.len() as int, text.len() - rule.len()) =~= trimmed(body));
    assert(text.skip(text.len() - rule.len()) =~= rule);
}

/// One write does to a file what its mode says, and two writes what the two say in turn.
pub proof fn law_writes_follow_the_mode(file: Seq<char>, text: String)
    ensures
        BlockWrite::Append(text).onto(file).take(file.len() as int) == file,
        BlockWrite::Append(text).onto(file).skip(file.len() as int) == text@,
        BlockWrite::Replace(text).onto(file) == text@,
        with_block(file, text@, OutputMode::Append) == file + text@,
        with_block(file, text@, OutputMode::Overwrite) == text@,
{
    assert(BlockWrite::Append(text).onto(file).take(file.len() as int) =~= file);
    assert(BlockWrite::Append(text).onto(file).skip(file.len() as int) =~= text@);
}

} // verus!
