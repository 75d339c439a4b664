//! How far the current track has been played.

use vstd::prelude::*;
use vstd::string::StringExecFns;

verus! {

/// The scale of a progress reading: a track played to its end reads this
/// many ten-thousandths.
pub const FULL_SCALE: u64 = 10_000;

/// The play time of a track beside its length, both in milliseconds.  The
/// ratio of the two is the progress; it is above one where more time has
/// been counted than the track is long.
#[derive(Clone, Copy, Debug, PartialEq, Eq)]
pub struct Progress {
    /// Time for which the track has been playing.
    pub elapsed: u64,
    /// Length of the track.
    pub duration: u64,
}

/// The progress of a track of length `duration` after `elapsed` of play, in
/// ten-thousandths, rounded down and held at [`FULL_SCALE`].  A track of no
/// length reads zero.
pub open spec fn reading_of(elapsed: nat, duration: nat) -> nat {
    if duration == 0 {
        0
    } else if elapsed >= duration {
        FULL_SCALE as nat
    } else {
        elapsed * FULL_SCALE as nat / duration
    }
}

/// A reading is never above [`FULL_SCALE`], however long the play time
/// and however short the track.
pub proof fn lemma_reading_in_range(elapsed: nat, duration: nat)
    ensures
        0 <= reading_of(elapsed, duration) <= FULL_SCALE,
{
    if duration > 0 && elapsed < duration {
        assert(elapsed * 10_000 / duration < 10_000) by (nonlinear_arith)
            requires
                elapsed < duration,
        ;
    }
}

/// The decimal digits, each at the place of its value.
pub const DIGITS: [char; 10] = ['0', '1', '2', '3', '4', '5', '6', '7', '8', '9'];

/// The digit that stands for `d`, a number below ten.
pub open spec fn digit_of(d: nat) -> char {
    DIGITS@[d as int]
}

/// `n` written in decimal, without leading zeros.
pub open spec fn decimal_of(n: nat) -> Seq<char>
    decreases n,
{
    if n < 10 {
        seq![digit_of(n)]
    } else {
        decimal_of(n / 10).push(digit_of(n % 10))
    }
}

/// A reading written as a percentage with two decimals: `1234` is
/// `12.34%`.
pub open spec fn percent_of(reading: nat) -> Seq<char> {
    decimal_of(reading / 100) + seq!['.', digit_of(reading % 100 / 10), digit_of(reading % 10), '%']
}

/// The label of the progress gauge: the name of the track, a colon and
/// the reading as a percentage.
pub open spec fn label_of(name: Seq<char>, reading: nat) -> Seq<char> {
    name + seq![':', ' '] + percent_of(reading)
}

/// The digit that stands for `d`.
fn digit(d: u64) -> (c: char)
    requires
        d < 10,
    ensures
        c == digit_of(d as nat),
{
    DIGITS[d as usize]
}

/// Writes `n` in decimal behind `text`.
fn push_decimal(text: &mut String, n: u64)
    ensures
        final(text)@ == old(text)@ + decimal_of(n as nat),
    decreases n,
{
    if n >= 10 {
        push_decimal(text, n / 10);
    }
    text.push(digit(n % 10));
}

impl Progress {
    /// The label of the progress gauge for the track called `name`.
    pub fn label(&self, name: &str) -> (text: String)
        ensures
            text@ == label_of(
                name@,
                reading_of(self.elapsed as nat, self.duration as nat),
            ),
    {
        let reading = self.reading();
        let mut text = String::from_str(name);
        text.push(':');
        text.push(' ');
        push_decimal(&mut text, reading / 100);
        text.push('.');
        text.push(digit(reading % 100 / 10));
        text.push(digit(reading % 10));
        text.push('%');
        text
    }

    /// The progress in ten-thousandths, between zero and [`FULL_SCALE`].
    pub fn reading(&self) -> (r: u64)
        ensures
            r == reading_of(self.elapsed as nat, self.duration as nat),
            r <= FULL_SCALE,
    {
        proof {
            lemma_reading_in_range(self.elapsed as nat, self.duration as nat);
        }
        if self.duration == 0 {
            0
        } else if self.elapsed >= self.duration {
            FULL_SCALE
        } else {
            let scaled: u128 = self.elapsed as u128 * FULL_SCALE as u128;
            (scaled / self.duration as u128) as u64
        }
    }
}

} // verus!
