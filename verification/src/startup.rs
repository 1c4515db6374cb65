//! What happens before the game runs: where the log goes, and how a panic is
//! shown to the player.

use vstd::prelude::*;
use vstd::string::*;

use crate::text::{
    decimal, decimal_text, digits_value, is_digit, law_decimal_has_no_leading_zeros,
    law_decimal_round_trip, u32_of_text, without_plus,
};

verus! {

/// Where the log is written.
#[derive(Clone, Copy, Debug, PartialEq, Eq, Structural)]
pub enum LogDirectory {
    /// Below the directory of the mod.
    OfMod,
    /// Below the current directory.
    Current,
}

/// Where the log is written: if the directory of the mod is not known, the
/// current one is used instead.
pub open spec fn log_directory_for(mod_directory_known: bool) -> LogDirectory {
    if mod_directory_known {
        LogDirectory::OfMod
    } else {
        LogDirectory::Current
    }
}

/// The first line of the log.
pub open spec fn log_greeting_for(directory: LogDirectory) -> Seq<char> {
    match directory {
        LogDirectory::OfMod => "Logger initialized."@,
        LogDirectory::Current =>
            "Failed to determine mod directory, logging to current directory instead."@,
    }
}

/// Where the log is written: if the directory of the mod is not known, the
/// current one is used instead.
pub fn log_directory(mod_directory_known: bool) -> (directory: LogDirectory)
    ensures
        directory == log_directory_for(mod_directory_known),
{
    if mod_directory_known {
        LogDirectory::OfMod
    } else {
        LogDirectory::Current
    }
}

/// The first line of the log.
pub fn log_greeting(directory: LogDirectory) -> (greeting: &'static str)
    ensures
        greeting@ == log_greeting_for(directory),
{
    match directory {
        LogDirectory::OfMod => "Logger initialized.",
        LogDirectory::Current =>
            "Failed to determine mod directory, logging to current directory instead.",
    }
}

/// The decimal form of `n`, with leading zeros up to `width` characters.
pub open spec fn padded(n: nat, width: nat) -> Seq<char> {
    let digits = decimal_text(n);
    let missing = if digits.len() < width {
        (width - digits.len()) as nat
    } else {
        0
    };
    Seq::new(missing, |i: int| '0') + digits
}

/// How a year is written: with at least four digits, and with a sign if it has
/// more or lies before the year zero.
pub open spec fn year_text(year: i32) -> Seq<char> {
    if year < 0 {
        "-"@ + padded((-year) as nat, 4)
    } else if year > 9999 {
        "+"@ + padded(year as nat, 4)
    } else {
        padded(year as nat, 4)
    }
}

/// The name of the log file for a day.
pub open spec fn log_file_for(year: i32, month: u32, day: u32) -> Seq<char> {
    "archipelago-"@ + year_text(year) + "-"@ + padded(month as nat, 2) + "-"@ + padded(
        day as nat,
        2,
    ) + ".log"@
}

fn pad(n: u32, width: usize) -> (text: String)
    ensures
        text@ == padded(n as nat, width as nat),
{
    let digits: String = decimal(n);
    let len: usize = digits.as_str().unicode_len();
    let mut zeros: String = String::new();
    let mut count: usize = 0;
    let missing: usize = if len < width {
        width - len
    } else {
        0
    };
    assert(zeros@ =~= Seq::new(0, |i: int| '0'));
    while count < missing
        invariant
            count <= missing,
            zeros@ == Seq::new(count as nat, |i: int| '0'),
        decreases missing - count,
    {
        zeros.append("0");
        proof {
            reveal_strlit("0");
            assert(zeros@ =~= Seq::new((count + 1) as nat, |i: int| '0'));
        }
        count = count + 1;
    }
    zeros.concat(digits.as_str())
}

fn write_year(year: i32) -> (text: String)
    ensures
        text@ == year_text(year),
{
    if year < 0 {
        let size: u32 = (-(year as i64)) as u32;
        "-".to_owned().concat(pad(size, 4).as_str())
    } else if year > 9999 {
        "+".to_owned().concat(pad(year as u32, 4).as_str())
    } else {
        pad(year as u32, 4)
    }
}

/// The name of the log file for a day.
pub fn log_file(year: i32, month: u32, day: u32) -> (name: String)
    ensures
        name@ == log_file_for(year, month, day),
{
    "archipelago-".to_owned().concat(write_year(year).as_str()).concat("-").concat(
        pad(month, 2).as_str(),
    ).concat("-").concat(pad(day, 2).as_str()).concat(".log")
}

/// What the player is told of a panic: what it said, and where it came from.
pub open spec fn panic_text(payload: Seq<char>, backtrace: Seq<char>) -> Seq<char> {
    "Rust panic: "@ + payload + "\n"@ + backtrace
}

/// What the player is told of a panic: what it said, and where it came from.
pub fn panic_message(payload: &str, backtrace: &str) -> (message: String)
    ensures
        message@ == panic_text(payload@, backtrace@),
{
    "Rust panic: ".to_owned().concat(payload).concat("\n").concat(backtrace)
}

proof fn lemma_leading_zeros(count: nat, digits: Seq<char>)
    ensures
        digits_value(Seq::new(count, |i: int| '0') + digits) == digits_value(digits),
    decreases count + digits.len(),
{
    let zeros = Seq::new(count, |i: int| '0');
    let all = zeros + digits;
    if digits.len() > 0 {
        lemma_leading_zeros(count, digits.drop_last());
        assert(all.drop_last() =~= zeros + digits.drop_last());
        assert(all.last() == digits.last());
    } else if count > 0 {
        let fewer = Seq::new((count - 1) as nat, |i: int| '0');
        lemma_leading_zeros((count - 1) as nat, digits);
        assert(all.drop_last() =~= fewer + digits);
        assert(all.last() == '0');
    } else {
        assert(all =~= digits);
    }
}

/// A number with leading zeros is still that number. It has them only as far as
/// it takes to fill its place.
pub proof fn law_padded_number(n: u32, width: nat)
    ensures
        u32_of_text(padded(n as nat, width)) == Some(n),
        padded(n as nat, width).len() >= width,
        padded(n as nat, width).len() > width ==> padded(n as nat, width) == decimal_text(n as nat),
{
    let digits = decimal_text(n as nat);
    let text = padded(n as nat, width);
    law_decimal_round_trip(n);
    law_decimal_has_no_leading_zeros(n as nat);
    assert(without_plus(digits) == digits) by {
        assert('0' <= digits[0]);
    }
    let missing = (text.len() - digits.len()) as nat;
    let zeros = Seq::new(missing, |i: int| '0');
    assert(text =~= zeros + digits);
    lemma_leading_zeros(missing, digits);
    assert forall|i: int| 0 <= i < text.len() implies is_digit(#[trigger] text[i]) by {
        if i < missing {
            assert(text[i] == '0');
        } else {
            assert(text[i] == digits[i - missing]);
        }
    }
    assert(is_digit(text[0]));
    assert(without_plus(text) == text);
    if text.len() > width {
        assert(text =~= digits);
    }
}

/// A year of the usual kind has four digits and no sign. A later one has a plus
/// sign, and one before the year zero a minus sign.
pub proof fn law_years(year: i32)
    ensures
        0 <= year <= 9999 ==> year_text(year).len() == 4 && u32_of_text(year_text(year)) == Some(
            year as u32,
        ) && year_text(year)[0] != '+',
        year > 9999 ==> year_text(year) == seq!['+'] + decimal_text(year as nat),
        year < 0 ==> year_text(year).len() >= 5 && year_text(year)[0] == '-' && u32_of_text(
            year_text(year).skip(1),
        ) == Some((-year) as u32),
{
    reveal_strlit("-");
    reveal_strlit("+");
    if year < 0 {
        let size = (-year) as u32;
        law_padded_number(size, 4);
        assert(year_text(year).skip(1) =~= padded(size as nat, 4));
    } else {
        law_padded_number(year as u32, 4);
        lemma_digits_of_year(year as nat);
        assert("+"@ =~= seq!['+']);
        law_decimal_has_no_leading_zeros(year as nat);
        if year > 9999 {
            assert(padded(year as nat, 4) =~= decimal_text(year as nat));
        } else if decimal_text(year as nat).len() == 4 {
            assert('0' <= decimal_text(year as nat)[0]);
            assert(padded(year as nat, 4)[0] == decimal_text(year as nat)[0]);
        }
    }
}

proof fn lemma_digits_of_year(year: nat)
    ensures
        year <= 9999 ==> decimal_text(year).len() <= 4,
        year > 9999 ==> decimal_text(year).len() > 4,
{
    reveal_with_fuel(decimal_text, 6);
}

/// Whether the name of a log file has the year, the month and the day in this
/// order in a fixed setting.
pub open spec fn names_day(
    before: Seq<char>,
    between: Seq<char>,
    after: Seq<char>,
) -> bool {
    forall|year: i32, month: u32, day: u32| #[trigger]
        log_file_for(year, month, day) == before + year_text(year) + between + padded(
            month as nat,
            2,
        ) + between + padded(day as nat, 2) + after
}

/// The name of a log file tells the day, whichever it is, in the same way.
pub proof fn law_log_file_names_day()
    ensures
        exists|before: Seq<char>, between: Seq<char>, after: Seq<char>| #[trigger]
            names_day(before, between, after),
{
    assert(names_day("archipelago-"@, "-"@, ".log"@));
}

/// Whether the message about a panic has what it said and where it came from in
/// this order in a fixed setting.
pub open spec fn tells_panic(before: Seq<char>, between: Seq<char>) -> bool {
    forall|payload: Seq<char>, backtrace: Seq<char>| #[trigger]
        panic_text(payload, backtrace) == before + payload + between + backtrace
}

/// The message about a panic tells all that is known of it, whatever it is.
pub proof fn law_panic_is_told_in_full()
    ensures
        exists|before: Seq<char>, between: Seq<char>| #[trigger] tells_panic(before, between),
{
    assert(tells_panic("Rust panic: "@, "\n"@));
}

} // verus!
