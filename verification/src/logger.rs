//! Where the chat log is written.

use crate::text::{all_digits, is_digit};
use vstd::prelude::*;

verus! {

/// Two decimal digits at `i` and `i + 1` whose value lies in `lo..=hi`.
pub open spec fn two_digits_in(t: Seq<char>, i: int, lo: nat, hi: nat) -> bool {
    &&& is_digit(t[i])
    &&& is_digit(t[i + 1])
    &&& lo <= (t[i] as nat - '0' as nat) * 10 + (t[i + 1] as nat - '0' as nat) <= hi
}

/// A year as chrono's `%Y` writes it: four digits for years 0 to 9999, else
/// a sign and at least four digits.
pub open spec fn year_text(y: Seq<char>) -> bool {
    ||| (y.len() == 4 && all_digits(y))
    ||| (y.len() >= 5 && (y[0] == '+' || y[0] == '-') && all_digits(y.drop_first()))
}

/// A date as chrono's `%Y-%m-%d` writes it: the year, `-`, the month `01` to
/// `12`, `-`, the day `01` to `31`.
pub open spec fn date_text(d: Seq<char>) -> bool {
    &&& d.len() >= 10
    &&& year_text(d.subrange(0, d.len() - 6))
    &&& d[d.len() - 6] == '-'
    &&& two_digits_in(d, d.len() - 5, 1, 12)
    &&& d[d.len() - 3] == '-'
    &&& two_digits_in(d, d.len() - 2, 1, 31)
}

/// Calls chrono: today's local date as `%Y-%m-%d`.  Which date it is depends
/// on the clock and the time zone; only its form is stated.
#[verifier::external_body]
#[allow(deprecated)]
fn today() -> (d: String)
    ensures
        date_text(d@),
{
    chrono::Local::now().date().format("%Y-%m-%d").to_string()
}

/// The log file: `./<name>` for a given name, else `./<channel>-<date>.txt`.
pub open spec fn log_file_path(arg: Option<Seq<char>>, channel: Seq<char>, date: Seq<char>) -> Seq<
    char,
> {
    match arg {
        Some(name) => "./"@ + name,
        None => "./"@ + channel + "-"@ + date + ".txt"@,
    }
}

/// The log file for the given name, or for the channel on the given date.
pub fn log_file_name_on(arg: Option<&str>, channel: &str, date: &str) -> (r: String)
    ensures
        r@ == log_file_path(
            match arg {
                Some(x) => Some(x@),
                None => None,
            },
            channel@,
            date@,
        ),
{
    let mut s = String::from_str("./");
    match arg {
        Some(x) => {
            s.append(x);
        },
        None => {
            s.append(channel);
            s.append("-");
            s.append(date);
            s.append(".txt");
        },
    }
    s
}

/// The log file: `./<name>` for a given name, else the channel and today's
/// local date, `./<channel>-<YEAR>-<MONTH>-<DAY>.txt`.
pub fn log_file_name(arg: Option<&str>, channel: &str) -> (r: String)
    ensures
        arg matches Some(x) ==> r@ == log_file_path(Some(x@), channel@, seq![]),
        arg is None ==> exists|date: Seq<char>|
            date_text(date) && r@ == log_file_path(None, channel@, date),
{
    match arg {
        Some(x) => log_file_name_on(Some(x), channel, ""),
        None => {
            let date = today();
            log_file_name_on(None, channel, date.as_str())
        },
    }
}

} // verus!
