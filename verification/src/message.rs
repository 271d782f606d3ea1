//! A chat message: read from a tagged `PRIVMSG` line, shown on the terminal
//! and written to the log.

use crate::privmsg::{parse_privmsg, privmsg_fields};
use crate::text::{decimal, digit_char, is_digit, parse_u64, parse_u64_exec, push_decimal};
use chrono::TimeZone;
use rand::Rng;
use vstd::prelude::*;

verus! {

/// Names what `gh_emoji::Replacer::replace_all` makes of a text: each
/// `:name:` of a known emoji replaced by the emoji.
pub uninterp spec fn emoji_replaced(text: Seq<char>) -> Seq<char>;

/// Calls `gh_emoji::Replacer::new().replace_all(text)`.  The result is named
/// `emoji_replaced(text)`; besides, the replacer's pattern needs a `:`, so a
/// text without one comes back unchanged.  Which names are replaced, and by
/// what, is the crate's table and is not stated here.
#[verifier::external_body]
fn replace_emoji(text: &str) -> (r: String)
    ensures
        r@ == emoji_replaced(text@),
        !text@.contains(':') ==> r@ == text@,
{
    gh_emoji::Replacer::new().replace_all(text).to_string()
}

/// What reading a chat line gives: user name, body, name color, timestamp.
pub open spec fn filter_result(raw: Seq<char>) -> Option<(Seq<char>, Seq<char>, Seq<char>, u64)> {
    match privmsg_fields(raw) {
        Some((color, display_name, sent_ts, login, body)) => match parse_u64(sent_ts) {
            Some(ts) => Some(
                (
                    if display_name.len() == 0 {
                        login
                    } else {
                        display_name
                    },
                    emoji_replaced(body),
                    color,
                    ts,
                ),
            ),
            None => None,
        },
        None => None,
    }
}

/// The body field of a chat line, before emoji names are replaced (empty
/// where the line holds no chat message).
pub open spec fn raw_body(raw: Seq<char>) -> Seq<char> {
    match privmsg_fields(raw) {
        Some((_, _, _, _, body)) => body,
        None => seq![],
    }
}

/// The sent-timestamp field of a chat line (empty where the line holds no
/// chat message).
pub open spec fn raw_sent_ts(raw: Seq<char>) -> Seq<char> {
    match privmsg_fields(raw) {
        Some((_, _, sent_ts, _, _)) => sent_ts,
        None => seq![],
    }
}

/// The message `m` (user name, body, color, timestamp) is read from the fields
/// of the chat line `raw`: the user name is the display name when that is
/// not empty and the login only when it is empty; the color is the color
/// field; the timestamp is the sent-timestamp field read as a `u64`; the body
/// is the body field with emoji names replaced.
pub open spec fn reads_fields(raw: Seq<char>, m: (Seq<char>, Seq<char>, Seq<char>, u64)) -> bool {
    match privmsg_fields(raw) {
        Some((color, name, ts, login, body)) => {
            &&& name.len() > 0 ==> m.0 == name
            &&& name.len() == 0 ==> m.0 == login
            &&& m.1 == emoji_replaced(body)
            &&& m.2 == color
            &&& parse_u64(ts) == Some(m.3)
        },
        None => false,
    }
}

/// Reading a chat line keeps a non-empty display name as the user name and
/// falls back to the login only for an empty one; it keeps the color, reads
/// the timestamp as a `u64`, and fails exactly when the timestamp is not one.
pub proof fn lemma_filter_reads_fields(
    raw: Seq<char>,
    color: Seq<char>,
    name: Seq<char>,
    ts: Seq<char>,
    login: Seq<char>,
    body: Seq<char>,
)
    requires
        privmsg_fields(raw) == Some((color, name, ts, login, body)),
    ensures
        filter_result(raw) is Some <==> parse_u64(ts) is Some,
        forall|m: (Seq<char>, Seq<char>, Seq<char>, u64)|
            filter_result(raw) == Some(m) ==> {
                &&& name.len() > 0 ==> m.0 == name
                &&& name.len() == 0 ==> m.0 == login
                &&& m.1 == emoji_replaced(body)
                &&& m.2 == color
                &&& parse_u64(ts) == Some(m.3)
            },
        forall|m: (Seq<char>, Seq<char>, Seq<char>, u64)|
            filter_result(raw) == Some(m) ==> #[trigger] reads_fields(raw, m),
{
}

/// The value of a hexadecimal digit, as `char::to_digit(16)` reads it.
pub open spec fn hex_digit(c: char) -> Option<u8> {
    if '0' <= c <= '9' {
        Some((c as u32 - '0' as u32) as u8)
    } else if 'a' <= c <= 'f' {
        Some((c as u32 - 'a' as u32 + 10) as u8)
    } else if 'A' <= c <= 'F' {
        Some((c as u32 - 'A' as u32 + 10) as u8)
    } else {
        None
    }
}

/// A two-character color component, as `u8::from_str_radix(_, 16)` reads it:
/// two hex digits, or a `+` and one hex digit.
pub open spec fn hex_pair(hi: char, lo: char) -> Option<u8> {
    if hi == '+' {
        hex_digit(lo)
    } else {
        match (hex_digit(hi), hex_digit(lo)) {
            (Some(h), Some(l)) => Some((h * 16 + l) as u8),
            _ => None,
        }
    }
}

/// The red, green and blue parts of an ASCII `#RRGGBB` or `#RRGGBBAA` color.
pub open spec fn hex_rgb(s: Seq<char>) -> Option<(u8, u8, u8)> {
    if vstd::utf8::is_ascii_chars(s) && (s.len() == 7 || s.len() == 9) && s[0] == '#' {
        match (hex_pair(s[1], s[2]), hex_pair(s[3], s[4]), hex_pair(s[5], s[6])) {
            (Some(r), Some(g), Some(b)) => if s.len() == 7 || hex_pair(s[7], s[8]) is Some {
                Some((r, g, b))
            } else {
                None
            },
            _ => None,
        }
    } else {
        None
    }
}

/// Calls `raster::Color::hex(s)` and keeps the red, green and blue parts.  The
/// crate accepts `#` and three (or four) two-character parts, each read by
/// `u8::from_str_radix(_, 16)`; on an ASCII string it never panics.
#[verifier::external_body]
fn parse_hex_color(s: &str) -> (r: Option<(u8, u8, u8)>)
    requires
        vstd::utf8::is_ascii_chars(s@),
    ensures
        r == hex_rgb(s@),
{
    match raster::Color::hex(s) {
        Ok(c) => Some((c.r, c.g, c.b)),
        Err(_) => None,
    }
}

/// `text` painted in a 24-bit foreground color the way ansi_term writes it.
pub open spec fn ansi_rgb_paint(r: u8, g: u8, b: u8, text: Seq<char>) -> Seq<char> {
    "\x1B[38;2;"@ + decimal(r as nat) + ";"@ + decimal(g as nat) + ";"@ + decimal(b as nat) + "m"@
        + text + "\x1B[0m"@
}

/// Calls `ansi_term::Colour::RGB(r, g, b).paint(text)` and displays it: the
/// escape `ESC[38;2;r;g;bm`, the text, and the reset `ESC[0m`.
#[verifier::external_body]
fn paint_rgb(r: u8, g: u8, b: u8, text: &str) -> (out: String)
    ensures
        out@ == ansi_rgb_paint(r, g, b, text@),
{
    ansi_term::Colour::RGB(r, g, b).paint(text).to_string()
}

/// Calls `rand::thread_rng().gen_range(31..36)`: one of the basic ANSI
/// foreground color codes red to magenta, chosen at random.
#[verifier::external_body]
fn random_color_code() -> (c: u8)
    ensures
        31 <= c < 36,
{
    rand::thread_rng().gen_range(31..36)
}

/// Two decimal digits at `i` and `i + 1` whose value is below `bound`.
pub open spec fn two_digits_below(t: Seq<char>, i: int, bound: nat) -> bool {
    &&& is_digit(t[i])
    &&& is_digit(t[i + 1])
    &&& ((t[i] as nat - '0' as nat) * 10 + (t[i + 1] as nat - '0' as nat)) < bound
}

/// The fraction that chrono writes after the seconds for a time whose
/// milliseconds are `millis` (with no smaller part): nothing when they are 0,
/// else a point and three digits.
pub open spec fn millis_fraction(millis: int) -> Seq<char> {
    if millis == 0 {
        seq![]
    } else {
        seq![
            '.',
            digit_char((millis / 100) as nat),
            digit_char(((millis / 10) % 10) as nat),
            digit_char((millis % 10) as nat),
        ]
    }
}

/// `t` is a time of day as chrono displays it, `HH:MM:SS` and the fraction,
/// for an instant `ms` milliseconds after the epoch.
pub open spec fn time_of_day_text(t: Seq<char>, ms: int) -> bool {
    &&& t.len() >= 8
    &&& two_digits_below(t, 0, 24)
    &&& t[2] == ':'
    &&& two_digits_below(t, 3, 60)
    &&& t[5] == ':'
    &&& two_digits_below(t, 6, 60)
    &&& t.subrange(8, t.len() as int) == millis_fraction(ms % 1000)
}

/// Calls chrono: the UTC instant `ms` milliseconds after the epoch, taken to
/// the local time zone, its time of day displayed (`NaiveTime`'s display,
/// `%H:%M:%S` and the fraction of the second).  The hour, minute and second
/// depend on the machine's time zone and are only stated to be in range;
/// time zones shift by whole seconds, so the fraction is that of `ms`.
/// chrono panics outside the range of its dates, which `requires` leaves out.
#[verifier::external_body]
#[allow(deprecated)]
fn local_time_of_day(ms: i64) -> (t: String)
    requires
        min_log_millis() <= ms <= max_log_millis(),
    ensures
        time_of_day_text(t@, ms as int),
{
    let utc = chrono::Utc.timestamp_millis(ms);
    let local: chrono::DateTime<chrono::Local> = chrono::DateTime::from(utc);
    local.time().to_string()
}

/// The earliest millisecond timestamp that chrono can hold (year -262143).
pub open spec fn min_log_millis() -> int {
    -8334601315200000
}

/// The latest millisecond timestamp that chrono can hold (end of year 262142).
pub open spec fn max_log_millis() -> int {
    8210266876799999
}

/// The timestamp read as a signed 64-bit number, wrapping as `as i64` does.
pub open spec fn signed_millis(ts: u64) -> int {
    if ts <= i64::MAX {
        ts as int
    } else {
        ts - 0x1_0000_0000_0000_0000
    }
}

/// A timestamp whose time of day can be logged.
pub open spec fn loggable(ts: u64) -> bool {
    min_log_millis() <= signed_millis(ts) <= max_log_millis()
}

/// The terminal line for a name without a color: the name in the basic ANSI
/// color `code`, then the body.
pub open spec fn plain_color_line(username: Seq<char>, body: Seq<char>, code: u8) -> Seq<char> {
    "\x1B["@ + decimal(code as nat) + "m"@ + username + "\x1B[0m: "@ + body
}

/// The terminal line for a name with a `#RRGGBB` color.
pub open spec fn rgb_color_line(username: Seq<char>, body: Seq<char>, rgb: (u8, u8, u8)) -> Seq<
    char,
> {
    ansi_rgb_paint(rgb.0, rgb.1, rgb.2, username) + ": "@ + body
}

/// The log line for a message sent at the given time of day.
pub open spec fn log_line(time: Seq<char>, username: Seq<char>, body: Seq<char>) -> Seq<char> {
    "["@ + time + "]"@ + username + ": "@ + body
}

/// The milliseconds handed to chrono for a timestamp: the timestamp read as
/// a signed 64-bit number, as `as i64` does.
pub fn log_millis(ts: u64) -> (ms: i64)
    ensures
        ms == signed_millis(ts),
{
    if ts <= 0x7fff_ffff_ffff_ffffu64 {
        ts as i64
    } else {
        -((0xffff_ffff_ffff_ffffu64 - ts) as i64) - 1
    }
}

/// A chat message.
pub struct Message {
    pub username: String,
    pub body: String,
    pub username_color: String,
    pub timestamp: u64,
}

impl Message {
    /// The message as (user name, body, name color, timestamp).
    pub open spec fn view_tuple(&self) -> (Seq<char>, Seq<char>, Seq<char>, u64) {
        (self.username@, self.body@, self.username_color@, self.timestamp)
    }

    /// The name color is either absent or a color that can be shown.
    pub open spec fn printable(&self) -> bool {
        self.username_color@.len() == 0 || hex_rgb(self.username_color@) is Some
    }

    /// Reads a chat line; `None` where the line holds no chat message or its
    /// timestamp is not a `u64`.
    pub fn try_filter(raw_message: &str) -> (r: Option<Message>)
        ensures
            r is Some <==> filter_result(raw_message@) is Some,
            r matches Some(m) ==> filter_result(raw_message@) == Some(m.view_tuple()),
            r matches Some(m) ==> (!raw_body(raw_message@).contains(':') ==> m.body@ == raw_body(
                raw_message@,
            )),
            r matches Some(m) ==> reads_fields(raw_message@, m.view_tuple()),
            privmsg_fields(raw_message@) is Some && parse_u64(raw_sent_ts(raw_message@)) is Some
                ==> r is Some,
    {
        match parse_privmsg(raw_message) {
            None => None,
            Some(f) => match parse_u64_exec(f.sent_ts.as_str()) {
                None => None,
                Some(timestamp) => {
                    let body = replace_emoji(f.body.as_str());
                    let username = if f.display_name.as_str().is_empty() {
                        f.login
                    } else {
                        f.display_name
                    };
                    Some(Message { username, body, username_color: f.color, timestamp })
                },
            },
        }
    }

    /// Reads a chat line that holds a chat message: the user name is the
    /// display name, or the login where the display name is empty; emoji
    /// names in the body are replaced.
    pub fn filter(raw_message: &str) -> (m: Message)
        requires
            filter_result(raw_message@) is Some,
        ensures
            filter_result(raw_message@) == Some(m.view_tuple()),
            !raw_body(raw_message@).contains(':') ==> m.body@ == raw_body(raw_message@),
            reads_fields(raw_message@, m.view_tuple()),
    {
        match Message::try_filter(raw_message) {
            Some(m) => m,
            None => {
                assert(false);
                Message {
                    username: String::new(),
                    body: String::new(),
                    username_color: String::new(),
                    timestamp: 0,
                }
            },
        }
    }

    /// The terminal line, with `code` as the color of a name that has none.
    pub fn line_with_code(&self, code: u8) -> (r: String)
        requires
            self.printable(),
        ensures
            self.username_color@.len() == 0 ==> r@ == plain_color_line(
                self.username@,
                self.body@,
                code,
            ),
            self.username_color@.len() > 0 ==> r@ == rgb_color_line(
                self.username@,
                self.body@,
                hex_rgb(self.username_color@)->0,
            ),
    {
        if self.username_color.as_str().is_empty() {
            let mut s = String::new();
            s.append("\x1B[");
            push_decimal(&mut s, code);
            s.append("m");
            s.append(self.username.as_str());
            s.append("\x1B[0m: ");
            s.append(self.body.as_str());
            s
        } else {
            match parse_hex_color(self.username_color.as_str()) {
                Some((r, g, b)) => {
                    let mut s = paint_rgb(r, g, b, self.username.as_str());
                    s.append(": ");
                    s.append(self.body.as_str());
                    s
                },
                None => {
                    assert(false);
                    String::new()
                },
            }
        }
    }

    /// The terminal line: the name in its color (a random basic color when it
    /// has none), then the body.
    pub fn line(&self) -> (r: String)
        requires
            self.printable(),
        ensures
            self.username_color@.len() == 0 ==> exists|code: u8|
                31 <= code < 36 && r@ == plain_color_line(self.username@, self.body@, code),
            self.username_color@.len() > 0 ==> r@ == rgb_color_line(
                self.username@,
                self.body@,
                hex_rgb(self.username_color@)->0,
            ),
    {
        if self.username_color.as_str().is_empty() {
            let code = random_color_code();
            self.line_with_code(code)
        } else {
            self.line_with_code(31)
        }
    }

    /// The terminal line, or `None` where the name color cannot be read.
    pub fn try_line(&self) -> (r: Option<String>)
        ensures
            r is Some <==> self.printable(),
            r matches Some(l) ==> (self.username_color@.len() == 0 ==> exists|code: u8|
                31 <= code < 36 && l@ == plain_color_line(self.username@, self.body@, code)),
            r matches Some(l) ==> (self.username_color@.len() > 0 ==> l@ == rgb_color_line(
                self.username@,
                self.body@,
                hex_rgb(self.username_color@)->0,
            )),
    {
        if self.username_color.as_str().is_empty() {
            return Some(self.line());
        }
        if !self.username_color.as_str().is_ascii() {
            return None;
        }
        match parse_hex_color(self.username_color.as_str()) {
            Some(_) => Some(self.line()),
            None => None,
        }
    }

    /// The log line for this message at the given time of day.
    pub fn log_line_at(&self, time: &str) -> (r: String)
        ensures
            r@ == log_line(time@, self.username@, self.body@),
    {
        let mut s = String::new();
        s.append("[");
        s.append(time);
        s.append("]");
        s.append(self.username.as_str());
        s.append(": ");
        s.append(self.body.as_str());
        s
    }

    /// The log line for this message, stamped with the local time of day at
    /// which it was sent.  The hour, minute and second of the stamp depend on
    /// the machine's time zone and are not tied to the timestamp here; only
    /// the form of the stamp and its milliseconds are.
    pub fn log_line(&self) -> (r: String)
        requires
            loggable(self.timestamp),
        ensures
            exists|time: Seq<char>|
                time_of_day_text(time, signed_millis(self.timestamp)) && r@ == log_line(
                    time,
                    self.username@,
                    self.body@,
                ),
    {
        let time = local_time_of_day(log_millis(self.timestamp));
        self.log_line_at(time.as_str())
    }

    /// The log line for this message, or `None` where its timestamp lies
    /// outside the dates that chrono can hold.
    pub fn try_log_line(&self) -> (r: Option<String>)
        ensures
            r is Some <==> loggable(self.timestamp),
            r matches Some(l) ==> exists|time: Seq<char>|
                time_of_day_text(time, signed_millis(self.timestamp)) && l@ == log_line(
                    time,
                    self.username@,
                    self.body@,
                ),
    {
        if self.timestamp <= 8210266876799999u64 || self.timestamp >= 0xffe2_63b9_6943_5400u64 {
            Some(self.log_line())
        } else {
            None
        }
    }
}

} // verus!
