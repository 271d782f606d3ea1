//! The decisions of the IRC chat client: what it sends to log in, how it
//! reads the server's replies and chat lines, when it reconnects or gives up,
//! and which key presses it acts on.  The program around it does the network
//! and terminal work and hands each event in.

use crate::credentials::Credentials;
use crate::text::{contains, starts_with, str_contains, str_starts_with};
use crate::twitch::TwitchApiHandler;
use vstd::prelude::*;

verus! {

/// Names what `str::to_lowercase` makes of a string (Unicode lowercase
/// mapping).
pub uninterp spec fn lowercase(s: Seq<char>) -> Seq<char>;

/// Calls std's `str::to_lowercase`; the result is named `lowercase(s)`.
#[verifier::external_body]
fn to_lowercase(s: &str) -> (r: String)
    ensures
        r@ == lowercase(s@),
{
    s.to_lowercase()
}

/// Why the client stops.
#[derive(PartialEq, Eq, Structural, Clone, Copy, Debug)]
pub enum ChatError {
    ConnectionFailure,
    CannotReconnect,
    ScrapingAborted,
    InvalidToken,
    BadRequest,
}

impl ChatError {
    /// The message shown for the error.
    pub open spec fn text(self) -> Seq<char> {
        match self {
            ChatError::ConnectionFailure => "Connection failure"@,
            ChatError::CannotReconnect => "Cannot reconnect to IRC server"@,
            ChatError::ScrapingAborted => "Scraping aborted"@,
            ChatError::InvalidToken => "Invalid token"@,
            ChatError::BadRequest => "Bad Request"@,
        }
    }

    /// The message shown for the error.
    pub fn message(&self) -> (r: &'static str)
        ensures
            r@ == self.text(),
    {
        match self {
            ChatError::ConnectionFailure => "Connection failure",
            ChatError::CannotReconnect => "Cannot reconnect to IRC server",
            ChatError::ScrapingAborted => "Scraping aborted",
            ChatError::InvalidToken => "Invalid token",
            ChatError::BadRequest => "Bad Request",
        }
    }
}

/// The address of Twitch's IRC server.
pub const IRC_SERVER: &'static str = "irc.chat.twitch.tv:6667";

/// What the client sends back to a `PING`.
pub const PONG: &'static str = "PONG\n";

/// The longest wait, in seconds, after which a failed reconnection gives up.
pub const MAX_RECONNECT_WAIT: u64 = 6;

/// The number of server lines read while logging in.
pub const LOGIN_LINES: u64 = 11;

/// What to do after an attempt to reconnect.
#[derive(PartialEq, Eq, Structural, Clone, Copy, Debug)]
pub enum ReconnectStep {
    /// Connected: log in again.
    Reinitialize,
    /// Wait this many seconds, then try again.
    RetryAfter(u64),
    /// Stop with `ChatError::CannotReconnect`.
    GiveUp,
}

/// The step after an attempt made with wait `time`, and the next wait.
pub open spec fn reconnect_step(time: u64, connected: bool) -> (ReconnectStep, u64) {
    if connected {
        (ReconnectStep::Reinitialize, time)
    } else if time >= MAX_RECONNECT_WAIT {
        (ReconnectStep::GiveUp, time)
    } else {
        (ReconnectStep::RetryAfter((time + 1) as u64), (time + 1) as u64)
    }
}

/// What each attempt leads to, whatever the wait: a successful connection
/// always logs in again and keeps the wait; a failed one gives up once the
/// wait has reached six seconds, and otherwise retries after one second more.
pub proof fn lemma_reconnect_step_cases(time: u64)
    ensures
        reconnect_step(time, true).0 == ReconnectStep::Reinitialize,
        reconnect_step(time, true).1 == time,
        time >= MAX_RECONNECT_WAIT ==> reconnect_step(time, false) == (ReconnectStep::GiveUp, time),
        time < MAX_RECONNECT_WAIT ==> reconnect_step(time, false) == (
        ReconnectStep::RetryAfter((time + 1) as u64), (time + 1) as u64),
        reconnect_step(time, false).0 != ReconnectStep::Reinitialize,
{
}

/// The wait after `n` failed attempts, starting from wait `time`.
pub open spec fn wait_after_failures(time: u64, n: nat) -> u64
    decreases n,
{
    if n == 0 {
        time
    } else {
        reconnect_step(wait_after_failures(time, (n - 1) as nat), false).1
    }
}

/// Reconnection gives up: whatever the starting wait, after at most six
/// failed attempts the wait has reached its limit, so the next failed attempt
/// gives up; a connection is attempted at most seven times in a row.
pub proof fn lemma_reconnect_gives_up(time: u64)
    ensures
        wait_after_failures(time, 6) >= MAX_RECONNECT_WAIT,
        reconnect_step(wait_after_failures(time, 6), false).0 == ReconnectStep::GiveUp,
{
    lemma_wait_grows(time, 6);
}

/// Each failure below the limit adds one second to the wait.
pub proof fn lemma_wait_grows(time: u64, n: nat)
    ensures
        wait_after_failures(time, n) >= time,
        wait_after_failures(time, n) >= MAX_RECONNECT_WAIT || wait_after_failures(time, n) == time
            + n,
    decreases n,
{
    if n > 0 {
        lemma_wait_grows(time, (n - 1) as nat);
    }
}

/// A server line read while logging in.
#[derive(PartialEq, Eq, Structural, Clone, Copy, Debug)]
pub enum LoginStep {
    /// Read the next line.
    AwaitMore,
    /// All login lines are read: the chat follows.
    Finished,
    /// The server refused.
    Rejected(ChatError),
    /// The connection closed: reconnect, then stop reading login lines.
    Reconnect,
}

/// The step for login line `msg` when `seen` lines were read before it.
pub open spec fn login_step(seen: u64, msg: Seq<char>) -> LoginStep {
    if contains(msg, "NOTICE * :Login unsuccessful"@) {
        LoginStep::Rejected(ChatError::InvalidToken)
    } else if contains(msg, "Bad Request"@) {
        LoginStep::Rejected(ChatError::BadRequest)
    } else if msg.len() == 0 {
        LoginStep::Reconnect
    } else if seen + 1 >= LOGIN_LINES {
        LoginStep::Finished
    } else {
        LoginStep::AwaitMore
    }
}

/// How any login line is read, at any point of the login: a refused-login
/// notice always stops with `InvalidToken`; otherwise a `Bad Request` always
/// stops with `BadRequest`; otherwise an empty line always means
/// reconnecting; any other line finishes the login exactly when it is the
/// eleventh, and asks for more before.
pub proof fn lemma_login_step_cases(seen: u64, msg: Seq<char>)
    ensures
        contains(msg, "NOTICE * :Login unsuccessful"@) ==> login_step(seen, msg)
            == LoginStep::Rejected(ChatError::InvalidToken),
        !contains(msg, "NOTICE * :Login unsuccessful"@) && contains(msg, "Bad Request"@)
            ==> login_step(seen, msg) == LoginStep::Rejected(ChatError::BadRequest),
        msg.len() == 0 ==> login_step(seen, msg) == LoginStep::Reconnect,
        msg.len() > 0 && !contains(msg, "NOTICE * :Login unsuccessful"@) && !contains(
            msg,
            "Bad Request"@,
        ) ==> (login_step(seen, msg) == LoginStep::Finished <==> seen + 1 >= LOGIN_LINES),
        msg.len() > 0 && !contains(msg, "NOTICE * :Login unsuccessful"@) && !contains(
            msg,
            "Bad Request"@,
        ) ==> (login_step(seen, msg) == LoginStep::AwaitMore <==> seen + 1 < LOGIN_LINES),
{
    if msg.len() == 0 {
        reveal_strlit("NOTICE * :Login unsuccessful");
        reveal_strlit("Bad Request");
        assert(!contains(msg, "NOTICE * :Login unsuccessful"@));
        assert(!contains(msg, "Bad Request"@));
    }
}

/// The first step other than `AwaitMore` when the login lines `msgs` are read
/// after `seen` lines, with the number of lines read up to and including it.
pub open spec fn login_outcome(seen: u64, msgs: Seq<Seq<char>>) -> Option<(LoginStep, nat)>
    decreases msgs.len(),
{
    if msgs.len() == 0 || seen >= LOGIN_LINES {
        None
    } else {
        let step = login_step(seen, msgs[0]);
        if step == LoginStep::AwaitMore {
            match login_outcome((seen + 1) as u64, msgs.drop_first()) {
                Some((s, n)) => Some((s, n + 1)),
                None => None,
            }
        } else {
            Some((step, 1))
        }
    }
}

/// Logging in reads at most eleven lines: whatever the server sends, once
/// eleven lines have arrived the login has finished, failed, or turned to
/// reconnecting, at or before the eleventh line.
pub proof fn lemma_login_reads_at_most_eleven(msgs: Seq<Seq<char>>)
    requires
        msgs.len() >= LOGIN_LINES,
    ensures
        login_outcome(0, msgs) matches Some((step, n)) && step != LoginStep::AwaitMore && 1 <= n
            <= LOGIN_LINES,
{
    lemma_login_outcome_from(0, msgs);
}

proof fn lemma_login_outcome_from(seen: u64, msgs: Seq<Seq<char>>)
    requires
        seen < LOGIN_LINES,
        msgs.len() >= LOGIN_LINES - seen,
    ensures
        login_outcome(seen, msgs) matches Some((step, n)) && step != LoginStep::AwaitMore && 1 <= n
            <= LOGIN_LINES - seen,
    decreases LOGIN_LINES - seen,
{
    if login_step(seen, msgs[0]) == LoginStep::AwaitMore {
        lemma_login_outcome_from((seen + 1) as u64, msgs.drop_first());
    }
}

/// The login progress: how many server lines were read.
pub struct Login {
    pub lines_seen: u64,
}

impl Login {
    /// No line read yet.
    pub fn new() -> (l: Login)
        ensures
            l.lines_seen == 0,
    {
        Login { lines_seen: 0 }
    }

    /// Reads one login line: a refused login (`NOTICE * :Login unsuccessful`,
    /// then `Bad Request`) stops with an error, an empty line means the
    /// connection closed, and after the eleventh line the login is done.
    pub fn on_line(&mut self, msg: &str) -> (r: LoginStep)
        requires
            old(self).lines_seen < LOGIN_LINES,
        ensures
            r == login_step(old(self).lines_seen, msg@),
            final(self).lines_seen == old(self).lines_seen + 1,
            contains(msg@, "NOTICE * :Login unsuccessful"@) ==> r == LoginStep::Rejected(
                ChatError::InvalidToken,
            ),
            !contains(msg@, "NOTICE * :Login unsuccessful"@) && contains(msg@, "Bad Request"@) ==> r
                == LoginStep::Rejected(ChatError::BadRequest),
            msg@.len() == 0 ==> r == LoginStep::Reconnect,
            msg@.len() > 0 && !contains(msg@, "NOTICE * :Login unsuccessful"@) && !contains(
                msg@,
                "Bad Request"@,
            ) ==> (r == LoginStep::Finished <==> final(self).lines_seen >= LOGIN_LINES) && (r
                == LoginStep::AwaitMore <==> final(self).lines_seen < LOGIN_LINES),
    {
        proof {
            lemma_login_step_cases(old(self).lines_seen, msg@);
        }
        self.lines_seen = self.lines_seen + 1;
        if str_contains(msg, "NOTICE * :Login unsuccessful") {
            LoginStep::Rejected(ChatError::InvalidToken)
        } else if str_contains(msg, "Bad Request") {
            LoginStep::Rejected(ChatError::BadRequest)
        } else if msg.is_empty() {
            LoginStep::Reconnect
        } else if self.lines_seen >= LOGIN_LINES {
            LoginStep::Finished
        } else {
            LoginStep::AwaitMore
        }
    }
}

/// A line read while chatting.
#[derive(PartialEq, Eq, Structural, Clone, Copy, Debug)]
pub enum ChatLine {
    /// Empty: the connection closed.
    Disconnected,
    /// A `PING` from the server, to be answered with `PONG`.
    Ping,
    /// Anything else: a chat message.
    Chat,
}

/// How a line read while chatting is handled.
pub open spec fn chat_line_kind(raw: Seq<char>) -> ChatLine {
    if raw.len() == 0 {
        ChatLine::Disconnected
    } else if starts_with(raw, "PING"@) {
        ChatLine::Ping
    } else {
        ChatLine::Chat
    }
}

/// Sorts a line read while chatting.
pub fn classify_line(raw_message: &str) -> (r: ChatLine)
    ensures
        r == chat_line_kind(raw_message@),
{
    if raw_message.is_empty() {
        ChatLine::Disconnected
    } else if str_starts_with(raw_message, "PING") {
        ChatLine::Ping
    } else {
        ChatLine::Chat
    }
}

/// The key of a key press.
#[derive(PartialEq, Eq, Structural, Clone, Copy, Debug)]
pub enum KeyInput {
    Char(char),
    Other,
}

/// A terminal event.
#[derive(PartialEq, Eq, Structural, Clone, Copy, Debug)]
pub enum TermEvent {
    /// A key press, and whether it came without modifier keys.
    Key { code: KeyInput, no_modifiers: bool },
    /// Anything else (mouse, resize, ...).
    Other,
}

/// `ev` is the plain key `c`.
pub open spec fn is_plain_key(ev: TermEvent, c: char) -> bool {
    ev == TermEvent::Key { code: KeyInput::Char(c), no_modifiers: true }
}

/// Whether the event stops the chat: a plain `q`.
pub fn is_quit(ev: &TermEvent) -> (r: bool)
    ensures
        r == is_plain_key(*ev, 'q'),
{
    match ev {
        TermEvent::Key { code: KeyInput::Char(c), no_modifiers: true } => *c == 'q',
        _ => false,
    }
}

/// The answer to the offline-channel question.
#[derive(PartialEq, Eq, Structural, Clone, Copy, Debug)]
pub enum PromptAnswer {
    /// A plain `y`: go on.
    Continue,
    /// A plain `n`: stop with `ChatError::ScrapingAborted`.
    Abort,
    /// Anything else: keep waiting.
    Ignore,
}

/// Reads an event while asking whether to go on with an offline channel.
pub fn prompt_answer(ev: &TermEvent) -> (r: PromptAnswer)
    ensures
        is_plain_key(*ev, 'y') ==> r == PromptAnswer::Continue,
        is_plain_key(*ev, 'n') ==> r == PromptAnswer::Abort,
        !is_plain_key(*ev, 'y') && !is_plain_key(*ev, 'n') ==> r == PromptAnswer::Ignore,
{
    match ev {
        TermEvent::Key { code: KeyInput::Char(c), no_modifiers: true } => {
            if *c == 'y' {
                PromptAnswer::Continue
            } else if *c == 'n' {
                PromptAnswer::Abort
            } else {
                PromptAnswer::Ignore
            }
        },
        _ => PromptAnswer::Ignore,
    }
}

/// Whether the user must be asked before reading the chat: only for a
/// channel that is offline.
pub fn must_ask(is_live: bool) -> (r: bool)
    ensures
        r == !is_live,
{
    !is_live
}

/// The login lines for a channel, in order.
pub open spec fn handshake_lines(auth: Seq<char>, channel: Seq<char>) -> Seq<Seq<char>> {
    seq![
        "CAP REQ :twitch.tv/tags\n"@,
        "PASS oauth:"@ + auth + "\n"@,
        "NICK scraper\n"@,
        "JOIN #"@ + lowercase(channel) + "\n"@,
    ]
}

/// The line shown once the chat is joined.
pub open spec fn greeting_line(logging: bool, channel: Seq<char>) -> Seq<char> {
    "Now "@ + (if logging {
        "scraping"@
    } else {
        "watching"@
    }) + " twitch.tv/"@ + channel + " chat"@
}

/// The state of the chat client apart from its connections.
pub struct ChatSession {
    /// Seconds to wait before the next connection attempt.
    pub reconnect_time: u64,
    pub auth: String,
    pub channel: String,
    pub api: TwitchApiHandler,
    /// Whether messages are written to a log.
    pub logging: bool,
}

impl ChatSession {
    /// The client for `channel` with the given credentials; the API handler
    /// looks the channel up in lower case.
    pub fn new(credentials: &Credentials, should_log: bool, channel: &str) -> (s: ChatSession)
        ensures
            s.reconnect_time == 0,
            s.auth@ == credentials.auth@,
            s.channel@ == channel@,
            s.logging == should_log,
            s.api.client_id@ == credentials.client_id@,
            s.api.token@ == credentials.auth@,
            s.api.channel_name() == lowercase(channel@),
    {
        ChatSession {
            reconnect_time: 0,
            auth: credentials.auth.clone(),
            channel: String::from_str(channel),
            api: TwitchApiHandler::set(
                credentials.client_id.clone(),
                credentials.auth.clone(),
                to_lowercase(channel),
            ),
            logging: should_log,
        }
    }

    /// The lines that log in and join the channel: request tags, give the
    /// token, a nick, and join the channel in lower case.
    pub fn handshake(&self) -> (lines: Vec<String>)
        ensures
            lines@.len() == 4,
            forall|i: int|
                0 <= i < 4 ==> #[trigger] lines@[i]@ == handshake_lines(self.auth@, self.channel@)[i],
    {
        let mut pass = String::from_str("PASS oauth:");
        pass.append(self.auth.as_str());
        pass.append("\n");
        let mut join = String::from_str("JOIN #");
        let lower = to_lowercase(self.channel.as_str());
        join.append(lower.as_str());
        join.append("\n");
        let mut lines: Vec<String> = Vec::new();
        lines.push(String::from_str("CAP REQ :twitch.tv/tags\n"));
        lines.push(pass);
        lines.push(String::from_str("NICK scraper\n"));
        lines.push(join);
        lines
    }

    /// The line shown once the chat is joined.
    pub fn greeting(&self) -> (r: String)
        ensures
            r@ == greeting_line(self.logging, self.channel@),
    {
        let mut s = String::from_str("Now ");
        if self.logging {
            s.append("scraping");
        } else {
            s.append("watching");
        }
        s.append(" twitch.tv/");
        s.append(self.channel.as_str());
        s.append(" chat");
        s
    }

    /// Decides after a connection attempt: log in again when connected; give
    /// up once the wait has reached six seconds; else wait one second longer
    /// and try again.
    pub fn after_connect_attempt(&mut self, connected: bool) -> (r: ReconnectStep)
        ensures
            (r, final(self).reconnect_time) == reconnect_step(old(self).reconnect_time, connected),
            connected ==> r == ReconnectStep::Reinitialize && final(self).reconnect_time == old(
                self,
            ).reconnect_time,
            !connected && old(self).reconnect_time >= MAX_RECONNECT_WAIT ==> r
                == ReconnectStep::GiveUp && final(self).reconnect_time == old(self).reconnect_time,
            !connected && old(self).reconnect_time < MAX_RECONNECT_WAIT ==> final(self).reconnect_time
                == old(self).reconnect_time + 1 && r == ReconnectStep::RetryAfter(
                final(self).reconnect_time,
            ),
            final(self).auth == old(self).auth,
            final(self).channel == old(self).channel,
            final(self).api == old(self).api,
            final(self).logging == old(self).logging,
    {
        if connected {
            ReconnectStep::Reinitialize
        } else if self.reconnect_time >= MAX_RECONNECT_WAIT {
            ReconnectStep::GiveUp
        } else {
            self.reconnect_time = self.reconnect_time + 1;
            ReconnectStep::RetryAfter(self.reconnect_time)
        }
    }
}

} // verus!
