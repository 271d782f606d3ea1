use twitchchat::config::{Arguments, Config, Operation};
use twitchchat::credentials::Credentials;
use twitchchat::irc_chat::{
    classify_line, is_quit, must_ask, prompt_answer, ChatError, ChatLine, ChatSession, KeyInput,
    Login, LoginStep, PromptAnswer, ReconnectStep, TermEvent, IRC_SERVER, PONG,
};
use twitchchat::logger::{log_file_name, log_file_name_on};
use twitchchat::run;
use twitchchat::text::{parse_u64_exec, str_contains, str_starts_with};
use twitchchat::twitch::{TwitchApiHandler, TwitchUser};
use twitchchat::RunAction;

fn creds(auth: &str, client_id: &str) -> Credentials {
    Credentials { auth: auth.to_string(), client_id: client_id.to_string() }
}

fn args<'a>(
    channel: Option<&'a str>,
    vod_id: Option<&'a str>,
    token: Option<&'a str>,
    client_id: Option<&'a str>,
) -> Arguments<'a> {
    Arguments { channel, vod_id, token, client_id, log_filename: None, should_log: false }
}

const ONE_OPTION: &str = "Only one required option at a time. Use --help flag for usage info.";

#[test]
fn check_credentials_wants_token_then_client_id() {
    assert_eq!(creds("", "").check_credentials(), Err("Token not found! Please enter a token"));
    assert_eq!(creds("", "id").check_credentials(), Err("Token not found! Please enter a token"));
    assert_eq!(
        creds("tok", "").check_credentials(),
        Err("Client ID not found! Pleaser enter a Client ID")
    );
    assert_eq!(creds("tok", "id").check_credentials(), Ok(()));
}

#[test]
fn get_value_gives_the_carried_value() {
    assert_eq!(Operation::ChannelChat("chan").get_value(), Some("chan"));
    assert_eq!(Operation::VodChat("123").get_value(), Some("123"));
    assert_eq!(Operation::Token(Some("t")).get_value(), Some("t"));
    assert_eq!(Operation::Token(None).get_value(), None);
    assert_eq!(Operation::ClientID(Some("c")).get_value(), Some("c"));
    assert_eq!(Operation::ClientID(None).get_value(), None);
}

#[test]
fn select_operation_wants_exactly_one_option() {
    assert!(Config::select_operation(&args(Some("c"), None, None, None))
        == Ok(Operation::ChannelChat("c")));
    assert!(Config::select_operation(&args(None, Some("v"), None, None))
        == Ok(Operation::VodChat("v")));
    assert!(Config::select_operation(&args(None, None, Some("t"), None))
        == Ok(Operation::Token(Some("t"))));
    assert!(Config::select_operation(&args(None, None, None, Some("i")))
        == Ok(Operation::ClientID(Some("i"))));
    assert!(Config::select_operation(&args(None, None, None, None)) == Err(ONE_OPTION));
    assert!(Config::select_operation(&args(Some("c"), None, Some("t"), None)) == Err(ONE_OPTION));
    assert!(
        Config::select_operation(&args(Some("c"), Some("v"), Some("t"), Some("i")))
            == Err(ONE_OPTION)
    );
}

#[test]
fn new_checks_credentials_only_for_reading() {
    match Config::new(&args(Some("c"), None, None, None), creds("", "id")) {
        Err(e) => assert_eq!(e, "Token not found! Please enter a token"),
        Ok(_) => panic!("credentials were not checked"),
    }
    match Config::new(&args(None, Some("v"), None, None), creds("tok", "")) {
        Err(e) => assert_eq!(e, "Client ID not found! Pleaser enter a Client ID"),
        Ok(_) => panic!("credentials were not checked"),
    }
    match Config::new(&args(None, None, Some("t"), None), creds("", "")) {
        Ok(c) => {
            assert!(c.operation == Operation::Token(Some("t")));
            assert_eq!(c.credentials.auth, "");
        }
        Err(e) => panic!("{}", e),
    }
    match Config::new(&args(None, None, None, None), creds("tok", "id")) {
        Err(e) => assert_eq!(e, ONE_OPTION),
        Ok(_) => panic!("no option was given"),
    }
}

#[test]
fn new_keeps_the_log_settings() {
    let a = Arguments {
        channel: Some("Chan"),
        vod_id: None,
        token: None,
        client_id: None,
        log_filename: Some("out.txt"),
        should_log: true,
    };
    match Config::new(&a, creds("tok", "id")) {
        Ok(c) => {
            assert!(c.operation == Operation::ChannelChat("Chan"));
            assert_eq!(c.log_filename, Some("out.txt"));
            assert!(c.should_log);
            assert_eq!(c.credentials.auth, "tok");
            assert_eq!(c.credentials.client_id, "id");
        }
        Err(e) => panic!("{}", e),
    }
}

fn config_for(op: Operation<'_>, c: Credentials) -> Config<'_> {
    Config { credentials: c, operation: op, log_filename: None, should_log: false }
}

#[test]
fn run_saves_a_new_token_and_keeps_the_client_id() {
    match run(config_for(Operation::Token(Some("newtok")), creds("old", "id"))) {
        RunAction::SaveCredentials(c) => {
            assert_eq!(c.auth, "newtok");
            assert_eq!(c.client_id, "id");
        }
        _ => panic!("expected a save"),
    }
}

#[test]
fn run_saves_a_new_client_id_and_keeps_the_token() {
    match run(config_for(Operation::ClientID(Some("newid")), creds("tok", "old"))) {
        RunAction::SaveCredentials(c) => {
            assert_eq!(c.auth, "tok");
            assert_eq!(c.client_id, "newid");
        }
        _ => panic!("expected a save"),
    }
}

#[test]
fn run_shows_the_stored_value_when_none_is_given() {
    match run(config_for(Operation::Token(None), creds("stored-token", "id"))) {
        RunAction::ShowStored(v) => assert_eq!(v, "stored-token"),
        _ => panic!("expected to show the token"),
    }
    match run(config_for(Operation::ClientID(None), creds("tok", "stored-id"))) {
        RunAction::ShowStored(v) => assert_eq!(v, "stored-id"),
        _ => panic!("expected to show the client ID"),
    }
}

#[test]
fn run_watches_a_channel_and_ignores_a_vod() {
    match run(config_for(Operation::VodChat("1"), creds("t", "i"))) {
        RunAction::Nothing => {}
        _ => panic!("a VOD does nothing"),
    }
    let c = Config {
        credentials: creds("t", "i"),
        operation: Operation::ChannelChat("Chan"),
        log_filename: Some("f"),
        should_log: true,
    };
    match run(c) {
        RunAction::WatchChannel { credentials, channel, log_filename, should_log } => {
            assert_eq!(credentials.auth, "t");
            assert_eq!(channel, "Chan");
            assert_eq!(log_filename, Some("f"));
            assert!(should_log);
        }
        _ => panic!("expected to watch"),
    }
}

#[test]
fn log_file_names() {
    assert_eq!(log_file_name(Some("my.log"), "chan"), "./my.log");
    assert_eq!(log_file_name_on(None, "chan", "2021-03-04"), "./chan-2021-03-04.txt");
    let today = log_file_name(None, "chan");
    assert!(today.starts_with("./chan-"));
    assert!(today.ends_with(".txt"));
    let date = &today["./chan-".len()..today.len() - ".txt".len()];
    assert_eq!(date.len(), 10);
    assert_eq!(&date[4..5], "-");
    assert_eq!(&date[7..8], "-");
}

#[test]
fn search_request_carries_channel_client_id_and_token() {
    let h = TwitchApiHandler::set("cid".to_string(), "tok".to_string(), "chan".to_string());
    assert_eq!(h.client_id, "cid");
    assert_eq!(h.token, "tok");
    let r = h.search_request();
    assert_eq!(r.url, "https://api.twitch.tv/helix/search/channels");
    assert_eq!(r.query, vec![("query".to_string(), "chan".to_string())]);
    assert_eq!(
        r.headers,
        vec![
            ("Accept".to_string(), "application/vnd.twitchtv.v5+json".to_string()),
            ("Client-ID".to_string(), "cid".to_string()),
            ("Authorization".to_string(), "Bearer tok".to_string()),
        ]
    );
}

fn user(id: &str, login: &str, live: bool) -> TwitchUser {
    TwitchUser { id: id.to_string(), broadcaster_login: login.to_string(), is_live: live }
}

#[test]
fn find_channel_takes_the_last_exact_login() {
    let h = TwitchApiHandler::set("c".to_string(), "t".to_string(), "chan".to_string());
    let users = vec![
        user("1", "chan", true),
        user("2", "chan2", true),
        user("3", "chan", false),
        user("4", "Chan", true),
    ];
    assert_eq!(h.find_channel(&users), ("3".to_string(), false));
    assert_eq!(h.find_channel(&vec![]), ("0".to_string(), false));
    assert_eq!(h.find_channel(&vec![user("9", "other", true)]), ("0".to_string(), false));
    assert_eq!(h.find_channel(&vec![user("5", "chan", true)]), ("5".to_string(), true));
}

#[test]
fn session_looks_up_and_joins_the_channel_in_lower_case() {
    let s = ChatSession::new(&creds("tok", "cid"), true, "SomeChannel");
    assert_eq!(s.reconnect_time, 0);
    assert_eq!(s.channel, "SomeChannel");
    assert_eq!(s.api.channel, "somechannel");
    assert_eq!(s.api.token, "tok");
    assert_eq!(s.api.client_id, "cid");
    assert_eq!(
        s.handshake(),
        vec![
            "CAP REQ :twitch.tv/tags\n".to_string(),
            "PASS oauth:tok\n".to_string(),
            "NICK scraper\n".to_string(),
            "JOIN #somechannel\n".to_string(),
        ]
    );
    assert_eq!(s.greeting(), "Now scraping twitch.tv/SomeChannel chat");
    let w = ChatSession::new(&creds("tok", "cid"), false, "x");
    assert_eq!(w.greeting(), "Now watching twitch.tv/x chat");
}

#[test]
fn reconnecting_gives_up_after_seven_failures() {
    let mut s = ChatSession::new(&creds("t", "c"), false, "x");
    let mut steps = Vec::new();
    for _ in 0..7 {
        steps.push(s.after_connect_attempt(false));
    }
    assert_eq!(
        steps,
        vec![
            ReconnectStep::RetryAfter(1),
            ReconnectStep::RetryAfter(2),
            ReconnectStep::RetryAfter(3),
            ReconnectStep::RetryAfter(4),
            ReconnectStep::RetryAfter(5),
            ReconnectStep::RetryAfter(6),
            ReconnectStep::GiveUp,
        ]
    );
    assert_eq!(s.reconnect_time, 6);
    assert_eq!(s.after_connect_attempt(true), ReconnectStep::Reinitialize);
    assert_eq!(s.reconnect_time, 6);
}

#[test]
fn login_reads_eleven_lines() {
    let mut l = Login::new();
    for i in 0..10 {
        assert_eq!(l.on_line(":tmi.twitch.tv 001 scraper :Welcome\r\n"), LoginStep::AwaitMore);
        assert_eq!(l.lines_seen, i + 1);
    }
    assert_eq!(l.on_line(":tmi.twitch.tv 376 scraper :>\r\n"), LoginStep::Finished);
}

#[test]
fn login_failures() {
    let mut l = Login::new();
    assert_eq!(
        l.on_line(":tmi.twitch.tv NOTICE * :Login unsuccessful\r\n"),
        LoginStep::Rejected(ChatError::InvalidToken)
    );
    let mut l = Login::new();
    assert_eq!(l.on_line("HTTP/1.1 400 Bad Request\r\n"), LoginStep::Rejected(ChatError::BadRequest));
    let mut l = Login::new();
    assert_eq!(l.on_line(""), LoginStep::Reconnect);
}

#[test]
fn chat_lines_are_sorted() {
    assert_eq!(classify_line(""), ChatLine::Disconnected);
    assert_eq!(classify_line("PING :tmi.twitch.tv\r\n"), ChatLine::Ping);
    assert_eq!(classify_line("@x :a PRIVMSG #c :PING"), ChatLine::Chat);
    assert_eq!(classify_line("\r\n"), ChatLine::Chat);
    assert_eq!(PONG, "PONG\n");
    assert_eq!(IRC_SERVER, "irc.chat.twitch.tv:6667");
}

fn key(c: char, plain: bool) -> TermEvent {
    TermEvent::Key { code: KeyInput::Char(c), no_modifiers: plain }
}

#[test]
fn keys() {
    assert!(is_quit(&key('q', true)));
    assert!(!is_quit(&key('q', false)));
    assert!(!is_quit(&key('Q', true)));
    assert!(!is_quit(&TermEvent::Other));
    assert_eq!(prompt_answer(&key('y', true)), PromptAnswer::Continue);
    assert_eq!(prompt_answer(&key('n', true)), PromptAnswer::Abort);
    assert_eq!(prompt_answer(&key('y', false)), PromptAnswer::Ignore);
    assert_eq!(
        prompt_answer(&TermEvent::Key { code: KeyInput::Other, no_modifiers: true }),
        PromptAnswer::Ignore
    );
    assert!(must_ask(false));
    assert!(!must_ask(true));
}

#[test]
fn error_messages() {
    assert_eq!(ChatError::ConnectionFailure.message(), "Connection failure");
    assert_eq!(ChatError::CannotReconnect.message(), "Cannot reconnect to IRC server");
    assert_eq!(ChatError::ScrapingAborted.message(), "Scraping aborted");
    assert_eq!(ChatError::InvalidToken.message(), "Invalid token");
    assert_eq!(ChatError::BadRequest.message(), "Bad Request");
}

#[test]
fn text_helpers() {
    assert!(str_contains("abc", ""));
    assert!(str_contains("abcabd", "abd"));
    assert!(!str_contains("ab", "abc"));
    assert!(str_starts_with("PING x", "PING"));
    assert!(!str_starts_with("xPING", "PING"));
    assert_eq!(parse_u64_exec("0"), Some(0));
    assert_eq!(parse_u64_exec("+12"), Some(12));
    assert_eq!(parse_u64_exec("+"), None);
    assert_eq!(parse_u64_exec("-1"), None);
    assert_eq!(parse_u64_exec(" 1"), None);
    assert_eq!(parse_u64_exec("1a"), None);
    assert_eq!(parse_u64_exec("18446744073709551615"), Some(u64::MAX));
    assert_eq!(parse_u64_exec("18446744073709551616"), None);
    assert_eq!(parse_u64_exec("00000000000000000000000042"), Some(42));
}
