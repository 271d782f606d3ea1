use regex::Regex;
use twitchchat::message::{log_millis, Message};
use twitchchat::privmsg::parse_privmsg;

const PATTERN: &str = r".*;color=(.*?);display-name=(.*?);.*;tmi-sent-ts=(.*?);.*:(.*)!.*@.*\.tmi\.twitch\.tv PRIVMSG #.* :(.*)";

const RONNI: &str = "@badge-info=;badges=broadcaster/1;client-nonce=459e3142897c7a22b7d275178f2259e0;color=#0000FF;display-name=Ronni;emotes=25:0-4,12-16/1902:6-10;first-msg=0;flags=;id=b34ccfc7-4977-403a-8a94-33c6bac34fb8;mod=0;room-id=1337;subscriber=0;tmi-sent-ts=1507246572675;turbo=1;user-id=1337;user-type=global_mod :ronni!ronni@ronni.tmi.twitch.tv PRIVMSG #ronni :Kappa Keepo Kappa\r\n";

fn regex_fields(re: &Regex, raw: &str) -> Option<Vec<String>> {
    re.captures(raw).map(|c| (1..6).map(|i| c[i].to_string()).collect())
}

fn parser_fields(raw: &str) -> Option<Vec<String>> {
    parse_privmsg(raw).map(|f| vec![f.color, f.display_name, f.sent_ts, f.login, f.body])
}

fn agrees(re: &Regex, raw: &str) -> bool {
    let ours = parser_fields(raw);
    assert_eq!(ours, regex_fields(re, raw), "on {:?}", raw);
    ours.is_some()
}

#[test]
fn filter_reads_a_tagged_privmsg() {
    let m = Message::filter(RONNI);
    assert_eq!(m.username, "Ronni");
    assert_eq!(m.username_color, "#0000FF");
    assert_eq!(m.timestamp, 1507246572675);
    assert_eq!(m.body, "Kappa Keepo Kappa\r");
}

#[test]
fn filter_falls_back_to_the_login() {
    let raw = "@badges=;color=;display-name=;emotes=;tmi-sent-ts=42;user-type= :someone!someone@someone.tmi.twitch.tv PRIVMSG #chan :hi there";
    let m = Message::filter(raw);
    assert_eq!(m.username, "someone");
    assert_eq!(m.username_color, "");
    assert_eq!(m.timestamp, 42);
    assert_eq!(m.body, "hi there");
}

#[test]
fn filter_replaces_emoji_names() {
    let raw = "@badges=;color=#FF0000;display-name=A;x=;tmi-sent-ts=7;u= :a!a@a.tmi.twitch.tv PRIVMSG #c :hello:smile:and:not_an_emoji:";
    let m = Message::filter(raw);
    assert_eq!(m.body, "hello\u{01F604}and:not_an_emoji:");
}

#[test]
fn filter_keeps_a_body_without_colons() {
    let raw = "@badges=;color=;display-name=A;x=;tmi-sent-ts=7;u= :a!a@a.tmi.twitch.tv PRIVMSG #c :just some text; no emoji";
    let m = Message::filter(raw);
    assert_eq!(m.body, "just some text; no emoji");
}

#[test]
fn filter_keeps_only_the_text_after_the_last_space_colon() {
    let raw = "@badges=;color=;display-name=A;x=;tmi-sent-ts=7;u= :a!a@a.tmi.twitch.tv PRIVMSG #c :see :this";
    let m = Message::filter(raw);
    assert_eq!(m.body, "this");
}

#[test]
fn try_filter_refuses_other_lines() {
    assert!(Message::try_filter(":tmi.twitch.tv 001 scraper :Welcome, GLHF!\r\n").is_none());
    assert!(Message::try_filter("PING :tmi.twitch.tv\r\n").is_none());
    assert!(Message::try_filter("").is_none());
}

#[test]
fn try_filter_refuses_a_bad_timestamp() {
    let base = |ts: &str| {
        format!(
            "@badges=;color=;display-name=A;x=;tmi-sent-ts={};u= :a!a@a.tmi.twitch.tv PRIVMSG #c :x",
            ts
        )
    };
    assert!(Message::try_filter(&base("abc")).is_none());
    assert!(Message::try_filter(&base("")).is_none());
    assert!(Message::try_filter(&base("18446744073709551616")).is_none());
    assert_eq!(Message::try_filter(&base("+5")).unwrap().timestamp, 5);
    assert_eq!(
        Message::try_filter(&base("18446744073709551615")).unwrap().timestamp,
        u64::MAX
    );
}

#[test]
fn parser_agrees_with_the_regex_on_a_real_line() {
    let re = Regex::new(PATTERN).unwrap();
    assert!(agrees(&re, RONNI));
}

#[test]
fn parser_agrees_with_the_regex_on_tricky_lines() {
    let lines = [
        "",
        "no match here",
        ";color=;display-name=;;tmi-sent-ts=;:!@.tmi.twitch.tv PRIVMSG # :",
        "a;color=1;color=2;display-name=3;display-name=4;x;tmi-sent-ts=5;6;tmi-sent-ts=7;8:u!v@w.tmi.twitch.tv PRIVMSG #c :body",
        "@b=;color=#1;display-name=D;t;tmi-sent-ts=9;z :l!l@l.tmi.twitch.tv PRIVMSG #c :x;color=y;display-name=z;;tmi-sent-ts=1;:q!r@s.tmi.twitch.tv PRIVMSG #t :u",
        "first line without a match\n@b=;color=#2;display-name=E;t;tmi-sent-ts=3;z :m!m@m.tmi.twitch.tv PRIVMSG #d :second",
        "@b=;color=#3;display-name=F;t;tmi-sent-ts=4;z :n!n@n.tmi.twitch.tv PRIVMSG #e :one\n@b=;color=#4;display-name=G;t;tmi-sent-ts=5;z :o!o@o.tmi.twitch.tv PRIVMSG #f :two",
        "@b=;color=#5;display-name=H;t;tmi-sent-ts=6;z :a:b!c!d@e@f.tmi.twitch.tv PRIVMSG #g :h :i",
        "@b=;color=#6;display-name=I\n;t;tmi-sent-ts=6;z :a!c@f.tmi.twitch.tv PRIVMSG #g :h",
        "@b=;color=é;display-name=ü;t;tmi-sent-ts=ß;z :ñ!ñ@ñ.tmi.twitch.tv PRIVMSG #ç :日本語\r\n",
        "@b=;color=;display-name=;;tmi-sent-ts=;;:!@.tmi.twitch.tv PRIVMSG #.tmi.twitch.tv PRIVMSG # : :",
    ];
    let re = Regex::new(PATTERN).unwrap();
    let mut matched = 0;
    for l in lines.iter() {
        if agrees(&re, l) {
            matched += 1;
        }
    }
    assert!(matched >= 8);
}

#[test]
fn parser_agrees_with_the_regex_on_generated_lines() {
    let parts = [
        ";color=", ";display-name=", ";", ";tmi-sent-ts=", ":", "!", "@",
        ".tmi.twitch.tv PRIVMSG #", " :", "x", "\n",
    ];
    // All words of up to three pieces from the template, appended to a full line.
    let re = Regex::new(PATTERN).unwrap();
    let full = "@b=;color=c;display-name=d;e;tmi-sent-ts=1;f :g!h@i.tmi.twitch.tv PRIVMSG #j :k";
    for a in parts.iter() {
        for b in parts.iter() {
            for c in parts.iter() {
                agrees(&re, &format!("{}{}{}{}", full, a, b, c));
                agrees(&re, &format!("{}{}{}{}", a, b, c, full));
                agrees(&re, &format!("{}{}{}", a, full, b));
                agrees(&re, &format!("{}{}{}{}", &full[..20], a, b, &full[20..]));
                agrees(&re, &format!("{}{}{}{}", &full[..45], a, c, &full[45..]));
            }
        }
    }
}

#[test]
fn line_with_code_uses_the_basic_color_for_a_name_without_color() {
    let m = Message {
        username: "Bob".to_string(),
        body: "hi".to_string(),
        username_color: String::new(),
        timestamp: 0,
    };
    assert_eq!(m.line_with_code(33), "\x1B[33mBob\x1B[0m: hi");
}

#[test]
fn line_uses_the_rgb_color_of_the_name() {
    let m = Message {
        username: "Bob".to_string(),
        body: "hi".to_string(),
        username_color: "#FF8000".to_string(),
        timestamp: 0,
    };
    assert_eq!(m.line(), "\x1B[38;2;255;128;0mBob\x1B[0m: hi");
    let m2 = Message { username_color: "#+F0a0bcc".to_string(), ..m };
    assert_eq!(m2.line(), "\x1B[38;2;15;10;11mBob\x1B[0m: hi");
}

#[test]
fn line_picks_a_basic_color_at_random() {
    let m = Message {
        username: "Bob".to_string(),
        body: "hi".to_string(),
        username_color: String::new(),
        timestamp: 0,
    };
    for _ in 0..50 {
        let l = m.line();
        let code: u8 = l[2..4].parse().unwrap();
        assert!((31..36).contains(&code));
        assert_eq!(l, format!("\x1B[{}mBob\x1B[0m: hi", code));
    }
}

#[test]
fn try_line_refuses_unreadable_colors() {
    let m = |c: &str| Message {
        username: "Bob".to_string(),
        body: "hi".to_string(),
        username_color: c.to_string(),
        timestamp: 0,
    };
    assert!(m("red").try_line().is_none());
    assert!(m("#GG0000").try_line().is_none());
    assert!(m("#é00000").try_line().is_none());
    assert!(m("#0000001").try_line().is_none());
    assert!(m("#++0000").try_line().is_none());
    assert_eq!(m("#00ff00").try_line().unwrap(), "\x1B[38;2;0;255;0mBob\x1B[0m: hi");
}

#[test]
fn log_line_at_formats_time_name_and_body() {
    let m = Message {
        username: "Bob".to_string(),
        body: "hi".to_string(),
        username_color: String::new(),
        timestamp: 0,
    };
    assert_eq!(m.log_line_at("12:00:00"), "[12:00:00]Bob: hi");
}

#[test]
fn log_line_stamps_the_local_time() {
    let m = Message {
        username: "Bob".to_string(),
        body: "hi".to_string(),
        username_color: String::new(),
        timestamp: 1507246572675,
    };
    let l = m.log_line();
    assert!(l.starts_with('['));
    assert!(l.ends_with("]Bob: hi"));
    assert!(l.len() > "[]Bob: hi".len());
    assert!(l.contains(".675]"));
    let time = &l[1..l.len() - "]Bob: hi".len()];
    assert_eq!(time.len(), 12);
    assert_eq!(&time[2..3], ":");
    assert_eq!(&time[5..6], ":");
    let on_the_second = Message { timestamp: 1507246572000, ..m };
    let l2 = on_the_second.log_line();
    assert_eq!(l2.len(), "[HH:MM:SS]Bob: hi".len());
}

#[test]
fn log_millis_wraps_like_a_signed_cast() {
    assert_eq!(log_millis(0), 0);
    assert_eq!(log_millis(1507246572675), 1507246572675);
    assert_eq!(log_millis(i64::MAX as u64), i64::MAX);
    assert_eq!(log_millis(u64::MAX), -1);
    assert_eq!(log_millis(1u64 << 63), i64::MIN);
}

#[test]
fn try_log_line_refuses_timestamps_out_of_range() {
    let m = |ts: u64| Message {
        username: "Bob".to_string(),
        body: "hi".to_string(),
        username_color: String::new(),
        timestamp: ts,
    };
    assert!(m(9_000_000_000_000_000).try_log_line().is_none());
    assert!(m(8_210_266_876_799_999).try_log_line().is_some());
    assert!(m(8_210_266_876_800_000).try_log_line().is_none());
    assert!(m(u64::MAX).try_log_line().is_some());
}
