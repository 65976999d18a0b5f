use tmpc::commands::{help_text, parse_command, Command};
use tmpc::BotState;

const BOT: &str = "tmpc_bot";

#[test]
fn parses_plain_verbs() {
    assert!(matches!(parse_command("/start", BOT), Some(Command::Start)));
    assert!(matches!(parse_command("/help", BOT), Some(Command::Help)));
    assert!(matches!(parse_command("/play", BOT), Some(Command::Play)));
    assert!(matches!(parse_command("/next", BOT), Some(Command::Next)));
    assert!(matches!(parse_command("/prev", BOT), Some(Command::Prev)));
    assert!(matches!(parse_command("/current", BOT), Some(Command::Current)));
    assert!(matches!(parse_command("/queue", BOT), Some(Command::Queue)));
    assert!(matches!(parse_command("/clear", BOT), Some(Command::Clear)));
    assert!(matches!(parse_command("/shuffle", BOT), Some(Command::Shuffle)));
    assert!(matches!(parse_command("/stats", BOT), Some(Command::Stats)));
    assert!(matches!(parse_command("/addall", BOT), Some(Command::AddAll)));
    assert!(matches!(parse_command("/addfile", BOT), Some(Command::AddFile)));
    assert!(matches!(parse_command("/addyt", BOT), Some(Command::AddYt)));
}

#[test]
fn parses_aliases() {
    assert!(matches!(parse_command("/p", BOT), Some(Command::Play)));
    assert!(matches!(parse_command("/n", BOT), Some(Command::Next)));
    assert!(matches!(parse_command("/np", BOT), Some(Command::Current)));
    assert!(matches!(parse_command("/q", BOT), Some(Command::Queue)));
    assert!(matches!(parse_command("/all", BOT), Some(Command::AddAll)));
    assert!(matches!(parse_command("/file", BOT), Some(Command::AddFile)));
    assert!(matches!(parse_command("/yt", BOT), Some(Command::AddYt)));
    assert!(matches!(parse_command("/rand", BOT), Some(Command::AddRand(_))));
    assert!(matches!(parse_command("/s x", BOT), Some(Command::Search(_))));
}

#[test]
fn parses_arguments() {
    match parse_command("/search sandman", BOT) {
        Some(Command::Search(q)) => assert_eq!(q, "sandman"),
        other => panic!("unexpected: {:?}", other.is_some()),
    }
    match parse_command("/s enter sandman", BOT) {
        Some(Command::Search(q)) => assert_eq!(q, "enter sandman"),
        _ => panic!("no command"),
    }
    match parse_command("/search", BOT) {
        Some(Command::Search(q)) => assert_eq!(q, ""),
        _ => panic!("no command"),
    }
    match parse_command("/addrand 5", BOT) {
        Some(Command::AddRand(n)) => assert_eq!(n, "5"),
        _ => panic!("no command"),
    }
    match parse_command("/addrand", BOT) {
        Some(Command::AddRand(n)) => assert_eq!(n, ""),
        _ => panic!("no command"),
    }
}

#[test]
fn tolerates_own_mention_only() {
    assert!(matches!(
        parse_command("/play@tmpc_bot", BOT),
        Some(Command::Play)
    ));
    match parse_command("/search@tmpc_bot sandman", BOT) {
        Some(Command::Search(q)) => assert_eq!(q, "sandman"),
        _ => panic!("no command"),
    }
    assert!(parse_command("/play@other_bot", BOT).is_none());
}

#[test]
fn ignores_what_is_no_command() {
    assert!(parse_command("", BOT).is_none());
    assert!(parse_command("hello", BOT).is_none());
    assert!(parse_command("/unknownverb", BOT).is_none());
    assert!(parse_command("/PLAY", BOT).is_none());
    assert!(parse_command("/", BOT).is_none());
}

#[test]
fn a_fresh_dialogue_starts_in_start() {
    assert!(matches!(BotState::default(), BotState::Start));
    let copied: BotState = BotState::default();
    assert!(matches!(copied.clone(), BotState::Start));
}

#[test]
fn help_lists_every_verb() {
    let text = help_text();
    assert!(text.starts_with("Those are the available commands:"));
    for verb in [
        "/start", "/help", "/play", "/next", "/prev", "/current", "/queue", "/addyt", "/search",
        "/addrand", "/addall", "/addfile", "/clear", "/shuffle", "/stats",
    ] {
        assert!(text.contains(verb), "missing {verb}");
    }
}
