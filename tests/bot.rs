use sjmb_slack::{
    channel_name, Bot, BotError, ChannelDirectory, ChannelInfo, Consumer, ConsumerAction,
    ConsumerEvent, MessageEvent, SlackWorkspace,
};

const URL_RE: &str = r"(https?://\S+)";

fn ws(name: &str) -> SlackWorkspace {
    SlackWorkspace {
        name: name.to_string(),
        api_token: "api".to_string(),
        socket_token: "sock".to_string(),
    }
}

fn chan(id: &str, name: Option<&str>) -> ChannelInfo {
    ChannelInfo { id: id.to_string(), name: name.map(|n| n.to_string()) }
}

fn team_a_bot() -> Bot {
    Bot::new(
        URL_RE.to_string(),
        "urls.db".to_string(),
        vec![ws("teamA")],
        vec![vec![chan("C1", Some("general"))]],
    )
    .unwrap()
}

fn msg(channel: &str, text: &str) -> MessageEvent {
    MessageEvent { channel: Some(channel.to_string()), text: Some(text.to_string()) }
}

fn expect_insert(a: &ConsumerAction, ts: i64, chan: &str, url: &str) {
    match a {
        ConsumerAction::Insert(c) => {
            assert_eq!(c.ts, ts);
            assert_eq!(c.chan, chan);
            assert_eq!(c.nick, "N/A");
            assert_eq!(c.url, url);
        }
        other => panic!("expected an insert, got {:?}", other),
    }
}

fn is_receive(a: &ConsumerAction) -> bool {
    matches!(a, ConsumerAction::Receive)
}

fn is_stop(a: &ConsumerAction) -> bool {
    matches!(a, ConsumerAction::Stop)
}

#[test]
fn two_urls_on_mapped_channel() {
    let bot = team_a_bot();
    let m = msg("C1", "see https://a.example and https://b.example");
    let hits = bot.handle_msg(&m);
    assert_eq!(hits.len(), 2);
    assert_eq!(hits[0].chan, "teamA-general");
    assert_eq!(hits[0].url, "https://a.example");
    assert_eq!(hits[1].chan, "teamA-general");
    assert_eq!(hits[1].url, "https://b.example");

    let mut c = Consumer::new();
    let a = c.step(&bot, ConsumerEvent::Message(m), 100);
    expect_insert(&a, 100, "teamA-general", "https://a.example");
    let a = c.step(&bot, ConsumerEvent::Inserted(true), 101);
    expect_insert(&a, 101, "teamA-general", "https://b.example");
    let a = c.step(&bot, ConsumerEvent::Inserted(true), 102);
    assert!(is_receive(&a));
}

#[test]
fn unmapped_channel_uses_placeholder() {
    let bot = team_a_bot();
    let mut c = Consumer::new();
    let a = c.step(&bot, ConsumerEvent::Message(msg("C9", "look: http://x.example/p")), 7);
    expect_insert(&a, 7, "<NONE>", "http://x.example/p");
    let a = c.step(&bot, ConsumerEvent::Inserted(true), 8);
    assert!(is_receive(&a));
}

#[test]
fn failed_insert_does_not_stop_next_event() {
    let bot = team_a_bot();
    let mut c = Consumer::new();
    let a = c.step(&bot, ConsumerEvent::Message(msg("C1", "https://one.example")), 1);
    expect_insert(&a, 1, "teamA-general", "https://one.example");
    let a = c.step(&bot, ConsumerEvent::Inserted(false), 2);
    assert!(is_receive(&a));
    let a = c.step(&bot, ConsumerEvent::Message(msg("C1", "https://two.example")), 3);
    expect_insert(&a, 3, "teamA-general", "https://two.example");
    let a = c.step(&bot, ConsumerEvent::Inserted(true), 4);
    assert!(is_receive(&a));
}

#[test]
fn failed_insert_does_not_stop_next_match() {
    let bot = team_a_bot();
    let mut c = Consumer::new();
    let a = c.step(&bot, ConsumerEvent::Message(msg("C1", "http://p.example http://q.example")), 5);
    expect_insert(&a, 5, "teamA-general", "http://p.example");
    let a = c.step(&bot, ConsumerEvent::Inserted(false), 6);
    expect_insert(&a, 6, "teamA-general", "http://q.example");
    let a = c.step(&bot, ConsumerEvent::Inserted(false), 7);
    assert!(is_receive(&a));
}

#[test]
fn closing_drains_then_stops() {
    let bot = team_a_bot();
    let mut c = Consumer::new();
    let a = c.step(&bot, ConsumerEvent::Message(msg("C1", "https://a.example https://b.example")), 1);
    expect_insert(&a, 1, "teamA-general", "https://a.example");
    let a = c.step(&bot, ConsumerEvent::Closed, 2);
    expect_insert(&a, 2, "teamA-general", "https://a.example");
    let a = c.step(&bot, ConsumerEvent::Inserted(true), 3);
    expect_insert(&a, 3, "teamA-general", "https://b.example");
    let a = c.step(&bot, ConsumerEvent::Inserted(true), 4);
    assert!(is_stop(&a));
}

#[test]
fn no_workspaces_constructs_and_stops_on_close() {
    let bot = Bot::new(URL_RE.to_string(), "urls.db".to_string(), vec![], vec![]).unwrap();
    assert!(bot.workspaces().is_empty());
    assert_eq!(channel_name(&bot, "C1"), "<NONE>");
    let c = Consumer::new();
    assert!(is_receive(&c.action(0)));
    let mut c = c;
    let a = c.step(&bot, ConsumerEvent::Closed, 0);
    assert!(is_stop(&a));
}

#[test]
fn no_match_no_insert() {
    let bot = team_a_bot();
    assert!(bot.handle_msg(&msg("C1", "nothing to see here")).is_empty());
    let mut c = Consumer::new();
    let a = c.step(&bot, ConsumerEvent::Message(msg("C1", "nothing to see here")), 1);
    assert!(is_receive(&a));
}

#[test]
fn missing_channel_or_text_is_skipped() {
    let bot = team_a_bot();
    let no_chan = MessageEvent { channel: None, text: Some("https://a.example".to_string()) };
    let no_text = MessageEvent { channel: Some("C1".to_string()), text: None };
    assert!(bot.handle_msg(&no_chan).is_empty());
    assert!(bot.handle_msg(&no_text).is_empty());
}

#[test]
fn pattern_without_group_yields_nothing() {
    let bot = Bot::new(r"https?://\S+".to_string(), "db".to_string(), vec![], vec![]).unwrap();
    assert!(bot.handle_msg(&msg("C1", "https://a.example")).is_empty());
}

#[test]
fn channel_name_resolves_directory_entries() {
    let bot = Bot::new(
        URL_RE.to_string(),
        "db".to_string(),
        vec![ws("teamA"), ws("teamB")],
        vec![
            vec![chan("C1", Some("general")), chan("C2", None)],
            vec![chan("D7", Some("random"))],
        ],
    )
    .unwrap();
    assert_eq!(channel_name(&bot, "C1"), "teamA-general");
    assert_eq!(channel_name(&bot, "D7"), "teamB-random");
    assert_eq!(channel_name(&bot, "C2"), "<NONE>");
    assert_eq!(channel_name(&bot, "C9"), "<NONE>");
    assert_eq!(bot.url_log_db(), "db");
    assert_eq!(bot.url_regex(), URL_RE);
    assert_eq!(bot.workspaces().len(), 2);
}

#[test]
fn later_listing_replaces_same_id() {
    let bot = Bot::new(
        URL_RE.to_string(),
        "db".to_string(),
        vec![ws("a"), ws("b")],
        vec![vec![chan("X", Some("one"))], vec![chan("X", Some("two"))]],
    )
    .unwrap();
    assert_eq!(channel_name(&bot, "X"), "b-two");
}

#[test]
fn bad_pattern_is_rejected() {
    let r = Bot::new("(https?://".to_string(), "db".to_string(), vec![], vec![]);
    assert_eq!(r.err(), Some(BotError::BadPattern));
}

#[test]
fn listing_count_must_match() {
    let r = Bot::new(URL_RE.to_string(), "db".to_string(), vec![ws("a")], vec![]);
    assert_eq!(r.err(), Some(BotError::ListingMismatch));
}

#[test]
fn directory_insert_and_get() {
    let mut d = ChannelDirectory::new();
    assert!(d.get("C1").is_none());
    d.insert("C1".to_string(), "x-one".to_string());
    d.insert("C2".to_string(), "x-two".to_string());
    d.insert("C1".to_string(), "x-uno".to_string());
    assert_eq!(d.get("C1").unwrap(), "x-uno");
    assert_eq!(d.get("C2").unwrap(), "x-two");
    d.add_listing("ws", &vec![chan("C3", Some("three")), chan("C4", None)]);
    assert_eq!(d.get("C3").unwrap(), "ws-three");
    assert!(d.get("C4").is_none());
}
