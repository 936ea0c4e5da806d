use lavalink_rs::builders::LavalinkClientBuilder;
use lavalink_rs::client::LavalinkClient;
use lavalink_rs::error::LavalinkError;
use lavalink_rs::model::GuildId;
use lavalink_rs::model::Track;
use lavalink_rs::model::TrackQueue;
use lavalink_rs::model::UserId;
use lavalink_rs::node::Node;
use lavalink_rs::opcode::Command;
use lavalink_rs::opcode::Event;
use lavalink_rs::opcode::SendOpcode;
use lavalink_rs::opcode::VoiceUpdate;
use lavalink_rs::reactor::event_of;
use lavalink_rs::reactor::Backoff;
use lavalink_rs::reactor::LavalinkEvent;
use lavalink_rs::reactor::TrackEndReason;
use lavalink_rs::state::Tick;
use lavalink_rs::voice::ConnectionInfo;
use lavalink_rs::voice::SongbirdConnectionInfo;
use std::time::Duration;

fn connected_client() -> LavalinkClient<&'static str> {
    let mut client = LavalinkClient::new(&LavalinkClientBuilder::new(UserId(1), "token")).unwrap();
    client.connection_restored("first");
    client
}

fn gateway_info() -> ConnectionInfo {
    ConnectionInfo {
        guild_id: Some(GuildId(1234567890123)),
        endpoint: Some("wss://eu.voice.example:443".to_string()),
        token: Some("voice-token".to_string()),
        session_id: Some("session".to_string()),
    }
}

fn entry(name: &str) -> TrackQueue {
    TrackQueue {
        track: Track { track: name.to_string(), info: None },
        start_time: 0,
        end_time: None,
        requester: None,
    }
}

fn playing(guild: u64) -> LavalinkClient<&'static str> {
    let mut client = connected_client();
    client
        .create_session_with_songbird(&SongbirdConnectionInfo {
            guild_id: GuildId(guild),
            endpoint: "e".to_string(),
            session_id: "s".to_string(),
            token: "t".to_string(),
        })
        .unwrap();
    client.enqueue(GuildId(guild), entry("a")).unwrap();
    client.enqueue(GuildId(guild), entry("b")).unwrap();
    client.dispatch(GuildId(guild));
    client
}

#[test]
fn create_session_sends_the_voice_update_and_makes_a_node() {
    let mut client = connected_client();
    let command = client.create_session(&gateway_info()).unwrap();
    let expected = Command {
        guild_id: GuildId(1234567890123),
        opcode: SendOpcode::VoiceUpdate(VoiceUpdate {
            session_id: "session".to_string(),
            event: Event {
                token: "voice-token".to_string(),
                endpoint: "eu.voice.example:443".to_string(),
                guild_id: "1234567890123".to_string(),
            },
        }),
    };
    assert_eq!(command, expected);
    assert_eq!(client.nodes().get(1234567890123), Some(Node::new(GuildId(1234567890123))));
    assert!(!client.loops().contains(1234567890123));
}

#[test]
fn create_session_keeps_an_endpoint_without_the_prefix() {
    let mut client = connected_client();
    let mut info = gateway_info();
    info.endpoint = Some("eu.wss://voice".to_string());
    match client.create_session(&info).unwrap().opcode {
        SendOpcode::VoiceUpdate(update) => assert_eq!(update.event.endpoint, "eu.wss://voice"),
        other => panic!("not a voice update: {:?}", other),
    }
}

#[test]
fn create_session_with_songbird_strips_the_prefix_too() {
    let mut client = connected_client();
    let connection = SongbirdConnectionInfo {
        guild_id: GuildId(0),
        endpoint: "wss://wss://x".to_string(),
        session_id: "s".to_string(),
        token: "t".to_string(),
    };
    match client.create_session_with_songbird(&connection).unwrap().opcode {
        SendOpcode::VoiceUpdate(update) => {
            assert_eq!(update.event.endpoint, "wss://x");
            assert_eq!(update.event.guild_id, "0");
            assert_eq!(update.event.token, "t");
            assert_eq!(update.session_id, "s");
        }
        other => panic!("not a voice update: {:?}", other),
    }
    assert!(client.nodes().contains_key(0));
}

#[test]
fn create_session_reports_the_first_missing_field() {
    let mut client = connected_client();
    let mut info = gateway_info();
    info.session_id = None;
    assert_eq!(client.create_session(&info), Err(LavalinkError::MissingConnectionField("session_id")));
    info.guild_id = None;
    assert_eq!(client.create_session(&info), Err(LavalinkError::MissingConnectionField("guild_id")));
    info.endpoint = None;
    assert_eq!(client.create_session(&info), Err(LavalinkError::MissingConnectionField("endpoint")));
    info.token = None;
    assert_eq!(client.create_session(&info), Err(LavalinkError::MissingConnectionField("token")));
    assert!(!client.nodes().contains_key(1234567890123));
}

#[test]
fn create_session_without_socket_makes_no_node() {
    let mut client: LavalinkClient<u8> =
        LavalinkClient::new(&LavalinkClientBuilder::new(UserId(1), "token")).unwrap();
    assert_eq!(client.create_session(&gateway_info()), Err(LavalinkError::MissingLavalinkSocket));
    assert!(!client.nodes().contains_key(1234567890123));
}

#[test]
fn create_session_again_keeps_the_queue() {
    let mut client = playing(5);
    let before = client.nodes().get(5).unwrap();
    let mut info = gateway_info();
    info.guild_id = Some(GuildId(5));
    client.create_session(&info).unwrap();
    assert_eq!(client.nodes().get(5), Some(before));
}

#[test]
fn finished_track_leaves_the_queue_and_the_next_one_plays() {
    let mut client = playing(5);
    client.handle_event(LavalinkEvent::TrackEnd(GuildId(5), TrackEndReason::Finished));
    let node = client.nodes().get(5).unwrap();
    assert_eq!(node.now_playing, None);
    assert_eq!(node.queue, vec![entry("b")]);
    match client.dispatch(GuildId(5)) {
        Tick::Send(command) => match command.opcode {
            SendOpcode::Play(play) => assert_eq!(play.track, "b"),
            other => panic!("not a play command: {:?}", other),
        },
        other => panic!("nothing sent: {:?}", other),
    }
}

#[test]
fn stopped_track_stays_at_the_head() {
    let mut client = playing(5);
    client.handle_event(LavalinkEvent::TrackEnd(GuildId(5), TrackEndReason::Stopped));
    let node = client.nodes().get(5).unwrap();
    assert_eq!(node.now_playing, None);
    assert_eq!(node.queue, vec![entry("a"), entry("b")]);
}

#[test]
fn exception_and_stuck_track_free_the_dispatcher() {
    let mut client = playing(5);
    client.handle_event(LavalinkEvent::TrackException(GuildId(5)));
    assert_eq!(client.nodes().get(5).unwrap().now_playing, None);
    assert_eq!(client.nodes().get(5).unwrap().queue.len(), 2);
    let mut client = playing(5);
    client.handle_event(LavalinkEvent::TrackStuck(GuildId(5)));
    assert_eq!(client.nodes().get(5).unwrap().now_playing, None);
    assert_eq!(client.nodes().get(5).unwrap().queue.len(), 2);
}

#[test]
fn other_events_change_nothing() {
    let mut client = playing(5);
    let before = client.nodes().get(5).unwrap();
    client.handle_event(LavalinkEvent::Stats);
    client.handle_event(LavalinkEvent::Ready);
    client.handle_event(LavalinkEvent::PlayerUpdate(GuildId(5)));
    client.handle_event(LavalinkEvent::TrackStart(GuildId(5)));
    client.handle_event(LavalinkEvent::WebSocketClosed(GuildId(5)));
    assert_eq!(client.nodes().get(5), Some(before));
}

#[test]
fn events_for_a_guild_without_node_are_ignored() {
    let mut client = playing(5);
    let before = client.nodes().get(5).unwrap();
    client.handle_event(LavalinkEvent::TrackEnd(GuildId(6), TrackEndReason::Finished));
    client.handle_event(LavalinkEvent::TrackException(GuildId(6)));
    client.handle_event(LavalinkEvent::TrackStuck(GuildId(6)));
    assert!(!client.nodes().contains_key(6));
    assert_eq!(client.nodes().get(5), Some(before));
}

#[test]
fn finished_track_on_empty_queue_is_harmless() {
    let mut client = connected_client();
    let mut info = gateway_info();
    info.guild_id = Some(GuildId(5));
    client.create_session(&info).unwrap();
    client.handle_event(LavalinkEvent::TrackEnd(GuildId(5), TrackEndReason::Finished));
    assert_eq!(client.nodes().get(5), Some(Node::new(GuildId(5))));
}

#[test]
fn track_end_reason_is_read_from_the_protocol_text() {
    assert_eq!(TrackEndReason::parse("FINISHED"), TrackEndReason::Finished);
    assert_eq!(TrackEndReason::parse("LOAD_FAILED"), TrackEndReason::LoadFailed);
    assert_eq!(TrackEndReason::parse("STOPPED"), TrackEndReason::Stopped);
    assert_eq!(TrackEndReason::parse("REPLACED"), TrackEndReason::Replaced);
    assert_eq!(TrackEndReason::parse("CLEANUP"), TrackEndReason::Cleanup);
    assert_eq!(TrackEndReason::parse("finished"), TrackEndReason::Other);
    assert_eq!(TrackEndReason::parse("FINISHED "), TrackEndReason::Other);
    assert_eq!(TrackEndReason::parse(""), TrackEndReason::Other);
}

#[test]
fn nodes_and_loops_survive_a_reconnect() {
    let mut client = playing(5);
    let before = client.nodes().get(5).unwrap();
    assert_eq!(client.connection_lost(), Some("first"));
    assert_eq!(client.connection_lost(), None);
    assert_eq!(client.stop(GuildId(5)), Err(LavalinkError::MissingLavalinkSocket));
    assert_eq!(client.connection_restored("second"), None);
    assert_eq!(client.connection_restored("third"), Some("second"));
    assert_eq!(client.inner.socket_sender.sender, Some("third"));
    assert!(client.stop(GuildId(5)).is_ok());
    assert_eq!(client.nodes().get(5), Some(before));
    assert!(client.loops().contains(5));
}

#[test]
fn backoff_doubles_up_to_the_cap_and_then_gives_up() {
    let mut backoff = Backoff::new(500, 3000, 5);
    assert_eq!(backoff.next_delay(), Some(500));
    assert_eq!(backoff.next_delay(), Some(1000));
    assert_eq!(backoff.next_delay(), Some(2000));
    assert_eq!(backoff.next_delay(), Some(3000));
    assert_eq!(backoff.next_delay(), Some(3000));
    assert_eq!(backoff.next_delay(), None);
    assert_eq!(backoff.attempts, 5);
    backoff.reset();
    assert_eq!(backoff, Backoff { base_ms: 500, cap_ms: 3000, max_attempts: 5, attempts: 0 });
    assert_eq!(backoff.next_delay(), Some(500));
}

#[test]
fn backoff_handles_the_edges() {
    let mut none = Backoff::new(500, 3000, 0);
    assert_eq!(none.next_delay(), None);
    let mut capped = Backoff::new(5000, 3000, 2);
    assert_eq!(capped.next_delay(), Some(3000));
    assert_eq!(capped.next_delay(), Some(3000));
    let mut zero = Backoff::new(0, 3000, 3);
    assert_eq!(zero.next_delay(), Some(0));
    assert_eq!(zero.next_delay(), Some(0));
    let mut exact = Backoff::new(1500, 3000, 3);
    assert_eq!(exact.next_delay(), Some(1500));
    assert_eq!(exact.next_delay(), Some(3000));
    let mut huge = Backoff { base_ms: 1, cap_ms: u64::MAX, max_attempts: 100, attempts: 70 };
    assert_eq!(huge.next_delay(), Some(u64::MAX));
    let mut wide = Backoff { base_ms: 1, cap_ms: u64::MAX, max_attempts: 100, attempts: 63 };
    assert_eq!(wide.next_delay(), Some(1u64 << 63));
}

#[test]
fn frames_are_read_by_their_tags() {
    let guild = Some(GuildId(5));
    assert_eq!(event_of("stats", "", None, ""), Some(LavalinkEvent::Stats));
    assert_eq!(event_of("ready", "", None, ""), Some(LavalinkEvent::Ready));
    assert_eq!(event_of("playerUpdate", "", guild, ""), Some(LavalinkEvent::PlayerUpdate(GuildId(5))));
    assert_eq!(event_of("playerUpdate", "", None, ""), None);
    assert_eq!(event_of("event", "TrackStartEvent", guild, ""), Some(LavalinkEvent::TrackStart(GuildId(5))));
    assert_eq!(
        event_of("event", "TrackEndEvent", guild, "FINISHED"),
        Some(LavalinkEvent::TrackEnd(GuildId(5), TrackEndReason::Finished))
    );
    assert_eq!(
        event_of("event", "TrackEndEvent", guild, "STOPPED"),
        Some(LavalinkEvent::TrackEnd(GuildId(5), TrackEndReason::Stopped))
    );
    assert_eq!(
        event_of("event", "TrackEndEvent", guild, ""),
        Some(LavalinkEvent::TrackEnd(GuildId(5), TrackEndReason::Other))
    );
    assert_eq!(
        event_of("event", "TrackExceptionEvent", guild, ""),
        Some(LavalinkEvent::TrackException(GuildId(5)))
    );
    assert_eq!(event_of("event", "TrackStuckEvent", guild, ""), Some(LavalinkEvent::TrackStuck(GuildId(5))));
    assert_eq!(
        event_of("event", "WebSocketClosedEvent", guild, ""),
        Some(LavalinkEvent::WebSocketClosed(GuildId(5)))
    );
    assert_eq!(event_of("event", "TrackStartEvent", None, ""), None);
    assert_eq!(event_of("event", "SomethingElse", guild, ""), None);
    assert_eq!(event_of("event", "", guild, ""), None);
    assert_eq!(event_of("Stats", "", None, ""), None);
    assert_eq!(event_of("", "TrackStartEvent", guild, ""), None);
}

#[test]
fn gateway_starts_with_the_wait_asked_for_or_the_configured_one() {
    let mut builder = LavalinkClientBuilder::new(UserId(1), "bot-token");
    builder.set_gateway_start_wait_time(Duration::from_secs(9));
    let client: LavalinkClient<u8> = LavalinkClient::new(&builder).unwrap();
    let configured = client.start_discord_gateway(None);
    assert_eq!(configured.bot_token, "bot-token");
    assert_eq!(configured.wait_time, Duration::from_secs(9));
    let asked = client.start_discord_gateway(Some(Duration::from_millis(250)));
    assert_eq!(asked.bot_token, "bot-token");
    assert_eq!(asked.wait_time, Duration::from_millis(250));
}
