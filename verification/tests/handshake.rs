use lavalink_rs::builders::LavalinkClientBuilder;
use lavalink_rs::client::LavalinkClient;
use lavalink_rs::error::LavalinkError;
use lavalink_rs::handshake::is_header_value;
use lavalink_rs::handshake::uri;
use lavalink_rs::handshake::Header;
use lavalink_rs::handshake::CLIENT_NAME;
use lavalink_rs::handshake::DISCORD_GATEWAY_URI;
use lavalink_rs::model::GuildId;
use lavalink_rs::model::UserId;
use lavalink_rs::search::identifier_for;
use lavalink_rs::search::RestRequest;
use lavalink_rs::search::URL_PATTERN;
use lavalink_rs::text::same_text;
use lavalink_rs::text::starts_with;
use lavalink_rs::text::strip_prefix;
use lavalink_rs::text::to_decimal;
use lavalink_rs::time::duration_millis;
use std::time::Duration;

fn header(name: &'static str, value: &str) -> Header {
    Header { name, value: value.to_string() }
}

#[test]
fn new_client_has_addresses_and_headers_of_the_builder() {
    let mut builder = LavalinkClientBuilder::new(UserId(987654321), "abc.def");
    builder.set_host("lava.example").set_port(8443).set_shard_count(3).set_password("hunter2");
    let client: LavalinkClient<()> = builder.build().unwrap();
    assert_eq!(client.inner.socket_uri, "ws://lava.example:8443");
    assert_eq!(client.inner.rest_uri, "http://lava.example:8443");
    assert_eq!(
        client.inner.headers,
        vec![
            header("Authorization", "hunter2"),
            header("Num-Shards", "3"),
            header("User-Id", "987654321"),
            header("Client-Name", CLIENT_NAME),
        ]
    );
    assert!(!client.inner.socket_sender.is_attached());
    assert!(!client.nodes().contains_key(0));
    assert!(!client.loops().contains(0));
    let gateway = client.discord_gateway_data();
    assert_eq!(gateway.shard_count, 3);
    assert_eq!(gateway.bot_id, UserId(987654321));
    assert_eq!(gateway.bot_token, "abc.def");
    assert_eq!(gateway.wait_time, Duration::from_secs(6));
    assert_eq!(gateway.socket_uri, DISCORD_GATEWAY_URI);
    assert_eq!(gateway.socket_uri, "wss://gateway.discord.gg/?v=9&encoding=json");
    assert_eq!(
        gateway.headers,
        vec![
            header("Authorization", "Bot abc.def"),
            header("bot", "True"),
            header("Content-type", "application/json"),
        ]
    );
}

#[test]
fn new_client_over_ssl_uses_the_secure_schemes() {
    let mut builder = LavalinkClientBuilder::new(UserId(1), "t");
    builder.set_is_ssl(true);
    let client: LavalinkClient<()> = LavalinkClient::new(&builder).unwrap();
    assert_eq!(client.inner.socket_uri, "wss://localhost:2333");
    assert_eq!(client.inner.rest_uri, "https://localhost:2333");
    assert_eq!(builder.socket_uri(), "wss://localhost:2333");
    assert_eq!(builder.rest_uri(), "https://localhost:2333");
}

#[test]
fn new_client_refuses_what_cannot_stand_in_a_header() {
    let mut builder = LavalinkClientBuilder::new(UserId(1), "t");
    builder.set_password("line\nbreak");
    let refused = LavalinkClient::<()>::new(&builder).err();
    assert_eq!(refused, Some(LavalinkError::InvalidHeaderValue("Authorization")));
    let builder = LavalinkClientBuilder::new(UserId(1), "bad\u{7f}token");
    let refused = builder.build::<()>().err();
    assert_eq!(refused, Some(LavalinkError::InvalidHeaderValue("Authorization")));
}

#[test]
fn builder_function_of_the_client_gives_the_defaults() {
    let builder = LavalinkClient::<()>::builder(UserId(4), "tok");
    assert_eq!(builder, LavalinkClientBuilder::new(UserId(4), "tok"));
    assert_eq!(builder.port, 2333);
}

#[test]
fn header_values_admit_tabs_and_text_beyond_ascii() {
    assert!(is_header_value(""));
    assert!(is_header_value("plain text ~"));
    assert!(is_header_value("tab\tinside"));
    assert!(is_header_value("caf\u{e9} \u{1f3b5}"));
    assert!(!is_header_value("bell\u{7}"));
    assert!(!is_header_value("\r"));
    assert!(!is_header_value("del\u{7f}"));
    assert!(!is_header_value("nul\0"));
    assert!(is_header_value(" "));
    assert!(!is_header_value("\u{1f}"));
}

#[test]
fn uri_joins_scheme_host_and_port() {
    assert_eq!(uri("ws", "127.0.0.1", 0), "ws://127.0.0.1:0");
    assert_eq!(uri("https", "h", 65535), "https://h:65535");
}

#[test]
fn decimal_writes_numbers_without_leading_zeros() {
    assert_eq!(to_decimal(0), "0");
    assert_eq!(to_decimal(7), "7");
    assert_eq!(to_decimal(10), "10");
    assert_eq!(to_decimal(1234567890), "1234567890");
    assert_eq!(to_decimal(u64::MAX), "18446744073709551615");
    assert_eq!(to_decimal(u64::MAX), u64::MAX.to_string());
}

#[test]
fn prefixes_are_found_and_stripped() {
    assert!(starts_with("wss://x", "wss://"));
    assert!(starts_with("wss://", "wss://"));
    assert!(starts_with("anything", ""));
    assert!(!starts_with("wss:/", "wss://"));
    assert!(!starts_with("ws://x", "wss://"));
    assert_eq!(strip_prefix("wss://host", "wss://"), "host");
    assert_eq!(strip_prefix("wss://", "wss://"), "");
    assert_eq!(strip_prefix("ws://host", "wss://"), "ws://host");
    assert_eq!(strip_prefix("\u{e9}t\u{e9}", "\u{e9}"), "t\u{e9}");
    assert!(same_text("a\u{e9}", "a\u{e9}"));
    assert!(!same_text("a", "ab"));
    assert!(!same_text("ab", "ac"));
    assert!(same_text("", ""));
}

#[test]
fn durations_are_taken_in_whole_milliseconds() {
    assert_eq!(duration_millis(Duration::from_secs(6)), 6000);
    assert_eq!(duration_millis(Duration::new(1, 999_999_999)), 1999);
    assert_eq!(duration_millis(Duration::from_nanos(999_999)), 0);
    assert_eq!(duration_millis(Duration::new(u64::MAX, 999_999_999)), 18446744073709551615);
}

#[test]
fn links_are_loaded_and_phrases_are_searched() {
    let client: LavalinkClient<()> =
        LavalinkClient::new(&LavalinkClientBuilder::new(UserId(1), "t")).unwrap();
    let request = |value: &str| RestRequest {
        url: "http://localhost:2333/loadtracks".to_string(),
        parameter: "identifier",
        value: value.to_string(),
    };
    assert_eq!(client.auto_search_tracks("https://example.org/a"), request("https://example.org/a"));
    assert_eq!(client.auto_search_tracks("http://www.example.org"), request("http://www.example.org"));
    assert_eq!(client.auto_search_tracks("see https://x.y"), request("see https://x.y"));
    assert_eq!(client.auto_search_tracks("never gonna"), request("ytsearch:never gonna"));
    assert_eq!(client.auto_search_tracks("https://"), request("ytsearch:https://"));
    assert_eq!(client.auto_search_tracks("ftp://example.org"), request("ytsearch:ftp://example.org"));
    assert_eq!(client.auto_search_tracks(""), request("ytsearch:"));
    assert_eq!(client.search_tracks("https://example.org"), request("ytsearch:https://example.org"));
    assert_eq!(client.get_tracks("scsearch:x"), request("scsearch:x"));
    assert_eq!(
        client.decode_track("QAAAjQ=="),
        RestRequest {
            url: "http://localhost:2333/decodetrack".to_string(),
            parameter: "track",
            value: "QAAAjQ==".to_string(),
        }
    );
}

#[test]
fn identifier_depends_on_what_the_pattern_found() {
    assert_eq!(identifier_for("abc", Some(true)), "abc");
    assert_eq!(identifier_for("abc", Some(false)), "ytsearch:abc");
    assert_eq!(identifier_for("abc", None), "ytsearch:abc");
    assert_eq!(URL_PATTERN, r"https?://(?:www\.)?.+");
}

#[test]
fn ids_are_made_from_numbers() {
    assert_eq!(GuildId::from(5), GuildId(5));
    assert_eq!(UserId::from(6), UserId(6));
    let guild: GuildId = 7u64.into();
    assert_eq!(guild.0, 7);
}
