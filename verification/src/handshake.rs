use vstd::prelude::*;
use vstd::string::StrSliceExecFns;
use vstd::string::StringExecFns;
use crate::builders::LavalinkClientBuilder;
use crate::builders::LavalinkClientBuilderView;
use crate::text::decimal;
use crate::text::to_decimal;

verus! {

/// How this library names itself to the server.
pub const CLIENT_NAME: &'static str = "lavalink_rs/0.1.0";

/// Where the voice gateway is reached.
pub const DISCORD_GATEWAY_URI: &'static str = "wss://gateway.discord.gg/?v=9&encoding=json";

/// One header of a handshake request.
#[derive(Debug, PartialEq, Eq)]
pub struct Header {
    pub name: &'static str,
    pub value: String,
}

/// Mathematical value of a [`Header`].
pub struct HeaderView {
    pub name: Seq<char>,
    pub value: Seq<char>,
}

impl View for Header {
    type V = HeaderView;

    open spec fn view(&self) -> HeaderView {
        HeaderView { name: self.name@, value: self.value@ }
    }
}

/// The headers of a list, each by its view.
pub open spec fn headers_view(headers: Seq<Header>) -> Seq<HeaderView> {
    headers.map_values(|header: Header| header@)
}

/// Whether a header value may hold the character: anything but a control
/// character, the tab excepted.
pub open spec fn header_char(c: char) -> bool {
    (c as u32 >= 32 && c as u32 != 127) || c == '\t'
}

/// Whether the text can be the value of a header.
pub open spec fn header_value(text: Seq<char>) -> bool {
    forall|i: int| 0 <= i < text.len() ==> header_char(#[trigger] text[i])
}

/// An address of the server: scheme, host and port in decimal.
pub open spec fn uri_of(scheme: Seq<char>, host: Seq<char>, port: u16) -> Seq<char> {
    scheme + "://"@ + host + ":"@ + decimal(port as nat)
}

impl LavalinkClientBuilderView {
    /// Where the socket session is opened.
    pub open spec fn socket_uri(self) -> Seq<char> {
        if self.is_ssl {
            uri_of("wss"@, self.host, self.port)
        } else {
            uri_of("ws"@, self.host, self.port)
        }
    }

    /// Where the REST interface is reached.
    pub open spec fn rest_uri(self) -> Seq<char> {
        if self.is_ssl {
            uri_of("https"@, self.host, self.port)
        } else {
            uri_of("http"@, self.host, self.port)
        }
    }

    /// The headers that open a session with the server.
    pub open spec fn headers(self) -> Seq<HeaderView> {
        seq![
            HeaderView { name: "Authorization"@, value: self.password },
            HeaderView { name: "Num-Shards"@, value: decimal(self.shard_count as nat) },
            HeaderView { name: "User-Id"@, value: decimal(self.bot_id.0 as nat) },
            HeaderView { name: "Client-Name"@, value: CLIENT_NAME@ },
        ]
    }

    /// The headers that open a session with the voice gateway.
    pub open spec fn gateway_headers(self) -> Seq<HeaderView> {
        seq![
            HeaderView { name: "Authorization"@, value: "Bot "@ + self.bot_token },
            HeaderView { name: "bot"@, value: "True"@ },
            HeaderView { name: "Content-type"@, value: "application/json"@ },
        ]
    }

    /// Whether the handshake can be made: the password and the token must
    /// be fit to stand in a header.
    pub open spec fn presentable(self) -> bool {
        header_value(self.password) && header_value("Bot "@ + self.bot_token)
    }
}

/// Whether the text can be the value of a header.
pub fn is_header_value(text: &str) -> (valid: bool)
    ensures
        valid == header_value(text@),
{
    let n = text.unicode_len();
    let mut i: usize = 0;
    while i < n
        invariant
            i <= n,
            n == text@.len(),
            forall|j: int| 0 <= j < i ==> header_char(#[trigger] text@[j]),
        decreases n - i,
    {
        let c = text.get_char(i);
        let code = c as u32;
        if !((code >= 32 && code != 127) || c == '\t') {
            return false;
        }
        i += 1;
    }
    true
}

/// An address of the server.
pub fn uri(scheme: &str, host: &str, port: u16) -> (address: String)
    ensures
        address@ == uri_of(scheme@, host@, port),
{
    let mut address = String::from_str(scheme);
    address.append("://");
    address.append(host);
    address.append(":");
    let digits = to_decimal(port as u64);
    address.append(digits.as_str());
    address
}

impl LavalinkClientBuilder {
    /// Where the socket session is opened.
    pub fn socket_uri(&self) -> (address: String)
        ensures
            address@ == self@.socket_uri(),
    {
        if self.is_ssl {
            uri("wss", self.host.as_str(), self.port)
        } else {
            uri("ws", self.host.as_str(), self.port)
        }
    }

    /// Where the REST interface is reached.
    pub fn rest_uri(&self) -> (address: String)
        ensures
            address@ == self@.rest_uri(),
    {
        if self.is_ssl {
            uri("https", self.host.as_str(), self.port)
        } else {
            uri("http", self.host.as_str(), self.port)
        }
    }

    /// The headers that open a session with the server.
    pub fn headers(&self) -> (headers: Vec<Header>)
        ensures
            headers_view(headers@) == self@.headers(),
    {
        let mut headers: Vec<Header> = Vec::new();
        headers.push(Header { name: "Authorization", value: self.password.clone() });
        headers.push(Header { name: "Num-Shards", value: to_decimal(self.shard_count) });
        headers.push(Header { name: "User-Id", value: to_decimal(self.bot_id.0) });
        headers.push(Header { name: "Client-Name", value: String::from_str(CLIENT_NAME) });
        assert(headers_view(headers@) =~= self@.headers());
        headers
    }

    /// What authorizes the bot to the voice gateway: its token behind
    /// `Bot `.
    pub fn gateway_authorization(&self) -> (value: String)
        ensures
            value@ == "Bot "@ + self@.bot_token,
    {
        let mut value = String::from_str("Bot ");
        value.append(self.bot_token.as_str());
        value
    }

    /// The headers that open a session with the voice gateway.
    pub fn gateway_headers(&self) -> (headers: Vec<Header>)
        ensures
            headers_view(headers@) == self@.gateway_headers(),
    {
        let mut headers: Vec<Header> = Vec::new();
        headers.push(Header { name: "Authorization", value: self.gateway_authorization() });
        headers.push(Header { name: "bot", value: String::from_str("True") });
        headers.push(Header { name: "Content-type", value: String::from_str("application/json") });
        assert(headers_view(headers@) =~= self@.gateway_headers());
        headers
    }
}

} // verus!
