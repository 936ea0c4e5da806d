use vstd::prelude::*;
use vstd::string::StringExecFns;
use regex::Regex;
use crate::client::LavalinkClient;

verus! {

/// What tells a link from a search phrase: `http://` or `https://`, an
/// optional `www.`, and something behind it.
pub const URL_PATTERN: &'static str = "https?://(?:www\\.)?.+";

/// What `Regex::new` and `Regex::is_match` make of a pattern and a text:
/// nothing where the pattern is refused, else whether the pattern matches
/// anywhere in the text.
pub uninterp spec fn regex_match(pattern: Seq<char>, haystack: Seq<char>) -> Option<bool>;

/// Compiles the pattern with `Regex::new` and searches the text with
/// `Regex::is_match`. Both depend on the two texts only.
#[verifier::external_body]
fn pattern_match(pattern: &str, haystack: &str) -> (found: Option<bool>)
    ensures
        found == regex_match(pattern@, haystack@),
{
    match Regex::new(pattern) {
        Ok(regex) => Some(regex.is_match(haystack)),
        Err(_) => None,
    }
}

/// A request to the REST interface of the server: the address and the one
/// parameter of its query, not yet encoded.
#[derive(Debug, PartialEq, Eq)]
pub struct RestRequest {
    pub url: String,
    pub parameter: &'static str,
    pub value: String,
}

/// Mathematical value of a [`RestRequest`].
pub struct RestRequestView {
    pub url: Seq<char>,
    pub parameter: Seq<char>,
    pub value: Seq<char>,
}

impl View for RestRequest {
    type V = RestRequestView;

    open spec fn view(&self) -> RestRequestView {
        RestRequestView { url: self.url@, parameter: self.parameter@, value: self.value@ }
    }
}

/// The identifier that searches YouTube for the phrase.
pub open spec fn youtube_search(query: Seq<char>) -> Seq<char> {
    "ytsearch:"@ + query
}

/// The identifier to load for what a user typed: a link is loaded as it
/// is, anything else is searched for on YouTube.
pub open spec fn identifier_of(query: Seq<char>, is_link: Option<bool>) -> Seq<char> {
    if is_link == Some(true) {
        query
    } else {
        youtube_search(query)
    }
}

/// The request that loads the tracks of an identifier.
pub open spec fn load_tracks(rest_uri: Seq<char>, identifier: Seq<char>) -> RestRequestView {
    RestRequestView { url: rest_uri + "/loadtracks"@, parameter: "identifier"@, value: identifier }
}

/// The request that decodes a track.
pub open spec fn decode_track(rest_uri: Seq<char>, track: Seq<char>) -> RestRequestView {
    RestRequestView { url: rest_uri + "/decodetrack"@, parameter: "track"@, value: track }
}

/// The identifier to load for what a user typed, given whether it was
/// found to be a link.
pub fn identifier_for(query: &str, is_link: Option<bool>) -> (identifier: String)
    ensures
        identifier@ == identifier_of(query@, is_link),
{
    let link = match is_link {
        Some(found) => found,
        None => false,
    };
    if link {
        String::from_str(query)
    } else {
        let mut identifier = String::from_str("ytsearch:");
        identifier.append(query);
        identifier
    }
}

impl<S> LavalinkClient<S> {
    /// The request that loads the tracks of a link or an identifier.
    pub fn get_tracks(&self, query: &str) -> (request: RestRequest)
        ensures
            request@ == load_tracks(self.inner.rest_uri@, query@),
    {
        let mut url = self.inner.rest_uri.clone();
        url.append("/loadtracks");
        RestRequest { url, parameter: "identifier", value: String::from_str(query) }
    }

    /// The request that loads a link, or searches YouTube for anything
    /// that is no link.
    pub fn auto_search_tracks(&self, query: &str) -> (request: RestRequest)
        ensures
            request@ == load_tracks(
                self.inner.rest_uri@,
                identifier_of(query@, regex_match(URL_PATTERN@, query@)),
            ),
    {
        let is_link = pattern_match(URL_PATTERN, query);
        let identifier = identifier_for(query, is_link);
        self.get_tracks(identifier.as_str())
    }

    /// The request that searches YouTube for the phrase.
    pub fn search_tracks(&self, query: &str) -> (request: RestRequest)
        ensures
            request@ == load_tracks(self.inner.rest_uri@, youtube_search(query@)),
    {
        let identifier = identifier_for(query, Some(false));
        self.get_tracks(identifier.as_str())
    }

    /// The request that decodes a track into what is known about it.
    pub fn decode_track(&self, track: &str) -> (request: RestRequest)
        ensures
            request@ == decode_track(self.inner.rest_uri@, track@),
    {
        let mut url = self.inner.rest_uri.clone();
        url.append("/decodetrack");
        RestRequest { url, parameter: "track", value: String::from_str(track) }
    }
}

} // verus!
