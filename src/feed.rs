use vstd::prelude::*;
use crate::xml::{feed_supported, is_supported_feed};

verus! {

/// One item of a feed: an optional title and optional markup content.
#[derive(Debug, Clone, PartialEq, Eq)]
pub struct Entry {
    pub title: Option<String>,
    pub content: Option<String>,
}

pub struct EntryView {
    pub title: Option<Seq<char>>,
    pub content: Option<Seq<char>>,
}

pub open spec fn opt_view(s: Option<String>) -> Option<Seq<char>> {
    match s {
        Some(t) => Some(t@),
        None => None,
    }
}

impl View for Entry {
    type V = EntryView;

    open spec fn view(&self) -> EntryView {
        EntryView { title: opt_view(self.title), content: opt_view(self.content) }
    }
}

/// A fetched feed: its title and its entries in feed order.
#[derive(Debug, Clone, PartialEq, Eq)]
pub struct Feed {
    pub title: String,
    pub entries: Vec<Entry>,
}

pub struct FeedView {
    pub title: Seq<char>,
    pub entries: Seq<EntryView>,
}

impl View for Feed {
    type V = FeedView;

    open spec fn view(&self) -> FeedView {
        FeedView { title: self.title@, entries: self.entries@.map_values(|e: Entry| e@) }
    }
}

/// Why a feed could not be fetched. Every variant ends the run.
#[derive(Debug, Clone, PartialEq, Eq)]
pub enum FetchError {
    /// The request did not complete (connection, timeout, TLS).
    Transport(String),
    /// The server answered with a status outside 200..=299.
    HttpStatus(u16),
    /// The body is not a feed document; holds the parser's message.
    ParseFailure(String),
}

/// What the feed parser reads from a response body: the channel title and
/// the title and content of each item, or `None` where the body is no feed.
pub uninterp spec fn parsed_feed(body: Seq<u8>) -> Option<FeedView>;

/// The message that the feed parser gives for a body that it cannot read.
pub uninterp spec fn feed_error_text(body: Seq<u8>) -> Seq<char>;

/// Relies on `rss::Channel::read_from`: parses an RSS document; the channel's
/// `title` and each item's `title` and `content` are moved over unchanged,
/// and a parse error becomes its `Display` text. The parser reads extension
/// elements recursively, so bodies nested deeper than `feed_supported`
/// allows are not handed to it.
#[verifier::external_body]
fn read_feed(body: &[u8]) -> (r: Result<Feed, String>)
    requires
        feed_supported(body@),
    ensures
        match r {
            Ok(f) => parsed_feed(body@) == Some(f@),
            Err(m) => parsed_feed(body@) is None && m@ == feed_error_text(body@),
        },
{
    match rss::Channel::read_from(body) {
        Ok(channel) => {
            let entries = channel.items.into_iter().map(|i| Entry { title: i.title, content: i.content });
            Ok(Feed { title: channel.title, entries: entries.collect() })
        },
        Err(e) => Err(format!("{}", e)),
    }
}

pub open spec fn is_success_status(status: u16) -> bool {
    200 <= status <= 299
}

/// Turns a response into a feed: a status outside 200..=299 is
/// `HttpStatus`; a body nested deeper than the parser can take is
/// `ParseFailure` with a message saying so; otherwise the body is parsed,
/// and a body that is no feed is `ParseFailure` with the parser's message.
pub fn feed_from_response(status: u16, body: &[u8]) -> (r: Result<Feed, FetchError>)
    ensures
        !is_success_status(status) ==> r == Err::<Feed, FetchError>(FetchError::HttpStatus(status)),
        is_success_status(status) && !feed_supported(body@) ==> match r {
            Err(FetchError::ParseFailure(m)) => m@ == "element nesting too deep"@,
            _ => false,
        },
        is_success_status(status) && feed_supported(body@) ==> match (r, parsed_feed(body@)) {
            (Ok(f), Some(v)) => f@ == v,
            (Err(FetchError::ParseFailure(m)), None) => m@ == feed_error_text(body@),
            _ => false,
        },
{
    if status < 200 || status > 299 {
        return Err(FetchError::HttpStatus(status));
    }
    if !is_supported_feed(body) {
        return Err(FetchError::ParseFailure(String::from_str("element nesting too deep")));
    }
    match read_feed(body) {
        Ok(f) => Ok(f),
        Err(m) => Err(FetchError::ParseFailure(m)),
    }
}

} // verus!
