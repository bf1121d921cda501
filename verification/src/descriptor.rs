//! Feed descriptors: the immutable configuration of one upstream exchange feed.
//!
//! A descriptor names the websocket endpoint, the identifier under which the
//! feed's payloads are published, and the text frames to send once the
//! handshake is done, before the first read.

use crate::envelope::{is_identifier, valid_identifier};
use vstd::prelude::*;
use vstd::string::*;

verus! {

/// The error of `url::Url::parse`, carried as it is.
#[verifier::external_type_specification]
#[verifier::external_body]
pub struct ExParseError(url::ParseError);

/// What `url::Url::parse` makes of `text`: the serialization of the absolute
/// URL it reads there, or `None` where it reads none.
pub uninterp spec fn normalized_url(text: Seq<char>) -> Option<Seq<char>>;

/// Calls `url::Url::parse` on `text` and, where it succeeds, takes the URL's
/// serialization out of it with `String::from`.
///
/// Trusted: the parser reads nothing but `text`, so the outcome is the one
/// that `normalized_url` names.
#[verifier::external_body]
fn parse_url(text: &str) -> (r: Result<String, url::ParseError>)
    ensures
        r matches Ok(u) ==> normalized_url(text@) == Some(u@),
        r is Err ==> normalized_url(text@) is None,
{
    url::Url::parse(text).map(String::from)
}

/// One upstream feed.
#[derive(Debug)]
pub struct FeedDescriptor {
    url: String,
    exchange: String,
    subscriptions: Vec<String>,
}

/// A descriptor as plain values.
pub struct FeedView {
    /// The endpoint, as configured.
    pub url: Seq<char>,
    /// The identifier that tags every envelope of this feed.
    pub exchange: Seq<char>,
    /// The text frames to send after the handshake, in order.
    pub subscriptions: Seq<Seq<char>>,
}

impl View for FeedDescriptor {
    type V = FeedView;

    closed spec fn view(&self) -> FeedView {
        FeedView {
            url: self.url@,
            exchange: self.exchange@,
            subscriptions: self.subscriptions.deep_view(),
        }
    }
}

/// The Binance trade feed: no subscription frame is needed.
pub open spec fn binance_feed() -> FeedView {
    FeedView {
        url: "wss://stream.binance.com:9443/ws/btcusdt@trade"@,
        exchange: "binance"@,
        subscriptions: Seq::empty(),
    }
}

/// The Bybit trade feed: one subscription frame follows the handshake.
pub open spec fn bybit_feed() -> FeedView {
    FeedView {
        url: "wss://stream.bybit.com/v5/public/linear"@,
        exchange: "bybit"@,
        subscriptions: seq!["{\"op\":\"subscribe\",\"args\":[\"publicTrade.BTCUSDT\"]}"@],
    }
}

impl FeedDescriptor {
    #[verifier::type_invariant]
    spec fn valid(&self) -> bool {
        is_identifier(self.exchange@)
    }

    /// Describes a feed. The identifier must be able to name a feed; a
    /// descriptor is returned exactly when it is.
    pub fn new(url: String, exchange: String, subscriptions: Vec<String>) -> (r: Option<
        FeedDescriptor,
    >)
        ensures
            r is Some <==> is_identifier(exchange@),
            r matches Some(d) ==> d@ == (FeedView {
                url: url@,
                exchange: exchange@,
                subscriptions: subscriptions.deep_view(),
            }),
    {
        if valid_identifier(exchange.as_str()) {
            Some(FeedDescriptor { url, exchange, subscriptions })
        } else {
            None
        }
    }

    /// The descriptor of the Binance trade feed.
    pub fn binance() -> (d: FeedDescriptor)
        ensures
            d@ == binance_feed(),
    {
        let exchange = String::from_str("binance");
        proof {
            reveal_strlit("binance");
        }
        let d = FeedDescriptor {
            url: String::from_str("wss://stream.binance.com:9443/ws/btcusdt@trade"),
            exchange,
            subscriptions: Vec::new(),
        };
        assert(d@.subscriptions =~= Seq::empty());
        d
    }

    /// The descriptor of the Bybit trade feed.
    pub fn bybit() -> (d: FeedDescriptor)
        ensures
            d@ == bybit_feed(),
    {
        let exchange = String::from_str("bybit");
        proof {
            reveal_strlit("bybit");
        }
        let mut subscriptions: Vec<String> = Vec::new();
        subscriptions.push(
            String::from_str("{\"op\":\"subscribe\",\"args\":[\"publicTrade.BTCUSDT\"]}"),
        );
        let d = FeedDescriptor {
            url: String::from_str("wss://stream.bybit.com/v5/public/linear"),
            exchange,
            subscriptions,
        };
        assert(d@.subscriptions =~= bybit_feed().subscriptions);
        d
    }

    /// The endpoint, as configured.
    pub fn url(&self) -> (text: &str)
        ensures
            text@ == self@.url,
    {
        self.url.as_str()
    }

    /// The identifier that tags every envelope of this feed.
    pub fn exchange(&self) -> (id: &str)
        ensures
            id@ == self@.exchange,
            is_identifier(id@),
    {
        proof {
            use_type_invariant(self);
        }
        self.exchange.as_str()
    }

    /// The text frames to send after the handshake, in order.
    pub fn subscriptions(&self) -> (frames: &Vec<String>)
        ensures
            frames.deep_view() == self@.subscriptions,
    {
        &self.subscriptions
    }

    /// The endpoint in the form in which a connection is opened to it, or
    /// `None` where the configured text is no absolute URL.
    pub fn endpoint(&self) -> (r: Option<String>)
        ensures
            r matches Some(u) ==> normalized_url(self@.url) == Some(u@),
            r is None ==> normalized_url(self@.url) is None,
    {
        match parse_url(self.url.as_str()) {
            Ok(u) => Some(u),
            Err(_) => None,
        }
    }
}

impl Clone for FeedDescriptor {
    /// A descriptor of the same feed.
    fn clone(&self) -> (copy: FeedDescriptor)
        ensures
            copy@ == self@,
    {
        proof {
            use_type_invariant(self);
        }
        let mut subscriptions: Vec<String> = Vec::new();
        let mut i: usize = 0;
        while i < self.subscriptions.len()
            invariant
                i <= self.subscriptions.len(),
                subscriptions.len() == i,
                forall|j: int| 0 <= j < i ==> subscriptions@[j]@ == self.subscriptions@[j]@,
            decreases self.subscriptions.len() - i,
        {
            subscriptions.push(self.subscriptions[i].clone());
            i += 1;
        }
        assert(subscriptions.deep_view() =~= self.subscriptions.deep_view());
        FeedDescriptor { url: self.url.clone(), exchange: self.exchange.clone(), subscriptions }
    }
}

/// The feeds that a gateway serves when none are configured: Binance, then
/// Bybit.
pub fn default_feeds() -> (feeds: Vec<FeedDescriptor>)
    ensures
        feeds@.len() == 2,
        feeds@[0]@ == binance_feed(),
        feeds@[1]@ == bybit_feed(),
{
    let mut feeds: Vec<FeedDescriptor> = Vec::new();
    feeds.push(FeedDescriptor::binance());
    feeds.push(FeedDescriptor::bybit());
    feeds
}

} // verus!
