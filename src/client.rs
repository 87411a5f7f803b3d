use vstd::prelude::*;

use crate::address::join3;
use crate::address::parse_url;
use crate::address::parsed_url;
use crate::cache::RhyoliteCache;
use crate::error::Error;
use crate::models::Events;

verus! {

/// The client's name and version, sent on every handshake.
pub const CLIENT_NAME: &'static str = "RHYOLITE/0.1.0";

/// The event-stream address of the node at `host`.
pub open spec fn websocket_target(host: Seq<char>) -> Seq<char> {
    "ws://"@ + host + "/v4/websocket"@
}

/// Header names and values as text.
pub open spec fn header_view(h: Seq<(String, String)>) -> Seq<(Seq<char>, Seq<char>)> {
    h.map_values(|p: (String, String)| (p.0@, p.1@))
}

/// What opening the event stream takes: the address and the headers.
#[derive(Debug)]
pub struct ConnectRequest {
    pub url: String,
    pub headers: Vec<(String, String)>,
}

/// What a read from the transport gave.
#[derive(Debug)]
pub enum ReadOutcome {
    /// A text frame.
    Text(String),
    /// A binary, ping, pong or close frame.
    NonText,
    /// The connection was closed cleanly.
    ConnectionClosed,
    /// The connection had already been closed.
    AlreadyClosed,
    /// Any other transport error.
    OtherError,
    /// The stream has ended.
    Ended,
}

/// What the read loop does next.
#[derive(Debug)]
pub enum ReadStep {
    /// Decode this text.
    Frame(String),
    /// Read again.
    Skip,
    /// Stop: the connection is gone.
    Closed,
}

pub open spec fn read_step_spec(outcome: ReadOutcome) -> ReadStep {
    match outcome {
        ReadOutcome::Text(t) => ReadStep::Frame(t),
        ReadOutcome::NonText => ReadStep::Skip,
        ReadOutcome::OtherError => ReadStep::Skip,
        ReadOutcome::ConnectionClosed => ReadStep::Closed,
        ReadOutcome::AlreadyClosed => ReadStep::Closed,
        ReadOutcome::Ended => ReadStep::Closed,
    }
}

/// Decides what a read from the transport leads to: text is decoded, other
/// frames and transient errors are passed over, and a closed or ended
/// connection stops the loop.
pub fn read_step(outcome: ReadOutcome) -> (r: ReadStep)
    ensures
        r == read_step_spec(outcome),
{
    match outcome {
        ReadOutcome::Text(t) => ReadStep::Frame(t),
        ReadOutcome::NonText => ReadStep::Skip,
        ReadOutcome::OtherError => ReadStep::Skip,
        ReadOutcome::ConnectionClosed => ReadStep::Closed,
        ReadOutcome::AlreadyClosed => ReadStep::Closed,
        ReadOutcome::Ended => ReadStep::Closed,
    }
}

/// The outcome of a frame with its value dropped.
pub open spec fn unit_of(r: Result<Events, Error>) -> Result<(), Error> {
    match r {
        Ok(_) => Ok(()),
        Err(e) => Err(e),
    }
}

/// Hands a decoded frame to its caller, after applying a track event to the
/// cache. The frame comes back unchanged, unless the track event names a
/// guild without a player: then the error does.
pub fn receive_frame(decoded: Result<Events, Error>, cache: &mut RhyoliteCache) -> (r: Result<
    Events,
    Error,
>)
    ensures
        match decoded {
            Ok(Events::Event(e)) => {
                &&& old(cache).after_track_event(*final(cache), e, unit_of(r))
                &&& r is Ok ==> r == decoded
            },
            _ => {
                &&& r == decoded
                &&& final(cache).players() == old(cache).players()
                &&& final(cache).tokens() == old(cache).tokens()
            },
        },
{
    match decoded {
        Ok(Events::Event(e)) => {
            match cache.update_player(&e) {
                Ok(()) => Ok(Events::Event(e)),
                Err(err) => Err(err),
            }
        },
        other => other,
    }
}

/// The state of one event-stream session: where the node is, how the client
/// identifies itself, and the session id the node gave, once it has.
pub struct WsSession {
    connection_url: String,
    authorization: String,
    bot_id: String,
    session_id: Option<String>,
}

impl WsSession {
    pub closed spec fn host(&self) -> Seq<char> {
        self.connection_url@
    }

    pub closed spec fn authorization(&self) -> Seq<char> {
        self.authorization@
    }

    pub closed spec fn bot_id(&self) -> Seq<char> {
        self.bot_id@
    }

    pub closed spec fn session(&self) -> Option<String> {
        self.session_id
    }

    /// The headers of every handshake.
    pub open spec fn base_headers(&self) -> Seq<(Seq<char>, Seq<char>)> {
        seq![
            ("Authorization"@, self.authorization()),
            ("User-Id"@, self.bot_id()),
            ("Client-Name"@, CLIENT_NAME@),
        ]
    }

    /// A session that has not been handed a session id yet.
    pub fn new(connection_url: &str, authorization: &str, bot_id: &str) -> (r: Self)
        ensures
            r.host() == connection_url@,
            r.authorization() == authorization@,
            r.bot_id() == bot_id@,
            r.session() is None,
    {
        WsSession {
            connection_url: String::from_str(connection_url),
            authorization: String::from_str(authorization),
            bot_id: String::from_str(bot_id),
            session_id: None,
        }
    }

    /// The session id that the node gave, if it has.
    pub fn session_id(&self) -> (r: Option<String>)
        ensures
            r == self.session(),
    {
        crate::models::copy_opt_string(&self.session_id)
    }

    fn base_header_list(&self) -> (r: Vec<(String, String)>)
        ensures
            header_view(r@) == self.base_headers(),
    {
        let mut h: Vec<(String, String)> = Vec::new();
        h.push((String::from_str("Authorization"), String::from_str(self.authorization.as_str())));
        h.push((String::from_str("User-Id"), String::from_str(self.bot_id.as_str())));
        h.push((String::from_str("Client-Name"), String::from_str(CLIENT_NAME)));
        assert(header_view(h@) =~= self.base_headers());
        h
    }

    /// The request that opens a fresh session.
    pub fn connect_request(&self) -> (r: Result<ConnectRequest, Error>)
        ensures
            match parsed_url(websocket_target(self.host())) {
                Some(u) => r matches Ok(req) && req.url@ == u && header_view(req.headers@)
                    == self.base_headers(),
                None => r == Err::<ConnectRequest, Error>(Error::InvalidUrl),
            },
    {
        let target = join3("ws://", self.connection_url.as_str(), "/v4/websocket");
        match parse_url(target.as_str()) {
            Ok(url) => Ok(ConnectRequest { url, headers: self.base_header_list() }),
            Err(_) => Err(Error::InvalidUrl),
        }
    }

    /// The request that resumes this session. A transport that is still open
    /// cannot be resumed, nor a session that the node never gave an id.
    pub fn resume_request(&self, transport_terminated: bool) -> (r: Result<ConnectRequest, Error>)
        ensures
            !transport_terminated ==> r == Err::<ConnectRequest, Error>(Error::AlreadyConnected),
            transport_terminated ==> match parsed_url(websocket_target(self.host())) {
                None => r == Err::<ConnectRequest, Error>(Error::InvalidUrl),
                Some(u) => match self.session() {
                    None => r == Err::<ConnectRequest, Error>(Error::CouldntReconnect),
                    Some(s) => r matches Ok(req) && req.url@ == u && header_view(req.headers@)
                        == self.base_headers().push(("Session-Id"@, s@)),
                },
            },
    {
        if !transport_terminated {
            return Err(Error::AlreadyConnected);
        }
        let target = join3("ws://", self.connection_url.as_str(), "/v4/websocket");
        let url = match parse_url(target.as_str()) {
            Ok(url) => url,
            Err(_) => return Err(Error::InvalidUrl),
        };
        match &self.session_id {
            Some(s) => {
                let mut headers = self.base_header_list();
                headers.push((String::from_str("Session-Id"), String::from_str(s.as_str())));
                assert(header_view(headers@) =~= self.base_headers().push(("Session-Id"@, s@)));
                Ok(ConnectRequest { url, headers })
            },
            None => Err(Error::CouldntReconnect),
        }
    }

    /// Completes a handshake with the first frame of the connection, which
    /// must be a ready frame: its session id is stored. Any other frame, or a
    /// frame that did not decode, fails the handshake and changes nothing.
    pub fn accept_handshake(&mut self, first: Result<Events, Error>, resuming: bool) -> (r: Result<
        (),
        Error,
    >)
        ensures
            final(self).host() == old(self).host(),
            final(self).authorization() == old(self).authorization(),
            final(self).bot_id() == old(self).bot_id(),
            match first {
                Ok(Events::Ready(ready)) => r is Ok && final(self).session() == Some(
                    ready.session_id,
                ),
                _ => {
                    &&& r == Err::<(), Error>(
                        if resuming {
                            Error::CouldntReconnect
                        } else {
                            Error::HandshakeFailed
                        },
                    )
                    &&& final(self).session() == old(self).session()
                },
            },
    {
        match first {
            Ok(Events::Ready(ready)) => {
                self.session_id = Some(ready.session_id);
                Ok(())
            },
            _ => {
                if resuming {
                    Err(Error::CouldntReconnect)
                } else {
                    Err(Error::HandshakeFailed)
                }
            },
        }
    }
}

} // verus!
