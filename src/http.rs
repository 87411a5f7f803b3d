use vstd::prelude::*;

use crate::address::join3;
use crate::address::parse_url_with_param;
use crate::address::parsed_url;
use crate::address::url_with_query;
use crate::error::Error;
use crate::models::LoadTracksResult;

verus! {

/// The track-search endpoint of the node at `host`.
pub open spec fn search_base(host: Seq<char>) -> Seq<char> {
    "http://"@ + host + "/v4"@
}

/// Where the track searches of one node go.
pub struct TrackSearch {
    url: String,
}

impl TrackSearch {
    /// The node's API root, `http://{host}/v4`.
    pub closed spec fn base(&self) -> Seq<char> {
        self.url@
    }

    pub fn new(host: &str) -> (r: Self)
        ensures
            r.base() == search_base(host@),
    {
        TrackSearch { url: join3("http://", host, "/v4") }
    }

    /// The address of a search for `identifier`: the `loadtracks` endpoint,
    /// with the identifier as its `identifier` query parameter.
    pub fn load_tracks_url(&self, identifier: &str) -> (r: Result<String, Error>)
        ensures
            parsed_url(self.base() + "/loadtracks"@) is Some ==> (r matches Ok(u) && u@
                == url_with_query(self.base() + "/loadtracks"@, "identifier"@, identifier@)),
            parsed_url(self.base() + "/loadtracks"@) is None ==> r == Err::<String, Error>(
                Error::InvalidUrl,
            ),
    {
        let mut endpoint = String::from_str(self.url.as_str());
        endpoint.append("/loadtracks");
        match parse_url_with_param(endpoint.as_str(), "identifier", identifier) {
            Ok(u) => Ok(u),
            Err(_) => Err(Error::InvalidUrl),
        }
    }

    /// The outcome of a search as callers see it: a response that did not
    /// arrive or did not decode is `HttpRequestFailed`, whatever the cause.
    pub fn search_outcome(response: Option<LoadTracksResult>) -> (r: Result<LoadTracksResult, Error>)
        ensures
            match response {
                Some(v) => r == Ok::<LoadTracksResult, Error>(v),
                None => r == Err::<LoadTracksResult, Error>(Error::HttpRequestFailed),
            },
    {
        match response {
            Some(v) => Ok(v),
            None => Err(Error::HttpRequestFailed),
        }
    }
}

} // verus!
