use vstd::prelude::*;

use dashmap::DashMap;

use crate::error::Error;
use crate::models::copy_opt_string;
use crate::models::copy_opt_track;
use crate::models::track_events::Event;
use crate::models::track_events::TrackEndReason;
use crate::models::Track;

verus! {

#[verifier::external_type_specification]
#[verifier::external_body]
#[verifier::reject_recursive_types(K)]
#[verifier::reject_recursive_types(V)]
#[verifier::reject_recursive_types(S)]
pub struct ExDashMap<K, V, S>(DashMap<K, V, S>);

/// Guild id to the guild's player.
pub type PlayerMap = DashMap<u64, RhyolitePlayer>;

/// Guild id to the guild's voice credentials.
pub type TokenMap = DashMap<u64, GuildToken>;

/// Channel id to the voice session id in that channel.
pub type SessionMap = DashMap<u64, String>;

/// What a guild-to-player map holds.
pub uninterp spec fn player_entries(m: PlayerMap) -> Map<u64, RhyolitePlayer>;

/// What a guild-to-voice-token map holds.
pub uninterp spec fn token_entries(m: TokenMap) -> Map<u64, GuildToken>;

/// What a channel-to-voice-session map holds.
pub uninterp spec fn session_entries(m: SessionMap) -> Map<u64, String>;

/// The entry of `k`, if any.
pub open spec fn entry_of<V>(m: Map<u64, V>, k: u64) -> Option<V> {
    if m.dom().contains(k) {
        Some(m[k])
    } else {
        None
    }
}

/// Relies on DashMap::new: a map with no entries.
#[verifier::external_body]
fn new_player_map() -> (r: PlayerMap)
    ensures
        player_entries(r).dom().is_empty(),
{
    DashMap::new()
}

/// Relies on DashMap::insert: the entry of `k` becomes `v`; the old one is returned.
#[verifier::external_body]
fn insert_player_entry(m: &mut PlayerMap, k: u64, v: RhyolitePlayer) -> (r:
    Option<RhyolitePlayer>)
    ensures
        player_entries(*final(m)) == player_entries(*old(m)).insert(k, v),
        r == entry_of(player_entries(*old(m)), k),
{
    m.insert(k, v)
}

/// Relies on DashMap::remove: the entry of `k` leaves the map and is returned.
#[verifier::external_body]
fn remove_player_entry(m: &mut PlayerMap, k: u64) -> (r: Option<
    RhyolitePlayer,
>)
    ensures
        player_entries(*final(m)) == player_entries(*old(m)).remove(k),
        r == entry_of(player_entries(*old(m)), k),
{
    m.remove(&k).map(|(_, v)| v)
}

/// Relies on DashMap::get: the entry of `k`, copied out.
#[verifier::external_body]
fn get_player_entry(m: &PlayerMap, k: u64) -> (r: Option<RhyolitePlayer>)
    ensures
        r == entry_of(player_entries(*m), k),
{
    m.get(&k).map(|p| p.duplicate())
}

/// Relies on DashMap::new: a map with no entries.
#[verifier::external_body]
fn new_token_map() -> (r: TokenMap)
    ensures
        token_entries(r).dom().is_empty(),
{
    DashMap::new()
}

/// Relies on DashMap::insert: the entry of `k` becomes `v`; the old one is returned.
#[verifier::external_body]
fn insert_token_entry(m: &mut TokenMap, k: u64, v: GuildToken) -> (r: Option<
    GuildToken,
>)
    ensures
        token_entries(*final(m)) == token_entries(*old(m)).insert(k, v),
        r == entry_of(token_entries(*old(m)), k),
{
    m.insert(k, v)
}

/// Relies on DashMap::remove: the entry of `k` leaves the map and is returned.
#[verifier::external_body]
fn remove_token_entry(m: &mut TokenMap, k: u64) -> (r: Option<GuildToken>)
    ensures
        token_entries(*final(m)) == token_entries(*old(m)).remove(k),
        r == entry_of(token_entries(*old(m)), k),
{
    m.remove(&k).map(|(_, v)| v)
}

/// Relies on DashMap::get: the credentials that the entry of `k` holds for `channel`.
#[verifier::external_body]
fn get_token_credentials(m: &TokenMap, k: u64, channel: u64) -> (r: Option<
    VoiceCredentials,
>)
    ensures
        r == (match entry_of(token_entries(*m), k) {
            Some(t) => Some(t.credentials_spec(channel)),
            None => None,
        }),
{
    m.get(&k).map(|t| t.credentials(channel))
}

/// Relies on DashMap::new: a map with no entries.
#[verifier::external_body]
fn new_session_map() -> (r: SessionMap)
    ensures
        session_entries(r).dom().is_empty(),
{
    DashMap::new()
}

/// Relies on DashMap::insert: the entry of `k` becomes `v`; the old one is returned.
#[verifier::external_body]
fn insert_session_entry(m: &mut SessionMap, k: u64, v: String) -> (r: Option<String>)
    ensures
        session_entries(*final(m)) == session_entries(*old(m)).insert(k, v),
        r == entry_of(session_entries(*old(m)), k),
{
    m.insert(k, v)
}

/// Relies on DashMap::get: the entry of `k`, copied out.
#[verifier::external_body]
fn get_session_entry(m: &SessionMap, k: u64) -> (r: Option<String>)
    ensures
        r == entry_of(session_entries(*m), k),
{
    m.get(&k).map(|s| copy_string(s.value()))
}

/// A copy of `s`.
pub fn copy_string(s: &String) -> (r: String)
    ensures
        r == *s,
{
    s.clone()
}

/// A guild's player: the voice channel it is bound to and the track it plays.
#[derive(Debug)]
pub struct RhyolitePlayer {
    pub channel_id: u64,
    pub track: Option<Track>,
}

impl RhyolitePlayer {
    /// A field-by-field copy.
    pub fn duplicate(&self) -> (r: RhyolitePlayer)
        ensures
            r == *self,
    {
        RhyolitePlayer { channel_id: self.channel_id, track: copy_opt_track(&self.track) }
    }
}

/// A guild's voice-server credentials and the voice session of each channel.
pub struct GuildToken {
    pub token: String,
    pub endpoint: Option<String>,
    pub channel_sessions: SessionMap,
}

/// What a voice connection into one channel of a guild needs.
#[derive(Debug)]
pub struct VoiceCredentials {
    pub token: String,
    pub endpoint: Option<String>,
    pub session_id: Option<String>,
}

impl GuildToken {
    /// The voice session recorded for each channel.
    pub open spec fn sessions(&self) -> Map<u64, String> {
        session_entries(self.channel_sessions)
    }

    pub open spec fn credentials_spec(&self, channel: u64) -> VoiceCredentials {
        VoiceCredentials {
            token: self.token,
            endpoint: self.endpoint,
            session_id: entry_of(self.sessions(), channel),
        }
    }

    /// The token, the endpoint and the voice session of `channel`.
    pub fn credentials(&self, channel: u64) -> (r: VoiceCredentials)
        ensures
            r == self.credentials_spec(channel),
    {
        VoiceCredentials {
            token: copy_string(&self.token),
            endpoint: copy_opt_string(&self.endpoint),
            session_id: get_session_entry(&self.channel_sessions, channel),
        }
    }
}

/// A voice-server notification of the chat gateway.
#[derive(Debug)]
pub struct VoiceServerUpdate {
    pub guild_id: u64,
    pub token: String,
    pub endpoint: Option<String>,
}

/// A voice-state notification of the chat gateway. Absent ids mean that the
/// member left voice altogether.
#[derive(Debug)]
pub struct VoiceStateUpdate {
    pub guild_id: Option<u64>,
    pub channel_id: Option<u64>,
    pub session_id: String,
}

/// The chat-gateway notifications that the cache reads; `Other` stands for
/// every other one.
#[derive(Debug)]
pub enum VoiceEvent {
    VoiceServerUpdate(VoiceServerUpdate),
    VoiceStateUpdate(VoiceStateUpdate),
    Other,
}

/// Voice credentials and players, each keyed by guild id.
pub struct RhyoliteCache {
    guild_tokens: TokenMap,
    players: PlayerMap,
}

impl RhyoliteCache {
    /// The player of each guild.
    pub closed spec fn players(&self) -> Map<u64, RhyolitePlayer> {
        player_entries(self.players)
    }

    /// The voice credentials of each guild.
    pub closed spec fn tokens(&self) -> Map<u64, GuildToken> {
        token_entries(self.guild_tokens)
    }

    /// `next` is `self` after the voice-server update `u`: the guild's token
    /// and endpoint are overwritten (the record is created, with no channel
    /// sessions, when the guild had none), and nothing else changes.
    pub open spec fn after_server_update(self, next: Self, u: VoiceServerUpdate) -> bool {
        let g = u.guild_id;
        &&& next.players() == self.players()
        &&& next.tokens().dom() == self.tokens().dom().insert(g)
        &&& next.tokens().remove(g) == self.tokens().remove(g)
        &&& next.tokens()[g].token == u.token
        &&& next.tokens()[g].endpoint == u.endpoint
        &&& next.tokens()[g].sessions() == (if self.tokens().dom().contains(g) {
            self.tokens()[g].sessions()
        } else {
            Map::empty()
        })
    }

    /// Whether the voice-state update `u` records a session: it names a guild
    /// and a channel, the guild has voice credentials, and the guild's player,
    /// if there is one, is bound to that channel.
    pub open spec fn records_session(self, u: VoiceStateUpdate) -> bool {
        &&& u.guild_id is Some
        &&& u.channel_id is Some
        &&& self.tokens().dom().contains(u.guild_id->0)
        &&& self.players().dom().contains(u.guild_id->0) ==> self.players()[u.guild_id->0].channel_id
            == u.channel_id->0
    }

    /// `next` is `self` after the voice-state update `u`: where it records a
    /// session, the channel's session id in the guild's record becomes `u`'s;
    /// otherwise nothing changes. Players never change.
    pub open spec fn after_state_update(self, next: Self, u: VoiceStateUpdate) -> bool {
        &&& next.players() == self.players()
        &&& if self.records_session(u) {
            let g = u.guild_id->0;
            &&& next.tokens().dom() == self.tokens().dom()
            &&& next.tokens().remove(g) == self.tokens().remove(g)
            &&& next.tokens()[g].token == self.tokens()[g].token
            &&& next.tokens()[g].endpoint == self.tokens()[g].endpoint
            &&& next.tokens()[g].sessions() == self.tokens()[g].sessions().insert(
                u.channel_id->0,
                u.session_id,
            )
        } else {
            next.tokens() == self.tokens()
        }
    }

    /// `next` and `r` are `self` and the outcome after the voice event `e`.
    pub open spec fn after_voice_event(self, next: Self, e: VoiceEvent, r: Result<(), Error>) -> bool {
        &&& r is Ok
        &&& match e {
            VoiceEvent::VoiceServerUpdate(u) => self.after_server_update(next, u),
            VoiceEvent::VoiceStateUpdate(u) => self.after_state_update(next, u),
            VoiceEvent::Other => next.players() == self.players() && next.tokens()
                == self.tokens(),
        }
    }

    /// `next` and `r` are `self` and the outcome after the track event `e`.
    /// A start sets the guild's track, an end clears it, and both fail with
    /// `UnknownPlayer`, changing nothing, when the guild has no player. A
    /// closed voice connection removes the guild's player. Exceptions and
    /// stuck tracks change nothing. Voice credentials never change.
    pub open spec fn after_track_event(self, next: Self, e: Event, r: Result<(), Error>) -> bool {
        let players = self.players();
        &&& next.tokens() == self.tokens()
        &&& match e {
            Event::Start { guild_id, track } => if players.dom().contains(guild_id) {
                &&& r is Ok
                &&& next.players() == players.insert(
                    guild_id,
                    RhyolitePlayer { channel_id: players[guild_id].channel_id, track: Some(track) },
                )
            } else {
                r == Err::<(), Error>(Error::UnknownPlayer) && next.players() == players
            },
            Event::End { guild_id, .. } => if players.dom().contains(guild_id) {
                &&& r is Ok
                &&& next.players() == players.insert(
                    guild_id,
                    RhyolitePlayer { channel_id: players[guild_id].channel_id, track: None },
                )
            } else {
                r == Err::<(), Error>(Error::UnknownPlayer) && next.players() == players
            },
            Event::WebSocketClosed { guild_id, .. } => r is Ok && next.players() == players.remove(
                guild_id,
            ),
            _ => r is Ok && next.players() == players,
        }
    }

    /// An empty cache.
    pub fn new() -> (r: Self)
        ensures
            r.players() == Map::<u64, RhyolitePlayer>::empty(),
            r.tokens() == Map::<u64, GuildToken>::empty(),
    {
        let r = RhyoliteCache { guild_tokens: new_token_map(), players: new_player_map() };
        assert(r.players() =~= Map::<u64, RhyolitePlayer>::empty());
        assert(r.tokens() =~= Map::<u64, GuildToken>::empty());
        r
    }

    /// Binds `guild_id` to `player`, in place of the guild's earlier player,
    /// which is returned. Players are created by the bot joining a channel,
    /// outside of the event paths.
    pub fn insert_player(&mut self, guild_id: u64, player: RhyolitePlayer) -> (r: Option<RhyolitePlayer>)
        ensures
            final(self).players() == old(self).players().insert(guild_id, player),
            final(self).tokens() == old(self).tokens(),
            r == entry_of(old(self).players(), guild_id),
    {
        insert_player_entry(&mut self.players, guild_id, player)
    }

    /// The player of `guild_id`, copied out.
    pub fn player(&self, guild_id: u64) -> (r: Option<RhyolitePlayer>)
        ensures
            r == entry_of(self.players(), guild_id),
    {
        get_player_entry(&self.players, guild_id)
    }

    /// What a voice connection of `guild_id` into `channel_id` needs, when the
    /// guild has voice credentials.
    pub fn voice_credentials(&self, guild_id: u64, channel_id: u64) -> (r: Option<VoiceCredentials>)
        ensures
            r == (match entry_of(self.tokens(), guild_id) {
                Some(t) => Some(t.credentials_spec(channel_id)),
                None => None,
            }),
    {
        get_token_credentials(&self.guild_tokens, guild_id, channel_id)
    }

    /// Applies a chat-gateway notification; notifications other than voice
    /// server and voice state updates change nothing.
    pub fn process_vc_event(&mut self, event: VoiceEvent) -> (r: Result<(), Error>)
        ensures
            old(self).after_voice_event(*final(self), event, r),
    {
        match event {
            VoiceEvent::VoiceStateUpdate(v) => self.handle_voice_state_update(v),
            VoiceEvent::VoiceServerUpdate(v) => self.handle_voice_server_update(v),
            VoiceEvent::Other => Ok(()),
        }
    }

    /// Overwrites the guild's voice token and endpoint, creating its record
    /// when there is none; the latest value wins.
    pub fn handle_voice_server_update(&mut self, vsu: VoiceServerUpdate) -> (r: Result<(), Error>)
        ensures
            r is Ok,
            old(self).after_server_update(*final(self), vsu),
    {
        let ghost before = *self;
        let g = vsu.guild_id;
        let sessions = match remove_token_entry(&mut self.guild_tokens, g) {
            Some(t) => t.channel_sessions,
            None => new_session_map(),
        };
        let record = GuildToken { token: vsu.token, endpoint: vsu.endpoint, channel_sessions: sessions };
        insert_token_entry(&mut self.guild_tokens, g, record);
        proof {
            assert(self.tokens().remove(g) =~= before.tokens().remove(g));
            assert(self.tokens().dom() =~= before.tokens().dom().insert(g));
            if !before.tokens().dom().contains(g) {
                assert(self.tokens()[g].sessions() =~= Map::<u64, String>::empty());
            }
        }
        Ok(())
    }

    /// Records the voice session of a channel in the guild's record, unless
    /// the update lacks a guild or a channel, the guild has no record, or the
    /// guild's player is bound to another channel.
    pub fn handle_voice_state_update(&mut self, vsu: VoiceStateUpdate) -> (r: Result<(), Error>)
        ensures
            r is Ok,
            old(self).after_state_update(*final(self), vsu),
    {
        let ghost before = *self;
        if let (Some(g), Some(c)) = (vsu.guild_id, vsu.channel_id) {
            if let Some(p) = get_player_entry(&self.players, g) {
                if p.channel_id != c {
                    return Ok(());
                }
            }
            if let Some(mut record) = remove_token_entry(&mut self.guild_tokens, g) {
                insert_session_entry(&mut record.channel_sessions, c, vsu.session_id);
                insert_token_entry(&mut self.guild_tokens, g, record);
                proof {
                    assert(self.tokens().remove(g) =~= before.tokens().remove(g));
                    assert(self.tokens().dom() =~= before.tokens().dom());
                }
            } else {
                proof {
                    assert(self.tokens() =~= before.tokens());
                }
            }
        }
        Ok(())
    }

    /// Applies a track event of the audio node to the guild's player.
    pub fn update_player(&mut self, track_event: &Event) -> (r: Result<(), Error>)
        ensures
            old(self).after_track_event(*final(self), *track_event, r),
    {
        let ghost before = *self;
        match track_event {
            Event::Start { guild_id, track } => {
                match remove_player_entry(&mut self.players, *guild_id) {
                    Some(p) => {
                        let next = RhyolitePlayer {
                            channel_id: p.channel_id,
                            track: Some(track.duplicate()),
                        };
                        insert_player_entry(&mut self.players, *guild_id, next);
                        proof {
                            assert(self.players() =~= before.players().insert(*guild_id, next));
                        }
                        Ok(())
                    },
                    None => {
                        proof {
                            assert(self.players() =~= before.players());
                        }
                        Err(Error::UnknownPlayer)
                    },
                }
            },
            Event::End { guild_id, .. } => {
                match remove_player_entry(&mut self.players, *guild_id) {
                    Some(p) => {
                        let next = RhyolitePlayer { channel_id: p.channel_id, track: None };
                        insert_player_entry(&mut self.players, *guild_id, next);
                        proof {
                            assert(self.players() =~= before.players().insert(*guild_id, next));
                        }
                        Ok(())
                    },
                    None => {
                        proof {
                            assert(self.players() =~= before.players());
                        }
                        Err(Error::UnknownPlayer)
                    },
                }
            },
            Event::WebSocketClosed { guild_id, .. } => {
                remove_player_entry(&mut self.players, *guild_id);
                Ok(())
            },
            _ => Ok(()),
        }
    }
}

impl Default for RhyoliteCache {
    fn default() -> (r: Self)
        ensures
            r.players() == Map::<u64, RhyolitePlayer>::empty(),
            r.tokens() == Map::<u64, GuildToken>::empty(),
    {
        RhyoliteCache::new()
    }
}

/// Two voice-server updates of one guild leave the second update's token and
/// endpoint: the latest value wins and no history is kept.
pub proof fn lemma_server_update_last_write_wins(
    c0: RhyoliteCache,
    c1: RhyoliteCache,
    c2: RhyoliteCache,
    u1: VoiceServerUpdate,
    u2: VoiceServerUpdate,
)
    requires
        u1.guild_id == u2.guild_id,
        c0.after_server_update(c1, u1),
        c1.after_server_update(c2, u2),
    ensures
        c2.tokens()[u2.guild_id].token == u2.token,
        c2.tokens()[u2.guild_id].endpoint == u2.endpoint,
{
}

/// A voice-state update for a channel other than the one the guild's player is
/// bound to leaves the players, and the voice sessions, as they were.
pub proof fn lemma_foreign_channel_keeps_player(
    c0: RhyoliteCache,
    c1: RhyoliteCache,
    u: VoiceStateUpdate,
)
    requires
        u.guild_id is Some,
        u.channel_id is Some,
        c0.players().dom().contains(u.guild_id->0),
        c0.players()[u.guild_id->0].channel_id != u.channel_id->0,
        c0.after_state_update(c1, u),
    ensures
        c1.players() == c0.players(),
        c1.players()[u.guild_id->0].channel_id == c0.players()[u.guild_id->0].channel_id,
        c1.tokens() == c0.tokens(),
{
}

/// On a guild with a player, a track start sets the player's track to the
/// event's track, and a track end that follows clears it; the bound channel
/// stays.
pub proof fn lemma_start_then_end(
    c0: RhyoliteCache,
    c1: RhyoliteCache,
    c2: RhyoliteCache,
    guild_id: u64,
    track: Track,
    ended: Track,
    reason: TrackEndReason,
    r1: Result<(), Error>,
    r2: Result<(), Error>,
)
    requires
        c0.players().dom().contains(guild_id),
        c0.after_track_event(c1, Event::Start { guild_id, track }, r1),
        c1.after_track_event(c2, Event::End { guild_id, track: ended, reason }, r2),
    ensures
        r1 is Ok,
        c1.players()[guild_id].track == Some(track),
        c1.players()[guild_id].channel_id == c0.players()[guild_id].channel_id,
        r2 is Ok,
        c2.players()[guild_id].track == None::<Track>,
        c2.players()[guild_id].channel_id == c0.players()[guild_id].channel_id,
{
}

/// A closed voice connection removes the guild's player, and a track start that
/// follows fails with `UnknownPlayer` and brings no player back.
pub proof fn lemma_closed_then_start_fails(
    c0: RhyoliteCache,
    c1: RhyoliteCache,
    c2: RhyoliteCache,
    guild_id: u64,
    code: i32,
    reason: String,
    by_remote: bool,
    track: Track,
    r1: Result<(), Error>,
    r2: Result<(), Error>,
)
    requires
        c0.after_track_event(c1, Event::WebSocketClosed { guild_id, code, reason, by_remote }, r1),
        c1.after_track_event(c2, Event::Start { guild_id, track }, r2),
    ensures
        r1 is Ok,
        !c1.players().dom().contains(guild_id),
        r2 == Err::<(), Error>(Error::UnknownPlayer),
        !c2.players().dom().contains(guild_id),
{
}

} // verus!
