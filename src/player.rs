//! Player identity and per-connection player context.

use vstd::prelude::*;

verus! {

/// The parts that identify a player, constant for a session.
#[derive(Debug, Clone, PartialEq, Eq, Hash)]
pub struct PlayerIdentity {
    /// Database user id.
    pub user_id: i64,
    /// Display name.
    pub username: String,
    /// Avatar URL, if any.
    pub avatar_url: Option<String>,
}

impl PlayerIdentity {
    /// A new player identity.
    pub fn new(user_id: i64, username: &str, avatar_url: Option<String>) -> (r: Self)
        ensures
            r.user_id == user_id,
            r.username@ == username@,
            r.avatar_url == avatar_url,
    {
        PlayerIdentity { user_id, username: username.to_owned(), avatar_url }
    }
}

/// A connected player: identity plus where the player currently is.
#[derive(Debug, Clone)]
pub struct PlayerContext {
    /// Identity, constant for the session.
    pub identity: PlayerIdentity,
    /// Whether the player has admin privileges.
    pub is_admin: bool,
    /// Current lobby, if in one.
    pub lobby_id: Option<String>,
    /// Current game, if in one (playing or spectating).
    pub game_id: Option<String>,
    /// Whether the player is spectating rather than playing.
    pub is_spectating: bool,
}

impl PlayerContext {
    /// Context of a freshly connected player: in no lobby and no game.
    pub fn new(user_id: i64, username: &str, avatar_url: Option<String>, is_admin: bool) -> (r:
        Self)
        ensures
            r.identity.user_id == user_id,
            r.identity.username@ == username@,
            r.identity.avatar_url == avatar_url,
            r.is_admin == is_admin,
            r.lobby_id is None,
            r.game_id is None,
            !r.is_spectating,
    {
        PlayerContext {
            identity: PlayerIdentity::new(user_id, username, avatar_url),
            is_admin,
            lobby_id: None,
            game_id: None,
            is_spectating: false,
        }
    }

    /// Context for an existing identity: in no lobby and no game.
    pub fn from_identity(identity: PlayerIdentity, is_admin: bool) -> (r: Self)
        ensures
            r.identity == identity,
            r.is_admin == is_admin,
            r.lobby_id is None,
            r.game_id is None,
            !r.is_spectating,
    {
        PlayerContext { identity, is_admin, lobby_id: None, game_id: None, is_spectating: false }
    }

    /// User id.
    pub fn user_id(&self) -> (r: i64)
        ensures
            r == self.identity.user_id,
    {
        self.identity.user_id
    }

    /// Display name.
    pub fn username(&self) -> (r: &str)
        ensures
            r@ == self.identity.username@,
    {
        self.identity.username.as_str()
    }

    /// Avatar URL, if any.
    pub fn avatar_url(&self) -> (r: Option<&str>)
        ensures
            match r {
                Some(s) => self.identity.avatar_url is Some && s@
                    == self.identity.avatar_url->0@,
                None => self.identity.avatar_url is None,
            },
    {
        match &self.identity.avatar_url {
            Some(url) => Some(url.as_str()),
            None => None,
        }
    }

    /// Whether the player is in a lobby.
    pub fn in_lobby(&self) -> (r: bool)
        ensures
            r == self.lobby_id is Some,
    {
        self.lobby_id.is_some()
    }

    /// Whether the player is in a game, playing or spectating.
    pub fn in_game(&self) -> (r: bool)
        ensures
            r == self.game_id is Some,
    {
        self.game_id.is_some()
    }

    /// Whether the player is in a game as a player, not a spectator.
    pub fn is_playing(&self) -> (r: bool)
        ensures
            r == (self.game_id is Some && !self.is_spectating),
    {
        self.game_id.is_some() && !self.is_spectating
    }

    /// Move to another lobby, or out of any with `None`.
    pub fn set_lobby(&mut self, lobby_id: Option<String>)
        ensures
            final(self).lobby_id == lobby_id,
            final(self).identity == old(self).identity,
            final(self).is_admin == old(self).is_admin,
            final(self).game_id == old(self).game_id,
            final(self).is_spectating == old(self).is_spectating,
    {
        self.lobby_id = lobby_id;
    }

    /// Move to another game, or out of any with `None`, as player or
    /// spectator.
    pub fn set_game(&mut self, game_id: Option<String>, is_spectating: bool)
        ensures
            final(self).game_id == game_id,
            final(self).is_spectating == is_spectating,
            final(self).identity == old(self).identity,
            final(self).is_admin == old(self).is_admin,
            final(self).lobby_id == old(self).lobby_id,
    {
        self.game_id = game_id;
        self.is_spectating = is_spectating;
    }
}

} // verus!
