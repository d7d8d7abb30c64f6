use vstd::prelude::*;

use crate::building::BuildError;
use crate::client_command::DemolishSelector;
use crate::randomness::{seeded_colour, seeded_colour_channels};
use crate::{
    ClientId, GameId, IndustryBuildingId, MilitaryBuildingId, PlayerId, PlayerName, ScenarioId,
    StationId, TrackId, TransportId, UserId, UserName,
};

verus! {

/// The answer to a login or logout.
#[derive(Debug, PartialEq, Clone)]
pub enum AuthenticationResponse {
    LoginSucceeded(UserId),
    LogoutSucceeded,
    Error(AuthenticationError),
}

/// Why a login or logout failed.
#[derive(Debug, PartialEq, Clone)]
pub enum AuthenticationError {
    LoginFailed,
    LogoutFailed,
}

/// A game as the lobby lists it.
#[derive(Debug, PartialEq, Clone)]
pub struct GameInfo {
    pub scenario_id: ScenarioId,
    pub game_id: GameId,
    pub players: Vec<PlayerInfo>,
    pub user_players: Vec<(UserId, PlayerId)>,
}

/// The answer to a lobby request.
#[derive(Debug, PartialEq, Clone)]
pub enum LobbyResponse {
    AvailableGames(Vec<GameInfo>),
}

/// A colour given by its red, green and blue channels.
#[derive(Debug, PartialEq, Eq, Structural, Clone, Copy)]
pub struct Colour {
    pub r: u8,
    pub g: u8,
    pub b: u8,
}

impl Colour {
    pub fn rgb(r: u8, g: u8, b: u8) -> (c: Colour)
        ensures
            c == (Colour { r, g, b }),
    {
        Colour { r, g, b }
    }

    /// The colour whose channels are the first three bytes drawn from a generator seeded
    /// with `seed`; the same seed always gives the same colour.
    pub fn random(seed: u64) -> (c: Colour)
        ensures
            (c.r, c.g, c.b) == seeded_colour_channels(seed),
    {
        let (r, g, b) = seeded_colour(seed);
        Colour { r, g, b }
    }
}

/// A player of a game.
#[derive(Debug, PartialEq, Clone)]
pub struct PlayerInfo {
    pub id: PlayerId,
    pub name: PlayerName,
    pub colour: Colour,
}

impl PlayerInfo {
    /// An equal player with its own storage.
    pub(crate) fn copy(&self) -> (r: PlayerInfo)
        ensures
            r == *self,
    {
        PlayerInfo { id: self.id, name: self.name.copy(), colour: self.colour }
    }
}

/// A user of the server.
#[derive(Debug, PartialEq, Clone)]
pub struct UserInfo {
    pub id: UserId,
    pub name: UserName,
}

/// Why a game command failed.
#[derive(Debug, PartialEq, Clone)]
pub enum GameError {
    GameNotFound,
    CannotBuildStation(StationId, BuildError),
    CannotBuildIndustryBuilding(IndustryBuildingId, BuildError),
    CannotBuildMilitaryBuilding(MilitaryBuildingId, BuildError),
    CannotBuildTracks(Vec<TrackId>, BuildError),
    CannotPurchase(TransportId, BuildError),
    CannotDemolish(DemolishSelector),
    UnspecifiedError,
}

/// Why a server request failed.
#[derive(Debug, PartialEq, Clone)]
pub enum ServerError {
    JoinFailedAlreadyInGame,
    LeaveFailedNotInGame,
    GameNotFound,
    NotAuthorized,
    ScenarioNotFound(ScenarioId),
}

/// Whom a response is addressed to.
#[derive(Debug, Clone, PartialEq, Eq, Structural)]
pub enum AddressEnvelope {
    ToClient(ClientId),
    ToUser(UserId),
    ToPlayer(GameId, PlayerId),
    ToAllPlayersInGame(GameId),
}

} // verus!
