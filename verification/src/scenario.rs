use vstd::prelude::*;

use crate::map_level::map_level::MapLevel;
use crate::server_response::{Colour, PlayerInfo};
use crate::tile_coords_xz::TileCoordsXZ;
use crate::{PlayerId, PlayerName, ScenarioId};

verus! {

/// A game's starting point: its map and its players.
#[derive(Clone)]
pub struct Scenario {
    pub scenario_id: ScenarioId,
    pub players: Vec<PlayerProfile>,
    pub map_level: MapLevel,
}

impl Scenario {
    /// Whether the map is valid.
    pub fn is_valid(&self) -> (r: Result<(), String>)
        ensures
            r is Ok <==> (self.map_level.spec_terrain().spec_is_valid()
                && self.map_level.spec_water().spec_is_valid()),
    {
        self.map_level.is_valid()?;
        Ok(())
    }
}

/// A player as a scenario sets it up: who it is and where its first construction yard goes.
#[derive(Clone)]
pub struct PlayerProfile {
    pub player_id: PlayerId,
    pub player_name: PlayerName,
    pub player_colour: Colour,
    pub initial_construction_yard: TileCoordsXZ,
}

impl PlayerProfile {
    pub fn new(
        player_id: PlayerId,
        player_name: PlayerName,
        player_colour: Colour,
        initial_construction_yard: TileCoordsXZ,
    ) -> (r: PlayerProfile)
        ensures
            r == (PlayerProfile { player_id, player_name, player_colour, initial_construction_yard }),
    {
        PlayerProfile { player_id, player_name, player_colour, initial_construction_yard }
    }

    /// The player this profile describes.
    pub fn to_player_info(&self) -> (r: PlayerInfo)
        ensures
            r == (PlayerInfo { id: self.player_id, name: self.player_name, colour: self.player_colour }),
    {
        PlayerInfo { id: self.player_id, name: self.player_name.copy(), colour: self.player_colour }
    }
}

} // verus!
