use vstd::prelude::*;

pub mod building;
pub mod client_command;
pub mod direction_xz;
pub mod directional_edge;
pub mod edge_xz;
pub mod game_state;
pub mod grid_xz;
pub mod id_map;
pub mod level;
pub mod map_level;
pub mod military;
pub mod networking;
pub mod non_empty_circular_list;
pub mod randomness;
pub mod players;
pub mod production_type;
pub mod resource_type;
pub mod scenario;
pub mod server_response;
pub mod supply_chain;
pub mod seq_util;
pub mod tile_coords_xz;
pub mod tile_coverage;
pub mod transport;
pub mod uuid_text;
pub mod vertex_coords_xz;
pub mod water;

use crate::randomness::{is_v4_uuid_bits, random_u128_below_max, random_uuid_v4};
use crate::tile_coords_xz::TileCoordsXZ;
use crate::uuid_text::parse_uuid;
use crate::transport::track_type::TrackType;

verus! {

/// The identifier of a connected client.
#[derive(Clone, Copy, PartialEq, Eq, Structural, Debug, Hash, PartialOrd, Ord)]
pub struct ClientId(u128);

impl ClientId {
    pub closed spec fn raw(self) -> u128 {
        self.0
    }

    /// A random client identifier.
    pub fn random() -> (r: ClientId)
        ensures
            r.raw() < u128::MAX,
    {
        Self::from_u128(random_u128_below_max())
    }

    pub fn from_u128(raw: u128) -> (r: ClientId)
        ensures
            r.raw() == raw,
    {
        ClientId(raw)
    }

    pub fn as_u128(self) -> (r: u128)
        ensures
            r == self.raw(),
    {
        self.0
    }
}

/// The display name of a player.
#[derive(Clone, Debug, PartialEq, Eq, Hash, PartialOrd, Ord)]
pub struct PlayerName(String);

impl PlayerName {
    pub closed spec fn name(&self) -> Seq<char> {
        self.0@
    }

    pub fn new(name: String) -> (r: PlayerName)
        ensures
            r.name() == name@,
    {
        PlayerName(name)
    }

    /// An equal name with its own storage.
    pub(crate) fn copy(&self) -> (r: PlayerName)
        ensures
            r == *self,
    {
        PlayerName(self.0.clone())
    }
}

/// The display name of a user.
#[derive(Clone, Debug, PartialEq, Eq, Hash, PartialOrd, Ord)]
pub struct UserName(String);

impl UserName {
    pub closed spec fn name(&self) -> Seq<char> {
        self.0@
    }

    pub fn new(name: String) -> (r: UserName)
        ensures
            r.name() == name@,
    {
        UserName(name)
    }

    /// An equal name with its own storage.
    pub(crate) fn copy(&self) -> (r: UserName)
        ensures
            r == *self,
    {
        UserName(self.0.clone())
    }
}

/// The identifier of a user, a UUID held as its 128-bit value.
#[derive(Clone, Copy, PartialEq, Eq, Structural, Debug, Hash, PartialOrd, Ord)]
pub struct UserId(pub u128);

impl UserId {
    pub fn new(uuid: u128) -> (r: UserId)
        ensures
            r.0 == uuid,
    {
        UserId(uuid)
    }

    pub fn random() -> (r: UserId)
        ensures
            is_v4_uuid_bits(r.0),
    {
        UserId(random_uuid_v4())
    }

    /// The exclusive or of the high and the low 64 bits of the UUID.
    pub fn hash_to_u64(self) -> (r: u64)
        ensures
            r == ((self.0 >> 64u128) as u64 ^ self.0 as u64),
    {
        let a = (self.0 >> 64u128) as u64;
        let b = self.0 as u64;
        a ^ b
    }
}

/// The identifier of a player.
#[derive(Clone, Copy, PartialEq, Eq, Structural, Debug, Hash, PartialOrd, Ord)]
pub struct PlayerId(pub u128);

impl PlayerId {
    pub fn new(uuid: u128) -> (r: PlayerId)
        ensures
            r.0 == uuid,
    {
        PlayerId(uuid)
    }

    pub fn random() -> (r: PlayerId)
        ensures
            is_v4_uuid_bits(r.0),
    {
        PlayerId(random_uuid_v4())
    }
}

/// The identifier of a game.
#[derive(Clone, Copy, PartialEq, Eq, Structural, Debug, Hash, PartialOrd, Ord)]
pub struct GameId(pub u128);

impl GameId {
    pub fn new(uuid: u128) -> (r: GameId)
        ensures
            r.0 == uuid,
    {
        GameId(uuid)
    }

    pub fn random() -> (r: GameId)
        ensures
            is_v4_uuid_bits(r.0),
    {
        GameId(random_uuid_v4())
    }
}

/// The identifier of a station.
#[derive(Clone, Copy, PartialEq, Eq, Structural, Debug, Hash, PartialOrd, Ord)]
pub struct StationId(pub u128);

impl StationId {
    pub fn new(uuid: u128) -> (r: StationId)
        ensures
            r.0 == uuid,
    {
        StationId(uuid)
    }

    pub fn random() -> (r: StationId)
        ensures
            is_v4_uuid_bits(r.0),
    {
        StationId(random_uuid_v4())
    }
}

/// The identifier of an industry building.
#[derive(Clone, Copy, PartialEq, Eq, Structural, Debug, Hash, PartialOrd, Ord)]
pub struct IndustryBuildingId(pub u128);

impl IndustryBuildingId {
    pub fn new(uuid: u128) -> (r: IndustryBuildingId)
        ensures
            r.0 == uuid,
    {
        IndustryBuildingId(uuid)
    }

    pub fn random() -> (r: IndustryBuildingId)
        ensures
            is_v4_uuid_bits(r.0),
    {
        IndustryBuildingId(random_uuid_v4())
    }
}

/// The identifier of a military building.
#[derive(Clone, Copy, PartialEq, Eq, Structural, Debug, Hash, PartialOrd, Ord)]
pub struct MilitaryBuildingId(pub u128);

impl MilitaryBuildingId {
    pub fn new(uuid: u128) -> (r: MilitaryBuildingId)
        ensures
            r.0 == uuid,
    {
        MilitaryBuildingId(uuid)
    }

    pub fn random() -> (r: MilitaryBuildingId)
        ensures
            is_v4_uuid_bits(r.0),
    {
        MilitaryBuildingId(random_uuid_v4())
    }
}

/// The identifier of a military unit.
#[derive(Clone, Copy, PartialEq, Eq, Structural, Debug, Hash, PartialOrd, Ord)]
pub struct MilitaryUnitId(pub u128);

/// The identifier of a transport.
#[derive(Clone, Copy, PartialEq, Eq, Structural, Debug, Hash, PartialOrd, Ord)]
pub struct TransportId(pub u128);

impl TransportId {
    pub fn new(uuid: u128) -> (r: TransportId)
        ensures
            r.0 == uuid,
    {
        TransportId(uuid)
    }

    pub fn random() -> (r: TransportId)
        ensures
            is_v4_uuid_bits(r.0),
    {
        TransportId(random_uuid_v4())
    }
}

/// The identifier of a zoning area.
#[derive(Clone, Copy, PartialEq, Eq, Structural, Debug, Hash, PartialOrd, Ord)]
pub struct ZoningId(pub u128);

impl ZoningId {
    pub fn new(uuid: u128) -> (r: ZoningId)
        ensures
            r.0 == uuid,
    {
        ZoningId(uuid)
    }

    pub fn random() -> (r: ZoningId)
        ensures
            is_v4_uuid_bits(r.0),
    {
        ZoningId(random_uuid_v4())
    }
}

/// The identifier of a scenario, such as `usa_east`.
#[derive(Clone, Debug, PartialEq, Eq, Hash, PartialOrd, Ord)]
pub struct ScenarioId(pub String);

impl ScenarioId {
    /// The names of the known scenarios, in order.
    pub open spec fn spec_all_names() -> Seq<Seq<char>> {
        seq!["usa_east"@, "europe"@]
    }

    pub fn all() -> (r: Vec<ScenarioId>)
        ensures
            r.len() == 2,
            r[0].0@ == "usa_east"@,
            r[1].0@ == "europe"@,
    {
        let mut r: Vec<ScenarioId> = Vec::new();
        r.push(ScenarioId("usa_east".to_owned()));
        r.push(ScenarioId("europe".to_owned()));
        r
    }

    /// The first known scenario.
    pub fn default_scenario() -> (r: ScenarioId)
        ensures
            r.0@ == "usa_east"@,
    {
        let mut all = Self::all();
        all.swap_remove(0)
    }

    /// An equal identifier with its own storage.
    pub(crate) fn copy(&self) -> (r: ScenarioId)
        ensures
            r == *self,
    {
        ScenarioId(self.0.clone())
    }

    /// The known scenario named `name`, or `Err(())` when there is none.
    pub fn parse(name: &str) -> (r: Result<ScenarioId, ()>)
        ensures
            match r {
                Ok(id) => id.0@ == name@ && (name@ == "usa_east"@ || name@ == "europe"@),
                Err(()) => name@ != "usa_east"@ && name@ != "europe"@,
            },
    {
        let wanted = name.to_owned();
        let all = Self::all();
        let mut i: usize = 0;
        while i < all.len()
            invariant
                i <= all.len(),
                all.len() == 2,
                all[0].0@ == "usa_east"@,
                all[1].0@ == "europe"@,
                wanted@ == name@,
                forall|j: int| 0 <= j < i ==> all[j].0@ != name@,
            decreases all.len() - i,
        {
            if all[i].0 == wanted {
                return Ok(ScenarioId(all[i].0.clone()));
            }
            i = i + 1;
        }
        Err(())
    }
}

impl std::str::FromStr for ScenarioId {
    type Err = ();

    fn from_str(s: &str) -> (r: Result<ScenarioId, ()>)
        ensures
            match r {
                Ok(id) => id.0@ == s@ && (s@ == "usa_east"@ || s@ == "europe"@),
                Err(()) => s@ != "usa_east"@ && s@ != "europe"@,
            },
    {
        ScenarioId::parse(s)
    }
}

impl Default for ScenarioId {
    fn default() -> (r: ScenarioId)
        ensures
            r.0@ == "usa_east"@,
    {
        Self::default_scenario()
    }
}

/// The identifier of a map.
#[derive(Clone, Debug, PartialEq, Eq, Hash, PartialOrd, Ord)]
pub struct MapId(pub String);

/// The identifier of a track: the tile it lies on and its type.
#[derive(Clone, Copy, PartialEq, Eq, Structural, Debug, Hash)]
pub struct TrackId {
    pub tile: TileCoordsXZ,
    pub track_type: TrackType,
}

impl TrackId {
    pub fn new(tile: TileCoordsXZ, track_type: TrackType) -> (r: TrackId)
        ensures
            r.tile == tile,
            r.track_type == track_type,
    {
        TrackId { tile, track_type }
    }
}

impl std::str::FromStr for UserId {
    type Err = uuid::Error;

    /// Reads the identifier from a UUID in text.
    fn from_str(s: &str) -> (r: Result<UserId, uuid::Error>)
        ensures
            match r {
                Ok(id) => crate::uuid_text::parsed_uuid(s@) == Some(id.0),
                Err(_) => crate::uuid_text::parsed_uuid(s@) is None,
            },
    {
        match parse_uuid(s) {
            Ok(value) => Ok(UserId(value)),
            Err(error) => Err(error),
        }
    }
}

impl std::str::FromStr for PlayerId {
    type Err = uuid::Error;

    /// Reads the identifier from a UUID in text.
    fn from_str(s: &str) -> (r: Result<PlayerId, uuid::Error>)
        ensures
            match r {
                Ok(id) => crate::uuid_text::parsed_uuid(s@) == Some(id.0),
                Err(_) => crate::uuid_text::parsed_uuid(s@) is None,
            },
    {
        match parse_uuid(s) {
            Ok(value) => Ok(PlayerId(value)),
            Err(error) => Err(error),
        }
    }
}

impl std::str::FromStr for GameId {
    type Err = uuid::Error;

    /// Reads the identifier from a UUID in text.
    fn from_str(s: &str) -> (r: Result<GameId, uuid::Error>)
        ensures
            match r {
                Ok(id) => crate::uuid_text::parsed_uuid(s@) == Some(id.0),
                Err(_) => crate::uuid_text::parsed_uuid(s@) is None,
            },
    {
        match parse_uuid(s) {
            Ok(value) => Ok(GameId(value)),
            Err(error) => Err(error),
        }
    }
}

impl std::str::FromStr for StationId {
    type Err = uuid::Error;

    /// Reads the identifier from a UUID in text.
    fn from_str(s: &str) -> (r: Result<StationId, uuid::Error>)
        ensures
            match r {
                Ok(id) => crate::uuid_text::parsed_uuid(s@) == Some(id.0),
                Err(_) => crate::uuid_text::parsed_uuid(s@) is None,
            },
    {
        match parse_uuid(s) {
            Ok(value) => Ok(StationId(value)),
            Err(error) => Err(error),
        }
    }
}

impl std::str::FromStr for IndustryBuildingId {
    type Err = uuid::Error;

    /// Reads the identifier from a UUID in text.
    fn from_str(s: &str) -> (r: Result<IndustryBuildingId, uuid::Error>)
        ensures
            match r {
                Ok(id) => crate::uuid_text::parsed_uuid(s@) == Some(id.0),
                Err(_) => crate::uuid_text::parsed_uuid(s@) is None,
            },
    {
        match parse_uuid(s) {
            Ok(value) => Ok(IndustryBuildingId(value)),
            Err(error) => Err(error),
        }
    }
}

impl std::str::FromStr for TransportId {
    type Err = uuid::Error;

    /// Reads the identifier from a UUID in text.
    fn from_str(s: &str) -> (r: Result<TransportId, uuid::Error>)
        ensures
            match r {
                Ok(id) => crate::uuid_text::parsed_uuid(s@) == Some(id.0),
                Err(_) => crate::uuid_text::parsed_uuid(s@) is None,
            },
    {
        match parse_uuid(s) {
            Ok(value) => Ok(TransportId(value)),
            Err(error) => Err(error),
        }
    }
}

impl std::str::FromStr for ZoningId {
    type Err = uuid::Error;

    /// Reads the identifier from a UUID in text.
    fn from_str(s: &str) -> (r: Result<ZoningId, uuid::Error>)
        ensures
            match r {
                Ok(id) => crate::uuid_text::parsed_uuid(s@) == Some(id.0),
                Err(_) => crate::uuid_text::parsed_uuid(s@) is None,
            },
    {
        match parse_uuid(s) {
            Ok(value) => Ok(ZoningId(value)),
            Err(error) => Err(error),
        }
    }
}

} // verus!
