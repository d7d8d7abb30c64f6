use vstd::prelude::*;

use crate::building::industry_building_info::IndustryBuildingInfo;
use crate::building::station_info::StationInfo;
use crate::id_map::Keyed;
use crate::tile_coverage::TileCoverage;
use crate::{IndustryBuildingId, StationId};

verus! {

/// How many tiles at most may lie between an industry building and the station that
/// forwards its cargo.
pub open spec fn cargo_forwarding_distance_threshold() -> int {
    1
}

/// The distance between the closest tiles of an industry building and a station.
pub open spec fn building_station_distance(building: IndustryBuildingInfo, station: StationInfo) -> int {
    TileCoverage::spec_distance(building.spec_covers_tiles(), station.spec_covers_tiles())
}

/// Among `stations`, the first one owned by the building's owner at the least distance
/// from the building, with that distance.
pub open spec fn closest_station(building: IndustryBuildingInfo, stations: Seq<StationInfo>) -> Option<
    (StationInfo, int),
>
    decreases stations.len(),
{
    if stations.len() == 0 {
        None
    } else {
        let before = closest_station(building, stations.drop_last());
        let station = stations.last();
        if station.spec_owner_id() != building.spec_owner_id() {
            before
        } else {
            let distance = building_station_distance(building, station);
            match before {
                None => Some((station, distance)),
                Some((_, best)) => if distance < best {
                    Some((station, distance))
                } else {
                    before
                },
            }
        }
    }
}

/// The link from `building` to its closest own station, when that station is near enough.
pub open spec fn station_link(building: IndustryBuildingInfo, stations: Seq<StationInfo>) -> Option<
    (IndustryBuildingId, StationId),
> {
    match closest_station(building, stations) {
        Some((station, distance)) => if distance <= cargo_forwarding_distance_threshold() {
            Some((building.spec_id(), station.spec_id()))
        } else {
            None
        },
        None => None,
    }
}

/// The links of all `buildings`, in their order, skipping those without a near station.
pub open spec fn links_for(buildings: Seq<IndustryBuildingInfo>, stations: Seq<StationInfo>) -> Seq<
    (IndustryBuildingId, StationId),
>
    decreases buildings.len(),
{
    if buildings.len() == 0 {
        Seq::empty()
    } else {
        let before = links_for(buildings.drop_last(), stations);
        match station_link(buildings.last(), stations) {
            Some(link) => before.push(link),
            None => before,
        }
    }
}

/// The closest station is one of the building owner's stations, and none of the owner's
/// stations is nearer; there is none exactly when the owner has no station.
pub proof fn lemma_closest_station(building: IndustryBuildingInfo, stations: Seq<StationInfo>)
    ensures
        match closest_station(building, stations) {
            Some((station, distance)) => {
                &&& stations.contains(station)
                &&& station.spec_owner_id() == building.spec_owner_id()
                &&& distance == building_station_distance(building, station)
                &&& forall|other: StationInfo|
                    stations.contains(other) && other.spec_owner_id() == building.spec_owner_id()
                        ==> distance <= #[trigger] building_station_distance(building, other)
            },
            None => forall|other: StationInfo|
                stations.contains(other) ==> other.spec_owner_id() != building.spec_owner_id(),
        },
    decreases stations.len(),
{
    if stations.len() > 0 {
        let rest = stations.drop_last();
        lemma_closest_station(building, rest);
        assert forall|other: StationInfo| #[trigger] stations.contains(other) implies rest.contains(other)
            || other == stations.last() by {
            let k = choose|k: int| 0 <= k < stations.len() && stations[k] == other;
            if k < rest.len() {
                assert(rest[k] == other);
            }
        }
        assert(stations.contains(stations.last())) by {
            assert(stations[stations.len() - 1] == stations.last());
        }
        assert forall|other: StationInfo| #[trigger] rest.contains(other) implies stations.contains(other) by {
            let k = choose|k: int| 0 <= k < rest.len() && rest[k] == other;
            assert(stations[k] == other);
        }
    }
}

/// A building has a link exactly when its owner has a station within the forwarding
/// threshold; the linked station is then the owner's, within the threshold, and no other
/// station of the owner is nearer.
pub proof fn lemma_station_link(building: IndustryBuildingInfo, stations: Seq<StationInfo>)
    ensures
        station_link(building, stations) is Some <==> exists|station: StationInfo|
            #![trigger building_station_distance(building, station)]
            stations.contains(station) && station.spec_owner_id() == building.spec_owner_id()
                && building_station_distance(building, station) <= cargo_forwarding_distance_threshold(),
        match station_link(building, stations) {
            Some((building_id, station_id)) => {
                &&& building_id == building.spec_id()
                &&& exists|station: StationInfo|
                    #![trigger building_station_distance(building, station)]
                    stations.contains(station) && station.spec_id() == station_id
                        && station.spec_owner_id() == building.spec_owner_id()
                        && building_station_distance(building, station) <= cargo_forwarding_distance_threshold()
                        && forall|other: StationInfo|
                        stations.contains(other) && other.spec_owner_id() == building.spec_owner_id()
                            ==> building_station_distance(building, station) <= #[trigger] building_station_distance(
                            building,
                            other,
                        )
            },
            None => true,
        },
{
    lemma_closest_station(building, stations);
    match closest_station(building, stations) {
        Some((station, distance)) => {
            assert(building_station_distance(building, station) == distance);
        },
        None => {},
    }
}

/// Every link belongs to one of the buildings and is that building's link, and every
/// building with a link has it among the links.
pub proof fn lemma_links_for(buildings: Seq<IndustryBuildingInfo>, stations: Seq<StationInfo>)
    ensures
        forall|link: (IndustryBuildingId, StationId)| #[trigger]
            links_for(buildings, stations).contains(link) ==> exists|i: int|
                0 <= i < buildings.len() && station_link(#[trigger] buildings[i], stations) == Some(link),
        forall|i: int|
            0 <= i < buildings.len() && station_link(#[trigger] buildings[i], stations) is Some
                ==> links_for(buildings, stations).contains(station_link(buildings[i], stations).unwrap()),
    decreases buildings.len(),
{
    if buildings.len() > 0 {
        let rest = buildings.drop_last();
        lemma_links_for(rest, stations);
        let before = links_for(rest, stations);
        let last = buildings.last();
        assert forall|link: (IndustryBuildingId, StationId)| #[trigger]
            links_for(buildings, stations).contains(link) implies exists|i: int|
                0 <= i < buildings.len() && station_link(#[trigger] buildings[i], stations) == Some(link) by {
            match station_link(last, stations) {
                Some(l) => {
                    crate::seq_util::lemma_push_contains(before, l, link);
                    if before.contains(link) {
                        let i = choose|i: int| 0 <= i < rest.len() && station_link(#[trigger] rest[i], stations) == Some(link);
                        assert(buildings[i] == rest[i]);
                    } else {
                        assert(buildings[buildings.len() - 1] == last);
                    }
                },
                None => {
                    let i = choose|i: int| 0 <= i < rest.len() && station_link(#[trigger] rest[i], stations) == Some(link);
                    assert(buildings[i] == rest[i]);
                },
            }
        }
        assert forall|i: int|
            0 <= i < buildings.len() && station_link(#[trigger] buildings[i], stations) is Some implies links_for(
                buildings,
                stations,
            ).contains(station_link(buildings[i], stations).unwrap()) by {
            let link = station_link(buildings[i], stations).unwrap();
            if i < rest.len() {
                assert(rest[i] == buildings[i]);
                assert(before.contains(link));
                match station_link(last, stations) {
                    Some(l) => crate::seq_util::lemma_push_contains(before, l, link),
                    None => {},
                }
            } else {
                assert(buildings[i] == last);
                crate::seq_util::lemma_push_contains(before, link, link);
            }
        }
    }
}

} // verus!

verus! {

/// When the buildings have unique identifiers, no two links start at the same building.
pub proof fn lemma_links_for_unique(buildings: Seq<IndustryBuildingInfo>, stations: Seq<StationInfo>)
    requires
        crate::id_map::keys_unique(buildings),
    ensures
        forall|i: int, j: int|
            0 <= i < links_for(buildings, stations).len() && 0 <= j < links_for(buildings, stations).len()
                && i != j ==> (#[trigger] links_for(buildings, stations)[i]).0 != (#[trigger] links_for(
                buildings,
                stations,
            )[j]).0,
        forall|k: int|
            0 <= k < links_for(buildings, stations).len() ==> exists|i: int|
                0 <= i < buildings.len() && (#[trigger] links_for(buildings, stations)[k]).0
                    == buildings[i].spec_id(),
    decreases buildings.len(),
{
    broadcast use crate::building::industry_building_info::lemma_key_is_id;

    if buildings.len() > 0 {
        let rest = buildings.drop_last();
        assert(crate::id_map::keys_unique(rest)) by {
            assert forall|i: int, j: int|
                0 <= i < rest.len() && 0 <= j < rest.len() && i != j implies #[trigger] rest[i].spec_key()
                != #[trigger] rest[j].spec_key() by {
                assert(rest[i] == buildings[i] && rest[j] == buildings[j]);
            }
        }
        lemma_links_for_unique(rest, stations);
        let before = links_for(rest, stations);
        let last = buildings.last();
        match station_link(last, stations) {
            Some(link) => {
                let after = before.push(link);
                assert(link.0 == last.spec_id());
                assert forall|k: int| 0 <= k < before.len() implies (#[trigger] before[k]).0 != last.spec_id() by {
                    let i = choose|i: int| 0 <= i < rest.len() && (#[trigger] before[k]).0 == rest[i].spec_id();
                    assert(buildings[i] == rest[i]);
                    assert(buildings[i].spec_key() != buildings[buildings.len() - 1].spec_key());
                }
                assert forall|i: int, j: int|
                    0 <= i < after.len() && 0 <= j < after.len() && i != j implies (#[trigger] after[i]).0
                    != (#[trigger] after[j]).0 by {
                    if i < before.len() && j < before.len() {
                        assert(after[i] == before[i] && after[j] == before[j]);
                    } else if i < before.len() {
                        assert(after[i] == before[i]);
                    } else {
                        assert(after[j] == before[j]);
                    }
                }
                assert forall|k: int| 0 <= k < after.len() implies exists|i: int|
                    0 <= i < buildings.len() && (#[trigger] after[k]).0 == buildings[i].spec_id() by {
                    if k < before.len() {
                        let i = choose|i: int| 0 <= i < rest.len() && (#[trigger] before[k]).0 == rest[i].spec_id();
                        assert(buildings[i] == rest[i]);
                    } else {
                        assert(buildings[buildings.len() - 1] == last);
                    }
                }
            },
            None => {
                assert forall|k: int| 0 <= k < before.len() implies exists|i: int|
                    0 <= i < buildings.len() && (#[trigger] before[k]).0 == buildings[i].spec_id() by {
                    let i = choose|i: int| 0 <= i < rest.len() && (#[trigger] before[k]).0 == rest[i].spec_id();
                    assert(buildings[i] == rest[i]);
                }
            },
        }
    }
}

} // verus!
