use vstd::prelude::*;

use crate::{IndustryBuildingId, MilitaryBuildingId, StationId, TrackId, UserId};

verus! {

/// A token that proves the identity of a user.
#[derive(Debug, PartialEq, Clone)]
pub struct AccessToken(String);

impl AccessToken {
    pub closed spec fn token(&self) -> Seq<char> {
        self.0@
    }

    pub fn new(token: String) -> (r: AccessToken)
        ensures
            r.token() == token@,
    {
        AccessToken(token)
    }
}

/// A request to log in or out.
#[derive(Debug, PartialEq, Clone)]
pub enum AuthenticationCommand {
    Login(UserId, AccessToken),
    Logout,
}

/// What a player asks to demolish.
#[derive(Debug, PartialEq, Clone)]
pub enum DemolishSelector {
    Tracks(Vec<TrackId>),
    Industry(IndustryBuildingId),
    Station(StationId),
    MilitaryBuilding(MilitaryBuildingId),
}

} // verus!
