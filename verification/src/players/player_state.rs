use vstd::prelude::*;

use crate::id_map::{
    has_key, keyed_insert, keys_unique, lemma_keyed_insert_map, lemma_seq_to_map_at,
    lemma_seq_to_map_contains, lemma_seq_to_map_keys, seq_to_map, Keyed,
};
use crate::server_response::PlayerInfo;
use crate::PlayerId;

verus! {

impl Keyed for PlayerInfo {
    closed spec fn spec_key(&self) -> u128 {
        self.id.0
    }

    fn key(&self) -> (r: u128) {
        self.id.0
    }
}

/// The players of `infos` by identifier, each later one replacing an earlier one with the
/// same identifier.
pub open spec fn players_by_id(infos: Seq<PlayerInfo>) -> Map<u128, PlayerInfo>
    decreases infos.len(),
{
    if infos.len() == 0 {
        Map::empty()
    } else {
        players_by_id(infos.drop_last()).insert(infos.last().id.0, infos.last())
    }
}

/// Building the players from a list keeps a player under exactly the identifiers that
/// occur in the list.
pub proof fn lemma_players_by_id_keys(infos: Seq<PlayerInfo>, key: u128)
    ensures
        players_by_id(infos).dom().contains(key) <==> exists|i: int|
            0 <= i < infos.len() && (#[trigger] infos[i]).id.0 == key,
    decreases infos.len(),
{
    if infos.len() > 0 {
        let rest = infos.drop_last();
        lemma_players_by_id_keys(rest, key);
        if exists|i: int| 0 <= i < rest.len() && (#[trigger] rest[i]).id.0 == key {
            let i = choose|i: int| 0 <= i < rest.len() && (#[trigger] rest[i]).id.0 == key;
            assert(infos[i] == rest[i]);
        }
        if exists|i: int| 0 <= i < infos.len() && (#[trigger] infos[i]).id.0 == key {
            let i = choose|i: int| 0 <= i < infos.len() && (#[trigger] infos[i]).id.0 == key;
            if i < rest.len() {
                assert(rest[i] == infos[i]);
            }
        }
    }
}

/// Of several players with one identifier in the list, the last one is kept.
pub proof fn lemma_players_by_id_last_wins(infos: Seq<PlayerInfo>, k: int)
    requires
        0 <= k < infos.len(),
        forall|j: int| k < j < infos.len() ==> (#[trigger] infos[j]).id.0 != infos[k].id.0,
    ensures
        players_by_id(infos).dom().contains(infos[k].id.0),
        players_by_id(infos)[infos[k].id.0] == infos[k],
    decreases infos.len(),
{
    let rest = infos.drop_last();
    if k < rest.len() {
        assert(infos[infos.len() - 1].id.0 != infos[k].id.0);
        assert forall|j: int| k < j < rest.len() implies (#[trigger] rest[j]).id.0 != rest[k].id.0 by {
            assert(rest[j] == infos[j]);
        }
        lemma_players_by_id_last_wins(rest, k);
    }
}

/// The players of a game, at most one per identifier.
pub struct PlayerState {
    infos: Vec<PlayerInfo>,
}

impl View for PlayerState {
    type V = Map<u128, PlayerInfo>;

    /// The players by the raw values of their identifiers.
    closed spec fn view(&self) -> Map<u128, PlayerInfo> {
        seq_to_map(self.infos@)
    }
}

impl PlayerState {
    pub closed spec fn wf(&self) -> bool {
        keys_unique(self.infos@)
    }

    /// Every stored player carries the identifier it is stored under.
    pub proof fn lemma_players_carry_their_ids(&self)
        ensures
            forall|key: u128| #[trigger] self@.dom().contains(key) ==> self@[key].id.0 == key,
    {
        lemma_seq_to_map_keys(self.infos@);
        assert forall|key: u128| #[trigger] self@.dom().contains(key) implies self@[key].id.0 == key by {
            assert(self@[key].spec_key() == self@[key].id.0);
        }
    }

    /// The players of `infos`; of several with one identifier the last one is kept.
    pub fn from_infos(infos: Vec<PlayerInfo>) -> (r: PlayerState)
        ensures
            r.wf(),
            r@ == players_by_id(infos@),
    {
        let mut result = PlayerState { infos: Vec::new() };
        proof {
            assert(seq_to_map(Seq::<PlayerInfo>::empty()) =~= Map::<u128, PlayerInfo>::empty());
        }
        let mut i: usize = 0;
        while i < infos.len()
            invariant
                i <= infos.len(),
                result.wf(),
                result@ == players_by_id(infos@.take(i as int)),
            decreases infos.len() - i,
        {
            proof {
                assert(infos@.take(i as int + 1).drop_last() =~= infos@.take(i as int));
            }
            result.insert(infos[i].copy());
            i = i + 1;
        }
        proof {
            crate::seq_util::lemma_take_full(infos@);
        }
        result
    }

    /// Every player, each once.
    pub fn infos(&self) -> (r: Vec<PlayerInfo>)
        requires
            self.wf(),
        ensures
            keys_unique(r@),
            forall|info: PlayerInfo| #[trigger]
                r@.contains(info) <==> (self@.dom().contains(info.id.0) && self@[info.id.0] == info),
    {
        self.infos_cloned()
    }

    /// Every player, each once.
    pub fn infos_cloned(&self) -> (r: Vec<PlayerInfo>)
        requires
            self.wf(),
        ensures
            keys_unique(r@),
            forall|info: PlayerInfo| #[trigger]
                r@.contains(info) <==> (self@.dom().contains(info.id.0) && self@[info.id.0] == info),
    {
        let mut result: Vec<PlayerInfo> = Vec::new();
        let mut i: usize = 0;
        while i < self.infos.len()
            invariant
                i <= self.infos.len(),
                result@ == self.infos@.take(i as int),
            decreases self.infos.len() - i,
        {
            result.push(self.infos[i].copy());
            proof {
                assert(result@ =~= self.infos@.take(i as int + 1));
            }
            i = i + 1;
        }
        proof {
            crate::seq_util::lemma_take_full(self.infos@);
            lemma_seq_to_map_contains(self.infos@);
            assert forall|info: PlayerInfo| #[trigger]
                result@.contains(info) <==> (self@.dom().contains(info.id.0) && self@[info.id.0] == info) by {
                assert(info.spec_key() == info.id.0);
            }
        }
        result
    }

    /// The identifiers of all players, each once.
    pub fn ids(&self) -> (r: Vec<PlayerId>)
        requires
            self.wf(),
        ensures
            r@.no_duplicates(),
            forall|id: PlayerId| #[trigger] r@.contains(id) <==> self@.dom().contains(id.0),
    {
        let mut result: Vec<PlayerId> = Vec::new();
        let mut i: usize = 0;
        while i < self.infos.len()
            invariant
                self.wf(),
                i <= self.infos.len(),
                result@.len() == i,
                forall|j: int| 0 <= j < i ==> #[trigger] result@[j] == self.infos@[j].id,
            decreases self.infos.len() - i,
        {
            result.push(self.infos[i].id);
            i = i + 1;
        }
        proof {
            assert forall|a: int, b: int| 0 <= a < result@.len() && 0 <= b < result@.len() && a != b implies
                result@[a] != result@[b] by {
                assert(self.infos@[a].spec_key() != self.infos@[b].spec_key());
            }
            assert forall|id: PlayerId| #[trigger] result@.contains(id) <==> self@.dom().contains(id.0) by {
                if result@.contains(id) {
                    let j = choose|j: int| 0 <= j < result@.len() && result@[j] == id;
                    assert(self.infos@[j].spec_key() == id.0);
                }
                if self@.dom().contains(id.0) {
                    let j = choose|j: int| 0 <= j < self.infos@.len() && #[trigger] self.infos@[j].spec_key() == id.0;
                    assert(result@[j] == id);
                }
            }
        }
        result
    }

    /// Stores `player_info` under its identifier, replacing the player stored there.
    fn insert(&mut self, player_info: PlayerInfo)
        requires
            old(self).wf(),
        ensures
            final(self).wf(),
            final(self)@ == old(self)@.insert(player_info.id.0, player_info),
    {
        let ghost before = self.infos@;
        let mut i: usize = 0;
        while i < self.infos.len()
            invariant
                self.infos@ == before,
                old(self).infos@ == before,
                keys_unique(before),
                i <= self.infos.len(),
                forall|j: int| 0 <= j < i ==> #[trigger] self.infos@[j].spec_key() != player_info.id.0,
            decreases self.infos.len() - i,
        {
            if self.infos[i].id.0 == player_info.id.0 {
                proof {
                    assert(before[i as int].spec_key() == player_info.spec_key());
                    let k = choose|k: int|
                        0 <= k < before.len() && #[trigger] before[k].spec_key() == player_info.spec_key();
                    assert(before[k].spec_key() == before[i as int].spec_key());
                    assert(k == i);
                    assert(keyed_insert(before, player_info) == before.update(i as int, player_info));
                }
                self.infos.set(i, player_info);
                proof {
                    lemma_keyed_insert_map(before, player_info);
                    assert(self.infos@ == keyed_insert(before, player_info));
                }
                return;
            }
            i = i + 1;
        }
        proof {
            assert(!has_key(before, player_info.spec_key()));
            lemma_keyed_insert_map(before, player_info);
        }
        self.infos.push(player_info);
        proof {
            assert(self.infos@ == keyed_insert(before, player_info));
        }
    }

    /// The player with identifier `player_id`, if any.
    pub fn get(&self, player_id: PlayerId) -> (r: Option<PlayerInfo>)
        requires
            self.wf(),
        ensures
            r == (if self@.dom().contains(player_id.0) {
                Some(self@[player_id.0])
            } else {
                None
            }),
            r matches Some(p) ==> p.id == player_id,
    {
        proof {
            self.lemma_players_carry_their_ids();
        }
        let mut i: usize = 0;
        while i < self.infos.len()
            invariant
                self.wf(),
                i <= self.infos.len(),
                forall|j: int| 0 <= j < i ==> #[trigger] self.infos@[j].spec_key() != player_id.0,
            decreases self.infos.len() - i,
        {
            if self.infos[i].id.0 == player_id.0 {
                proof {
                    lemma_seq_to_map_at(self.infos@, i as int);
                }
                return Some(self.infos[i].copy());
            }
            i = i + 1;
        }
        None
    }
}

} // verus!
