use vstd::prelude::*;
use crate::msg::{ContractInformationResponse, Player, PlayerAssets};

verus! {

/// The map described by an association sequence; a later entry would win,
/// though a well-formed table never repeats a key.
pub open spec fn assoc_map(s: Seq<(String, Player)>) -> Map<Seq<char>, Player>
    decreases s.len(),
{
    if s.len() == 0 {
        Map::empty()
    } else {
        assoc_map(s.drop_last()).insert(s.last().0@, s.last().1)
    }
}

/// No two entries of the sequence carry the same address.
pub open spec fn unique_keys(s: Seq<(String, Player)>) -> bool {
    forall|i: int, j: int| 0 <= i < j < s.len() ==> s[i].0@ != s[j].0@
}

/// A key is in the map exactly when some entry carries it.
proof fn lemma_assoc_map_dom(s: Seq<(String, Player)>, k: Seq<char>)
    ensures
        assoc_map(s).contains_key(k) <==> exists|i: int| 0 <= i < s.len() && s[i].0@ == k,
    decreases s.len(),
{
    if s.len() > 0 {
        lemma_assoc_map_dom(s.drop_last(), k);
        if s.last().0@ == k {
            assert(s[s.len() - 1].0@ == k);
        } else {
            if assoc_map(s).contains_key(k) {
                let i = choose|i: int|
                    0 <= i < s.drop_last().len() && s.drop_last()[i].0@ == k;
                assert(s[i].0@ == k);
            }
            if exists|i: int| 0 <= i < s.len() && s[i].0@ == k {
                let i = choose|i: int| 0 <= i < s.len() && s[i].0@ == k;
                assert(s.drop_last()[i].0@ == k);
            }
        }
    }
}

/// Under unique keys, the map sends each entry's address to its record.
proof fn lemma_assoc_map_index(s: Seq<(String, Player)>, i: int)
    requires
        unique_keys(s),
        0 <= i < s.len(),
    ensures
        assoc_map(s).contains_key(s[i].0@),
        assoc_map(s)[s[i].0@] == s[i].1,
    decreases s.len(),
{
    if i < s.len() - 1 {
        assert(unique_keys(s.drop_last())) by {
            assert(forall|x: int, y: int|
                0 <= x < y < s.drop_last().len() ==> s.drop_last()[x] == s[x]
                    && s.drop_last()[y] == s[y]);
        }
        assert(s.drop_last()[i] == s[i]);
        lemma_assoc_map_index(s.drop_last(), i);
        assert(s[i].0@ != s[s.len() - 1].0@);
    }
}

/// Removing an entry removes exactly its key from the map.
proof fn lemma_assoc_map_remove(s: Seq<(String, Player)>, i: int)
    requires
        unique_keys(s),
        0 <= i < s.len(),
    ensures
        unique_keys(s.remove(i)),
        assoc_map(s.remove(i)) == assoc_map(s).remove(s[i].0@),
    decreases s.len(),
{
    let k = s[i].0@;
    s.remove_ensures(i);
    assert(unique_keys(s.remove(i))) by {
        assert(forall|x: int, y: int| 0 <= x < y < s.remove(i).len()
            ==> #[trigger] s.remove(i)[x].0@ != #[trigger] s.remove(i)[y].0@) by {
            assert forall|x: int, y: int| 0 <= x < y < s.remove(i).len()
                implies #[trigger] s.remove(i)[x].0@ != #[trigger] s.remove(i)[y].0@ by {
                let x0: int = if x < i { x } else { x + 1 };
                let y0: int = if y < i { y } else { y + 1 };
                assert(s.remove(i)[x] == s[x0]);
                assert(s.remove(i)[y] == s[y0]);
            }
        }
    }
    if i == s.len() - 1 {
        assert(s.remove(i) =~= s.drop_last());
        lemma_assoc_map_dom(s.drop_last(), k);
        assert(!assoc_map(s.drop_last()).contains_key(k));
        assert(assoc_map(s.drop_last()) =~= assoc_map(s).remove(k));
    } else {
        assert(unique_keys(s.drop_last())) by {
            assert(forall|x: int, y: int|
                0 <= x < y < s.drop_last().len() ==> s.drop_last()[x] == s[x]
                    && s.drop_last()[y] == s[y]);
        }
        assert(s.drop_last()[i] == s[i]);
        lemma_assoc_map_remove(s.drop_last(), i);
        assert(s.remove(i).drop_last() =~= s.drop_last().remove(i));
        assert(s.remove(i).last() == s.last());
        assert(s[i].0@ != s.last().0@);
        assert(assoc_map(s.drop_last()).remove(k).insert(s.last().0@, s.last().1)
            =~= assoc_map(s.drop_last()).insert(s.last().0@, s.last().1).remove(k));
    }
}

/// The per-address player records: an association table whose abstract value
/// is a map from address characters to player records.
pub struct PlayerTable {
    entries: Vec<(String, Player)>,
}

impl View for PlayerTable {
    type V = Map<Seq<char>, Player>;

    closed spec fn view(&self) -> Map<Seq<char>, Player> {
        assoc_map(self.entries@)
    }
}

impl PlayerTable {
    /// Internal invariant: no address appears twice.
    pub closed spec fn wf(self) -> bool {
        unique_keys(self.entries@)
    }

    pub fn new() -> (t: PlayerTable)
        ensures
            t.wf(),
            t@ == Map::<Seq<char>, Player>::empty(),
    {
        PlayerTable { entries: Vec::new() }
    }

    /// The position of the entry carrying the address, if any.
    fn find_index(&self, address: &String) -> (r: Option<usize>)
        ensures
            match r {
                Some(i) => i < self.entries@.len() && self.entries@[i as int].0@ == address@,
                None => forall|j: int|
                    0 <= j < self.entries@.len() ==> self.entries@[j].0@ != address@,
            },
    {
        let n = self.entries.len();
        let mut i: usize = 0;
        while i < n
            invariant
                n == self.entries@.len(),
                i <= n,
                forall|j: int| 0 <= j < i ==> self.entries@[j].0@ != address@,
            decreases n - i,
        {
            if self.entries[i].0 == *address {
                return Some(i);
            }
            i = i + 1;
        }
        None
    }

    /// Loads the record stored under the address, if one exists.
    pub fn get(&self, address: &String) -> (r: Option<&Player>)
        requires
            self.wf(),
        ensures
            match r {
                Some(p) => self@.contains_key(address@) && *p == self@[address@],
                None => !self@.contains_key(address@),
            },
    {
        match self.find_index(address) {
            Some(i) => {
                proof {
                    lemma_assoc_map_index(self.entries@, i as int);
                }
                Some(&self.entries[i].1)
            },
            None => {
                proof {
                    lemma_assoc_map_dom(self.entries@, address@);
                }
                None
            },
        }
    }

    /// Stores the record under the address, replacing any previous one.
    pub fn save(&mut self, address: &String, player: Player)
        requires
            old(self).wf(),
        ensures
            final(self).wf(),
            final(self)@ == old(self)@.insert(address@, player),
    {
        match self.find_index(address) {
            Some(i) => {
                proof {
                    lemma_assoc_map_remove(self.entries@, i as int);
                    lemma_assoc_map_dom(self.entries@.remove(i as int), address@);
                    self.entries@.remove_ensures(i as int);
                }
                let _ = self.entries.remove(i);
            },
            None => {
                proof {
                    lemma_assoc_map_dom(self.entries@, address@);
                }
            },
        }
        let ghost pre = self.entries@;
        proof {
            assert(!assoc_map(pre).contains_key(address@)) by {
                lemma_assoc_map_dom(pre, address@);
            }
        }
        self.entries.push((address.clone(), player));
        proof {
            assert(self.entries@.drop_last() =~= pre);
            assert(self@ =~= old(self)@.insert(address@, player));
            assert(unique_keys(self.entries@)) by {
                lemma_assoc_map_dom(pre, address@);
                assert(forall|x: int| 0 <= x < pre.len()
                    ==> #[trigger] self.entries@[x] == pre[x]);
            }
        }
    }

    /// Deletes the record stored under the address; absence is not an error.
    pub fn remove(&mut self, address: &String)
        requires
            old(self).wf(),
        ensures
            final(self).wf(),
            final(self)@ == old(self)@.remove(address@),
    {
        match self.find_index(address) {
            Some(i) => {
                proof {
                    lemma_assoc_map_remove(self.entries@, i as int);
                }
                let _ = self.entries.remove(i);
            },
            None => {
                proof {
                    lemma_assoc_map_dom(self.entries@, address@);
                    assert(self@ =~= old(self)@.remove(address@));
                }
            },
        }
    }
}

/// The whole persisted state: the singleton contract record, the immutable
/// asset templates seeded at setup, and the per-address player records.
pub struct Store {
    pub info: ContractInformationResponse,
    pub templates: PlayerAssets,
    pub players: PlayerTable,
}

impl Store {
    /// Well-formedness: the table keeps unique keys, the templates are well
    /// formed, and so is every stored player record.
    pub open spec fn wf(self) -> bool {
        &&& self.players.wf()
        &&& self.templates.wf()
        &&& forall|k: Seq<char>| #[trigger] self.players@.contains_key(k)
            ==> self.players@[k].wf()
    }

    /// The host clock never runs backwards: every stored record was last
    /// claimed at or before the current height.
    pub open spec fn heights_ok(self, height: u64) -> bool {
        forall|k: Seq<char>| #[trigger] self.players@.contains_key(k)
            ==> self.players@[k].last_claim_height <= height
    }
}

/// The stored height of a player's last accrual, zero when no record exists.
pub fn get_last_claim_height(store: &Store, address: &String) -> (h: u64)
    requires
        store.wf(),
    ensures
        h == if store.players@.contains_key(address@) {
            store.players@[address@].last_claim_height
        } else {
            0u64
        },
{
    match store.players.get(address) {
        Some(p) => p.last_claim_height,
        None => 0,
    }
}

} // verus!
