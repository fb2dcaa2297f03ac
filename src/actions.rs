use vstd::prelude::*;

use crate::enums::ItemRarity;

verus! {

/// Slot of each action in the order ledger.
pub const ACTION_LOOT_INDEX: usize = 0;
pub const ACTION_SPELL_INDEX: usize = 1;
pub const ACTION_MOVE_INDEX: usize = 2;
pub const ACTION_CRAFT_INDEX: usize = 3;

/// What `get_next_action_to_be_executed` returns once nothing is pending.
pub const NO_ACTION: usize = usize::MAX;

pub const FIRE_INDEX: usize = 0;
pub const WATER_INDEX: usize = 1;
pub const EARTH_INDEX: usize = 2;

/// What a craft commit recorded of its three materials and its tile.
#[derive(Clone, Copy, Debug, PartialEq, Eq, Structural)]
pub struct CraftingSnapshot {
    pub min_level: u8,
    pub min_rarity: ItemRarity,
    pub max_rarity: ItemRarity,
}

#[derive(Clone, Copy, Debug, PartialEq, Eq, Structural)]
pub struct SpellSnapshot {
    pub is_extra_level_bonus: bool,
}

/// The actions committed in one turn and the order of their commits:
/// `action_order[i]` is 0 when action `i` is not pending, else its rank.
#[derive(Clone, Copy, Debug)]
pub struct CommittedActions {
    pub loot: bool,
    pub spell: Option<SpellSnapshot>,
    pub mv: Option<[u8; 2]>,
    pub crafting: Option<CraftingSnapshot>,
    pub action_order: [u8; 4],
}

/// The turn a character committed to, and what it burned in it.
#[derive(Clone, Copy, Debug)]
pub struct TurnCommit {
    pub turn: u32,
    /// Fire, water, earth.
    pub resources_burned: [u64; 3],
    pub actions: CommittedActions,
}

/// Largest rank of the ledger (0 when empty).
pub open spec fn highest(o: Seq<u8>) -> int {
    let a = if o[0] >= o[1] { o[0] } else { o[1] };
    let b = if o[2] >= o[3] { o[2] } else { o[3] };
    if a >= b { a as int } else { b as int }
}

/// The pending action of least rank among slots `k..4`, the lower slot on
/// equal ranks; `NO_ACTION` when none of them is pending.
pub open spec fn next_from(o: Seq<u8>, k: int) -> int
    decreases 4 - k,
{
    if k >= 4 || k < 0 {
        NO_ACTION as int
    } else {
        let rest = next_from(o, k + 1);
        if o[k] != 0 && (rest == NO_ACTION as int || o[k] <= o[rest]) {
            k
        } else {
            rest
        }
    }
}

/// The action that must be redeemed next.
pub open spec fn next_action(o: Seq<u8>) -> int {
    next_from(o, 0)
}

pub open spec fn none_pending(o: Seq<u8>) -> bool {
    forall|i: int| 0 <= i < 4 ==> o[i] == 0
}

/// The ledger after committing action `i`.
pub open spec fn recorded(o: Seq<u8>, i: int) -> Seq<u8> {
    o.update(i, (highest(o) + 1) as u8)
}

impl CommittedActions {
    pub fn new() -> (r: CommittedActions)
        ensures
            !r.loot,
            r.spell.is_none(),
            r.mv.is_none(),
            r.crafting.is_none(),
            none_pending(r.action_order@),
    {
        CommittedActions { loot: false, spell: None, mv: None, crafting: None, action_order: [0; 4] }
    }

    /// Largest rank given so far (0 when nothing is pending).
    pub fn get_highest_value(&self) -> (r: u8)
        ensures
            r == highest(self.action_order@),
            forall|i: int| 0 <= i < 4 ==> self.action_order@[i] <= r,
    {
        let o = &self.action_order;
        let a = if o[0] >= o[1] { o[0] } else { o[1] };
        let b = if o[2] >= o[3] { o[2] } else { o[3] };
        if a >= b { a } else { b }
    }

    /// Records a commit of action `index`: it takes the rank after the
    /// largest one.
    pub fn add_new_action_order(&mut self, index: u8)
        requires
            index < 4,
            highest(old(self).action_order@) < 255,
        ensures
            final(self).action_order@ == recorded(old(self).action_order@, index as int),
            final(self).loot == old(self).loot,
            final(self).spell == old(self).spell,
            final(self).mv == old(self).mv,
            final(self).crafting == old(self).crafting,
    {
        let h = self.get_highest_value();
        self.action_order[index as usize] = h + 1;
    }

    /// The slot of the pending action of least rank, or `NO_ACTION`.
    pub fn get_next_action_to_be_executed(&self) -> (r: usize)
        ensures
            r as int == next_action(self.action_order@),
            r == NO_ACTION <==> none_pending(self.action_order@),
            r != NO_ACTION ==> r < 4 && self.action_order@[r as int] != 0,
    {
        let o = &self.action_order;
        let mut best: usize = NO_ACTION;
        let mut k: usize = 4;
        while k > 0
            invariant
                0 <= k <= 4,
                best as int == next_from(o@, k as int),
                best == NO_ACTION || k <= best < 4,
            decreases k,
        {
            k = k - 1;
            if o[k] != 0 && (best == NO_ACTION || o[k] <= o[best]) {
                best = k;
            }
        }
        proof {
            lemma_next_from(o@, 0);
        }
        best
    }
}

/// What `next_from` returns: none exactly when slots `k..4` are all clear,
/// else a pending slot of least rank among them.
pub proof fn lemma_next_from(o: Seq<u8>, k: int)
    requires
        0 <= k <= 4,
        o.len() == 4,
    ensures
        next_from(o, k) == NO_ACTION as int <==> (forall|i: int| k <= i < 4 ==> o[i] == 0),
        next_from(o, k) != NO_ACTION as int ==> {
            &&& k <= next_from(o, k) < 4
            &&& o[next_from(o, k)] != 0
            &&& forall|i: int| k <= i < 4 && #[trigger] o[i] != 0 ==> o[next_from(o, k)] <= o[i]
        },
    decreases 4 - k,
{
    if k < 4 {
        lemma_next_from(o, k + 1);
    }
}

impl TurnCommit {
    /// A commit for `turn` with nothing burned or recorded yet.
    pub fn new(turn: u32) -> (r: TurnCommit)
        ensures
            r.turn == turn,
            r.resources_burned@ == seq![0u64, 0u64, 0u64],
            !r.actions.loot,
            r.actions.spell.is_none(),
            r.actions.mv.is_none(),
            r.actions.crafting.is_none(),
            none_pending(r.actions.action_order@),
    {
        let r = TurnCommit { turn, resources_burned: [0; 3], actions: CommittedActions::new() };
        assert(r.resources_burned@ =~= seq![0u64, 0u64, 0u64]);
        r
    }
}

/// A ledger with nothing pending.
pub open spec fn empty_ledger() -> Seq<u8> {
    seq![0u8, 0u8, 0u8, 0u8]
}

/// The ledger after committing the actions of `s`, in order.
pub open spec fn recorded_all(o: Seq<u8>, s: Seq<int>) -> Seq<u8>
    decreases s.len(),
{
    if s.len() == 0 {
        o
    } else {
        recorded(recorded_all(o, s.drop_last()), s.last())
    }
}

/// The ledger after redeeming the actions of `s`, that is clearing their slots.
pub open spec fn cleared_all(o: Seq<u8>, s: Seq<int>) -> Seq<u8>
    decreases s.len(),
{
    if s.len() == 0 {
        o
    } else {
        cleared_all(o, s.drop_last()).update(s.last(), 0)
    }
}

/// Distinct action slots, each one committed at most once.
pub open spec fn distinct_actions(s: Seq<int>) -> bool {
    &&& s.len() <= 4
    &&& forall|i: int| 0 <= i < s.len() ==> 0 <= #[trigger] s[i] < 4
    &&& forall|i: int, j: int| 0 <= i < s.len() && 0 <= j < s.len() && i != j ==> s[i] != s[j]
}

proof fn lemma_recorded_ranks(s: Seq<int>, t: int)
    requires
        distinct_actions(s),
        0 <= t <= s.len(),
    ensures
        recorded_all(empty_ledger(), s.take(t)).len() == 4,
        highest(recorded_all(empty_ledger(), s.take(t))) == t,
        forall|j: int| 0 <= j < t ==> recorded_all(empty_ledger(), s.take(t))[#[trigger] s[j]] == j + 1,
        forall|i: int|
            0 <= i < 4 && (forall|j: int| 0 <= j < t ==> s[j] != i) ==> recorded_all(
                empty_ledger(),
                s.take(t),
            )[i] == 0,
    decreases t,
{
    if t > 0 {
        lemma_recorded_ranks(s, t - 1);
        assert(s.take(t).drop_last() =~= s.take(t - 1));
        let prev = recorded_all(empty_ledger(), s.take(t - 1));
        let cur = recorded_all(empty_ledger(), s.take(t));
        assert(cur == recorded(prev, s[t - 1]));
        assert forall|i: int| 0 <= i < 4 implies prev[i] <= t - 1 by {
            if exists|j: int| 0 <= j < t - 1 && s[j] == i {
                let j = choose|j: int| 0 <= j < t - 1 && s[j] == i;
                assert(prev[s[j]] == j + 1);
            }
        }
    } else {
        assert(s.take(0) =~= Seq::<int>::empty());
    }
}

proof fn lemma_cleared_ranks(s: Seq<int>, k: int)
    requires
        distinct_actions(s),
        0 <= k <= s.len(),
    ensures
        cleared_all(recorded_all(empty_ledger(), s), s.take(k)).len() == 4,
        forall|j: int|
            k <= j < s.len() ==> cleared_all(recorded_all(empty_ledger(), s), s.take(k))[#[trigger] s[j]]
                == j + 1,
        forall|i: int|
            0 <= i < 4 && (forall|j: int| k <= j < s.len() ==> s[j] != i) ==> cleared_all(
                recorded_all(empty_ledger(), s),
                s.take(k),
            )[i] == 0,
    decreases k,
{
    if k > 0 {
        lemma_cleared_ranks(s, k - 1);
        assert(s.take(k).drop_last() =~= s.take(k - 1));
    } else {
        lemma_recorded_ranks(s, s.len() as int);
        assert(s.take(s.len() as int) =~= s);
        assert(s.take(0) =~= Seq::<int>::empty());
    }
}

/// Redemption follows commit order: after the actions of `s` were committed
/// in that order and the first `k` of them redeemed, the action due next is
/// `s[k]`, and none is due once all of them are redeemed.
pub proof fn lemma_redeem_follows_commit_order(s: Seq<int>, k: int)
    requires
        distinct_actions(s),
        0 <= k <= s.len(),
    ensures
        k < s.len() ==> next_action(cleared_all(recorded_all(empty_ledger(), s), s.take(k))) == s[k],
        k == s.len() ==> next_action(cleared_all(recorded_all(empty_ledger(), s), s.take(k)))
            == NO_ACTION as int,
{
    lemma_cleared_ranks(s, k);
    let o = cleared_all(recorded_all(empty_ledger(), s), s.take(k));
    lemma_next_from(o, 0);
    if k < s.len() {
        let n = next_action(o);
        assert(o[s[k]] == k + 1);
        assert(n != NO_ACTION as int);
        assert(exists|j: int| k <= j < s.len() && s[j] == n);
        let j = choose|j: int| k <= j < s.len() && s[j] == n;
        assert(o[s[j]] == j + 1);
    } else {
        assert forall|i: int| 0 <= i < 4 implies o[i] == 0 by {}
    }
}

} // verus!
