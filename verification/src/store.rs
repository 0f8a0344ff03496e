//! The reference store: the static catalogs a request is evaluated
//! against, champion-name resolution, the single-slot ability-pack
//! cache, and the engine's error type.
//!
//! The store is an explicit handle.  Loading its contents from disk is
//! the caller's business; everything here is pure lookup over loaded
//! values.

use crate::fx::Fx;
use crate::local::{LocalChampion, LocalItems, LocalRunes, LocalStats};
use crate::riot::{RiotItemGold, RiotItems};
use crate::game::{champ_eq_s, spell_eq_s, RiotChampionTarget};
use crate::table::{assoc_id_s, assoc_name_s, get_by_id, get_by_name};
use vstd::prelude::*;

verus! {

/// Why a request fails.
#[derive(Clone, Copy, Debug, PartialEq, Eq, Structural)]
pub enum CalcError {
    /// No roster entry matches the active player's summoner name with
    /// a resolved champion.
    AttackerNotFound,
    /// The candidate tool id is not in the tool catalog.
    ToolNotFound,
    /// The attacker's ability pack holds a key with an unknown slot
    /// letter.
    UnknownAbilityKey,
    /// The item id is not in the item descriptor cache.
    ItemNotFound,
}

/// The champion-alias table: internal id to per-locale display names.
pub type IdsCache = Vec<(String, Vec<(String, String)>)>;

/// All static reference data one request needs.
pub struct RefStore {
    pub local_items: LocalItems,
    pub local_runes: LocalRunes,
    pub local_stats: LocalStats,
    pub ids: IdsCache,
    pub item_cache: RiotItems,
    pub champion_cache: Vec<(String, RiotChampionTarget)>,
}

/// Whether some locale maps to the display name.
pub open spec fn locales_have_s(vals: Seq<(String, String)>, name: Seq<char>) -> bool {
    exists|j: int| 0 <= j < vals.len() && (#[trigger] vals[j]).1@ == name
}

/// The internal id of the first alias entry whose locale table holds
/// the display name, over the first `i` entries.
pub open spec fn get_champion_upto(
    ids: Seq<(String, Vec<(String, String)>)>,
    name: Seq<char>,
    i: int,
) -> Option<Seq<char>>
    decreases i,
{
    if i <= 0 {
        Option::None
    } else {
        match get_champion_upto(ids, name, i - 1) {
            Option::Some(k) => Option::Some(k),
            Option::None => {
                if locales_have_s(ids[i - 1].1@, name) {
                    Option::Some(ids[i - 1].0@)
                } else {
                    Option::None
                }
            },
        }
    }
}

/// The resolved internal id of a display name; an unknown name
/// resolves to the sentinel `TargetDummy`.
pub open spec fn get_champion_s(ids: Seq<(String, Vec<(String, String)>)>, name: Seq<char>) -> Seq<
    char,
> {
    match get_champion_upto(ids, name, ids.len() as int) {
        Option::Some(k) => k,
        Option::None => "TargetDummy"@,
    }
}

fn locales_have(vals: &Vec<(String, String)>, name: &String) -> (r: bool)
    ensures
        r == locales_have_s(vals@, name@),
{
    let mut j: usize = 0;
    while j < vals.len()
        invariant
            j <= vals@.len(),
            forall|k: int| 0 <= k < j ==> (#[trigger] vals@[k]).1@ != name@,
        decreases vals@.len() - j,
    {
        if vals[j].1 == *name {
            return true;
        }
        j = j + 1;
    }
    false
}

/// Resolve a display name to its internal champion id; unknown names
/// resolve to `TargetDummy`.
pub fn get_champion(ids: &IdsCache, champion: &String) -> (r: String)
    ensures
        r@ == get_champion_s(ids@, champion@),
{
    let mut i: usize = 0;
    while i < ids.len()
        invariant
            i <= ids@.len(),
            get_champion_upto(ids@, champion@, i as int) is None,
        decreases ids@.len() - i,
    {
        if locales_have(&ids[i].1, champion) {
            proof {
                lemma_get_champion_found(ids@, champion@, i as int, ids@.len() as int);
            }
            return ids[i].0.clone();
        }
        i = i + 1;
    }
    "TargetDummy".to_owned()
}

/// Once found at `i` with no earlier hit, the whole search yields that
/// entry's id.
proof fn lemma_get_champion_found(
    ids: Seq<(String, Vec<(String, String)>)>,
    name: Seq<char>,
    i: int,
    j: int,
)
    requires
        0 <= i < j <= ids.len(),
        get_champion_upto(ids, name, i) is None,
        locales_have_s(ids[i].1@, name),
    ensures
        get_champion_upto(ids, name, j) == Option::Some(ids[i].0@),
    decreases j,
{
    if j - 1 > i {
        lemma_get_champion_found(ids, name, i, j - 1);
    }
}

/// The repackaged descriptor of one shop item.
#[derive(Clone, Debug)]
pub struct RiotItemTarget {
    pub name: String,
    pub description: String,
    pub stats: Vec<(String, Fx)>,
    pub gold: RiotItemGold,
    pub maps: Vec<(String, bool)>,
    pub from: Option<Vec<String>>,
}

pub fn copy_fx_pairs(v: &Vec<(String, Fx)>) -> (r: Vec<(String, Fx)>)
    ensures
        r@ == v@,
{
    let mut r: Vec<(String, Fx)> = Vec::new();
    let mut i: usize = 0;
    while i < v.len()
        invariant
            i <= v@.len(),
            r@ == v@.subrange(0, i as int),
        decreases v@.len() - i,
    {
        r.push((v[i].0.clone(), v[i].1));
        proof {
            assert(r@ =~= v@.subrange(0, i + 1));
        }
        i = i + 1;
    }
    proof {
        assert(v@.subrange(0, v@.len() as int) =~= v@);
    }
    r
}

fn copy_bool_pairs(v: &Vec<(String, bool)>) -> (r: Vec<(String, bool)>)
    ensures
        r@ == v@,
{
    let mut r: Vec<(String, bool)> = Vec::new();
    let mut i: usize = 0;
    while i < v.len()
        invariant
            i <= v@.len(),
            r@ == v@.subrange(0, i as int),
        decreases v@.len() - i,
    {
        r.push((v[i].0.clone(), v[i].1));
        proof {
            assert(r@ =~= v@.subrange(0, i + 1));
        }
        i = i + 1;
    }
    proof {
        assert(v@.subrange(0, v@.len() as int) =~= v@);
    }
    r
}

fn copy_names(v: &Vec<String>) -> (r: Vec<String>)
    ensures
        r@ == v@,
{
    let mut r: Vec<String> = Vec::new();
    let mut i: usize = 0;
    while i < v.len()
        invariant
            i <= v@.len(),
            r@ == v@.subrange(0, i as int),
        decreases v@.len() - i,
    {
        r.push(v[i].clone());
        proof {
            assert(r@ =~= v@.subrange(0, i + 1));
        }
        i = i + 1;
    }
    proof {
        assert(v@.subrange(0, v@.len() as int) =~= v@);
    }
    r
}

/// The descriptor of one shop item, repackaged; absent text fields
/// become empty, an absent gold record becomes all-zero, absent maps
/// become empty.  `Err` exactly when the id is not in the cache.
pub fn item_api(item: u64, cache: &RiotItems) -> (r: Result<RiotItemTarget, CalcError>)
    ensures
        match r {
            Result::Ok(t) => {
                &&& assoc_id_s(cache.data@, item) matches Option::Some(e)
                &&& t.stats@ == e.stats@
                &&& (e.name matches Option::Some(n) ==> t.name == n)
                &&& (e.name is None ==> t.name@ == Seq::<char>::empty())
                &&& (e.description matches Option::Some(d) ==> t.description == d)
                &&& (e.description is None ==> t.description@ == Seq::<char>::empty())
                &&& (e.gold matches Option::Some(g) ==> t.gold == g)
                &&& (e.gold is None ==> t.gold == RiotItemGold {
                    base: 0,
                    total: 0,
                    sell: 0,
                    purchasable: false,
                })
                &&& (e.maps matches Option::Some(m) ==> t.maps@ == m@)
                &&& (e.maps is None ==> t.maps@.len() == 0)
                &&& (e.from matches Option::Some(f) ==> t.from matches Option::Some(tf) && tf@
                    == f@)
                &&& (e.from is None ==> t.from is None)
            },
            Result::Err(e) => e == CalcError::ItemNotFound && assoc_id_s(cache.data@, item)
                is None,
        },
{
    match get_by_id(&cache.data, item) {
        Option::Some(t) => {
            let name = match t.name {
                Option::Some(ref n) => n.clone(),
                Option::None => String::new(),
            };
            let description = match t.description {
                Option::Some(ref d) => d.clone(),
                Option::None => String::new(),
            };
            let gold = match t.gold {
                Option::Some(g) => g,
                Option::None => RiotItemGold { base: 0, total: 0, sell: 0, purchasable: false },
            };
            let maps = match t.maps {
                Option::Some(ref m) => copy_bool_pairs(m),
                Option::None => Vec::new(),
            };
            let from = match t.from {
                Option::Some(ref f) => Option::Some(copy_names(f)),
                Option::None => Option::None,
            };
            Result::Ok(
                RiotItemTarget {
                    name,
                    description,
                    stats: copy_fx_pairs(&t.stats),
                    gold,
                    maps,
                    from,
                },
            )
        },
        Option::None => Result::Err(CalcError::ItemNotFound),
    }
}

fn copy_fx_vec(v: &Vec<Fx>) -> (r: Vec<Fx>)
    ensures
        r@ == v@,
{
    let mut r: Vec<Fx> = Vec::new();
    let mut i: usize = 0;
    while i < v.len()
        invariant
            i <= v@.len(),
            r@ == v@.subrange(0, i as int),
        decreases v@.len() - i,
    {
        r.push(v[i]);
        proof {
            assert(r@ =~= v@.subrange(0, i + 1));
        }
        i = i + 1;
    }
    proof {
        assert(v@.subrange(0, v@.len() as int) =~= v@);
    }
    r
}

fn copy_spell(s: &crate::game::RiotChampionTargetSpell) -> (r: crate::game::RiotChampionTargetSpell)
    ensures
        spell_eq_s(r, *s),
{
    crate::game::RiotChampionTargetSpell {
        id: s.id.clone(),
        name: s.name.clone(),
        description: s.description.clone(),
        cooldown: copy_fx_vec(&s.cooldown),
    }
}

fn copy_spells(v: &Vec<crate::game::RiotChampionTargetSpell>) -> (r: Vec<
    crate::game::RiotChampionTargetSpell,
>)
    ensures
        r@.len() == v@.len(),
        forall|i: int| 0 <= i < v@.len() ==> spell_eq_s(#[trigger] r@[i], v@[i]),
{
    let mut r: Vec<crate::game::RiotChampionTargetSpell> = Vec::new();
    let mut i: usize = 0;
    while i < v.len()
        invariant
            i <= v@.len(),
            r@.len() == i,
            forall|j: int| 0 <= j < i ==> spell_eq_s(#[trigger] r@[j], v@[j]),
        decreases v@.len() - i,
    {
        r.push(copy_spell(&v[i]));
        i = i + 1;
    }
    r
}

fn copy_passive(p: &crate::riot::RiotChampionPassive) -> (r: crate::riot::RiotChampionPassive)
    ensures
        r == *p,
{
    let r = crate::riot::RiotChampionPassive {
        name: p.name.clone(),
        description: p.description.clone(),
        image: crate::riot::RiotChampionImage { full: p.image.full.clone() },
    };
    proof {
        assert(r.image == p.image);
        assert(r == *p);
    }
    r
}

/// A champion descriptor copy with the same content: id, name, growth
/// stats, passive and every spell entry.
pub fn copy_champion(c: &RiotChampionTarget) -> (r: RiotChampionTarget)
    ensures
        champ_eq_s(r, *c),
{
    RiotChampionTarget {
        id: c.id.clone(),
        name: c.name.clone(),
        stats: c.stats,
        spells: copy_spells(&c.spells),
        passive: copy_passive(&c.passive),
    }
}

/// The champion descriptor behind a display name, when the resolved
/// internal id is already cached; the returned copy carries the cached
/// entry's content.
pub fn champion_api(
    champion: &String,
    ids: &IdsCache,
    cache: &Vec<(String, RiotChampionTarget)>,
) -> (r: Option<RiotChampionTarget>)
    ensures
        match r {
            Option::Some(c) => {
                &&& assoc_name_s(cache@, get_champion_s(ids@, champion@)) matches Option::Some(e)
                &&& champ_eq_s(c, e)
            },
            Option::None => assoc_name_s(cache@, get_champion_s(ids@, champion@)) is None,
        },
{
    let key = get_champion(ids, champion);
    match get_by_name(cache, &key) {
        Option::Some(c) => Option::Some(copy_champion(c)),
        Option::None => Option::None,
    }
}

/// The single-slot ability-pack cache: the most recently requested
/// champion's pack, tagged with its internal id.  The pack and its tag
/// are always read and replaced together.
pub struct AbilityPackSlot {
    pub id: Option<String>,
    pub pack: LocalChampion,
}

impl AbilityPackSlot {
    /// An empty slot.
    pub fn new() -> (r: AbilityPackSlot)
        ensures
            r.id is None,
            r.pack@.len() == 0,
    {
        AbilityPackSlot { id: Option::None, pack: Vec::new() }
    }

    /// Whether the slot already holds the pack of the given champion.
    pub fn holds(&self, id: &String) -> (r: bool)
        ensures
            r == (self.id matches Option::Some(x) && x@ == id@),
    {
        match self.id {
            Option::Some(ref x) => *x == *id,
            Option::None => false,
        }
    }

    /// Install a champion's pack: afterwards the slot holds exactly
    /// that pack under exactly that id.
    pub fn install(&mut self, id: String, pack: LocalChampion)
        ensures
            final(self).id == Option::Some(id),
            final(self).pack == pack,
    {
        self.id = Option::Some(id);
        self.pack = pack;
    }
}

} // verus!
