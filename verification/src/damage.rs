//! The damage kernels: for one evaluation context, the damage each of
//! the attacker's runes, items, abilities and summoner spells would
//! inflict, and the relevance filters that choose which identifiers
//! the kernels walk.
//!
//! Each kernel's contract is a spec-level mirror: the produced list of
//! records, entry by entry, over the kernel's spec functions.

use crate::eval::{eval_with_s, evaluate, replacements_s, reps_view};
use crate::fx::{fx_div, fx_div_s, fx_mul, fx_mul_s, Fx};
use crate::game::{
    id_damage_view, named_damage_view, DamageView, GameAbilities, GameFullRunes, GamePlayerDamage,
    GameRelevantIds, GameRelevantProps, GameSummonerSpells,
};
use crate::local::{
    LocalChampion, LocalChampionAbility, LocalItemData, LocalItems, LocalRuneData, LocalRunes,
};
use crate::table::{assoc_id_s, contains_id, get_by_id, has_id_s};
use crate::target::{AllStatsForm, TargetAllStats};
use crate::text::{contains_chars, has_substring, str_to_chars};
use vstd::prelude::*;

verus! {

/// The formula matching the attacker's form.
pub open spec fn form_pick_s(form: AllStatsForm, melee: Seq<char>, ranged: Seq<char>) -> Seq<char> {
    if form == AllStatsForm::Melee {
        melee
    } else {
        ranged
    }
}

pub(crate) proof fn lemma_id_view_push(s: Seq<(u64, GamePlayerDamage)>, p: (u64, GamePlayerDamage))
    ensures
        id_damage_view(s.push(p)) =~= id_damage_view(s).push((p.0, p.1@)),
{
}

pub(crate) proof fn lemma_named_view_push(s: Seq<(String, GamePlayerDamage)>, p: (String, GamePlayerDamage))
    ensures
        named_damage_view(s.push(p)) =~= named_damage_view(s).push((p.0@, p.1@)),
{
}

/// The rune records over the first `i` relevant rune ids.
pub open spec fn rune_damage_upto(
    stats: TargetAllStats,
    runes: Seq<u64>,
    cat: Seq<(u64, LocalRuneData)>,
    i: int,
) -> Seq<(u64, DamageView)>
    decreases i,
{
    if i <= 0 {
        Seq::empty()
    } else {
        let prev = rune_damage_upto(stats, runes, cat, i - 1);
        match assoc_id_s(cat, runes[i - 1]) {
            Option::Some(val) => {
                let f = form_pick_s(stats.active_player.form, val.min.melee@, val.min.ranged@);
                prev.push(
                    (
                        runes[i - 1],
                        DamageView {
                            min: eval_with_s(f, replacements_s(stats)),
                            max: Option::None,
                            damage_type: val.rune_type@,
                            name: Option::Some(val.name@),
                            area: Option::None,
                            onhit: Option::None,
                        },
                    ),
                )
            },
            Option::None => prev,
        }
    }
}

/// All rune records of the relevant rune ids, in order.
pub open spec fn rune_damage_s(
    stats: TargetAllStats,
    runes: Seq<u64>,
    cat: Seq<(u64, LocalRuneData)>,
) -> Seq<(u64, DamageView)> {
    rune_damage_upto(stats, runes, cat, runes.len() as int)
}

/// Damage of each relevant rune: the form-matching formula, evaluated
/// against the context; ids the catalog lacks are skipped.
pub fn rune_damage(stats: &TargetAllStats, runes: &Vec<u64>, local_runes: &LocalRunes) -> (r: Vec<
    (u64, GamePlayerDamage),
>)
    ensures
        id_damage_view(r@) == rune_damage_s(*stats, runes@, local_runes.data@),
{
    let mut result: Vec<(u64, GamePlayerDamage)> = Vec::new();
    let mut i: usize = 0;
    while i < runes.len()
        invariant
            i <= runes@.len(),
            id_damage_view(result@) == rune_damage_upto(
                *stats,
                runes@,
                local_runes.data@,
                i as int,
            ),
        decreases runes@.len() - i,
    {
        let rune: u64 = runes[i];
        match get_by_id(&local_runes.data, rune) {
            Option::Some(val) => {
                let min_str: &String = match stats.active_player.form {
                    AllStatsForm::Melee => &val.min.melee,
                    AllStatsForm::Ranged => &val.min.ranged,
                };
                let (minv, _) = evaluate(min_str, Option::None, stats, Option::None);
                let entry = GamePlayerDamage {
                    min: minv,
                    max: Option::None,
                    damage_type: val.rune_type.clone(),
                    name: Option::Some(val.name.clone()),
                    area: Option::None,
                    onhit: Option::None,
                };
                let pair = (rune, entry);
                let ghost pairg = pair;
                let ghost pre = result@;
                result.push(pair);
                proof {
                    lemma_id_view_push(pre, pairg);
                }
            },
            Option::None => {},
        }
        i = i + 1;
    }
    result
}

/// The extra `total` binding of an item: its per-level effect value,
/// when the effect table covers the attacker's level.
pub open spec fn item_total_s(val: LocalItemData, level: u8) -> Option<int> {
    match val.effect {
        Option::Some(t) => {
            if 1 <= level && level - 1 < t.len() {
                Option::Some(t[level - 1]@)
            } else {
                Option::None
            }
        },
        Option::None => Option::None,
    }
}

/// The binding table an item formula is evaluated under: the item's
/// `total`, when present, stands before the context's bindings.
pub open spec fn item_reps_s(stats: TargetAllStats, val: LocalItemData) -> Seq<(Seq<char>, int)> {
    match item_total_s(val, stats.active_player.level) {
        Option::Some(tv) => seq![("total"@, tv)] + replacements_s(stats),
        Option::None => replacements_s(stats),
    }
}

/// The item records over the first `i` relevant item ids.
pub open spec fn item_damage_upto(
    stats: TargetAllStats,
    items: Seq<u64>,
    cat: Seq<(u64, LocalItemData)>,
    i: int,
) -> Seq<(u64, DamageView)>
    decreases i,
{
    if i <= 0 {
        Seq::empty()
    } else {
        let prev = item_damage_upto(stats, items, cat, i - 1);
        match assoc_id_s(cat, items[i - 1]) {
            Option::Some(val) => {
                let form = stats.active_player.form;
                let f = form_pick_s(form, val.min.melee@, val.min.ranged@);
                let reps = item_reps_s(stats, val);
                let maxv = match val.max {
                    Option::Some(m) => Option::Some(
                        eval_with_s(form_pick_s(form, m.melee@, m.ranged@), reps),
                    ),
                    Option::None => Option::None,
                };
                prev.push(
                    (
                        items[i - 1],
                        DamageView {
                            min: eval_with_s(f, reps),
                            max: maxv,
                            damage_type: val.item_type@,
                            name: Option::Some(val.name@),
                            area: Option::None,
                            onhit: Option::Some(val.onhit),
                        },
                    ),
                )
            },
            Option::None => prev,
        }
    }
}

/// All item records of the relevant item ids, in order.
pub open spec fn item_damage_s(
    stats: TargetAllStats,
    items: Seq<u64>,
    cat: Seq<(u64, LocalItemData)>,
) -> Seq<(u64, DamageView)> {
    item_damage_upto(stats, items, cat, items.len() as int)
}

/// Damage of each relevant item: the form-matching formulas, with the
/// item's per-level `total` exposed as an extra binding when present;
/// ids the catalog lacks are skipped.
pub fn item_damage(stats: &TargetAllStats, items: &Vec<u64>, local_items: &LocalItems) -> (r: Vec<
    (u64, GamePlayerDamage),
>)
    ensures
        id_damage_view(r@) == item_damage_s(*stats, items@, local_items.data@),
{
    let mut result: Vec<(u64, GamePlayerDamage)> = Vec::new();
    let mut i: usize = 0;
    while i < items.len()
        invariant
            i <= items@.len(),
            id_damage_view(result@) == item_damage_upto(
                *stats,
                items@,
                local_items.data@,
                i as int,
            ),
        decreases items@.len() - i,
    {
        let item: u64 = items[i];
        match get_by_id(&local_items.data, item) {
            Option::Some(val) => {
                let min_str: &String = match stats.active_player.form {
                    AllStatsForm::Melee => &val.min.melee,
                    AllStatsForm::Ranged => &val.min.ranged,
                };
                let max_str: Option<&String> = match val.max {
                    Option::Some(ref m) => Option::Some(
                        match stats.active_player.form {
                            AllStatsForm::Melee => &m.melee,
                            AllStatsForm::Ranged => &m.ranged,
                        },
                    ),
                    Option::None => Option::None,
                };
                let level: u8 = stats.active_player.level;
                let total: Option<Fx> = match val.effect {
                    Option::Some(ref t) => {
                        if 1 <= level && ((level - 1) as usize) < t.len() {
                            Option::Some(t[(level - 1) as usize])
                        } else {
                            Option::None
                        }
                    },
                    Option::None => Option::None,
                };
                let inc: Option<Vec<(String, Fx)>> = match total {
                    Option::Some(tv) => {
                        let mut one: Vec<(String, Fx)> = Vec::new();
                        one.push(("total".to_owned(), tv));
                        proof {
                            assert(reps_view(one@) =~= seq![("total"@, tv@)]);
                        }
                        Option::Some(one)
                    },
                    Option::None => Option::None,
                };
                let (minv, maxv) = evaluate(min_str, max_str, stats, inc);
                let entry = GamePlayerDamage {
                    min: minv,
                    max: maxv,
                    damage_type: val.item_type.clone(),
                    name: Option::Some(val.name.clone()),
                    area: Option::None,
                    onhit: Option::Some(val.onhit),
                };
                let pair = (item, entry);
                let ghost pairg = pair;
                let ghost pre = result@;
                result.push(pair);
                proof {
                    lemma_id_view_push(pre, pairg);
                }
            },
            Option::None => {},
        }
        i = i + 1;
    }
    result
}

/// The spell records: one Ignite record per listed spell named
/// `SummonerDot`, with `50 + 20 * level` true damage.
pub open spec fn spell_damage_upto(spells: Seq<Seq<char>>, level: u8, i: int) -> Seq<
    (Seq<char>, DamageView),
>
    decreases i,
{
    if i <= 0 {
        Seq::empty()
    } else {
        let prev = spell_damage_upto(spells, level, i - 1);
        if spells[i - 1] == "SummonerDot"@ {
            prev.push(
                (
                    spells[i - 1],
                    DamageView {
                        min: (50 + 20 * level as int) * 1_000_000,
                        max: Option::None,
                        damage_type: "true"@,
                        name: Option::Some("Ignite"@),
                        area: Option::None,
                        onhit: Option::None,
                    },
                ),
            )
        } else {
            prev
        }
    }
}

pub open spec fn spell_damage_s(spells: Seq<Seq<char>>, level: u8) -> Seq<(Seq<char>, DamageView)> {
    spell_damage_upto(spells, level, spells.len() as int)
}

/// Damage of the attacker's summoner spells; only Ignite contributes.
pub fn spell_damage(spells: &Vec<String>, level: u8) -> (r: Vec<(String, GamePlayerDamage)>)
    ensures
        named_damage_view(r@) == spell_damage_s(names_view(spells@), level),
{
    let mut result: Vec<(String, GamePlayerDamage)> = Vec::new();
    let mut i: usize = 0;
    while i < spells.len()
        invariant
            i <= spells@.len(),
            named_damage_view(result@) == spell_damage_upto(names_view(spells@), level, i as int),
        decreases spells@.len() - i,
    {
        let spell: &String = &spells[i];
        if *spell == "SummonerDot".to_owned() {
            let entry = GamePlayerDamage {
                min: Fx { v: (50 + 20 * (level as i64)) * 1_000_000 },
                max: Option::None,
                damage_type: "true".to_owned(),
                name: Option::Some("Ignite".to_owned()),
                area: Option::None,
                onhit: Option::None,
            };
            let pair = (spell.clone(), entry);
            let ghost pairg = pair;
            let ghost pre = result@;
            result.push(pair);
            proof {
                lemma_named_view_push(pre, pairg);
            }
        }
        i = i + 1;
    }
    result
}

/// The learned rank of the ability behind a pack key: decided by the
/// key's first letter; `P` ranks by the attacker's level.  An unknown
/// or empty key has none — the pack is malformed.
pub open spec fn slot_level_s(key: Seq<char>, ab: GameAbilities, level: u8) -> Option<u8> {
    if key.len() == 0 {
        Option::None
    } else if key[0] == 'Q' {
        Option::Some(ab.q.ability_level)
    } else if key[0] == 'W' {
        Option::Some(ab.w.ability_level)
    } else if key[0] == 'E' {
        Option::Some(ab.e.ability_level)
    } else if key[0] == 'R' {
        Option::Some(ab.r.ability_level)
    } else if key[0] == 'P' {
        Option::Some(level)
    } else {
        Option::None
    }
}

/// The learned rank behind a pack key, by its first letter.
fn slot_level(key: &String, abilities: &GameAbilities, level: u8) -> (r: Option<u8>)
    ensures
        r == slot_level_s(key@, *abilities, level),
{
    let key_str = key.as_str();
    if key_str.unicode_len() == 0 {
        return Option::None;
    }
    let c = key_str.get_char(0);
    if c == 'Q' {
        Option::Some(abilities.q.ability_level)
    } else if c == 'W' {
        Option::Some(abilities.w.ability_level)
    } else if c == 'E' {
        Option::Some(abilities.e.ability_level)
    } else if c == 'R' {
        Option::Some(abilities.r.ability_level)
    } else if c == 'P' {
        Option::Some(level)
    } else {
        Option::None
    }
}

/// Once a prefix of the pack is unusable, so is every longer prefix.
proof fn lemma_ability_none_propagates(
    stats: TargetAllStats,
    ab: GameAbilities,
    pack: Seq<(String, LocalChampionAbility)>,
    i: int,
    j: int,
)
    requires
        0 <= i <= j,
        ability_damage_upto(stats, ab, pack, i) is None,
    ensures
        ability_damage_upto(stats, ab, pack, j) is None,
    decreases j - i,
{
    if i < j {
        lemma_ability_none_propagates(stats, ab, pack, i, j - 1);
    }
}

/// One ability record: rank 0 keeps index 0 and begins as the
/// zero-damage placeholder; when the rank's formula exists it is
/// evaluated and replaces the placeholder.  A rank beyond the formula
/// list yields no record.
pub open spec fn ability_entry_s(stats: TargetAllStats, val: LocalChampionAbility, lvl: u8) -> Option<
    DamageView,
> {
    let idx = if lvl == 0 {
        0int
    } else {
        lvl - 1
    };
    if idx < val.min.len() {
        let f = val.min[idx]@;
        let maxv = match val.max {
            Option::Some(m) => {
                if idx < m.len() {
                    Option::Some(eval_with_s(m[idx]@, replacements_s(stats)))
                } else {
                    Option::None
                }
            },
            Option::None => Option::None,
        };
        Option::Some(
            DamageView {
                min: eval_with_s(f, replacements_s(stats)),
                max: maxv,
                damage_type: val.ability_type@,
                name: Option::None,
                area: Option::None,
                onhit: Option::None,
            },
        )
    } else if idx == 0 {
        Option::Some(
            DamageView {
                min: 0,
                max: Option::None,
                damage_type: "mixed"@,
                name: Option::None,
                area: Option::None,
                onhit: Option::None,
            },
        )
    } else {
        Option::None
    }
}

/// The ability records over the first `i` pack entries; `None` when a
/// pack key is unusable.
pub open spec fn ability_damage_upto(
    stats: TargetAllStats,
    ab: GameAbilities,
    pack: Seq<(String, LocalChampionAbility)>,
    i: int,
) -> Option<Seq<(Seq<char>, DamageView)>>
    decreases i,
{
    if i <= 0 {
        Option::Some(Seq::empty())
    } else {
        match ability_damage_upto(stats, ab, pack, i - 1) {
            Option::Some(prev) => {
                match slot_level_s(pack[i - 1].0@, ab, stats.active_player.level) {
                    Option::Some(lvl) => {
                        match ability_entry_s(stats, pack[i - 1].1, lvl) {
                            Option::Some(d) => Option::Some(prev.push((pack[i - 1].0@, d))),
                            Option::None => Option::Some(prev),
                        }
                    },
                    Option::None => Option::None,
                }
            },
            Option::None => Option::None,
        }
    }
}

/// The basic attack: attack damage through the physical multiplier.
pub open spec fn basic_attack_s(stats: TargetAllStats) -> int {
    fx_mul_s(
        stats.active_player.champion_stats.attack_damage@,
        stats.active_player.multiplier.physical@,
    )
}

/// The critical strike: the basic attack scaled by crit damage over a
/// hundred.
pub open spec fn crit_attack_s(stats: TargetAllStats) -> int {
    fx_div_s(
        fx_mul_s(basic_attack_s(stats), stats.active_player.champion_stats.crit_damage@),
        100_000_000,
    )
}

pub open spec fn attack_entry_s(min: int) -> DamageView {
    DamageView {
        min: min,
        max: Option::None,
        damage_type: "physical"@,
        name: Option::None,
        area: Option::None,
        onhit: Option::None,
    }
}

/// All ability records: the pack entries in order, then the basic
/// attack under `A` and the critical strike under `C`.
pub open spec fn ability_damage_s(
    stats: TargetAllStats,
    ab: GameAbilities,
    pack: Seq<(String, LocalChampionAbility)>,
) -> Option<Seq<(Seq<char>, DamageView)>> {
    match ability_damage_upto(stats, ab, pack, pack.len() as int) {
        Option::Some(entries) => Option::Some(
            entries.push(("A"@, attack_entry_s(basic_attack_s(stats)))).push(
                ("C"@, attack_entry_s(crit_attack_s(stats))),
            ),
        ),
        Option::None => Option::None,
    }
}

/// A usable pack key: nonempty, with a known slot letter.
pub open spec fn slot_key_ok_s(key: Seq<char>) -> bool {
    key.len() > 0 && (key[0] == 'Q' || key[0] == 'W' || key[0] == 'E' || key[0] == 'R' || key[0]
        == 'P')
}

/// Whether every key of the pack is usable.
pub open spec fn pack_usable_s(pack: Seq<(String, LocalChampionAbility)>) -> bool {
    forall|k: int| 0 <= k < pack.len() ==> slot_key_ok_s((#[trigger] pack[k]).0@)
}

/// The ability kernel succeeds on a prefix exactly when every key in
/// it is usable, whatever the context.
pub proof fn lemma_ability_usable(
    stats: TargetAllStats,
    ab: GameAbilities,
    pack: Seq<(String, LocalChampionAbility)>,
    i: int,
)
    requires
        0 <= i <= pack.len(),
    ensures
        ability_damage_upto(stats, ab, pack, i) is Some <==> (forall|k: int|
            0 <= k < i ==> slot_key_ok_s((#[trigger] pack[k]).0@)),
    decreases i,
{
    if i > 0 {
        lemma_ability_usable(stats, ab, pack, i - 1);
    }
}

/// Damage of every ability in the pack, plus the basic attack (`A`)
/// and the critical strike (`C`); a pack with an unusable key yields
/// `None` — the request must fail.
pub fn ability_damage(
    stats: &TargetAllStats,
    abilities: &GameAbilities,
    local_champ: &LocalChampion,
) -> (r: Option<Vec<(String, GamePlayerDamage)>>)
    ensures
        match r {
            Option::Some(v) => ability_damage_s(*stats, *abilities, local_champ@)
                == Option::Some(named_damage_view(v@)),
            Option::None => ability_damage_s(*stats, *abilities, local_champ@) is None,
        },
{
    let mut result: Vec<(String, GamePlayerDamage)> = Vec::new();
    let mut i: usize = 0;
    while i < local_champ.len()
        invariant
            i <= local_champ@.len(),
            ability_damage_upto(*stats, *abilities, local_champ@, i as int) == Option::Some(
                named_damage_view(result@),
            ),
        decreases local_champ@.len() - i,
    {
        let key: &String = &local_champ[i].0;
        let val: &LocalChampionAbility = &local_champ[i].1;
        let lvl: u8 = match slot_level(key, abilities, stats.active_player.level) {
            Option::Some(l) => l,
            Option::None => {
                proof {
                    assert(ability_damage_upto(*stats, *abilities, local_champ@, i + 1) is None);
                    lemma_ability_none_propagates(
                        *stats,
                        *abilities,
                        local_champ@,
                        i + 1,
                        local_champ@.len() as int,
                    );
                }
                return Option::None;
            },
        };
        let idx: usize = if lvl == 0 {
            0
        } else {
            (lvl - 1) as usize
        };
        if idx < val.min.len() {
            let min_str: &String = &val.min[idx];
            let max_str: Option<&String> = match val.max {
                Option::Some(ref m) => {
                    if idx < m.len() {
                        Option::Some(&m[idx])
                    } else {
                        Option::None
                    }
                },
                Option::None => Option::None,
            };
            let (minv, maxv) = evaluate(min_str, max_str, stats, Option::None);
            let entry = GamePlayerDamage {
                min: minv,
                max: maxv,
                damage_type: val.ability_type.clone(),
                name: Option::None,
                area: Option::None,
                onhit: Option::None,
            };
            let pair = (key.clone(), entry);
            let ghost pairg = pair;
            let ghost pre = result@;
            result.push(pair);
            proof {
                lemma_named_view_push(pre, pairg);
            }
        } else if idx == 0 {
            let entry = GamePlayerDamage {
                min: Fx { v: 0 },
                max: Option::None,
                damage_type: "mixed".to_owned(),
                name: Option::None,
                area: Option::None,
                onhit: Option::None,
            };
            let pair = (key.clone(), entry);
            let ghost pairg = pair;
            let ghost pre = result@;
            result.push(pair);
            proof {
                lemma_named_view_push(pre, pairg);
            }
        }
        i = i + 1;
    }
    let attack = fx_mul(
        stats.active_player.champion_stats.attack_damage,
        stats.active_player.multiplier.physical,
    );
    let a_entry = GamePlayerDamage {
        min: attack,
        max: Option::None,
        damage_type: "physical".to_owned(),
        name: Option::None,
        area: Option::None,
        onhit: Option::None,
    };
    let pair_a = ("A".to_owned(), a_entry);
    let ghost pair_ag = pair_a;
    let ghost pre_a = result@;
    result.push(pair_a);
    proof {
        lemma_named_view_push(pre_a, pair_ag);
        assert(pair_ag.0@ == "A"@);
    }
    let crit = fx_div(
        fx_mul(attack, stats.active_player.champion_stats.crit_damage),
        Fx { v: 100_000_000 },
    );
    let c_entry = GamePlayerDamage {
        min: crit,
        max: Option::None,
        damage_type: "physical".to_owned(),
        name: Option::None,
        area: Option::None,
        onhit: Option::None,
    };
    let pair_c = ("C".to_owned(), c_entry);
    let ghost pair_cg = pair_c;
    let ghost pre_c = result@;
    result.push(pair_c);
    proof {
        lemma_named_view_push(pre_c, pair_cg);
        assert(pair_cg.0@ == "C"@);
    }
    Option::Some(result)
}

/// View of a list of names.
pub open spec fn names_view(v: Seq<String>) -> Seq<Seq<char>> {
    v.map_values(|s: String| s@)
}

proof fn lemma_names_view_push(s: Seq<String>, x: String)
    ensures
        names_view(s.push(x)) =~= names_view(s).push(x@),
{
}

/// The pack keys, in order.
pub open spec fn pack_keys_upto(pack: Seq<(String, LocalChampionAbility)>, i: int) -> Seq<
    Seq<char>,
>
    decreases i,
{
    if i <= 0 {
        Seq::empty()
    } else {
        pack_keys_upto(pack, i - 1).push(pack[i - 1].0@)
    }
}

/// The pack keys whose ability has an upper formula list, in order.
pub open spec fn pack_max_keys_upto(pack: Seq<(String, LocalChampionAbility)>, i: int) -> Seq<
    Seq<char>,
>
    decreases i,
{
    if i <= 0 {
        Seq::empty()
    } else {
        let prev = pack_max_keys_upto(pack, i - 1);
        if pack[i - 1].1.max is Some {
            prev.push(pack[i - 1].0@)
        } else {
            prev
        }
    }
}

/// The relevant ability keys: every pack key, then `A` and `C`; the
/// upper list holds the keys with an upper formula list.
pub fn filter_abilities(_champion: &LocalChampion) -> (r: GameRelevantProps)
    ensures
        names_view(r.min@) == pack_keys_upto(_champion@, _champion@.len() as int).push("A"@).push(
            "C"@,
        ),
        names_view(r.max@) == pack_max_keys_upto(_champion@, _champion@.len() as int),
{
    let mut min: Vec<String> = Vec::new();
    let mut max: Vec<String> = Vec::new();
    let mut i: usize = 0;
    while i < _champion.len()
        invariant
            i <= _champion@.len(),
            names_view(min@) == pack_keys_upto(_champion@, i as int),
            names_view(max@) == pack_max_keys_upto(_champion@, i as int),
        decreases _champion@.len() - i,
    {
        let key: &String = &_champion[i].0;
        if _champion[i].1.max.is_some() {
            let k = key.clone();
            let ghost kg = k;
            let ghost prem = max@;
            max.push(k);
            proof {
                lemma_names_view_push(prem, kg);
            }
        }
        let k2 = key.clone();
        let ghost k2g = k2;
        let ghost pre = min@;
        min.push(k2);
        proof {
            lemma_names_view_push(pre, k2g);
        }
        i = i + 1;
    }
    let a = "A".to_owned();
    let ghost ag = a;
    let ghost pre_a = min@;
    min.push(a);
    proof {
        lemma_names_view_push(pre_a, ag);
    }
    let c = "C".to_owned();
    let ghost cg = c;
    let ghost pre_c = min@;
    min.push(c);
    proof {
        lemma_names_view_push(pre_c, cg);
    }
    GameRelevantProps { min, max }
}

/// The owned catalog ids over the first `i` catalog entries.
pub open spec fn owned_ids_upto<V>(cat: Seq<(u64, V)>, owned: Seq<u64>, i: int) -> Seq<u64>
    decreases i,
{
    if i <= 0 {
        Seq::empty()
    } else {
        let prev = owned_ids_upto(cat, owned, i - 1);
        if has_id_s(owned, cat[i - 1].0) {
            prev.push(cat[i - 1].0)
        } else {
            prev
        }
    }
}

/// Every relevant id is one of the first `i` catalog keys.
proof fn lemma_owned_ids_member<V>(cat: Seq<(u64, V)>, owned: Seq<u64>, i: int)
    requires
        0 <= i <= cat.len(),
    ensures
        forall|a: int|
            0 <= a < owned_ids_upto(cat, owned, i).len() ==> exists|j: int|
                0 <= j < i && (#[trigger] cat[j]).0 == #[trigger] owned_ids_upto(cat, owned, i)[a],
    decreases i,
{
    if i > 0 {
        lemma_owned_ids_member(cat, owned, i - 1);
        let prev = owned_ids_upto(cat, owned, i - 1);
        let cur = owned_ids_upto(cat, owned, i);
        assert forall|a: int|
            0 <= a < cur.len() implies exists|j: int|
            0 <= j < i && (#[trigger] cat[j]).0 == #[trigger] cur[a] by {
            if a < prev.len() {
                let j = choose|j: int| 0 <= j < i - 1 && (#[trigger] cat[j]).0 == prev[a];
                assert(0 <= j < i && cat[j].0 == cur[a]);
            } else {
                assert(cat[i - 1].0 == cur[a]);
            }
        }
    }
}

/// A relevant-id list repeats a key only if the catalog does: with
/// distinct catalog keys — the invariant the data files carry from
/// their JSON objects — the filters produce duplicate-free lists.
pub proof fn lemma_owned_ids_distinct<V>(cat: Seq<(u64, V)>, owned: Seq<u64>, i: int)
    requires
        0 <= i <= cat.len(),
        forall|a: int, b: int|
            0 <= a < b < cat.len() ==> (#[trigger] cat[a]).0 != (#[trigger] cat[b]).0,
    ensures
        forall|a: int, b: int|
            0 <= a < b < owned_ids_upto(cat, owned, i).len() ==> owned_ids_upto(cat, owned, i)[a]
                != owned_ids_upto(cat, owned, i)[b],
    decreases i,
{
    if i > 0 {
        lemma_owned_ids_distinct(cat, owned, i - 1);
        lemma_owned_ids_member(cat, owned, i - 1);
        let prev = owned_ids_upto(cat, owned, i - 1);
        let cur = owned_ids_upto(cat, owned, i);
        assert forall|a: int, b: int|
            0 <= a < b < cur.len() implies cur[a] != cur[b] by {
            if b < prev.len() {
                assert(prev[a] != prev[b]);
            } else if cur.len() > prev.len() {
                let j = choose|j: int| 0 <= j < i - 1 && (#[trigger] cat[j]).0 == prev[a];
                assert(cat[j].0 != cat[i - 1].0);
            }
        }
    }
}

/// The owned item ids with an upper formula, over the first `i`
/// catalog entries.
pub open spec fn owned_item_max_upto(
    cat: Seq<(u64, LocalItemData)>,
    owned: Seq<u64>,
    i: int,
) -> Seq<u64>
    decreases i,
{
    if i <= 0 {
        Seq::empty()
    } else {
        let prev = owned_item_max_upto(cat, owned, i - 1);
        if has_id_s(owned, cat[i - 1].0) && cat[i - 1].1.max is Some {
            prev.push(cat[i - 1].0)
        } else {
            prev
        }
    }
}

/// The relevant items: catalog entries the attacker owns, in catalog
/// order; the upper list holds those with an upper formula.
pub fn filter_items(_items: &LocalItems, items: &Vec<u64>) -> (r: GameRelevantIds)
    ensures
        r.min@ == owned_ids_upto(_items.data@, items@, _items.data@.len() as int),
        r.max@ == owned_item_max_upto(_items.data@, items@, _items.data@.len() as int),
{
    let mut min: Vec<u64> = Vec::new();
    let mut max: Vec<u64> = Vec::new();
    let mut i: usize = 0;
    while i < _items.data.len()
        invariant
            i <= _items.data@.len(),
            min@ == owned_ids_upto(_items.data@, items@, i as int),
            max@ == owned_item_max_upto(_items.data@, items@, i as int),
        decreases _items.data@.len() - i,
    {
        let key: u64 = _items.data[i].0;
        if contains_id(items, key) {
            min.push(key);
            if _items.data[i].1.max.is_some() {
                max.push(key);
            }
        }
        i = i + 1;
    }
    GameRelevantIds { min, max }
}

/// The owned rune ids with an upper formula, over the first `i`
/// catalog entries.
pub open spec fn owned_rune_max_upto(
    cat: Seq<(u64, LocalRuneData)>,
    owned: Seq<u64>,
    i: int,
) -> Seq<u64>
    decreases i,
{
    if i <= 0 {
        Seq::empty()
    } else {
        let prev = owned_rune_max_upto(cat, owned, i - 1);
        if has_id_s(owned, cat[i - 1].0) && cat[i - 1].1.max is Some {
            prev.push(cat[i - 1].0)
        } else {
            prev
        }
    }
}

/// The ids of the attacker's general runes.
pub open spec fn rune_ids_s(runes: GameFullRunes) -> Seq<u64> {
    runes.general_runes@.map_values(|p: crate::game::GameRuneProp| p.id as u64)
}

/// The relevant runes: catalog entries among the attacker's general
/// runes, in catalog order; the upper list holds those with an upper
/// formula.
pub fn filter_runes(_runes: &LocalRunes, runes: &GameFullRunes) -> (r: GameRelevantIds)
    ensures
        r.min@ == owned_ids_upto(_runes.data@, rune_ids_s(*runes), _runes.data@.len() as int),
        r.max@ == owned_rune_max_upto(_runes.data@, rune_ids_s(*runes), _runes.data@.len() as int),
{
    let mut rune_vec: Vec<u64> = Vec::new();
    let mut k: usize = 0;
    while k < runes.general_runes.len()
        invariant
            k <= runes.general_runes@.len(),
            rune_vec@ == rune_ids_s(*runes).subrange(0, k as int),
        decreases runes.general_runes@.len() - k,
    {
        rune_vec.push(runes.general_runes[k].id as u64);
        proof {
            assert(rune_vec@ =~= rune_ids_s(*runes).subrange(0, k + 1));
        }
        k = k + 1;
    }
    proof {
        assert(rune_ids_s(*runes).subrange(0, runes.general_runes@.len() as int) =~= rune_ids_s(
            *runes,
        ));
    }
    let mut min: Vec<u64> = Vec::new();
    let mut max: Vec<u64> = Vec::new();
    let mut i: usize = 0;
    while i < _runes.data.len()
        invariant
            i <= _runes.data@.len(),
            rune_vec@ == rune_ids_s(*runes),
            min@ == owned_ids_upto(_runes.data@, rune_ids_s(*runes), i as int),
            max@ == owned_rune_max_upto(_runes.data@, rune_ids_s(*runes), i as int),
        decreases _runes.data@.len() - i,
    {
        let key: u64 = _runes.data[i].0;
        if contains_id(&rune_vec, key) {
            min.push(key);
            if _runes.data[i].1.max.is_some() {
                max.push(key);
            }
        }
        i = i + 1;
    }
    GameRelevantIds { min, max }
}

/// Whether a summoner spell description names Ignite.
pub open spec fn spell_is_dot_s(desc: Seq<char>) -> bool {
    has_substring(desc, "SummonerDot"@)
}

/// The relevant spells: a single `SummonerDot` entry when either
/// summoner spell's description names Ignite; no upper list.
pub fn filter_spell(spells: &GameSummonerSpells) -> (r: GameRelevantProps)
    ensures
        names_view(r.min@) == (if spell_is_dot_s(spells.summoner_spell_one.raw_description@)
            || spell_is_dot_s(spells.summoner_spell_two.raw_description@) {
            seq!["SummonerDot"@]
        } else {
            Seq::<Seq<char>>::empty()
        }),
        r.max@.len() == 0,
{
    let needle = str_to_chars("SummonerDot");
    let mut min: Vec<String> = Vec::new();
    let max: Vec<String> = Vec::new();
    let d1 = str_to_chars(spells.summoner_spell_one.raw_description.as_str());
    let d2 = str_to_chars(spells.summoner_spell_two.raw_description.as_str());
    if contains_chars(&d1, &needle) || contains_chars(&d2, &needle) {
        let s = "SummonerDot".to_owned();
        let ghost sg = s;
        let ghost pre = min@;
        min.push(s);
        proof {
            lemma_names_view_push(pre, sg);
        }
    }
    proof {
        assert(names_view(min@) =~= (if spell_is_dot_s(
            spells.summoner_spell_one.raw_description@,
        ) || spell_is_dot_s(spells.summoner_spell_two.raw_description@) {
            seq!["SummonerDot"@]
        } else {
            Seq::<Seq<char>>::empty()
        }));
    }
    GameRelevantProps { min, max }
}

} // verus!
