//! The tool simulator: apply a candidate item's stat modifiers to the
//! attacker, recompute every damage record, and report the elementwise
//! change and the total damage swing.

use crate::damage::{
    ability_damage, ability_damage_s, item_damage, item_damage_s, lemma_id_view_push,
    lemma_named_view_push, rune_damage, rune_damage_s, spell_damage, spell_damage_s,
};
use crate::expr::{parse_decimal_chars, parse_decimal_s};
use crate::fx::{fx_add, fx_add_s, fx_sub, fx_sub_s, Fx};
use crate::game::{
    champ_bonus_s, get_camel_s, set_camel_s, DamageView, DamagesView, GameActivePlayer,
    GameChampionStats, GameCoreStats, GamePlayer, GamePlayerDamage, GamePlayerDamages,
    GamePlayerTool,
};
use crate::local::{LocalChampion, LocalItems, LocalRunes, LocalStats, LocalStatsStruct,
    ModifierValue};
use crate::table::{assoc_id_s, get_by_id};
use crate::target::{all_stats_core, all_stats_s, TargetAllStats};
use crate::text::str_to_chars;
use vstd::prelude::*;

verus! {

/// The elementwise change and the total swing.
pub struct TargetToolChange {
    pub dif: GamePlayerDamages,
    pub sum: Fx,
}

/// The text with every percent sign removed.
pub open spec fn strip_pct_upto(s: Seq<char>, i: int) -> Seq<char>
    decreases i,
{
    if i <= 0 {
        Seq::empty()
    } else {
        let prev = strip_pct_upto(s, i - 1);
        if s[i - 1] == '%' {
            prev
        } else {
            prev.push(s[i - 1])
        }
    }
}

pub open spec fn strip_pct_s(s: Seq<char>) -> Seq<char> {
    strip_pct_upto(s, s.len() as int)
}

fn strip_pct(s: &Vec<char>) -> (r: Vec<char>)
    ensures
        r@ == strip_pct_s(s@),
{
    let mut r: Vec<char> = Vec::new();
    let mut i: usize = 0;
    while i < s.len()
        invariant
            i <= s@.len(),
            r@ == strip_pct_upto(s@, i as int),
        decreases s@.len() - i,
    {
        if s[i] != '%' {
            r.push(s[i]);
        }
        i = i + 1;
    }
    r
}

/// One modifier folded into the snapshot: a number is added to the
/// named stat, text has its numeric content (percent signs removed)
/// subtracted; an unknown name changes nothing.
pub open spec fn apply_mod_s(s: GameChampionStats, key: Seq<char>, v: ModifierValue) -> GameChampionStats {
    match get_camel_s(s, key) {
        Option::None => s,
        Option::Some(cur) => {
            let new = match v {
                ModifierValue::Number(n) => fx_add_s(cur@, n@),
                ModifierValue::Text(t) => fx_sub_s(cur@, parse_decimal_s(strip_pct_s(t@))),
            };
            set_camel_s(s, key, Fx { v: new as i64 })
        },
    }
}

/// The snapshot after the first `i` modifiers.
pub open spec fn apply_mods_upto(
    s: GameChampionStats,
    mods: Seq<(String, ModifierValue)>,
    i: int,
) -> GameChampionStats
    decreases i,
{
    if i <= 0 {
        s
    } else {
        apply_mod_s(apply_mods_upto(s, mods, i - 1), mods[i - 1].0@, mods[i - 1].1)
    }
}

/// The attacker's snapshot with the tool's modifiers applied; an
/// unknown tool id leaves it unchanged.
pub open spec fn assing_stats_s(
    item: u64,
    cs: GameChampionStats,
    tools: Seq<(u64, LocalStatsStruct)>,
) -> GameChampionStats {
    match assoc_id_s(tools, item) {
        Option::Some(t) => apply_mods_upto(cs, t.stats.modifiers@, t.stats.modifiers@.len() as int),
        Option::None => cs,
    }
}

/// Apply the tool's stat modifiers to the attacker's snapshot.
pub fn assing_stats(item: u64, cs: &GameChampionStats, tools: &LocalStats) -> (r: GameChampionStats)
    ensures
        r == assing_stats_s(item, *cs, tools@),
{
    match get_by_id(tools, item) {
        Option::Some(t) => {
            let mods = &t.stats.modifiers;
            let mut stats = *cs;
            let mut i: usize = 0;
            while i < mods.len()
                invariant
                    i <= mods@.len(),
                    stats == apply_mods_upto(*cs, mods@, i as int),
                decreases mods@.len() - i,
            {
                let key: &String = &mods[i].0;
                match stats.get_camel(key) {
                    Option::None => {},
                    Option::Some(cur) => {
                        let new = match &mods[i].1 {
                            ModifierValue::Number(n) => fx_add(cur, *n),
                            ModifierValue::Text(t) => {
                                let stripped = strip_pct(&str_to_chars(t.as_str()));
                                fx_sub(cur, parse_decimal_chars(&stripped))
                            },
                        };
                        stats = stats.set_camel(key, new);
                    },
                }
                i = i + 1;
            }
            stats
        },
        Option::None => *cs,
    }
}

/// The change from a baseline record to a recomputed one: the
/// difference of the lower values, the difference of the upper values
/// when both exist, and the recomputed record's descriptive fields.
pub open spec fn delta_s(n: DamageView, c: DamageView) -> DamageView {
    DamageView {
        min: fx_sub_s(n.min, c.min),
        max: match (n.max, c.max) {
            (Option::Some(a), Option::Some(b)) => Option::Some(fx_sub_s(a, b)),
            _ => Option::None,
        },
        damage_type: n.damage_type,
        name: n.name,
        area: n.area,
        onhit: n.onhit,
    }
}

/// The change from `curr` to `next`.
pub fn evaluate_change(next: &GamePlayerDamage, curr: &GamePlayerDamage) -> (r: GamePlayerDamage)
    ensures
        r@ == delta_s(next@, curr@),
{
    GamePlayerDamage {
        min: fx_sub(next.min, curr.min),
        max: match (next.max, curr.max) {
            (Option::Some(a), Option::Some(b)) => Option::Some(fx_sub(a, b)),
            _ => Option::None,
        },
        damage_type: next.damage_type.clone(),
        name: next.name.clone(),
        area: next.area,
        onhit: next.onhit,
    }
}

/// First record under a string key.
pub open spec fn find_named_s(s: Seq<(Seq<char>, DamageView)>, k: Seq<char>) -> Option<DamageView>
    decreases s.len(),
{
    if s.len() == 0 {
        Option::None
    } else if s[0].0 == k {
        Option::Some(s[0].1)
    } else {
        find_named_s(s.drop_first(), k)
    }
}

/// First record under a numeric key.
pub open spec fn find_id_s(s: Seq<(u64, DamageView)>, k: u64) -> Option<DamageView>
    decreases s.len(),
{
    if s.len() == 0 {
        Option::None
    } else if s[0].0 == k {
        Option::Some(s[0].1)
    } else {
        find_id_s(s.drop_first(), k)
    }
}

proof fn lemma_find_named_skip(s: Seq<(Seq<char>, DamageView)>, k: Seq<char>, i: int)
    requires
        0 <= i <= s.len(),
        forall|j: int| 0 <= j < i ==> (#[trigger] s[j]).0 != k,
    ensures
        find_named_s(s, k) == find_named_s(s.subrange(i, s.len() as int), k),
    decreases i,
{
    if i > 0 {
        lemma_find_named_skip(s.drop_first(), k, i - 1);
        assert(s.drop_first().subrange(i - 1, s.drop_first().len() as int) =~= s.subrange(
            i,
            s.len() as int,
        ));
    } else {
        assert(s.subrange(0, s.len() as int) =~= s);
    }
}

proof fn lemma_find_id_skip(s: Seq<(u64, DamageView)>, k: u64, i: int)
    requires
        0 <= i <= s.len(),
        forall|j: int| 0 <= j < i ==> (#[trigger] s[j]).0 != k,
    ensures
        find_id_s(s, k) == find_id_s(s.subrange(i, s.len() as int), k),
    decreases i,
{
    if i > 0 {
        lemma_find_id_skip(s.drop_first(), k, i - 1);
        assert(s.drop_first().subrange(i - 1, s.drop_first().len() as int) =~= s.subrange(
            i,
            s.len() as int,
        ));
    } else {
        assert(s.subrange(0, s.len() as int) =~= s);
    }
}

fn get_named<'a>(v: &'a Vec<(String, GamePlayerDamage)>, key: &String) -> (r: Option<
    &'a GamePlayerDamage,
>)
    ensures
        match r {
            Option::Some(d) => find_named_s(crate::game::named_damage_view(v@), key@)
                == Option::Some(d@),
            Option::None => find_named_s(crate::game::named_damage_view(v@), key@) is None,
        },
{
    let ghost vw = crate::game::named_damage_view(v@);
    let mut i: usize = 0;
    while i < v.len()
        invariant
            i <= v@.len(),
            vw == crate::game::named_damage_view(v@),
            forall|j: int| 0 <= j < i ==> (#[trigger] vw[j]).0 != key@,
        decreases v@.len() - i,
    {
        if v[i].0 == *key {
            proof {
                lemma_find_named_skip(vw, key@, i as int);
                assert(vw.subrange(i as int, vw.len() as int)[0] == vw[i as int]);
            }
            return Option::Some(&v[i].1);
        }
        proof {
            assert(vw[i as int].0 == v@[i as int].0@);
        }
        i = i + 1;
    }
    proof {
        lemma_find_named_skip(vw, key@, vw.len() as int);
    }
    Option::None
}

fn get_id<'a>(v: &'a Vec<(u64, GamePlayerDamage)>, key: u64) -> (r: Option<&'a GamePlayerDamage>)
    ensures
        match r {
            Option::Some(d) => find_id_s(crate::game::id_damage_view(v@), key) == Option::Some(d@),
            Option::None => find_id_s(crate::game::id_damage_view(v@), key) is None,
        },
{
    let ghost vw = crate::game::id_damage_view(v@);
    let mut i: usize = 0;
    while i < v.len()
        invariant
            i <= v@.len(),
            vw == crate::game::id_damage_view(v@),
            forall|j: int| 0 <= j < i ==> (#[trigger] vw[j]).0 != key,
        decreases v@.len() - i,
    {
        if v[i].0 == key {
            proof {
                lemma_find_id_skip(vw, key, i as int);
                assert(vw.subrange(i as int, vw.len() as int)[0] == vw[i as int]);
            }
            return Option::Some(&v[i].1);
        }
        proof {
            assert(vw[i as int].0 == v@[i as int].0);
        }
        i = i + 1;
    }
    proof {
        lemma_find_id_skip(vw, key, vw.len() as int);
    }
    Option::None
}

/// The change records and the running sum over the first `i` string
/// keyed records: each recomputed record whose key the baseline also
/// holds contributes its change, and the change's lower and (when
/// present) upper values are folded into the sum.
pub open spec fn process_named_upto(
    val: Seq<(Seq<char>, DamageView)>,
    base: Seq<(Seq<char>, DamageView)>,
    i: int,
    sum0: int,
) -> (Seq<(Seq<char>, DamageView)>, int)
    decreases i,
{
    if i <= 0 {
        (Seq::empty(), sum0)
    } else {
        let prev = process_named_upto(val, base, i - 1, sum0);
        match find_named_s(base, val[i - 1].0) {
            Option::None => prev,
            Option::Some(c) => {
                let d = delta_s(val[i - 1].1, c);
                let s2 = fx_add_s(prev.1, d.min);
                let s3 = match d.max {
                    Option::Some(m) => fx_add_s(s2, m),
                    Option::None => s2,
                };
                (prev.0.push((val[i - 1].0, d)), s3)
            },
        }
    }
}

/// As [`process_named_upto`], for numeric keys.
pub open spec fn process_id_upto(
    val: Seq<(u64, DamageView)>,
    base: Seq<(u64, DamageView)>,
    i: int,
    sum0: int,
) -> (Seq<(u64, DamageView)>, int)
    decreases i,
{
    if i <= 0 {
        (Seq::empty(), sum0)
    } else {
        let prev = process_id_upto(val, base, i - 1, sum0);
        match find_id_s(base, val[i - 1].0) {
            Option::None => prev,
            Option::Some(c) => {
                let d = delta_s(val[i - 1].1, c);
                let s2 = fx_add_s(prev.1, d.min);
                let s3 = match d.max {
                    Option::Some(m) => fx_add_s(s2, m),
                    Option::None => s2,
                };
                (prev.0.push((val[i - 1].0, d)), s3)
            },
        }
    }
}

fn process_named(
    val: &Vec<(String, GamePlayerDamage)>,
    base: &Vec<(String, GamePlayerDamage)>,
    sum0: Fx,
) -> (r: (Vec<(String, GamePlayerDamage)>, Fx))
    ensures
        ({
            let spec = process_named_upto(
                crate::game::named_damage_view(val@),
                crate::game::named_damage_view(base@),
                val@.len() as int,
                sum0@,
            );
            crate::game::named_damage_view(r.0@) == spec.0 && r.1@ == spec.1
        }),
{
    let ghost valw = crate::game::named_damage_view(val@);
    let ghost basew = crate::game::named_damage_view(base@);
    let mut out: Vec<(String, GamePlayerDamage)> = Vec::new();
    let mut sum: Fx = sum0;
    let mut i: usize = 0;
    while i < val.len()
        invariant
            i <= val@.len(),
            valw == crate::game::named_damage_view(val@),
            basew == crate::game::named_damage_view(base@),
            crate::game::named_damage_view(out@) == process_named_upto(
                valw,
                basew,
                i as int,
                sum0@,
            ).0,
            sum@ == process_named_upto(valw, basew, i as int, sum0@).1,
        decreases val@.len() - i,
    {
        proof {
            assert(valw[i as int] == (val@[i as int].0@, val@[i as int].1@));
        }
        match get_named(base, &val[i].0) {
            Option::None => {},
            Option::Some(c) => {
                let d = evaluate_change(&val[i].1, c);
                sum = fx_add(sum, d.min);
                match d.max {
                    Option::Some(m) => {
                        sum = fx_add(sum, m);
                    },
                    Option::None => {},
                }
                let pair = (val[i].0.clone(), d);
                let ghost pairg = pair;
                let ghost pre = out@;
                out.push(pair);
                proof {
                    lemma_named_view_push(pre, pairg);
                }
            },
        }
        i = i + 1;
    }
    (out, sum)
}

fn process_id(
    val: &Vec<(u64, GamePlayerDamage)>,
    base: &Vec<(u64, GamePlayerDamage)>,
    sum0: Fx,
) -> (r: (Vec<(u64, GamePlayerDamage)>, Fx))
    ensures
        ({
            let spec = process_id_upto(
                crate::game::id_damage_view(val@),
                crate::game::id_damage_view(base@),
                val@.len() as int,
                sum0@,
            );
            crate::game::id_damage_view(r.0@) == spec.0 && r.1@ == spec.1
        }),
{
    let ghost valw = crate::game::id_damage_view(val@);
    let ghost basew = crate::game::id_damage_view(base@);
    let mut out: Vec<(u64, GamePlayerDamage)> = Vec::new();
    let mut sum: Fx = sum0;
    let mut i: usize = 0;
    while i < val.len()
        invariant
            i <= val@.len(),
            valw == crate::game::id_damage_view(val@),
            basew == crate::game::id_damage_view(base@),
            crate::game::id_damage_view(out@) == process_id_upto(valw, basew, i as int, sum0@).0,
            sum@ == process_id_upto(valw, basew, i as int, sum0@).1,
        decreases val@.len() - i,
    {
        proof {
            assert(valw[i as int] == (val@[i as int].0, val@[i as int].1@));
        }
        match get_id(base, val[i].0) {
            Option::None => {},
            Option::Some(c) => {
                let d = evaluate_change(&val[i].1, c);
                sum = fx_add(sum, d.min);
                match d.max {
                    Option::Some(m) => {
                        sum = fx_add(sum, m);
                    },
                    Option::None => {},
                }
                let pair = (val[i].0, d);
                let ghost pairg = pair;
                let ghost pre = out@;
                out.push(pair);
                proof {
                    lemma_id_view_push(pre, pairg);
                }
            },
        }
        i = i + 1;
    }
    (out, sum)
}

/// The elementwise change between two damage computations, and the
/// total swing: the changes of every category, with the sum folded
/// left over abilities, items, runes and spells in that order.
pub open spec fn find_change_s(mx: DamagesView, mn: DamagesView) -> (DamagesView, int) {
    let a = process_named_upto(mx.abilities, mn.abilities, mx.abilities.len() as int, 0);
    let it = process_id_upto(mx.items, mn.items, mx.items.len() as int, a.1);
    let ru = process_id_upto(mx.runes, mn.runes, mx.runes.len() as int, it.1);
    let sp = process_named_upto(mx.spell, mn.spell, mx.spell.len() as int, ru.1);
    (DamagesView { abilities: a.0, items: it.0, runes: ru.0, spell: sp.0 }, sp.1)
}

/// The elementwise change between two damage computations and the
/// total swing; keys the baseline lacks are skipped.
pub fn find_change(max: &GamePlayerDamages, min: &GamePlayerDamages) -> (r: (
    GamePlayerDamages,
    Fx,
))
    ensures
        r.0@ == find_change_s(max@, min@).0,
        r.1@ == find_change_s(max@, min@).1,
{
    let (ab, s1) = process_named(&max.abilities, &min.abilities, Fx { v: 0 });
    let (it, s2) = process_id(&max.items, &min.items, s1);
    let (ru, s3) = process_id(&max.runes, &min.runes, s2);
    let (sp, s4) = process_named(&max.spell, &min.spell, s3);
    (GamePlayerDamages { abilities: ab, items: it, runes: ru, spell: sp }, s4)
}

/// The change and its sum, packed.
pub fn tool_change(max: &GamePlayerDamages, min: &GamePlayerDamages) -> (r: TargetToolChange)
    ensures
        r.dif@ == find_change_s(max@, min@).0,
        r.sum@ == find_change_s(max@, min@).1,
{
    let (dif, sum) = find_change(max, min);
    TargetToolChange { dif, sum }
}

/// The evaluation context of the attacker under the candidate tool:
/// modified snapshot, recomputed bonus split, same base.
pub open spec fn tool_ctx_s(
    player: GamePlayer,
    cs: GameChampionStats,
    base: GameCoreStats,
    rune_ids: Seq<u64>,
    item_ids: Seq<u64>,
    champ_id: String,
    level: u8,
    item: u64,
    tools: Seq<(u64, LocalStatsStruct)>,
) -> TargetAllStats {
    let new_cs = assing_stats_s(item, cs, tools);
    all_stats_s(
        player,
        new_cs,
        champ_bonus_s(new_cs, base),
        base,
        rune_ids,
        item_ids,
        champ_id,
        level,
    )
}

/// The four damage categories recomputed under the candidate tool.
pub open spec fn tool_damages_s(
    player: GamePlayer,
    cs: GameChampionStats,
    base: GameCoreStats,
    rune_ids: Seq<u64>,
    item_ids: Seq<u64>,
    spell_names: Seq<Seq<char>>,
    champ_id: String,
    level: u8,
    abilities: crate::game::GameAbilities,
    item: u64,
    pack: Seq<(String, crate::local::LocalChampionAbility)>,
    items_cat: Seq<(u64, crate::local::LocalItemData)>,
    runes_cat: Seq<(u64, crate::local::LocalRuneData)>,
    tools: Seq<(u64, LocalStatsStruct)>,
) -> Option<DamagesView> {
    let ctx = tool_ctx_s(player, cs, base, rune_ids, item_ids, champ_id, level, item, tools);
    match ability_damage_s(ctx, abilities, pack) {
        Option::Some(ab) => Option::Some(
            DamagesView {
                abilities: ab,
                items: item_damage_s(ctx, item_ids, items_cat),
                runes: rune_damage_s(ctx, rune_ids, runes_cat),
                spell: spell_damage_s(spell_names, level),
            },
        ),
        Option::None => Option::None,
    }
}

/// Recompute the attacker's damage under the candidate tool and
/// report the change against the defender's baseline: the recomputed
/// records, the elementwise difference and the total swing.  `None`
/// when the ability pack is unusable.
pub fn tool_damage(
    active_player: &GameActivePlayer,
    player: &GamePlayer,
    item: u64,
    local_champ: &LocalChampion,
    local_items: &LocalItems,
    local_runes: &LocalRunes,
    local_stats: &LocalStats,
) -> (r: Option<GamePlayerTool>)
    requires
        active_player.base_stats is Some,
        active_player.relevant is Some,
        active_player.champion is Some,
        player.champion_stats is Some,
        player.bonus_stats is Some,
        player.base_stats is Some,
        player.damage is Some,
    ensures
        ({
            let rel = active_player.relevant->Some_0;
            let dmgs = tool_damages_s(
                *player,
                active_player.champion_stats,
                active_player.base_stats->Some_0,
                rel.runes.min@,
                rel.items.min@,
                crate::damage::names_view(rel.spell.min@),
                active_player.champion->Some_0.id,
                active_player.level,
                active_player.abilities,
                item,
                local_champ@,
                local_items.data@,
                local_runes.data@,
                local_stats@,
            );
            match r {
                Option::Some(t) => {
                    &&& dmgs matches Option::Some(dmax)
                    &&& t.max@ == dmax
                    &&& t.dif matches Option::Some(d) && d@ == find_change_s(
                        dmax,
                        player.damage->Some_0@,
                    ).0
                    &&& t.sum@ == find_change_s(dmax, player.damage->Some_0@).1
                    &&& t.rec is None
                },
                Option::None => dmgs is None,
            }
        }),
{
    let new_cs = assing_stats(item, &active_player.champion_stats, local_stats);
    let base = active_player.base_stats.as_ref().unwrap();
    let new_bonus = new_cs.bonus_stats(*base);
    let rel = active_player.relevant.as_ref().unwrap();
    let champ_id = &active_player.champion.as_ref().unwrap().id;
    let stats = all_stats_core(player, &new_cs, &new_bonus, base, rel, champ_id,
        active_player.level);
    let abilities_d = match ability_damage(&stats, &active_player.abilities, local_champ) {
        Option::Some(v) => v,
        Option::None => {
            return Option::None;
        },
    };
    let damage_max = GamePlayerDamages {
        abilities: abilities_d,
        items: item_damage(&stats, &rel.items.min, local_items),
        runes: rune_damage(&stats, &rel.runes.min, local_runes),
        spell: spell_damage(&rel.spell.min, active_player.level),
    };
    let change = tool_change(&damage_max, player.damage.as_ref().unwrap());
    Option::Some(
        GamePlayerTool {
            sum: change.sum,
            dif: Option::Some(change.dif),
            max: damage_max,
            rec: Option::None,
        },
    )
}

} // verus!
