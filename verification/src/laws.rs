//! The engine's cross-cutting guarantees, each proved from the public
//! contracts: the bonus split inverts, the ability kernel covers every
//! pack key and ties the critical strike to the basic attack, the tool
//! sum is exactly the fold of its recorded changes, the attack form
//! follows attack range, and enrichment is a function of its inputs.

use crate::damage::{
    ability_damage_s, ability_damage_upto, attack_entry_s, basic_attack_s, crit_attack_s,
    slot_level_s,
};
use crate::fx::{fx_add_s, fx_div_s, fx_mul_s};
use crate::game::{champ_bonus_s, DamageView, GameAbilities, GameChampionStats, GameCoreStats};
use crate::local::LocalChampionAbility;
use crate::service::{enriched_rel, lemma_ctx_player_fields, lemma_tool_player_fields,
    opp_damages_of_s, opp_tool_of_s};
use crate::target::{all_stats_s, AllStatsForm, TargetAllStats};
use crate::tool::{find_change_s, process_id_upto, process_named_upto};
use vstd::prelude::*;

verus! {

/// Adding the bonus split back onto the base recovers the live
/// snapshot on the five growth stats, whenever the split itself did
/// not saturate.
pub proof fn lemma_stats_identity(cur: GameChampionStats, base: GameCoreStats)
    requires
        i64::MIN as int <= cur.max_health@ - base.max_health@ <= i64::MAX as int,
        i64::MIN as int <= cur.armor@ - base.armor@ <= i64::MAX as int,
        i64::MIN as int <= cur.magic_resist@ - base.magic_resist@ <= i64::MAX as int,
        i64::MIN as int <= cur.attack_damage@ - base.attack_damage@ <= i64::MAX as int,
        i64::MIN as int <= cur.resource_max@ - base.resource_max@ <= i64::MAX as int,
    ensures
        ({
            let bonus = champ_bonus_s(cur, base);
            &&& fx_add_s(base.max_health@, bonus.max_health@) == cur.max_health@
            &&& fx_add_s(base.armor@, bonus.armor@) == cur.armor@
            &&& fx_add_s(base.magic_resist@, bonus.magic_resist@) == cur.magic_resist@
            &&& fx_add_s(base.attack_damage@, bonus.attack_damage@) == cur.attack_damage@
            &&& fx_add_s(base.resource_max@, bonus.resource_max@) == cur.resource_max@
        }),
{
}

/// The attack form is ranged exactly when attack range exceeds 350.
pub proof fn lemma_form_coherence(
    player: crate::game::GamePlayer,
    acs: GameChampionStats,
    abs: GameCoreStats,
    abt: GameCoreStats,
    rune_ids: Seq<u64>,
    item_ids: Seq<u64>,
    champ_id: String,
    level: u8,
)
    ensures
        all_stats_s(player, acs, abs, abt, rune_ids, item_ids, champ_id, level).active_player.form
            == AllStatsForm::Ranged <==> acs.attack_range@ > 350_000_000,
{
}

/// Whether a key stands somewhere in an ability record list.
pub open spec fn has_key_s(entries: Seq<(Seq<char>, DamageView)>, key: Seq<char>) -> bool {
    exists|j: int| 0 <= j < entries.len() && (#[trigger] entries[j]).0 == key
}

proof fn lemma_ability_upto_keys(
    stats: TargetAllStats,
    ab: GameAbilities,
    pack: Seq<(String, LocalChampionAbility)>,
    i: int,
)
    requires
        0 <= i <= pack.len(),
        ability_damage_upto(stats, ab, pack, i) is Some,
        forall|k: int|
            0 <= k < pack.len() ==> {
                let lvl = slot_level_s((#[trigger] pack[k]).0@, ab, stats.active_player.level);
                lvl matches Option::Some(l) && ((if l == 0 {
                    0int
                } else {
                    l - 1
                }) < pack[k].1.min.len() || l == 0)
            },
    ensures
        forall|k: int|
            0 <= k < i ==> has_key_s(
                ability_damage_upto(stats, ab, pack, i)->Some_0,
                (#[trigger] pack[k]).0@,
            ),
    decreases i,
{
    if i > 0 {
        lemma_ability_upto_keys(stats, ab, pack, i - 1);
        let prev = ability_damage_upto(stats, ab, pack, i - 1)->Some_0;
        let cur = ability_damage_upto(stats, ab, pack, i)->Some_0;
        assert(prev.len() <= cur.len() && (forall|j: int|
            0 <= j < prev.len() ==> cur[j] == prev[j]));
        assert forall|k: int| 0 <= k < i implies has_key_s(cur, (#[trigger] pack[k]).0@) by {
            if k < i - 1 {
                let j = choose|j: int|
                    0 <= j < prev.len() && (#[trigger] prev[j]).0 == pack[k].0@;
                assert(cur[j].0 == pack[k].0@);
            } else {
                let lvl = slot_level_s(pack[k].0@, ab, stats.active_player.level)->Some_0;
                assert(crate::damage::ability_entry_s(stats, pack[k].1, lvl) is Some);
                assert(cur[cur.len() - 1].0 == pack[k].0@);
            }
        }
    }
}

/// The ability records carry every pack key, close with the basic
/// attack `A` and the critical strike `C`, give `A` physical type, and
/// tie `C` to `A` through crit damage over one hundred.
pub proof fn lemma_ability_keys_and_crit(
    stats: TargetAllStats,
    ab: GameAbilities,
    pack: Seq<(String, LocalChampionAbility)>,
)
    requires
        ability_damage_s(stats, ab, pack) is Some,
        forall|k: int|
            0 <= k < pack.len() ==> {
                let lvl = slot_level_s((#[trigger] pack[k]).0@, ab, stats.active_player.level);
                lvl matches Option::Some(l) && ((if l == 0 {
                    0int
                } else {
                    l - 1
                }) < pack[k].1.min.len() || l == 0)
            },
    ensures
        ({
            let entries = ability_damage_s(stats, ab, pack)->Some_0;
            &&& entries.len() >= 2
            &&& forall|k: int| 0 <= k < pack.len() ==> has_key_s(entries, (#[trigger] pack[k]).0@)
            &&& has_key_s(entries, "A"@)
            &&& has_key_s(entries, "C"@)
            &&& entries[entries.len() - 2] == ("A"@, attack_entry_s(basic_attack_s(stats)))
            &&& entries[entries.len() - 1] == ("C"@, attack_entry_s(crit_attack_s(stats)))
            &&& entries[entries.len() - 2].1.damage_type == "physical"@
            &&& entries[entries.len() - 1].1.min == fx_div_s(
                fx_mul_s(entries[entries.len() - 2].1.min, stats.active_player.champion_stats.crit_damage@),
                100_000_000,
            )
        }),
{
    lemma_ability_upto_keys(stats, ab, pack, pack.len() as int);
    let inner = ability_damage_upto(stats, ab, pack, pack.len() as int)->Some_0;
    let entries = ability_damage_s(stats, ab, pack)->Some_0;
    assert(entries == inner.push(("A"@, attack_entry_s(basic_attack_s(stats)))).push(
        ("C"@, attack_entry_s(crit_attack_s(stats))),
    ));
    assert(entries[entries.len() - 2].0 == "A"@);
    assert(entries[entries.len() - 1].0 == "C"@);
    assert forall|k: int| 0 <= k < pack.len() implies has_key_s(entries, (#[trigger] pack[k]).0@) by {
        let j = choose|j: int| 0 <= j < inner.len() && (#[trigger] inner[j]).0 == pack[k].0@;
        assert(entries[j].0 == pack[k].0@);
    }
}

/// The fold of a string-keyed change list: each record's lower value,
/// then its upper value when present, added saturating.
pub open spec fn sum_named_s(entries: Seq<(Seq<char>, DamageView)>, acc: int) -> int
    decreases entries.len(),
{
    if entries.len() == 0 {
        acc
    } else {
        let acc2 = fx_add_s(acc, entries[0].1.min);
        let acc3 = match entries[0].1.max {
            Option::Some(m) => fx_add_s(acc2, m),
            Option::None => acc2,
        };
        sum_named_s(entries.drop_first(), acc3)
    }
}

/// The fold of a numerically keyed change list.
pub open spec fn sum_id_s(entries: Seq<(u64, DamageView)>, acc: int) -> int
    decreases entries.len(),
{
    if entries.len() == 0 {
        acc
    } else {
        let acc2 = fx_add_s(acc, entries[0].1.min);
        let acc3 = match entries[0].1.max {
            Option::Some(m) => fx_add_s(acc2, m),
            Option::None => acc2,
        };
        sum_id_s(entries.drop_first(), acc3)
    }
}

proof fn lemma_sum_named_push(entries: Seq<(Seq<char>, DamageView)>, x: (Seq<char>, DamageView), acc: int)
    ensures
        sum_named_s(entries.push(x), acc) == ({
            let acc2 = fx_add_s(sum_named_s(entries, acc), x.1.min);
            match x.1.max {
                Option::Some(m) => fx_add_s(acc2, m),
                Option::None => acc2,
            }
        }),
    decreases entries.len(),
{
    assert(entries.push(x)[0] == if entries.len() == 0 { x } else { entries[0] });
    if entries.len() == 0 {
        assert(entries.push(x).drop_first() =~= Seq::<(Seq<char>, DamageView)>::empty());
        assert(sum_named_s(entries, acc) == acc);
        let acc2 = fx_add_s(acc, x.1.min);
        let acc3 = match x.1.max {
            Option::Some(m) => fx_add_s(acc2, m),
            Option::None => acc2,
        };
        assert(sum_named_s(entries.push(x), acc) == sum_named_s(entries.push(x).drop_first(), acc3));
        assert(sum_named_s(entries.push(x).drop_first(), acc3) == acc3);
    } else {
        assert(entries.push(x).drop_first() =~= entries.drop_first().push(x));
        let acc2 = fx_add_s(acc, entries[0].1.min);
        let acc3 = match entries[0].1.max {
            Option::Some(m) => fx_add_s(acc2, m),
            Option::None => acc2,
        };
        lemma_sum_named_push(entries.drop_first(), x, acc3);
        assert(sum_named_s(entries.push(x), acc) == sum_named_s(entries.push(x).drop_first(), acc3));
        assert(sum_named_s(entries, acc) == sum_named_s(entries.drop_first(), acc3));
    }
}

proof fn lemma_sum_id_push(entries: Seq<(u64, DamageView)>, x: (u64, DamageView), acc: int)
    ensures
        sum_id_s(entries.push(x), acc) == ({
            let acc2 = fx_add_s(sum_id_s(entries, acc), x.1.min);
            match x.1.max {
                Option::Some(m) => fx_add_s(acc2, m),
                Option::None => acc2,
            }
        }),
    decreases entries.len(),
{
    assert(entries.push(x)[0] == if entries.len() == 0 { x } else { entries[0] });
    if entries.len() == 0 {
        assert(entries.push(x).drop_first() =~= Seq::<(u64, DamageView)>::empty());
        assert(sum_id_s(entries, acc) == acc);
        let acc2 = fx_add_s(acc, x.1.min);
        let acc3 = match x.1.max {
            Option::Some(m) => fx_add_s(acc2, m),
            Option::None => acc2,
        };
        assert(sum_id_s(entries.push(x), acc) == sum_id_s(entries.push(x).drop_first(), acc3));
        assert(sum_id_s(entries.push(x).drop_first(), acc3) == acc3);
    } else {
        assert(entries.push(x).drop_first() =~= entries.drop_first().push(x));
        let acc2 = fx_add_s(acc, entries[0].1.min);
        let acc3 = match entries[0].1.max {
            Option::Some(m) => fx_add_s(acc2, m),
            Option::None => acc2,
        };
        lemma_sum_id_push(entries.drop_first(), x, acc3);
        assert(sum_id_s(entries.push(x), acc) == sum_id_s(entries.push(x).drop_first(), acc3));
        assert(sum_id_s(entries, acc) == sum_id_s(entries.drop_first(), acc3));
    }
}

proof fn lemma_process_named_sum(
    val: Seq<(Seq<char>, DamageView)>,
    base: Seq<(Seq<char>, DamageView)>,
    i: int,
    sum0: int,
)
    ensures
        process_named_upto(val, base, i, sum0).1 == sum_named_s(
            process_named_upto(val, base, i, sum0).0,
            sum0,
        ),
    decreases i,
{
    if i > 0 {
        lemma_process_named_sum(val, base, i - 1, sum0);
        let prev = process_named_upto(val, base, i - 1, sum0);
        match crate::tool::find_named_s(base, val[i - 1].0) {
            Option::None => {},
            Option::Some(c) => {
                let d = crate::tool::delta_s(val[i - 1].1, c);
                lemma_sum_named_push(prev.0, (val[i - 1].0, d), sum0);
            },
        }
    }
}

proof fn lemma_process_id_sum(
    val: Seq<(u64, DamageView)>,
    base: Seq<(u64, DamageView)>,
    i: int,
    sum0: int,
)
    ensures
        process_id_upto(val, base, i, sum0).1 == sum_id_s(process_id_upto(val, base, i, sum0).0, sum0),
    decreases i,
{
    if i > 0 {
        lemma_process_id_sum(val, base, i - 1, sum0);
        let prev = process_id_upto(val, base, i - 1, sum0);
        match crate::tool::find_id_s(base, val[i - 1].0) {
            Option::None => {},
            Option::Some(c) => {
                let d = crate::tool::delta_s(val[i - 1].1, c);
                lemma_sum_id_push(prev.0, (val[i - 1].0, d), sum0);
            },
        }
    }
}

proof fn lemma_process_named_sum_base(
    val: Seq<(Seq<char>, DamageView)>,
    base: Seq<(Seq<char>, DamageView)>,
    i: int,
    sum0: int,
)
    ensures
        process_named_upto(val, base, i, sum0).0 == process_named_upto(val, base, i, 0).0,
        process_named_upto(val, base, i, sum0).1 == sum_named_s(
            process_named_upto(val, base, i, 0).0,
            sum0,
        ),
    decreases i,
{
    if i > 0 {
        lemma_process_named_sum_base(val, base, i - 1, sum0);
        lemma_process_named_sum(val, base, i, sum0);
        lemma_process_named_sum(val, base, i, 0);
    }
}

proof fn lemma_process_id_sum_base(
    val: Seq<(u64, DamageView)>,
    base: Seq<(u64, DamageView)>,
    i: int,
    sum0: int,
)
    ensures
        process_id_upto(val, base, i, sum0).0 == process_id_upto(val, base, i, 0).0,
        process_id_upto(val, base, i, sum0).1 == sum_id_s(process_id_upto(val, base, i, 0).0, sum0),
    decreases i,
{
    if i > 0 {
        lemma_process_id_sum_base(val, base, i - 1, sum0);
        lemma_process_id_sum(val, base, i, sum0);
        lemma_process_id_sum(val, base, i, 0);
    }
}

/// The tool sum law: the total swing is exactly the fold, over the
/// recorded changes of the four categories in order — abilities,
/// items, runes, spells — of each change's lower value and, when
/// present, its upper value.
pub proof fn lemma_tool_sum(
    mx: crate::game::DamagesView,
    mn: crate::game::DamagesView,
)
    ensures
        ({
            let fc = find_change_s(mx, mn);
            fc.1 == sum_named_s(
                fc.0.spell,
                sum_id_s(fc.0.runes, sum_id_s(fc.0.items, sum_named_s(fc.0.abilities, 0))),
            )
        }),
{
    let a = process_named_upto(mx.abilities, mn.abilities, mx.abilities.len() as int, 0);
    lemma_process_named_sum(mx.abilities, mn.abilities, mx.abilities.len() as int, 0);
    lemma_process_id_sum_base(mx.items, mn.items, mx.items.len() as int, a.1);
    let it = process_id_upto(mx.items, mn.items, mx.items.len() as int, a.1);
    lemma_process_id_sum_base(mx.runes, mn.runes, mx.runes.len() as int, it.1);
    let ru = process_id_upto(mx.runes, mn.runes, mx.runes.len() as int, it.1);
    lemma_process_named_sum_base(mx.spell, mn.spell, mx.spell.len() as int, ru.1);
}

/// Enrichment is a function of the record, the prepared active player
/// and the catalogs: two enriched records for the same inputs carry
/// the same stat blocks, the same damage views and the same tool
/// outcome.
pub proof fn lemma_enrichment_deterministic(
    q1: crate::game::GamePlayer,
    q2: crate::game::GamePlayer,
    p: crate::game::GamePlayer,
    a: crate::game::GameActivePlayer,
    ids: Seq<(String, Vec<(String, String)>)>,
    cache: Seq<(String, crate::game::RiotChampionTarget)>,
    item_cache: Seq<(u64, crate::riot::RiotItem)>,
    items_cat: Seq<(u64, crate::local::LocalItemData)>,
    runes_cat: Seq<(u64, crate::local::LocalRuneData)>,
    pack: Seq<(String, LocalChampionAbility)>,
    tools: Seq<(u64, crate::local::LocalStatsStruct)>,
    tool_item: u64,
)
    requires
        enriched_rel(q1, p, a, ids, cache, item_cache, items_cat, runes_cat, pack, tools, tool_item),
        enriched_rel(q2, p, a, ids, cache, item_cache, items_cat, runes_cat, pack, tools, tool_item),
    ensures
        q1.base_stats == q2.base_stats,
        q1.champion_stats == q2.champion_stats,
        q1.bonus_stats == q2.bonus_stats,
        crate::game::champ_eq_s(q1.champion->Some_0, q2.champion->Some_0),
        q1.damage->Some_0@ == q2.damage->Some_0@,
        q1.tool->Some_0.max@ == q2.tool->Some_0.max@,
        q1.tool->Some_0.dif->Some_0@ == q2.tool->Some_0.dif->Some_0@,
        q1.tool->Some_0.sum@ == q2.tool->Some_0.sum@,
{
    crate::game::lemma_champ_eq_sym(
        q2.champion->Some_0,
        crate::service::champ_after_s(p, ids, cache),
    );
    crate::game::lemma_champ_eq_trans(
        q1.champion->Some_0,
        crate::service::champ_after_s(p, ids, cache),
        q2.champion->Some_0,
    );
    lemma_ctx_player_fields(
        q1,
        q2,
        a.champion_stats,
        a.bonus_stats->Some_0,
        a.base_stats->Some_0,
        a.relevant->Some_0.runes.min@,
        a.relevant->Some_0.items.min@,
        a.champion->Some_0.id,
        a.level,
    );
    lemma_tool_player_fields(
        q1,
        q2,
        a.champion_stats,
        a.base_stats->Some_0,
        a.relevant->Some_0.runes.min@,
        a.relevant->Some_0.items.min@,
        crate::damage::names_view(a.relevant->Some_0.spell.min@),
        a.champion->Some_0.id,
        a.level,
        a.abilities,
        tool_item,
        pack,
        items_cat,
        runes_cat,
        tools,
    );
    assert(opp_damages_of_s(q1, a, pack, items_cat, runes_cat) == opp_damages_of_s(
        q2,
        a,
        pack,
        items_cat,
        runes_cat,
    ));
    assert(opp_tool_of_s(q1, a, tool_item, pack, items_cat, runes_cat, tools) == opp_tool_of_s(
        q2,
        a,
        tool_item,
        pack,
        items_cat,
        runes_cat,
        tools,
    ));
}

} // verus!
