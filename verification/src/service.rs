//! The per-request orchestrator: resolve every player's champion,
//! prepare the active player, then enrich each opposing player with
//! its damage and tool records.
//!
//! Resolutions and opponent pipelines may run under any scheduler as
//! long as their ordering is not observable; the engine computes them
//! in roster order, which any such schedule must agree with.

use crate::damage::{
    ability_damage, ability_damage_s, filter_abilities, filter_items, filter_runes, filter_spell,
    item_damage, item_damage_s, names_view, owned_ids_upto, owned_item_max_upto,
    owned_rune_max_upto, pack_keys_upto, pack_max_keys_upto, rune_damage, rune_damage_s,
    rune_ids_s, spell_damage, spell_damage_s, spell_is_dot_s,
};
use crate::fx::{fx_add_s, Fx};
use crate::game::{
    base_stats_s, champ_bonus_s, champ_eq_s, core_bonus_s, lemma_champ_eq_trans, DamagesView,
    GameActivePlayer, GameCoreStats, GamePlayer, GamePlayerDamages, GamePlayerItems, GameProps,
    GameRelevant, GameToolInfo, RiotChampionTarget,
};
use crate::local::LocalChampion;
use crate::riot::{RiotChampionStats, RiotItem, RiotItems};
use crate::store::{
    champion_api, copy_champion, get_champion_s, CalcError, IdsCache, RefStore,
};
use crate::table::{assoc_id_s, assoc_name_s, get_by_id};
use crate::target::{all_stats, all_stats_s, TargetAllStats};
use crate::tool::{find_change_s, tool_damage, tool_damages_s};
use vstd::prelude::*;

verus! {

/// The numeric ids of a player's items.
pub open spec fn item_ids_s(items: Seq<GamePlayerItems>) -> Seq<u64> {
    items.map_values(|it: GamePlayerItems| it.item_id as u64)
}

/// The numeric ids of a player's items.
pub fn item_ids(items: &Vec<GamePlayerItems>) -> (r: Vec<u64>)
    ensures
        r@ == item_ids_s(items@),
{
    let mut r: Vec<u64> = Vec::new();
    let mut i: usize = 0;
    while i < items.len()
        invariant
            i <= items@.len(),
            r@ == item_ids_s(items@).subrange(0, i as int),
        decreases items@.len() - i,
    {
        r.push(items[i].item_id as u64);
        proof {
            assert(r@ =~= item_ids_s(items@).subrange(0, i + 1));
        }
        i = i + 1;
    }
    proof {
        assert(item_ids_s(items@).subrange(0, items@.len() as int) =~= item_ids_s(items@));
    }
    r
}

/// One item stat folded into the six core stats; the physical-damage
/// modifier feeds ability power, as the source data expects.
pub open spec fn apply_stat_s(cs: GameCoreStats, key: Seq<char>, v: Fx) -> GameCoreStats {
    if key == "FlatHPPoolMod"@ {
        GameCoreStats { max_health: Fx { v: fx_add_s(cs.max_health@, v@) as i64 }, ..cs }
    } else if key == "FlatMPPoolMod"@ {
        GameCoreStats { resource_max: Fx { v: fx_add_s(cs.resource_max@, v@) as i64 }, ..cs }
    } else if key == "FlatMagicDamageMod"@ {
        GameCoreStats { ability_power: Fx { v: fx_add_s(cs.ability_power@, v@) as i64 }, ..cs }
    } else if key == "FlatArmorMod"@ {
        GameCoreStats { armor: Fx { v: fx_add_s(cs.armor@, v@) as i64 }, ..cs }
    } else if key == "FlatSpellBlockMod"@ {
        GameCoreStats { magic_resist: Fx { v: fx_add_s(cs.magic_resist@, v@) as i64 }, ..cs }
    } else if key == "FlatPhysicalDamageMod"@ {
        GameCoreStats { ability_power: Fx { v: fx_add_s(cs.ability_power@, v@) as i64 }, ..cs }
    } else {
        cs
    }
}

pub open spec fn apply_stats_upto(cs: GameCoreStats, stats: Seq<(String, Fx)>, i: int) -> GameCoreStats
    decreases i,
{
    if i <= 0 {
        cs
    } else {
        apply_stat_s(apply_stats_upto(cs, stats, i - 1), stats[i - 1].0@, stats[i - 1].1)
    }
}

/// The core stats after folding in the first `i` carried items; ids
/// the descriptor cache lacks are skipped.
pub open spec fn player_stats_upto(
    base: GameCoreStats,
    items: Seq<u64>,
    cat: Seq<(u64, RiotItem)>,
    i: int,
) -> GameCoreStats
    decreases i,
{
    if i <= 0 {
        base
    } else {
        let prev = player_stats_upto(base, items, cat, i - 1);
        match assoc_id_s(cat, items[i - 1]) {
            Option::Some(it) => apply_stats_upto(prev, it.stats@, it.stats@.len() as int),
            Option::None => prev,
        }
    }
}

pub open spec fn player_stats_s(
    base: GameCoreStats,
    items: Seq<u64>,
    cat: Seq<(u64, RiotItem)>,
) -> GameCoreStats {
    player_stats_upto(base, items, cat, items.len() as int)
}

fn apply_item_stats(cs: GameCoreStats, stats: &Vec<(String, Fx)>) -> (r: GameCoreStats)
    ensures
        r == apply_stats_upto(cs, stats@, stats@.len() as int),
{
    let mut acc = cs;
    let mut j: usize = 0;
    while j < stats.len()
        invariant
            j <= stats@.len(),
            acc == apply_stats_upto(cs, stats@, j as int),
        decreases stats@.len() - j,
    {
        let key = &stats[j].0;
        let v = stats[j].1;
        if crate::text::eq_lit(key, "FlatHPPoolMod") {
            acc.max_health = crate::fx::fx_add(acc.max_health, v);
        } else if crate::text::eq_lit(key, "FlatMPPoolMod") {
            acc.resource_max = crate::fx::fx_add(acc.resource_max, v);
        } else if crate::text::eq_lit(key, "FlatMagicDamageMod") {
            acc.ability_power = crate::fx::fx_add(acc.ability_power, v);
        } else if crate::text::eq_lit(key, "FlatArmorMod") {
            acc.armor = crate::fx::fx_add(acc.armor, v);
        } else if crate::text::eq_lit(key, "FlatSpellBlockMod") {
            acc.magic_resist = crate::fx::fx_add(acc.magic_resist, v);
        } else if crate::text::eq_lit(key, "FlatPhysicalDamageMod") {
            acc.ability_power = crate::fx::fx_add(acc.ability_power, v);
        }
        j = j + 1;
    }
    acc
}

/// Fold every carried item's flat stat modifiers into the grown base
/// stats; ids the descriptor cache lacks are skipped.
pub fn player_stats(base: GameCoreStats, items: &Vec<u64>, cache: &RiotItems) -> (r: GameCoreStats)
    ensures
        r == player_stats_s(base, items@, cache.data@),
{
    let mut acc = base;
    let mut i: usize = 0;
    while i < items.len()
        invariant
            i <= items@.len(),
            acc == player_stats_upto(base, items@, cache.data@, i as int),
        decreases items@.len() - i,
    {
        match get_by_id(&cache.data, items[i]) {
            Option::Some(it) => {
                acc = apply_item_stats(acc, &it.stats);
            },
            Option::None => {},
        }
        i = i + 1;
    }
    acc
}

/// The cached descriptor a player's champion name resolves to.
pub open spec fn resolved_s(
    p: GamePlayer,
    ids: Seq<(String, Vec<(String, String)>)>,
    cache: Seq<(String, RiotChampionTarget)>,
) -> Option<RiotChampionTarget> {
    assoc_name_s(cache, get_champion_s(ids, p.champion_name@))
}

/// Whether the record carries a champion after assignment.
pub open spec fn champ_some_after_s(
    p: GamePlayer,
    ids: Seq<(String, Vec<(String, String)>)>,
    cache: Seq<(String, RiotChampionTarget)>,
) -> bool {
    resolved_s(p, ids, cache) is Some || p.champion is Some
}

/// The growth stats on record after assignment.
pub open spec fn champ_stats_after_s(
    p: GamePlayer,
    ids: Seq<(String, Vec<(String, String)>)>,
    cache: Seq<(String, RiotChampionTarget)>,
) -> RiotChampionStats {
    match resolved_s(p, ids, cache) {
        Option::Some(c) => c.stats,
        Option::None => p.champion->Some_0.stats,
    }
}

/// The internal champion id on record after assignment.
pub open spec fn champ_id_after_s(
    p: GamePlayer,
    ids: Seq<(String, Vec<(String, String)>)>,
    cache: Seq<(String, RiotChampionTarget)>,
) -> String {
    match resolved_s(p, ids, cache) {
        Option::Some(c) => c.id,
        Option::None => p.champion->Some_0.id,
    }
}

/// The whole descriptor on record after assignment: the cached one on
/// a resolution hit, the record's own otherwise.
pub open spec fn champ_after_s(
    p: GamePlayer,
    ids: Seq<(String, Vec<(String, String)>)>,
    cache: Seq<(String, RiotChampionTarget)>,
) -> RiotChampionTarget {
    match resolved_s(p, ids, cache) {
        Option::Some(c) => c,
        Option::None => p.champion->Some_0,
    }
}

/// The champion display name on record after assignment.
pub open spec fn champ_name_after_s(
    p: GamePlayer,
    ids: Seq<(String, Vec<(String, String)>)>,
    cache: Seq<(String, RiotChampionTarget)>,
) -> String {
    match resolved_s(p, ids, cache) {
        Option::Some(c) => c.name,
        Option::None => p.champion->Some_0.name,
    }
}

/// Everything of a player record except its champion, its stats and
/// its computed records agrees.
pub open spec fn same_shell_s(p: GamePlayer, q: GamePlayer) -> bool {
    &&& q.champion_name == p.champion_name
    &&& q.level == p.level
    &&& q.position == p.position
    &&& q.summoner_name == p.summoner_name
    &&& q.scores == p.scores
    &&& q.items == p.items
    &&& q.summoner_spells == p.summoner_spells
    &&& q.skin_id == p.skin_id
    &&& q.team == p.team
    &&& q.dragon == p.dragon
}

/// What champion assignment does to one record: the shell is kept, and
/// when the name resolves to a cached descriptor, the record carries a
/// copy with that descriptor's id, name and stats.
pub open spec fn assigned_rel(
    q: GamePlayer,
    p: GamePlayer,
    ids: Seq<(String, Vec<(String, String)>)>,
    cache: Seq<(String, RiotChampionTarget)>,
) -> bool {
    &&& same_shell_s(p, q)
    &&& q.bonus_stats == p.bonus_stats
    &&& q.base_stats == p.base_stats
    &&& q.champion_stats == p.champion_stats
    &&& q.damage == p.damage
    &&& q.tool == p.tool
    &&& match resolved_s(p, ids, cache) {
        Option::Some(c) => q.champion matches Option::Some(qc) && champ_eq_s(qc, c),
        Option::None => q.champion == p.champion,
    }
}

/// Resolve every player's champion name against the alias table and
/// attach the cached descriptor; records whose name does not resolve
/// are left as they came.
pub fn assign_champion(
    data: GameProps,
    ids: &IdsCache,
    cache: &Vec<(String, RiotChampionTarget)>,
) -> (r: GameProps)
    ensures
        r.active_player == data.active_player,
        r.events == data.events,
        r.game_data == data.game_data,
        r.all_players@.len() == data.all_players@.len(),
        forall|i: int|
            0 <= i < data.all_players@.len() ==> assigned_rel(
                #[trigger] r.all_players@[i],
                data.all_players@[i],
                ids@,
                cache@,
            ),
{
    let ghost orig = data.all_players@;
    let mut players = data.all_players;
    let mut out: Vec<GamePlayer> = Vec::new();
    while players.len() > 0
        invariant
            out@.len() + players@.len() == orig.len(),
            players@ == orig.subrange(out@.len() as int, orig.len() as int),
            forall|i: int|
                0 <= i < out@.len() ==> assigned_rel(#[trigger] out@[i], orig[i], ids@, cache@),
        decreases players@.len(),
    {
        let ghost k = out@.len() as int;
        let mut p = players.remove(0);
        proof {
            assert(p == orig[k]);
            assert(players@ =~= orig.subrange(k + 1, orig.len() as int));
        }
        match champion_api(&p.champion_name, ids, cache) {
            Option::Some(c) => {
                p.champion = Option::Some(c);
            },
            Option::None => {},
        }
        out.push(p);
    }
    GameProps {
        active_player: data.active_player,
        all_players: out,
        events: data.events,
        game_data: data.game_data,
    }
}

/// The roster position of the attacker: the last record whose
/// summoner name matches and that carries a champion after
/// assignment, among the first `i`.
pub open spec fn attacker_idx_upto(
    players: Seq<GamePlayer>,
    name: Seq<char>,
    ids: Seq<(String, Vec<(String, String)>)>,
    cache: Seq<(String, RiotChampionTarget)>,
    i: int,
) -> Option<int>
    decreases i,
{
    if i <= 0 {
        Option::None
    } else if players[i - 1].summoner_name@ == name && champ_some_after_s(
        players[i - 1],
        ids,
        cache,
    ) {
        Option::Some(i - 1)
    } else {
        attacker_idx_upto(players, name, ids, cache, i - 1)
    }
}

pub open spec fn attacker_idx_s(
    players: Seq<GamePlayer>,
    name: Seq<char>,
    ids: Seq<(String, Vec<(String, String)>)>,
    cache: Seq<(String, RiotChampionTarget)>,
) -> Option<int> {
    attacker_idx_upto(players, name, ids, cache, players.len() as int)
}

/// The attacker's relevant item ids.
pub open spec fn rel_item_min_s(
    att: GamePlayer,
    items_cat: Seq<(u64, crate::local::LocalItemData)>,
) -> Seq<u64> {
    owned_ids_upto(items_cat, item_ids_s(att.items@), items_cat.len() as int)
}

/// The attacker's relevant rune ids.
pub open spec fn rel_rune_min_s(
    active: GameActivePlayer,
    runes_cat: Seq<(u64, crate::local::LocalRuneData)>,
) -> Seq<u64> {
    owned_ids_upto(runes_cat, rune_ids_s(active.full_runes), runes_cat.len() as int)
}

/// The attacker's relevant spell names: a single Ignite entry when
/// either summoner spell names it.
pub open spec fn rel_spell_min_s(att: GamePlayer) -> Seq<Seq<char>> {
    if spell_is_dot_s(att.summoner_spells.summoner_spell_one.raw_description@) || spell_is_dot_s(
        att.summoner_spells.summoner_spell_two.raw_description@,
    ) {
        seq!["SummonerDot"@]
    } else {
        Seq::<Seq<char>>::empty()
    }
}

/// Whether a record is an opposing player with a champion on record.
pub open spec fn is_opponent_s(
    p: GamePlayer,
    att: GamePlayer,
    ids: Seq<(String, Vec<(String, String)>)>,
    cache: Seq<(String, RiotChampionTarget)>,
) -> bool {
    p.team@ != att.team@ && champ_some_after_s(p, ids, cache)
}

/// The attacker's grown base stats.
pub open spec fn att_base_s(
    att: GamePlayer,
    ids: Seq<(String, Vec<(String, String)>)>,
    cache: Seq<(String, RiotChampionTarget)>,
) -> GameCoreStats {
    base_stats_s(champ_stats_after_s(att, ids, cache), att.level as int)
}

/// The evaluation context of one enriched record against the prepared
/// active player: the record's own stat blocks against the active
/// player's snapshot, bonus split, base and relevant ids.
pub open spec fn opp_ctx_of_s(q: GamePlayer, a: GameActivePlayer) -> TargetAllStats {
    all_stats_s(
        q,
        a.champion_stats,
        a.bonus_stats->Some_0,
        a.base_stats->Some_0,
        a.relevant->Some_0.runes.min@,
        a.relevant->Some_0.items.min@,
        a.champion->Some_0.id,
        a.level,
    )
}

/// The four baseline damage categories of one enriched record.
pub open spec fn opp_damages_of_s(
    q: GamePlayer,
    a: GameActivePlayer,
    pack: Seq<(String, crate::local::LocalChampionAbility)>,
    items_cat: Seq<(u64, crate::local::LocalItemData)>,
    runes_cat: Seq<(u64, crate::local::LocalRuneData)>,
) -> Option<DamagesView> {
    let ctx = opp_ctx_of_s(q, a);
    match ability_damage_s(ctx, a.abilities, pack) {
        Option::Some(ab) => Option::Some(
            DamagesView {
                abilities: ab,
                items: item_damage_s(ctx, a.relevant->Some_0.items.min@, items_cat),
                runes: rune_damage_s(ctx, a.relevant->Some_0.runes.min@, runes_cat),
                spell: spell_damage_s(names_view(a.relevant->Some_0.spell.min@), a.level),
            },
        ),
        Option::None => Option::None,
    }
}

/// One enriched record's tool outcome: the recomputed categories, the
/// change against the baseline, and the total swing.
pub open spec fn opp_tool_of_s(
    q: GamePlayer,
    a: GameActivePlayer,
    tool_item: u64,
    pack: Seq<(String, crate::local::LocalChampionAbility)>,
    items_cat: Seq<(u64, crate::local::LocalItemData)>,
    runes_cat: Seq<(u64, crate::local::LocalRuneData)>,
    tools: Seq<(u64, crate::local::LocalStatsStruct)>,
) -> Option<(DamagesView, DamagesView, int)> {
    match opp_damages_of_s(q, a, pack, items_cat, runes_cat) {
        Option::None => Option::None,
        Option::Some(baseline) => {
            match tool_damages_s(
                q,
                a.champion_stats,
                a.base_stats->Some_0,
                a.relevant->Some_0.runes.min@,
                a.relevant->Some_0.items.min@,
                names_view(a.relevant->Some_0.spell.min@),
                a.champion->Some_0.id,
                a.level,
                a.abilities,
                tool_item,
                pack,
                items_cat,
                runes_cat,
                tools,
            ) {
                Option::None => Option::None,
                Option::Some(dmax) => {
                    let fc = find_change_s(dmax, baseline);
                    Option::Some((dmax, fc.0, fc.1))
                },
            }
        },
    }
}

/// What enrichment does to one opposing record, anchored on the
/// incoming record `p` and the prepared active player `a`.
pub open spec fn enriched_rel(
    q: GamePlayer,
    p: GamePlayer,
    a: GameActivePlayer,
    ids: Seq<(String, Vec<(String, String)>)>,
    cache: Seq<(String, RiotChampionTarget)>,
    item_cache: Seq<(u64, RiotItem)>,
    items_cat: Seq<(u64, crate::local::LocalItemData)>,
    runes_cat: Seq<(u64, crate::local::LocalRuneData)>,
    pack: Seq<(String, crate::local::LocalChampionAbility)>,
    tools: Seq<(u64, crate::local::LocalStatsStruct)>,
    tool_item: u64,
) -> bool {
    let base = base_stats_s(champ_stats_after_s(p, ids, cache), p.level as int);
    let cs = player_stats_s(base, item_ids_s(p.items@), item_cache);
    &&& same_shell_s(p, q)
    &&& q.champion matches Option::Some(qc) && champ_eq_s(qc, champ_after_s(p, ids, cache))
    &&& q.base_stats == Option::Some(base)
    &&& q.champion_stats == Option::Some(cs)
    &&& q.bonus_stats == Option::Some(core_bonus_s(cs, base))
    &&& q.damage matches Option::Some(d) && Option::Some(d@) == opp_damages_of_s(
        q,
        a,
        pack,
        items_cat,
        runes_cat,
    )
    &&& q.tool matches Option::Some(t) && opp_tool_of_s(
        q,
        a,
        tool_item,
        pack,
        items_cat,
        runes_cat,
        tools,
    ) matches Option::Some(tt) && t.max@ == tt.0 && (t.dif matches Option::Some(df) && df@
        == tt.1) && t.sum@ == tt.2 && t.rec is None
}

/// The spec functions around a context read only a record's stat
/// blocks and item list, so two records agreeing there share one
/// context.
pub(crate) proof fn lemma_ctx_player_fields(
    p1: GamePlayer,
    p2: GamePlayer,
    acs: crate::game::GameChampionStats,
    abs: GameCoreStats,
    abt: GameCoreStats,
    rune_ids: Seq<u64>,
    item_ids: Seq<u64>,
    champ_id: String,
    level: u8,
)
    requires
        p1.champion_stats == p2.champion_stats,
        p1.base_stats == p2.base_stats,
        p1.bonus_stats == p2.bonus_stats,
        p1.items == p2.items,
    ensures
        all_stats_s(p1, acs, abs, abt, rune_ids, item_ids, champ_id, level) == all_stats_s(
            p2,
            acs,
            abs,
            abt,
            rune_ids,
            item_ids,
            champ_id,
            level,
        ),
{
}

/// Two records agreeing on their stat blocks and item list get the
/// same tool outcome shape.
pub(crate) proof fn lemma_tool_player_fields(
    p1: GamePlayer,
    p2: GamePlayer,
    cs: crate::game::GameChampionStats,
    base: GameCoreStats,
    rune_ids: Seq<u64>,
    item_ids: Seq<u64>,
    spell_names: Seq<Seq<char>>,
    champ_id: String,
    level: u8,
    abilities: crate::game::GameAbilities,
    item: u64,
    pack: Seq<(String, crate::local::LocalChampionAbility)>,
    items_cat: Seq<(u64, crate::local::LocalItemData)>,
    runes_cat: Seq<(u64, crate::local::LocalRuneData)>,
    tools: Seq<(u64, crate::local::LocalStatsStruct)>,
)
    requires
        p1.champion_stats == p2.champion_stats,
        p1.base_stats == p2.base_stats,
        p1.bonus_stats == p2.bonus_stats,
        p1.items == p2.items,
    ensures
        tool_damages_s(
            p1,
            cs,
            base,
            rune_ids,
            item_ids,
            spell_names,
            champ_id,
            level,
            abilities,
            item,
            pack,
            items_cat,
            runes_cat,
            tools,
        ) == tool_damages_s(
            p2,
            cs,
            base,
            rune_ids,
            item_ids,
            spell_names,
            champ_id,
            level,
            abilities,
            item,
            pack,
            items_cat,
            runes_cat,
            tools,
        ),
{
    let new_cs = crate::tool::assing_stats_s(item, cs, tools);
    lemma_ctx_player_fields(
        p1,
        p2,
        new_cs,
        champ_bonus_s(new_cs, base),
        base,
        rune_ids,
        item_ids,
        champ_id,
        level,
    );
}

/// Enrich one roster record: an opposing record with a champion gets
/// its stat blocks, its baseline damage and its tool outcome; any
/// other record passes through.  Fails only when the ability pack is
/// unusable and the record had to be evaluated.
fn enrich_player(
    p: GamePlayer,
    active: &GameActivePlayer,
    store: &RefStore,
    pack: &LocalChampion,
    tool_item: u64,
) -> (r: Result<GamePlayer, CalcError>)
    requires
        active.team is Some,
        active.base_stats is Some,
        active.bonus_stats is Some,
        active.relevant is Some,
        active.champion is Some,
    ensures
        match r {
            Result::Ok(q) => {
                if p.team@ != active.team->Some_0@ && p.champion is Some {
                    let base = base_stats_s(p.champion->Some_0.stats, p.level as int);
                    let cs = player_stats_s(base, item_ids_s(p.items@), store.item_cache.data@);
                    &&& same_shell_s(p, q)
                    &&& q.champion == p.champion
                    &&& q.base_stats == Option::Some(base)
                    &&& q.champion_stats == Option::Some(cs)
                    &&& q.bonus_stats == Option::Some(core_bonus_s(cs, base))
                    &&& q.damage matches Option::Some(d) && Option::Some(d@) == opp_damages_of_s(
                        q,
                        *active,
                        pack@,
                        store.local_items.data@,
                        store.local_runes.data@,
                    )
                    &&& q.tool matches Option::Some(t) && opp_tool_of_s(
                        q,
                        *active,
                        tool_item,
                        pack@,
                        store.local_items.data@,
                        store.local_runes.data@,
                        store.local_stats@,
                    ) matches Option::Some(tt) && t.max@ == tt.0 && (t.dif matches Option::Some(df)
                        && df@ == tt.1) && t.sum@ == tt.2 && t.rec is None
                } else {
                    q == p
                }
            },
            Result::Err(e) => {
                &&& e == CalcError::UnknownAbilityKey
                &&& p.team@ != active.team->Some_0@ && p.champion is Some
                &&& !crate::damage::pack_usable_s(pack@)
            },
        },
{
    let mut p = p;
    let is_opp = !(p.team == *active.team.as_ref().unwrap());
    if is_opp && p.champion.is_some() {
        let base: GameCoreStats;
        {
            let c = p.champion.as_ref().unwrap();
            base = GameCoreStats::base_stats(&c.stats, p.level);
        }
        p.base_stats = Option::Some(base);
        let pids = item_ids(&p.items);
        let cs = player_stats(base, &pids, &store.item_cache);
        p.champion_stats = Option::Some(cs);
        p.bonus_stats = Option::Some(cs.bonus_stats(&base));
        let stats = all_stats(&p, active);
        let rel = active.relevant.as_ref().unwrap();
        let ab = match ability_damage(&stats, &active.abilities, pack) {
            Option::Some(v) => v,
            Option::None => {
                proof {
                    crate::damage::lemma_ability_usable(
                        stats,
                        active.abilities,
                        pack@,
                        pack@.len() as int,
                    );
                }
                return Result::Err(CalcError::UnknownAbilityKey);
            },
        };
        let dmg = GamePlayerDamages {
            abilities: ab,
            items: item_damage(&stats, &rel.items.min, &store.local_items),
            runes: rune_damage(&stats, &rel.runes.min, &store.local_runes),
            spell: spell_damage(&rel.spell.min, active.level),
        };
        let ghost p_mid = p;
        p.damage = Option::Some(dmg);
        let ghost p_dmg = p;
        let tl = match tool_damage(
            active,
            &p,
            tool_item,
            pack,
            &store.local_items,
            &store.local_runes,
            &store.local_stats,
        ) {
            Option::Some(t) => t,
            Option::None => {
                proof {
                    let a = *active;
                    let ctx2 = crate::tool::tool_ctx_s(
                        p_dmg,
                        a.champion_stats,
                        a.base_stats->Some_0,
                        a.relevant->Some_0.runes.min@,
                        a.relevant->Some_0.items.min@,
                        a.champion->Some_0.id,
                        a.level,
                        tool_item,
                        store.local_stats@,
                    );
                    crate::damage::lemma_ability_usable(
                        ctx2,
                        a.abilities,
                        pack@,
                        pack@.len() as int,
                    );
                }
                return Result::Err(CalcError::UnknownAbilityKey);
            },
        };
        p.tool = Option::Some(tl);
        proof {
            let a = *active;
            let q = p;
            lemma_ctx_player_fields(
                q,
                p_mid,
                a.champion_stats,
                a.bonus_stats->Some_0,
                a.base_stats->Some_0,
                a.relevant->Some_0.runes.min@,
                a.relevant->Some_0.items.min@,
                a.champion->Some_0.id,
                a.level,
            );
            lemma_tool_player_fields(
                q,
                p_dmg,
                a.champion_stats,
                a.base_stats->Some_0,
                a.relevant->Some_0.runes.min@,
                a.relevant->Some_0.items.min@,
                names_view(a.relevant->Some_0.spell.min@),
                a.champion->Some_0.id,
                a.level,
                a.abilities,
                tool_item,
                pack@,
                store.local_items.data@,
                store.local_runes.data@,
                store.local_stats@,
            );
        }
        Result::Ok(p)
    } else {
        Result::Ok(p)
    }
}

/// The attacker search honours its own conditions.
proof fn lemma_attacker_idx_props(
    players: Seq<GamePlayer>,
    name: Seq<char>,
    ids: Seq<(String, Vec<(String, String)>)>,
    cache: Seq<(String, RiotChampionTarget)>,
    i: int,
)
    requires
        attacker_idx_upto(players, name, ids, cache, i) is Some,
    ensures
        ({
            let b = attacker_idx_upto(players, name, ids, cache, i)->Some_0;
            &&& 0 <= b < i
            &&& players[b].summoner_name@ == name
            &&& champ_some_after_s(players[b], ids, cache)
        }),
    decreases i,
{
    if i > 0 {
        if !(players[i - 1].summoner_name@ == name && champ_some_after_s(players[i - 1], ids, cache)) {
            lemma_attacker_idx_props(players, name, ids, cache, i - 1);
        }
    }
}

/// Evaluate one request: resolve champions, prepare the active
/// player, and enrich every opposing record with its damage and tool
/// outcomes.  Fails with [`CalcError::AttackerNotFound`] when no
/// roster record matches the active player's summoner name with a
/// champion on record, with [`CalcError::ToolNotFound`] when the
/// candidate tool is not in the tool catalog, and with
/// [`CalcError::UnknownAbilityKey`] when the ability pack holds an
/// unusable key and an opposing record had to be evaluated.
#[verifier::rlimit(100)]
#[verifier::loop_isolation(false)]
pub fn calculate(data: GameProps, tool_item: u64, store: &RefStore, pack: &LocalChampion) -> (r:
    Result<GameProps, CalcError>)
    ensures
        ({
            let players = data.all_players@;
            let name = data.active_player.summoner_name@;
            let ids = store.ids@;
            let cache = store.champion_cache@;
            let aidx = attacker_idx_s(players, name, ids, cache);
            &&& (r == Result::<GameProps, CalcError>::Err(CalcError::AttackerNotFound) <==> aidx
                is None)
            &&& (r == Result::<GameProps, CalcError>::Err(CalcError::ToolNotFound) <==> aidx
                is Some && assoc_id_s(store.local_stats@, tool_item) is None)
            &&& (r is Ok <==> aidx is Some && assoc_id_s(store.local_stats@, tool_item) is Some
                && (crate::damage::pack_usable_s(pack@) || (forall|i: int|
                0 <= i < players.len() ==> !is_opponent_s(
                    #[trigger] players[i],
                    players[aidx->Some_0],
                    ids,
                    cache,
                ))))
            &&& (r matches Result::Ok(out) ==> {
                let att = players[aidx->Some_0];
                let a0 = data.active_player;
                let a = out.active_player;
                &&& aidx is Some
                &&& assoc_id_s(store.local_stats@, tool_item) matches Option::Some(te)
                &&& out.events == data.events
                &&& out.game_data == data.game_data
                &&& out.all_players@.len() == players.len()
                &&& a.summoner_name == a0.summoner_name
                &&& a.level == a0.level
                &&& a.abilities == a0.abilities
                &&& a.champion_stats == a0.champion_stats
                &&& a.full_runes == a0.full_runes
                &&& a.dragon == a0.dragon
                &&& a.team == Option::Some(att.team)
                &&& a.skin == Option::Some(att.skin_id)
                &&& a.champion matches Option::Some(ac) && champ_eq_s(
                    ac,
                    champ_after_s(att, ids, cache),
                )
                &&& a.champion_name == Option::Some(champ_name_after_s(att, ids, cache))
                &&& a.base_stats == Option::Some(att_base_s(att, ids, cache))
                &&& a.bonus_stats == Option::Some(
                    champ_bonus_s(a0.champion_stats, att_base_s(att, ids, cache)),
                )
                &&& a.relevant matches Option::Some(rel) && {
                    &&& names_view(rel.abilities.min@) == pack_keys_upto(
                        pack@,
                        pack@.len() as int,
                    ).push("A"@).push("C"@)
                    &&& names_view(rel.abilities.max@) == pack_max_keys_upto(
                        pack@,
                        pack@.len() as int,
                    )
                    &&& rel.items.min@ == rel_item_min_s(att, store.local_items.data@)
                    &&& rel.items.max@ == owned_item_max_upto(
                        store.local_items.data@,
                        item_ids_s(att.items@),
                        store.local_items.data@.len() as int,
                    )
                    &&& rel.runes.min@ == rel_rune_min_s(a0, store.local_runes.data@)
                    &&& rel.runes.max@ == owned_rune_max_upto(
                        store.local_runes.data@,
                        rune_ids_s(a0.full_runes),
                        store.local_runes.data@.len() as int,
                    )
                    &&& names_view(rel.spell.min@) == rel_spell_min_s(att)
                    &&& rel.spell.max@.len() == 0
                }
                &&& a.tool matches Option::Some(ti) && {
                    &&& ti.id == tool_item
                    &&& ti.name == te.name
                    &&& ti.active == (assoc_id_s(store.local_items.data@, tool_item) is Some)
                    &&& ti.gold == Option::Some(te.gold.total)
                    &&& ti.raw@ == te.stats.raw@
                }
                &&& forall|i: int|
                    0 <= i < players.len() ==> {
                        let p = players[i];
                        let q = #[trigger] out.all_players@[i];
                        if is_opponent_s(p, att, ids, cache) {
                            enriched_rel(
                                q,
                                p,
                                a,
                                ids,
                                cache,
                                store.item_cache.data@,
                                store.local_items.data@,
                                store.local_runes.data@,
                                pack@,
                                store.local_stats@,
                                tool_item,
                            )
                        } else {
                            assigned_rel(q, p, ids, cache)
                        }
                    }
            })
        }),
{
    let ghost data0 = data;
    let ghost players0 = data.all_players@;
    let ghost name = data.active_player.summoner_name@;
    let ghost idsv = store.ids@;
    let ghost cachev = store.champion_cache@;

    let assigned = assign_champion(data, &store.ids, &store.champion_cache);
    let mut active = assigned.active_player;
    let events = assigned.events;
    let game_data = assigned.game_data;
    let mut players = assigned.all_players;

    // Find the attacker: the last roster record matching the active
    // player's summoner name that carries a champion.
    let mut found: Option<usize> = Option::None;
    let mut i: usize = 0;
    while i < players.len()
        invariant
            i <= players@.len(),
            players@.len() == players0.len(),
            forall|j: int|
                0 <= j < players0.len() ==> assigned_rel(
                    #[trigger] players@[j],
                    players0[j],
                    idsv,
                    cachev,
                ),
            match found {
                Option::Some(b) => attacker_idx_upto(players0, name, idsv, cachev, i as int)
                    == Option::Some(b as int) && b < i,
                Option::None => attacker_idx_upto(players0, name, idsv, cachev, i as int)
                    is None,
            },
            name == active.summoner_name@,
        decreases players@.len() - i,
    {
        if players[i].summoner_name == active.summoner_name && players[i].champion.is_some() {
            found = Option::Some(i);
        }
        i = i + 1;
    }
    let aidx: usize = match found {
        Option::Some(b) => b,
        Option::None => {
            return Result::Err(CalcError::AttackerNotFound);
        },
    };
    let ghost att = players0[aidx as int];
    proof {
        lemma_attacker_idx_props(players0, name, idsv, cachev, players0.len() as int);
    }

    let tool_entry = match get_by_id(&store.local_stats, tool_item) {
        Option::Some(t) => t,
        Option::None => {
            return Result::Err(CalcError::ToolNotFound);
        },
    };

    // Prepare the active player from the attacker's record.
    {
        let attacker = &players[aidx];
        let champ = attacker.champion.as_ref().unwrap();
        active.team = Option::Some(attacker.team.clone());
        let champ_copy = copy_champion(champ);
        proof {
            match resolved_s(att, idsv, cachev) {
                Option::Some(c) => {
                    lemma_champ_eq_trans(champ_copy, *champ, c);
                },
                Option::None => {},
            }
        }
        active.champion = Option::Some(champ_copy);
        active.champion_name = Option::Some(champ.name.clone());
        active.skin = Option::Some(attacker.skin_id);
        let base_a = GameCoreStats::base_stats(&champ.stats, attacker.level);
        active.base_stats = Option::Some(base_a);
        active.bonus_stats = Option::Some(active.champion_stats.bonus_stats(base_a));
        let att_items = item_ids(&attacker.items);
        active.relevant = Option::Some(
            GameRelevant {
                abilities: filter_abilities(pack),
                items: filter_items(&store.local_items, &att_items),
                runes: filter_runes(&store.local_runes, &active.full_runes),
                spell: filter_spell(&attacker.summoner_spells),
            },
        );
        active.tool = Option::Some(
            GameToolInfo {
                id: tool_item,
                name: tool_entry.name.clone(),
                active: get_by_id(&store.local_items.data, tool_item).is_some(),
                gold: Option::Some(tool_entry.gold.total),
                raw: crate::store::copy_fx_pairs(&tool_entry.stats.raw),
            },
        );
    }

    // Enrich every opposing record, in roster order.
    let mut out: Vec<GamePlayer> = Vec::new();
    while players.len() > 0
        invariant
            out@.len() + players@.len() == players0.len(),
            forall|j: int|
                0 <= j < players@.len() ==> assigned_rel(
                    #[trigger] players@[j],
                    players0[j + out@.len()],
                    idsv,
                    cachev,
                ),
            active.team is Some && active.team->Some_0@ == att.team@,
            active.base_stats is Some,
            active.bonus_stats is Some,
            active.relevant is Some,
            active.champion is Some,
            forall|j: int|
                0 <= j < out@.len() ==> {
                    let p = players0[j];
                    let q = #[trigger] out@[j];
                    if is_opponent_s(p, att, idsv, cachev) {
                        enriched_rel(
                            q,
                            p,
                            active,
                            idsv,
                            cachev,
                            store.item_cache.data@,
                            store.local_items.data@,
                            store.local_runes.data@,
                            pack@,
                            store.local_stats@,
                            tool_item,
                        )
                    } else {
                        assigned_rel(q, p, idsv, cachev)
                    }
                },
        decreases players@.len(),
    {
        let ghost k = out@.len() as int;
        let ghost players_pre = players@;
        let p_in = players.remove(0);
        let ghost p_orig = players0[k];
        proof {
            assert(p_in == players_pre[0]);
            assert(assigned_rel(players_pre[0], players0[0 + k], idsv, cachev));
            assert(players@ =~= players_pre.drop_first());
            assert forall|j: int| 0 <= j < players@.len() implies assigned_rel(
                #[trigger] players@[j],
                players0[j + (k + 1)],
                idsv,
                cachev,
            ) by {
                assert(players@[j] == players_pre[j + 1]);
                assert(assigned_rel(players_pre[j + 1], players0[j + 1 + k], idsv, cachev));
            }
        }
        let q = match enrich_player(p_in, &active, store, pack, tool_item) {
            Result::Ok(q) => q,
            Result::Err(e) => {
                proof {
                    assert(is_opponent_s(p_orig, att, idsv, cachev));
                }
                return Result::Err(e);
            },
        };
        proof {
            if is_opponent_s(p_orig, att, idsv, cachev) {
                assert(enriched_rel(
                    q,
                    p_orig,
                    active,
                    idsv,
                    cachev,
                    store.item_cache.data@,
                    store.local_items.data@,
                    store.local_runes.data@,
                    pack@,
                    store.local_stats@,
                    tool_item,
                ));
            } else {
                assert(assigned_rel(q, p_orig, idsv, cachev));
            }
        }
        out.push(q);
    }

    proof {
        if !crate::damage::pack_usable_s(pack@) {
            assert forall|i: int|
                0 <= i < players0.len() implies !is_opponent_s(
                players0[i],
                att,
                idsv,
                cachev,
            ) by {
                if is_opponent_s(players0[i], att, idsv, cachev) {
                    let q = out@[i];
                    let d = q.damage->Some_0;
                    let ctx = opp_ctx_of_s(q, active);
                    crate::damage::lemma_ability_usable(
                        ctx,
                        active.abilities,
                        pack@,
                        pack@.len() as int,
                    );
                }
            }
        }
    }
    Result::Ok(GameProps { active_player: active, all_players: out, events, game_data })
}

} // verus!
