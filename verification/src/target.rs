//! The evaluation context (`all_stats`) for one attacker–defender
//! pair: penetration-adjusted resistances, damage multipliers, the
//! adaptive damage type, the attack form, and the defender-driven
//! property flags.

use crate::fx::{
    fx_add, fx_add_s, fx_clamp, fx_clamp_s, fx_div, fx_div_s, fx_le, fx_lt, fx_mul, fx_mul_s,
    fx_sub, fx_sub_s, Fx,
};
use crate::game::{GameActivePlayer, GameChampionStats, GameCoreStats, GamePlayer, GamePlayerItems,
    GameRelevant};
use crate::table::{contains_id, has_id_s};
use vstd::prelude::*;

verus! {

/// One unit in raw ticks.
pub const FX_ONE: i64 = 1_000_000;

#[derive(Clone, Copy, Debug)]
pub struct AllStatsMultiplier {
    pub magic: Fx,
    pub physical: Fx,
    pub general: Fx,
}

#[derive(Clone, Copy, Debug, PartialEq, Eq, Structural)]
pub enum AllStatsAdaptativeType {
    Physical,
    Magic,
}

#[derive(Clone, Copy, Debug)]
pub struct AllStatsAdaptative {
    pub adaptative_type: AllStatsAdaptativeType,
    pub ratio: Fx,
}

#[derive(Clone, Copy, Debug)]
pub struct AllStatsChampionStats {
    pub max_health: Fx,
    pub armor: Fx,
    pub magic_resist: Fx,
    pub attack_damage: Fx,
    pub resource_max: Fx,
    pub ability_power: Fx,
    pub current_health: Fx,
    pub attack_speed: Fx,
    pub attack_range: Fx,
    pub crit_chance: Fx,
    pub crit_damage: Fx,
    pub physical_lethality: Fx,
    pub armor_penetration_percent: Fx,
    pub magic_penetration_percent: Fx,
    pub magic_penetration_flat: Fx,
}

#[derive(Clone, Copy, Debug, PartialEq, Eq, Structural)]
pub enum AllStatsForm {
    Melee,
    Ranged,
}

#[derive(Clone, Debug)]
pub struct AllStatsActivePlayer {
    pub id: String,
    pub level: u8,
    pub form: AllStatsForm,
    pub multiplier: AllStatsMultiplier,
    pub adaptative: AllStatsAdaptative,
    pub champion_stats: AllStatsChampionStats,
    pub base_stats: GameCoreStats,
    pub bonus_stats: GameCoreStats,
}

#[derive(Clone, Copy, Debug)]
pub struct AllStatsRealStats {
    pub armor: Fx,
    pub magic_resist: Fx,
}

#[derive(Clone, Copy, Debug)]
pub struct AllStatsPlayer {
    pub multiplier: AllStatsMultiplier,
    pub real_stats: AllStatsRealStats,
    pub champion_stats: GameCoreStats,
    pub base_stats: GameCoreStats,
    pub bonus_stats: GameCoreStats,
}

#[derive(Clone, Copy, Debug)]
pub struct AllStatsProperty {
    pub over_health: Fx,
    pub missing_health: Fx,
    pub excess_health: Fx,
    pub steelcaps: Fx,
    pub rocksolid: Fx,
    pub randuin: Fx,
}

/// The full evaluation context for one attacker–defender pair.
#[derive(Clone, Debug)]
pub struct TargetAllStats {
    pub active_player: AllStatsActivePlayer,
    pub player: AllStatsPlayer,
    pub property: AllStatsProperty,
}

/// Penetration-adjusted resistance: `resist * pen_percent - pen_flat`.
pub open spec fn real_resist_s(resist: int, pen_percent: int, pen_flat: int) -> int {
    fx_sub_s(fx_mul_s(resist, pen_percent), pen_flat)
}

/// Damage multiplier against an adjusted resistance: `100 / (100 + r)`.
pub open spec fn resist_mult_s(r: int) -> int {
    fx_div_s(100 * (FX_ONE as int), fx_add_s(100 * (FX_ONE as int), r))
}

/// The adaptive predicate: `0.35 * bonus attack damage >= 0.2 * ability
/// power` leans the attacker physical.
pub open spec fn adaptive_is_physical_s(bonus_ad: int, ability_power: int) -> bool {
    fx_mul_s(350_000, bonus_ad) >= fx_mul_s(200_000, ability_power)
}

/// Health ratio folded into its piecewise band: below 1.1 it becomes
/// 0.65, above 2 it becomes 2.
pub open spec fn over_health_s(ohp: int) -> int {
    if ohp < 1_100_000 {
        650_000
    } else if ohp > 2_000_000 {
        2_000_000
    } else {
        ohp
    }
}

/// The share of the attacker's health that is missing.
pub open spec fn missing_health_s(current: int, max: int) -> int {
    fx_sub_s(FX_ONE as int, fx_div_s(current, max))
}

/// Health the defender has beyond the attacker, clamped to [0, 2500].
pub open spec fn excess_health_s(defender_max: int, attacker_max: int) -> int {
    fx_clamp_s(fx_sub_s(defender_max, attacker_max), 0, 2_500_000_000)
}

/// Whether the item list holds the given id.
pub open spec fn has_item_s(items: Seq<GamePlayerItems>, id: int) -> bool {
    exists|i: int| 0 <= i < items.len() && (#[trigger] items[i]).item_id == id
}

/// How many carried items are one of the three armor items.
pub open spec fn rocksolid_count_s(items: Seq<GamePlayerItems>) -> int
    decreases items.len(),
{
    if items.len() == 0 {
        0
    } else {
        let c = if items[0].item_id == 3143 || items[0].item_id == 3110 || items[0].item_id == 3082 {
            1int
        } else {
            0int
        };
        c + rocksolid_count_s(items.drop_first())
    }
}

/// The rocksolid reduction: one `max_health / 1000 * 3.5` share per
/// armor item carried, folded left with saturating addition.
pub open spec fn rocksolid_s(count: int, defender_max: int) -> int
    decreases count,
{
    if count <= 0 {
        0
    } else {
        fx_add_s(
            rocksolid_s(count - 1, defender_max),
            fx_mul_s(fx_div_s(defender_max, 1_000_000_000), 3_500_000),
        )
    }
}

/// The general multiplier: one, raised by the rune `8299` when health
/// is missing, and by the item `4015` with the defender's excess
/// health.
pub open spec fn general_mult_s(
    has_rune_8299: bool,
    has_item_4015: bool,
    mshp: int,
    exhp: int,
) -> int {
    let after_rune = if has_rune_8299 {
        if mshp > 700_000 {
            fx_add_s(FX_ONE as int, 110_000)
        } else if mshp >= 400_000 {
            fx_add_s(FX_ONE as int, fx_sub_s(fx_mul_s(200_000, mshp), 30_000))
        } else {
            FX_ONE as int
        }
    } else {
        FX_ONE as int
    };
    if has_item_4015 {
        fx_add_s(after_rune, fx_div_s(exhp, fx_div_s(220_000_000_000, 15_000_000)))
    } else {
        after_rune
    }
}

fn has_item(items: &Vec<GamePlayerItems>, id: u32) -> (r: bool)
    ensures
        r == has_item_s(items@, id as int),
{
    let mut i: usize = 0;
    while i < items.len()
        invariant
            i <= items@.len(),
            forall|j: int| 0 <= j < i ==> (#[trigger] items@[j]).item_id != id,
        decreases items@.len() - i,
    {
        if items[i].item_id == id {
            return true;
        }
        i = i + 1;
    }
    false
}

fn rocksolid_total(items: &Vec<GamePlayerItems>, defender_max: Fx) -> (r: Fx)
    ensures
        r@ == rocksolid_s(rocksolid_count_s(items@), defender_max@),
{
    let share = fx_mul(fx_div(defender_max, Fx { v: 1_000_000_000 }), Fx { v: 3_500_000 });
    let mut total = Fx { v: 0 };
    let mut i: usize = 0;
    proof {
        lemma_rocksolid_count_nonneg(items@);
    }
    while i < items.len()
        invariant
            i <= items@.len(),
            share@ == fx_mul_s(fx_div_s(defender_max@, 1_000_000_000), 3_500_000),
            total@ == rocksolid_s(rocksolid_count_s(items@.subrange(0, i as int)), defender_max@),
        decreases items@.len() - i,
    {
        let it = items[i];
        proof {
            lemma_rocksolid_count_push(items@.subrange(0, i as int), items@[i as int]);
            assert(items@.subrange(0, i + 1) =~= items@.subrange(0, i as int).push(
                items@[i as int],
            ));
            lemma_rocksolid_count_nonneg(items@.subrange(0, i as int));
        }
        if it.item_id == 3143 || it.item_id == 3110 || it.item_id == 3082 {
            total = fx_add(total, share);
        }
        i = i + 1;
    }
    proof {
        assert(items@.subrange(0, items@.len() as int) =~= items@);
    }
    total
}

proof fn lemma_rocksolid_count_nonneg(items: Seq<GamePlayerItems>)
    ensures
        rocksolid_count_s(items) >= 0,
    decreases items.len(),
{
    if items.len() > 0 {
        lemma_rocksolid_count_nonneg(items.drop_first());
    }
}

proof fn lemma_rocksolid_count_push(items: Seq<GamePlayerItems>, x: GamePlayerItems)
    ensures
        rocksolid_count_s(items.push(x)) == rocksolid_count_s(items) + (
        if x.item_id == 3143 || x.item_id == 3110 || x.item_id == 3082 {
            1int
        } else {
            0int
        }),
    decreases items.len(),
{
    if items.len() == 0 {
        assert(items.push(x).drop_first() =~= items);
    } else {
        assert(items.push(x).drop_first() =~= items.drop_first().push(x));
        lemma_rocksolid_count_push(items.drop_first(), x);
    }
}

/// The evaluation context, as a value: the spec mirror of
/// [`all_stats_core`].
pub open spec fn all_stats_s(
    player: GamePlayer,
    acs: GameChampionStats,
    abs: GameCoreStats,
    abt: GameCoreStats,
    rune_ids: Seq<u64>,
    item_ids: Seq<u64>,
    champ_id: String,
    level: u8,
) -> TargetAllStats {
    let pcs = player.champion_stats->Some_0;
    let rar = real_resist_s(pcs.armor@, acs.armor_penetration_percent@, acs.armor_penetration_flat@);
    let rmr = real_resist_s(
        pcs.magic_resist@,
        acs.magic_penetration_percent@,
        acs.magic_penetration_flat@,
    );
    let physical = resist_mult_s(rar);
    let magic = resist_mult_s(rmr);
    let adp = adaptive_is_physical_s(abs.attack_damage@, acs.ability_power@);
    let mshp = missing_health_s(acs.current_health@, acs.max_health@);
    let exhp = excess_health_s(pcs.max_health@, acs.max_health@);
    let steel = has_item_s(player.items@, 3143);
    TargetAllStats {
        active_player: AllStatsActivePlayer {
            id: champ_id,
            level: level,
            form: if acs.attack_range@ > 350_000_000 {
                AllStatsForm::Ranged
            } else {
                AllStatsForm::Melee
            },
            multiplier: AllStatsMultiplier {
                magic: Fx { v: magic as i64 },
                physical: Fx { v: physical as i64 },
                general: Fx {
                    v: general_mult_s(
                        has_id_s(rune_ids, 8299),
                        has_id_s(item_ids, 4015),
                        mshp,
                        exhp,
                    ) as i64,
                },
            },
            adaptative: AllStatsAdaptative {
                adaptative_type: if adp {
                    AllStatsAdaptativeType::Physical
                } else {
                    AllStatsAdaptativeType::Magic
                },
                ratio: if adp {
                    Fx { v: physical as i64 }
                } else {
                    Fx { v: magic as i64 }
                },
            },
            champion_stats: AllStatsChampionStats {
                max_health: acs.max_health,
                armor: acs.armor,
                magic_resist: acs.magic_resist,
                attack_damage: acs.attack_damage,
                resource_max: acs.resource_max,
                ability_power: acs.ability_power,
                current_health: acs.current_health,
                attack_speed: Fx { v: FX_ONE },
                attack_range: acs.attack_range,
                crit_chance: acs.crit_chance,
                crit_damage: acs.crit_damage,
                physical_lethality: acs.physical_lethality,
                armor_penetration_percent: acs.armor_penetration_percent,
                magic_penetration_percent: acs.magic_penetration_percent,
                magic_penetration_flat: acs.magic_penetration_flat,
            },
            base_stats: abt,
            bonus_stats: abs,
        },
        player: AllStatsPlayer {
            multiplier: AllStatsMultiplier {
                magic: Fx { v: FX_ONE },
                physical: Fx { v: FX_ONE },
                general: Fx { v: FX_ONE },
            },
            real_stats: AllStatsRealStats { armor: Fx { v: rar as i64 }, magic_resist: Fx { v: rmr as i64 } },
            champion_stats: pcs,
            base_stats: player.base_stats->Some_0,
            bonus_stats: player.bonus_stats->Some_0,
        },
        property: AllStatsProperty {
            over_health: Fx { v: over_health_s(fx_div_s(pcs.max_health@, acs.max_health@)) as i64 },
            missing_health: Fx { v: mshp as i64 },
            excess_health: Fx { v: exhp as i64 },
            steelcaps: if steel {
                Fx { v: 880_000 }
            } else {
                Fx { v: FX_ONE }
            },
            rocksolid: Fx { v: rocksolid_s(rocksolid_count_s(player.items@), pcs.max_health@) as i64 },
            randuin: if steel {
                Fx { v: 700_000 }
            } else {
                Fx { v: FX_ONE }
            },
        },
    }
}

/// Build the evaluation context for one defender (`player`) against
/// the prepared attacker (`active_player`).
pub fn all_stats(player: &GamePlayer, active_player: &GameActivePlayer) -> (r: TargetAllStats)
    requires
        player.champion_stats is Some,
        player.bonus_stats is Some,
        player.base_stats is Some,
        active_player.bonus_stats is Some,
        active_player.base_stats is Some,
        active_player.relevant is Some,
        active_player.champion is Some,
    ensures
        r == all_stats_s(
            *player,
            active_player.champion_stats,
            active_player.bonus_stats->Some_0,
            active_player.base_stats->Some_0,
            active_player.relevant->Some_0.runes.min@,
            active_player.relevant->Some_0.items.min@,
            active_player.champion->Some_0.id,
            active_player.level,
        ),
        ({
            let acs = active_player.champion_stats;
            let abs = active_player.bonus_stats->Some_0;
            let abt = active_player.base_stats->Some_0;
            let rel = active_player.relevant->Some_0;
            let pcs = player.champion_stats->Some_0;
            let rar = real_resist_s(
                pcs.armor@,
                acs.armor_penetration_percent@,
                acs.armor_penetration_flat@,
            );
            let rmr = real_resist_s(
                pcs.magic_resist@,
                acs.magic_penetration_percent@,
                acs.magic_penetration_flat@,
            );
            let physical = resist_mult_s(rar);
            let magic = resist_mult_s(rmr);
            let adp = adaptive_is_physical_s(abs.attack_damage@, acs.ability_power@);
            let mshp = missing_health_s(acs.current_health@, acs.max_health@);
            let exhp = excess_health_s(pcs.max_health@, acs.max_health@);
            &&& r.active_player.id == active_player.champion->Some_0.id
            &&& r.active_player.level == active_player.level
            &&& (r.active_player.form == AllStatsForm::Ranged <==> acs.attack_range@ > 350_000_000)
            &&& r.active_player.multiplier.magic@ == magic
            &&& r.active_player.multiplier.physical@ == physical
            &&& r.active_player.multiplier.general@ == general_mult_s(
                has_id_s(rel.runes.min@, 8299),
                has_id_s(rel.items.min@, 4015),
                mshp,
                exhp,
            )
            &&& (r.active_player.adaptative.adaptative_type == AllStatsAdaptativeType::Physical
                <==> adp)
            &&& r.active_player.adaptative.ratio@ == (if adp {
                physical
            } else {
                magic
            })
            &&& r.active_player.champion_stats.max_health == acs.max_health
            &&& r.active_player.champion_stats.armor == acs.armor
            &&& r.active_player.champion_stats.magic_resist == acs.magic_resist
            &&& r.active_player.champion_stats.attack_damage == acs.attack_damage
            &&& r.active_player.champion_stats.resource_max == acs.resource_max
            &&& r.active_player.champion_stats.ability_power == acs.ability_power
            &&& r.active_player.champion_stats.current_health == acs.current_health
            &&& r.active_player.champion_stats.attack_speed@ == FX_ONE as int
            &&& r.active_player.champion_stats.attack_range == acs.attack_range
            &&& r.active_player.champion_stats.crit_chance == acs.crit_chance
            &&& r.active_player.champion_stats.crit_damage == acs.crit_damage
            &&& r.active_player.champion_stats.physical_lethality == acs.physical_lethality
            &&& r.active_player.champion_stats.armor_penetration_percent
                == acs.armor_penetration_percent
            &&& r.active_player.champion_stats.magic_penetration_percent
                == acs.magic_penetration_percent
            &&& r.active_player.champion_stats.magic_penetration_flat
                == acs.magic_penetration_flat
            &&& r.active_player.base_stats == abt
            &&& r.active_player.bonus_stats == abs
            &&& r.player.multiplier.magic@ == FX_ONE as int
            &&& r.player.multiplier.physical@ == FX_ONE as int
            &&& r.player.multiplier.general@ == FX_ONE as int
            &&& r.player.real_stats.armor@ == rar
            &&& r.player.real_stats.magic_resist@ == rmr
            &&& r.player.champion_stats == pcs
            &&& r.player.base_stats == player.base_stats->Some_0
            &&& r.player.bonus_stats == player.bonus_stats->Some_0
            &&& r.property.over_health@ == over_health_s(
                fx_div_s(pcs.max_health@, acs.max_health@),
            )
            &&& r.property.missing_health@ == mshp
            &&& r.property.excess_health@ == exhp
            &&& r.property.steelcaps@ == (if has_item_s(player.items@, 3143) {
                880_000int
            } else {
                FX_ONE as int
            })
            &&& r.property.rocksolid@ == rocksolid_s(
                rocksolid_count_s(player.items@),
                pcs.max_health@,
            )
            &&& r.property.randuin@ == (if has_item_s(player.items@, 3143) {
                700_000int
            } else {
                FX_ONE as int
            })
        }),
{
    all_stats_core(
        player,
        &active_player.champion_stats,
        active_player.bonus_stats.as_ref().unwrap(),
        active_player.base_stats.as_ref().unwrap(),
        active_player.relevant.as_ref().unwrap(),
        &active_player.champion.as_ref().unwrap().id,
        active_player.level,
    )
}

/// Build the evaluation context from the attacker's parts; the tool
/// simulator calls this with a hypothetical stat snapshot.
pub fn all_stats_core(
    player: &GamePlayer,
    acs: &GameChampionStats,
    abs: &GameCoreStats,
    abt: &GameCoreStats,
    rel: &GameRelevant,
    champ_id: &String,
    level: u8,
) -> (r: TargetAllStats)
    requires
        player.champion_stats is Some,
        player.bonus_stats is Some,
        player.base_stats is Some,
    ensures
        r == all_stats_s(
            *player,
            *acs,
            *abs,
            *abt,
            rel.runes.min@,
            rel.items.min@,
            *champ_id,
            level,
        ),
{
    let pcs = player.champion_stats.as_ref().unwrap();
    let pbs = player.bonus_stats.as_ref().unwrap();
    let pbt = player.base_stats.as_ref().unwrap();

    let rar = fx_sub(fx_mul(pcs.armor, acs.armor_penetration_percent), acs.armor_penetration_flat);
    let rmr = fx_sub(
        fx_mul(pcs.magic_resist, acs.magic_penetration_percent),
        acs.magic_penetration_flat,
    );

    let hundred = Fx { v: 100 * FX_ONE };
    let physical = fx_div(hundred, fx_add(hundred, rar));
    let magic = fx_div(hundred, fx_add(hundred, rmr));

    let adp = fx_le(
        fx_mul(Fx { v: 200_000 }, acs.ability_power),
        fx_mul(Fx { v: 350_000 }, abs.attack_damage),
    );
    let add = if adp {
        physical
    } else {
        magic
    };

    let ohp = fx_div(pcs.max_health, acs.max_health);
    let ehp = fx_sub(pcs.max_health, acs.max_health);
    let mshp = fx_sub(Fx { v: FX_ONE }, fx_div(acs.current_health, acs.max_health));
    let exhp = fx_clamp(ehp, Fx { v: 0 }, Fx { v: 2_500_000_000 });

    let mut acp_mod = Fx { v: FX_ONE };
    if contains_id(&rel.runes.min, 8299) {
        if fx_lt(Fx { v: 700_000 }, mshp) {
            acp_mod = fx_add(acp_mod, Fx { v: 110_000 });
        } else if fx_le(Fx { v: 400_000 }, mshp) {
            acp_mod = fx_add(acp_mod, fx_sub(fx_mul(Fx { v: 200_000 }, mshp), Fx { v: 30_000 }));
        }
    }
    if contains_id(&rel.items.min, 4015) {
        let denom = fx_div(Fx { v: 220_000_000_000 }, Fx { v: 15_000_000 });
        acp_mod = fx_add(acp_mod, fx_div(exhp, denom));
    }

    let form = if fx_lt(Fx { v: 350_000_000 }, acs.attack_range) {
        AllStatsForm::Ranged
    } else {
        AllStatsForm::Melee
    };

    let adaptative_type = if adp {
        AllStatsAdaptativeType::Physical
    } else {
        AllStatsAdaptativeType::Magic
    };

    let steel = has_item(&player.items, 3143);

    TargetAllStats {
        active_player: AllStatsActivePlayer {
            id: champ_id.clone(),
            level,
            form,
            multiplier: AllStatsMultiplier { magic, physical, general: acp_mod },
            adaptative: AllStatsAdaptative { adaptative_type, ratio: add },
            champion_stats: AllStatsChampionStats {
                max_health: acs.max_health,
                armor: acs.armor,
                magic_resist: acs.magic_resist,
                attack_damage: acs.attack_damage,
                resource_max: acs.resource_max,
                ability_power: acs.ability_power,
                current_health: acs.current_health,
                attack_speed: Fx { v: FX_ONE },
                attack_range: acs.attack_range,
                crit_chance: acs.crit_chance,
                crit_damage: acs.crit_damage,
                physical_lethality: acs.physical_lethality,
                armor_penetration_percent: acs.armor_penetration_percent,
                magic_penetration_percent: acs.magic_penetration_percent,
                magic_penetration_flat: acs.magic_penetration_flat,
            },
            base_stats: *abt,
            bonus_stats: *abs,
        },
        player: AllStatsPlayer {
            multiplier: AllStatsMultiplier {
                magic: Fx { v: FX_ONE },
                physical: Fx { v: FX_ONE },
                general: Fx { v: FX_ONE },
            },
            real_stats: AllStatsRealStats { armor: rar, magic_resist: rmr },
            champion_stats: *pcs,
            base_stats: *pbt,
            bonus_stats: *pbs,
        },
        property: AllStatsProperty {
            over_health: if fx_lt(ohp, Fx { v: 1_100_000 }) {
                Fx { v: 650_000 }
            } else if fx_lt(Fx { v: 2_000_000 }, ohp) {
                Fx { v: 2_000_000 }
            } else {
                ohp
            },
            missing_health: mshp,
            excess_health: exhp,
            steelcaps: if steel {
                Fx { v: 880_000 }
            } else {
                Fx { v: FX_ONE }
            },
            rocksolid: rocksolid_total(&player.items, pcs.max_health),
            randuin: if steel {
                Fx { v: 700_000 }
            } else {
                Fx { v: FX_ONE }
            },
        },
    }
}

/// The property flags stay in their bands: excess health is clamped to
/// [0, 2500] and the over-health ratio is 0.65 or lies in [1.1, 2].
pub proof fn lemma_property_bands(defender_max: int, attacker_max: int, ohp: int)
    ensures
        0 <= excess_health_s(defender_max, attacker_max) <= 2_500_000_000,
        over_health_s(ohp) == 650_000 || (1_100_000 <= over_health_s(ohp) <= 2_000_000),
{
}

} // verus!
