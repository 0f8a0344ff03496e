//! The request and response shapes: the active player, the roster, and
//! the computed damage and tool records attached to them.
//!
//! Types that the engine fills with freshly built strings also carry a
//! view structure (`...View`) over character sequences and mathematical
//! integers; contracts about computed output speak of those views.

use crate::fx::{fx_add_s, fx_mul_s, fx_sub_s, Fx, FX_SCALE};
use crate::fx::{fx_add, fx_mul, fx_sub};
use crate::riot::{RiotChampionPassive, RiotChampionSpell, RiotChampionStats};
use vstd::prelude::*;

verus! {

#[derive(Clone, Debug)]
pub struct GamePassive {
    pub display_name: String,
    pub id: String,
}

#[derive(Clone, Copy, Debug)]
pub struct GameAbility {
    pub ability_level: u8,
}

#[derive(Clone, Debug)]
pub struct GameAbilities {
    pub passive: GamePassive,
    pub q: GameAbility,
    pub w: GameAbility,
    pub e: GameAbility,
    pub r: GameAbility,
}

/// The live numeric snapshot of the active player.
#[derive(Clone, Copy, Debug)]
pub struct GameChampionStats {
    pub ability_power: Fx,
    pub armor: Fx,
    pub armor_penetration_flat: Fx,
    pub armor_penetration_percent: Fx,
    pub attack_damage: Fx,
    pub attack_range: Fx,
    pub crit_chance: Fx,
    pub crit_damage: Fx,
    pub current_health: Fx,
    pub magic_penetration_flat: Fx,
    pub magic_penetration_percent: Fx,
    pub magic_resist: Fx,
    pub max_health: Fx,
    pub physical_lethality: Fx,
    pub resource_max: Fx,
}

#[derive(Clone, Debug)]
pub struct GameRuneProp {
    pub display_name: String,
    pub id: u32,
}

#[derive(Clone, Debug)]
pub struct GameFullRunes {
    pub general_runes: Vec<GameRuneProp>,
}

/// The six stats the growth formulas and the bonus split speak of.
#[derive(Clone, Copy, Debug, Default)]
pub struct GameCoreStats {
    pub max_health: Fx,
    pub armor: Fx,
    pub magic_resist: Fx,
    pub attack_damage: Fx,
    pub resource_max: Fx,
    pub ability_power: Fx,
}

#[derive(Clone, Debug)]
pub struct GameRelevantProps {
    pub min: Vec<String>,
    pub max: Vec<String>,
}

/// Like [`GameRelevantProps`], for catalogs keyed by numeric id.
#[derive(Clone, Debug)]
pub struct GameRelevantIds {
    pub min: Vec<u64>,
    pub max: Vec<u64>,
}

#[derive(Clone, Debug)]
pub struct GameRelevant {
    pub abilities: GameRelevantProps,
    pub items: GameRelevantIds,
    pub runes: GameRelevantIds,
    pub spell: GameRelevantProps,
}

#[derive(Clone, Debug)]
pub struct GameToolInfo {
    pub id: u64,
    pub name: String,
    pub active: bool,
    pub gold: Option<u32>,
    pub raw: Vec<(String, Fx)>,
}

#[derive(Clone, Copy, Debug)]
pub struct GameDragonProps {
    pub earth: Fx,
    pub fire: Fx,
    pub chemtech: Fx,
}

#[derive(Clone, Debug)]
pub struct RiotChampionTargetSpell {
    pub id: String,
    pub name: String,
    pub description: String,
    pub cooldown: Vec<Fx>,
}

/// The champion descriptor the pipeline attaches to a player.
#[derive(Clone, Debug)]
pub struct RiotChampionTarget {
    pub id: String,
    pub name: String,
    pub stats: RiotChampionStats,
    pub spells: Vec<RiotChampionTargetSpell>,
    pub passive: RiotChampionPassive,
}

/// Two spell entries with the same content.
pub open spec fn spell_eq_s(a: RiotChampionTargetSpell, b: RiotChampionTargetSpell) -> bool {
    &&& a.id == b.id
    &&& a.name == b.name
    &&& a.description == b.description
    &&& a.cooldown@ == b.cooldown@
}

/// Two champion descriptors with the same content, entry by entry.
pub open spec fn champ_eq_s(a: RiotChampionTarget, b: RiotChampionTarget) -> bool {
    &&& a.id == b.id
    &&& a.name == b.name
    &&& a.stats == b.stats
    &&& a.passive == b.passive
    &&& a.spells@.len() == b.spells@.len()
    &&& forall|i: int| 0 <= i < a.spells@.len() ==> spell_eq_s(#[trigger] a.spells@[i], b.spells@[i])
}

/// Descriptor content equality flips.
pub proof fn lemma_champ_eq_sym(a: RiotChampionTarget, b: RiotChampionTarget)
    requires
        champ_eq_s(a, b),
    ensures
        champ_eq_s(b, a),
{
    assert forall|i: int| 0 <= i < b.spells@.len() implies spell_eq_s(
        #[trigger] b.spells@[i],
        a.spells@[i],
    ) by {
        assert(spell_eq_s(a.spells@[i], b.spells@[i]));
    }
}

/// Descriptor content equality chains.
pub proof fn lemma_champ_eq_trans(a: RiotChampionTarget, b: RiotChampionTarget, c: RiotChampionTarget)
    requires
        champ_eq_s(a, b),
        champ_eq_s(b, c),
    ensures
        champ_eq_s(a, c),
{
    assert forall|i: int| 0 <= i < a.spells@.len() implies spell_eq_s(
        #[trigger] a.spells@[i],
        c.spells@[i],
    ) by {
        assert(spell_eq_s(a.spells@[i], b.spells@[i]));
        assert(spell_eq_s(b.spells@[i], c.spells@[i]));
    }
}

#[derive(Clone, Debug)]
pub struct GameActivePlayer {
    pub summoner_name: String,
    pub level: u8,
    pub abilities: GameAbilities,
    pub champion_stats: GameChampionStats,
    pub full_runes: GameFullRunes,
    pub champion_name: Option<String>,
    pub champion: Option<RiotChampionTarget>,
    pub dragon: Option<GameDragonProps>,
    pub base_stats: Option<GameCoreStats>,
    pub bonus_stats: Option<GameCoreStats>,
    pub team: Option<String>,
    pub skin: Option<u8>,
    pub tool: Option<GameToolInfo>,
    pub relevant: Option<GameRelevant>,
}

#[derive(Clone, Copy, Debug)]
pub struct GameScores {
    pub assists: i32,
    pub kills: i32,
    pub deaths: i32,
}

#[derive(Clone, Debug)]
pub struct GameSummonerSpell {
    pub display_name: String,
    pub raw_description: String,
}

#[derive(Clone, Debug)]
pub struct GameSummonerSpells {
    pub summoner_spell_one: GameSummonerSpell,
    pub summoner_spell_two: GameSummonerSpell,
}

#[derive(Clone, Copy, Debug)]
pub struct GamePlayerItems {
    pub item_id: u32,
}

/// One computed damage record.
#[derive(Clone, Debug)]
pub struct GamePlayerDamage {
    pub min: Fx,
    pub max: Option<Fx>,
    pub damage_type: String,
    pub name: Option<String>,
    pub area: Option<bool>,
    pub onhit: Option<bool>,
}

/// View of a damage record: numbers as integers, strings as character
/// sequences.
pub ghost struct DamageView {
    pub min: int,
    pub max: Option<int>,
    pub damage_type: Seq<char>,
    pub name: Option<Seq<char>>,
    pub area: Option<bool>,
    pub onhit: Option<bool>,
}

impl View for GamePlayerDamage {
    type V = DamageView;

    open spec fn view(&self) -> DamageView {
        DamageView {
            min: self.min@,
            max: match self.max {
                Option::Some(m) => Option::Some(m@),
                Option::None => Option::None,
            },
            damage_type: self.damage_type@,
            name: match self.name {
                Option::Some(ref n) => Option::Some(n@),
                Option::None => Option::None,
            },
            area: self.area,
            onhit: self.onhit,
        }
    }
}

/// View of a keyed damage list with string keys.
pub open spec fn named_damage_view(v: Seq<(String, GamePlayerDamage)>) -> Seq<
    (Seq<char>, DamageView),
> {
    v.map_values(|p: (String, GamePlayerDamage)| (p.0@, p.1@))
}

/// View of a keyed damage list with numeric keys.
pub open spec fn id_damage_view(v: Seq<(u64, GamePlayerDamage)>) -> Seq<(u64, DamageView)> {
    v.map_values(|p: (u64, GamePlayerDamage)| (p.0, p.1@))
}

impl GamePlayerDamage {
    /// The zero-damage placeholder: no damage, mixed type.
    pub fn void() -> (r: GamePlayerDamage)
        ensures
            r@.min == 0,
            r@.max is None,
            r@.damage_type == "mixed"@,
            r@.name is None,
            r@.area is None,
            r@.onhit is None,
    {
        GamePlayerDamage {
            min: Fx { v: 0 },
            max: Option::None,
            damage_type: "mixed".to_owned(),
            name: Option::None,
            area: Option::None,
            onhit: Option::None,
        }
    }
}

/// The four damage categories of one opponent.
#[derive(Clone, Debug)]
pub struct GamePlayerDamages {
    pub abilities: Vec<(String, GamePlayerDamage)>,
    pub items: Vec<(u64, GamePlayerDamage)>,
    pub runes: Vec<(u64, GamePlayerDamage)>,
    pub spell: Vec<(String, GamePlayerDamage)>,
}

pub ghost struct DamagesView {
    pub abilities: Seq<(Seq<char>, DamageView)>,
    pub items: Seq<(u64, DamageView)>,
    pub runes: Seq<(u64, DamageView)>,
    pub spell: Seq<(Seq<char>, DamageView)>,
}

impl View for GamePlayerDamages {
    type V = DamagesView;

    open spec fn view(&self) -> DamagesView {
        DamagesView {
            abilities: named_damage_view(self.abilities@),
            items: id_damage_view(self.items@),
            runes: id_damage_view(self.runes@),
            spell: named_damage_view(self.spell@),
        }
    }
}

/// The tool outcome for one opponent: recomputed damage, elementwise
/// delta and total swing.
#[derive(Clone, Debug)]
pub struct GamePlayerTool {
    pub dif: Option<GamePlayerDamages>,
    pub max: GamePlayerDamages,
    pub sum: Fx,
    pub rec: Option<Vec<(String, Fx)>>,
}

pub ghost struct ToolView {
    pub dif: Option<DamagesView>,
    pub max: DamagesView,
    pub sum: int,
    pub rec: Option<Seq<(Seq<char>, int)>>,
}

impl View for GamePlayerTool {
    type V = ToolView;

    open spec fn view(&self) -> ToolView {
        ToolView {
            dif: match self.dif {
                Option::Some(ref d) => Option::Some(d@),
                Option::None => Option::None,
            },
            max: self.max@,
            sum: self.sum@,
            rec: match self.rec {
                Option::Some(ref m) => Option::Some(
                    m@.map_values(|p: (String, Fx)| (p.0@, p.1@)),
                ),
                Option::None => Option::None,
            },
        }
    }
}

#[derive(Clone, Debug)]
pub struct GamePlayer {
    pub champion_name: String,
    pub level: u8,
    pub position: String,
    pub summoner_name: String,
    pub scores: GameScores,
    pub items: Vec<GamePlayerItems>,
    pub summoner_spells: GameSummonerSpells,
    pub skin_id: u8,
    pub team: String,
    pub champion: Option<RiotChampionTarget>,
    pub dragon: Option<GameDragonProps>,
    pub bonus_stats: Option<GameCoreStats>,
    pub base_stats: Option<GameCoreStats>,
    pub champion_stats: Option<GameCoreStats>,
    pub damage: Option<GamePlayerDamages>,
    pub tool: Option<GamePlayerTool>,
}

#[derive(Clone, Copy, Debug)]
pub struct GameData {
    pub game_time: Fx,
    pub map_number: u8,
}

#[derive(Clone, Debug)]
pub struct GameEventProps {
    pub event_name: String,
    pub killer_name: Option<String>,
    pub dragon_type: Option<String>,
}

#[derive(Clone, Debug)]
pub struct GameEvents {
    pub events: Vec<GameEventProps>,
}

/// The request and response root.
#[derive(Clone, Debug)]
pub struct GameProps {
    pub active_player: GameActivePlayer,
    pub all_players: Vec<GamePlayer>,
    pub events: GameEvents,
    pub game_data: GameData,
}

/// The canonical per-level growth: `base + per * (L-1) * (0.7025 +
/// 0.0175 * (L-1))`, with the two coefficients as raw ticks.
pub open spec fn growth_s(base: int, per: int, level: int) -> int {
    let lm1 = (level - 1) * (FX_SCALE as int);
    fx_add_s(base, fx_mul_s(per, fx_mul_s(lm1, fx_add_s(702_500, fx_mul_s(17_500, lm1)))))
}

/// The six core stats grown to `level` from the champion's growth
/// coefficients; ability power starts at zero.
pub open spec fn base_stats_s(stats: RiotChampionStats, level: int) -> GameCoreStats {
    GameCoreStats {
        max_health: Fx { v: growth_s(stats.hp@, stats.hpperlevel@, level) as i64 },
        armor: Fx { v: growth_s(stats.armor@, stats.armorperlevel@, level) as i64 },
        magic_resist: Fx { v: growth_s(stats.spellblock@, stats.spellblockperlevel@, level) as i64 },
        attack_damage: Fx { v: growth_s(stats.attackdamage@, stats.attackdamageperlevel@, level) as i64 },
        resource_max: Fx { v: growth_s(stats.mp@, stats.mpperlevel@, level) as i64 },
        ability_power: Fx { v: 0 },
    }
}

/// The elementwise difference `a - b`, with ability power reported as
/// zero.
pub open spec fn core_bonus_s(a: GameCoreStats, b: GameCoreStats) -> GameCoreStats {
    GameCoreStats {
        max_health: Fx { v: fx_sub_s(a.max_health@, b.max_health@) as i64 },
        armor: Fx { v: fx_sub_s(a.armor@, b.armor@) as i64 },
        magic_resist: Fx { v: fx_sub_s(a.magic_resist@, b.magic_resist@) as i64 },
        attack_damage: Fx { v: fx_sub_s(a.attack_damage@, b.attack_damage@) as i64 },
        resource_max: Fx { v: fx_sub_s(a.resource_max@, b.resource_max@) as i64 },
        ability_power: Fx { v: 0 },
    }
}

impl GameCoreStats {
    fn formula(base: Fx, per_level: Fx, level: u8) -> (r: Fx)
        ensures
            r@ == growth_s(base@, per_level@, level as int),
    {
        let lm1 = Fx { v: (level as i64 - 1) * FX_SCALE };
        fx_add(
            base,
            fx_mul(per_level, fx_mul(lm1, fx_add(Fx { v: 702_500 }, fx_mul(Fx { v: 17_500 }, lm1)))),
        )
    }

    /// Grow a champion's stats to the given level.
    pub fn base_stats(stats: &RiotChampionStats, level: u8) -> (r: GameCoreStats)
        ensures
            r == base_stats_s(*stats, level as int),
    {
        GameCoreStats {
            max_health: Self::formula(stats.hp, stats.hpperlevel, level),
            armor: Self::formula(stats.armor, stats.armorperlevel, level),
            magic_resist: Self::formula(stats.spellblock, stats.spellblockperlevel, level),
            attack_damage: Self::formula(stats.attackdamage, stats.attackdamageperlevel, level),
            resource_max: Self::formula(stats.mp, stats.mpperlevel, level),
            ability_power: Fx { v: 0 },
        }
    }

    /// The elementwise difference `self - current`; ability power is
    /// reported as zero.
    pub fn bonus_stats(&self, current: &GameCoreStats) -> (r: GameCoreStats)
        ensures
            r == core_bonus_s(*self, *current),
    {
        GameCoreStats {
            max_health: fx_sub(self.max_health, current.max_health),
            armor: fx_sub(self.armor, current.armor),
            magic_resist: fx_sub(self.magic_resist, current.magic_resist),
            attack_damage: fx_sub(self.attack_damage, current.attack_damage),
            resource_max: fx_sub(self.resource_max, current.resource_max),
            ability_power: Fx { v: 0 },
        }
    }
}

/// The camelCase stat names, paired with the snapshot's values, in the
/// fixed field order.
pub open spec fn camel_pairs_s(s: GameChampionStats) -> Seq<(Seq<char>, int)> {
    seq![
        ("abilityPower"@, s.ability_power@),
        ("armor"@, s.armor@),
        ("armorPenetrationFlat"@, s.armor_penetration_flat@),
        ("armorPenetrationPercent"@, s.armor_penetration_percent@),
        ("attackDamage"@, s.attack_damage@),
        ("attackRange"@, s.attack_range@),
        ("critChance"@, s.crit_chance@),
        ("critDamage"@, s.crit_damage@),
        ("currentHealth"@, s.current_health@),
        ("magicPenetrationFlat"@, s.magic_penetration_flat@),
        ("magicPenetrationPercent"@, s.magic_penetration_percent@),
        ("magicResist"@, s.magic_resist@),
        ("maxHealth"@, s.max_health@),
        ("physicalLethality"@, s.physical_lethality@),
        ("resourceMax"@, s.resource_max@),
    ]
}

/// The snapshot with the named stat replaced; an unknown name changes
/// nothing.
pub open spec fn set_camel_s(s: GameChampionStats, key: Seq<char>, v: Fx) -> GameChampionStats {
    if key == "abilityPower"@ {
        GameChampionStats { ability_power: v, ..s }
    } else if key == "armor"@ {
        GameChampionStats { armor: v, ..s }
    } else if key == "armorPenetrationFlat"@ {
        GameChampionStats { armor_penetration_flat: v, ..s }
    } else if key == "armorPenetrationPercent"@ {
        GameChampionStats { armor_penetration_percent: v, ..s }
    } else if key == "attackDamage"@ {
        GameChampionStats { attack_damage: v, ..s }
    } else if key == "attackRange"@ {
        GameChampionStats { attack_range: v, ..s }
    } else if key == "critChance"@ {
        GameChampionStats { crit_chance: v, ..s }
    } else if key == "critDamage"@ {
        GameChampionStats { crit_damage: v, ..s }
    } else if key == "currentHealth"@ {
        GameChampionStats { current_health: v, ..s }
    } else if key == "magicPenetrationFlat"@ {
        GameChampionStats { magic_penetration_flat: v, ..s }
    } else if key == "magicPenetrationPercent"@ {
        GameChampionStats { magic_penetration_percent: v, ..s }
    } else if key == "magicResist"@ {
        GameChampionStats { magic_resist: v, ..s }
    } else if key == "maxHealth"@ {
        GameChampionStats { max_health: v, ..s }
    } else if key == "physicalLethality"@ {
        GameChampionStats { physical_lethality: v, ..s }
    } else if key == "resourceMax"@ {
        GameChampionStats { resource_max: v, ..s }
    } else {
        s
    }
}

/// The named stat of the snapshot; an unknown name has none.
pub open spec fn get_camel_s(s: GameChampionStats, key: Seq<char>) -> Option<Fx> {
    if key == "abilityPower"@ {
        Option::Some(s.ability_power)
    } else if key == "armor"@ {
        Option::Some(s.armor)
    } else if key == "armorPenetrationFlat"@ {
        Option::Some(s.armor_penetration_flat)
    } else if key == "armorPenetrationPercent"@ {
        Option::Some(s.armor_penetration_percent)
    } else if key == "attackDamage"@ {
        Option::Some(s.attack_damage)
    } else if key == "attackRange"@ {
        Option::Some(s.attack_range)
    } else if key == "critChance"@ {
        Option::Some(s.crit_chance)
    } else if key == "critDamage"@ {
        Option::Some(s.crit_damage)
    } else if key == "currentHealth"@ {
        Option::Some(s.current_health)
    } else if key == "magicPenetrationFlat"@ {
        Option::Some(s.magic_penetration_flat)
    } else if key == "magicPenetrationPercent"@ {
        Option::Some(s.magic_penetration_percent)
    } else if key == "magicResist"@ {
        Option::Some(s.magic_resist)
    } else if key == "maxHealth"@ {
        Option::Some(s.max_health)
    } else if key == "physicalLethality"@ {
        Option::Some(s.physical_lethality)
    } else if key == "resourceMax"@ {
        Option::Some(s.resource_max)
    } else {
        Option::None
    }
}

/// The snapshot after folding the first `i` entries in with
/// [`set_camel_s`], starting from all-zero stats.
pub open spec fn from_camel_upto(entries: Seq<(String, Fx)>, i: int) -> GameChampionStats
    decreases i,
{
    if i <= 0 {
        zero_champion_stats()
    } else {
        set_camel_s(from_camel_upto(entries, i - 1), entries[i - 1].0@, entries[i - 1].1)
    }
}

/// All-zero stats.
pub open spec fn zero_champion_stats() -> GameChampionStats {
    GameChampionStats {
        ability_power: Fx { v: 0 },
        armor: Fx { v: 0 },
        armor_penetration_flat: Fx { v: 0 },
        armor_penetration_percent: Fx { v: 0 },
        attack_damage: Fx { v: 0 },
        attack_range: Fx { v: 0 },
        crit_chance: Fx { v: 0 },
        crit_damage: Fx { v: 0 },
        current_health: Fx { v: 0 },
        magic_penetration_flat: Fx { v: 0 },
        magic_penetration_percent: Fx { v: 0 },
        magic_resist: Fx { v: 0 },
        max_health: Fx { v: 0 },
        physical_lethality: Fx { v: 0 },
        resource_max: Fx { v: 0 },
    }
}

impl Default for GameChampionStats {
    fn default() -> (r: GameChampionStats)
        ensures
            r == zero_champion_stats(),
    {
        GameChampionStats {
            ability_power: Fx { v: 0 },
            armor: Fx { v: 0 },
            armor_penetration_flat: Fx { v: 0 },
            armor_penetration_percent: Fx { v: 0 },
            attack_damage: Fx { v: 0 },
            attack_range: Fx { v: 0 },
            crit_chance: Fx { v: 0 },
            crit_damage: Fx { v: 0 },
            current_health: Fx { v: 0 },
            magic_penetration_flat: Fx { v: 0 },
            magic_penetration_percent: Fx { v: 0 },
            magic_resist: Fx { v: 0 },
            max_health: Fx { v: 0 },
            physical_lethality: Fx { v: 0 },
            resource_max: Fx { v: 0 },
        }
    }
}

impl GameChampionStats {
    /// Replace the named stat; an unknown name changes nothing.
    pub fn set_camel(&self, key: &String, v: Fx) -> (r: GameChampionStats)
        ensures
            r == set_camel_s(*self, key@, v),
    {
        let mut r = *self;
        if crate::text::eq_lit(key, "abilityPower") {
            r.ability_power = v;
        } else if crate::text::eq_lit(key, "armor") {
            r.armor = v;
        } else if crate::text::eq_lit(key, "armorPenetrationFlat") {
            r.armor_penetration_flat = v;
        } else if crate::text::eq_lit(key, "armorPenetrationPercent") {
            r.armor_penetration_percent = v;
        } else if crate::text::eq_lit(key, "attackDamage") {
            r.attack_damage = v;
        } else if crate::text::eq_lit(key, "attackRange") {
            r.attack_range = v;
        } else if crate::text::eq_lit(key, "critChance") {
            r.crit_chance = v;
        } else if crate::text::eq_lit(key, "critDamage") {
            r.crit_damage = v;
        } else if crate::text::eq_lit(key, "currentHealth") {
            r.current_health = v;
        } else if crate::text::eq_lit(key, "magicPenetrationFlat") {
            r.magic_penetration_flat = v;
        } else if crate::text::eq_lit(key, "magicPenetrationPercent") {
            r.magic_penetration_percent = v;
        } else if crate::text::eq_lit(key, "magicResist") {
            r.magic_resist = v;
        } else if crate::text::eq_lit(key, "maxHealth") {
            r.max_health = v;
        } else if crate::text::eq_lit(key, "physicalLethality") {
            r.physical_lethality = v;
        } else if crate::text::eq_lit(key, "resourceMax") {
            r.resource_max = v;
        }
        r
    }

    /// Read the named stat; an unknown name has none.
    pub fn get_camel(&self, key: &String) -> (r: Option<Fx>)
        ensures
            r == get_camel_s(*self, key@),
    {
        if crate::text::eq_lit(key, "abilityPower") {
            Option::Some(self.ability_power)
        } else if crate::text::eq_lit(key, "armor") {
            Option::Some(self.armor)
        } else if crate::text::eq_lit(key, "armorPenetrationFlat") {
            Option::Some(self.armor_penetration_flat)
        } else if crate::text::eq_lit(key, "armorPenetrationPercent") {
            Option::Some(self.armor_penetration_percent)
        } else if crate::text::eq_lit(key, "attackDamage") {
            Option::Some(self.attack_damage)
        } else if crate::text::eq_lit(key, "attackRange") {
            Option::Some(self.attack_range)
        } else if crate::text::eq_lit(key, "critChance") {
            Option::Some(self.crit_chance)
        } else if crate::text::eq_lit(key, "critDamage") {
            Option::Some(self.crit_damage)
        } else if crate::text::eq_lit(key, "currentHealth") {
            Option::Some(self.current_health)
        } else if crate::text::eq_lit(key, "magicPenetrationFlat") {
            Option::Some(self.magic_penetration_flat)
        } else if crate::text::eq_lit(key, "magicPenetrationPercent") {
            Option::Some(self.magic_penetration_percent)
        } else if crate::text::eq_lit(key, "magicResist") {
            Option::Some(self.magic_resist)
        } else if crate::text::eq_lit(key, "maxHealth") {
            Option::Some(self.max_health)
        } else if crate::text::eq_lit(key, "physicalLethality") {
            Option::Some(self.physical_lethality)
        } else if crate::text::eq_lit(key, "resourceMax") {
            Option::Some(self.resource_max)
        } else {
            Option::None
        }
    }

    /// The snapshot as camelCase name–value pairs, in field order.
    #[verifier::rlimit(30)]
    pub fn into_hashmap_camel(&self) -> (r: Vec<(String, Fx)>)
        ensures
            crate::eval::reps_view(r@) == camel_pairs_s(*self),
    {
        let mut r: Vec<(String, Fx)> = Vec::new();
        r.push(("abilityPower".to_owned(), self.ability_power));
        r.push(("armor".to_owned(), self.armor));
        r.push(("armorPenetrationFlat".to_owned(), self.armor_penetration_flat));
        r.push(("armorPenetrationPercent".to_owned(), self.armor_penetration_percent));
        r.push(("attackDamage".to_owned(), self.attack_damage));
        r.push(("attackRange".to_owned(), self.attack_range));
        r.push(("critChance".to_owned(), self.crit_chance));
        r.push(("critDamage".to_owned(), self.crit_damage));
        r.push(("currentHealth".to_owned(), self.current_health));
        r.push(("magicPenetrationFlat".to_owned(), self.magic_penetration_flat));
        r.push(("magicPenetrationPercent".to_owned(), self.magic_penetration_percent));
        r.push(("magicResist".to_owned(), self.magic_resist));
        r.push(("maxHealth".to_owned(), self.max_health));
        r.push(("physicalLethality".to_owned(), self.physical_lethality));
        r.push(("resourceMax".to_owned(), self.resource_max));
        proof {
            assert(crate::eval::reps_view(r@) =~= camel_pairs_s(*self));
        }
        r
    }

    /// A snapshot built from camelCase name–value pairs, starting from
    /// all-zero stats; later pairs override earlier ones, and unknown
    /// names are ignored.
    pub fn from_hashmap_camel(map: Vec<(String, Fx)>) -> (r: GameChampionStats)
        ensures
            r == from_camel_upto(map@, map@.len() as int),
    {
        let mut stats = GameChampionStats::default();
        let mut i: usize = 0;
        while i < map.len()
            invariant
                i <= map@.len(),
                stats == from_camel_upto(map@, i as int),
            decreases map@.len() - i,
        {
            stats = stats.set_camel(&map[i].0, map[i].1);
            i = i + 1;
        }
        stats
    }
}

/// The bonus split of the active player: live snapshot minus grown
/// base, with ability power taken wholly as bonus.
pub open spec fn champ_bonus_s(cur: GameChampionStats, base: GameCoreStats) -> GameCoreStats {
    GameCoreStats {
        max_health: Fx { v: fx_sub_s(cur.max_health@, base.max_health@) as i64 },
        armor: Fx { v: fx_sub_s(cur.armor@, base.armor@) as i64 },
        magic_resist: Fx { v: fx_sub_s(cur.magic_resist@, base.magic_resist@) as i64 },
        attack_damage: Fx { v: fx_sub_s(cur.attack_damage@, base.attack_damage@) as i64 },
        resource_max: Fx { v: fx_sub_s(cur.resource_max@, base.resource_max@) as i64 },
        ability_power: cur.ability_power,
    }
}

impl GameChampionStats {
    /// The live snapshot minus the grown base; ability power is all
    /// bonus.
    pub fn bonus_stats(&self, current: GameCoreStats) -> (r: GameCoreStats)
        ensures
            r == champ_bonus_s(*self, current),
    {
        GameCoreStats {
            max_health: fx_sub(self.max_health, current.max_health),
            armor: fx_sub(self.armor, current.armor),
            magic_resist: fx_sub(self.magic_resist, current.magic_resist),
            attack_damage: fx_sub(self.attack_damage, current.attack_damage),
            resource_max: fx_sub(self.resource_max, current.resource_max),
            ability_power: self.ability_power,
        }
    }
}

} // verus!
