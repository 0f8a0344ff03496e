//! The engine's own catalogs: per-item and per-rune damage formulas,
//! per-champion ability packs and the tool (candidate item) listing.
//! Formulas are kept as the authored text; they are evaluated by
//! [`crate::expr`] after binding substitution.

use crate::fx::Fx;
use vstd::prelude::*;

verus! {

/// One formula per attack form.
#[derive(Clone, Debug)]
pub struct LocalItemForm {
    pub melee: String,
    pub ranged: String,
}

#[derive(Clone, Debug)]
pub struct DamageRange {
    pub min: LocalItemForm,
    pub max: Option<LocalItemForm>,
}

#[derive(Clone, Debug)]
pub struct LocalItemData {
    pub name: String,
    pub item_type: String,
    pub min: LocalItemForm,
    pub max: Option<LocalItemForm>,
    pub onhit: bool,
    pub effect: Option<Vec<Fx>>,
    pub damage: Option<DamageRange>,
}

/// The item formula catalog, keyed by item id.
#[derive(Clone, Debug)]
pub struct LocalItems {
    pub data: Vec<(u64, LocalItemData)>,
}

#[derive(Clone, Debug)]
pub struct LocalRuneForm {
    pub melee: String,
    pub ranged: String,
}

#[derive(Clone, Debug)]
pub struct LocalRuneData {
    pub name: String,
    pub rune_type: String,
    pub min: LocalRuneForm,
    pub max: Option<LocalRuneForm>,
}

/// The rune formula catalog, keyed by rune id.
#[derive(Clone, Debug)]
pub struct LocalRunes {
    pub data: Vec<(u64, LocalRuneData)>,
}

/// One ability slot of a champion: its damage type and one formula per
/// learned rank.
#[derive(Clone, Debug)]
pub struct LocalChampionAbility {
    pub ability_type: String,
    pub area: Option<bool>,
    pub min: Vec<String>,
    pub max: Option<Vec<String>>,
}

/// A champion's ability pack: slot key (`Q`, `W`, `E`, `R`, `P`) to
/// ability.
pub type LocalChampion = Vec<(String, LocalChampionAbility)>;

/// A tool stat modifier as the catalog stores it: a plain number is
/// added to the stat; text (a percentage) has its numeric content
/// subtracted.
#[derive(Clone, Debug)]
pub enum ModifierValue {
    Number(Fx),
    Text(String),
}

#[derive(Clone, Debug)]
pub struct LocalStatsHashMap {
    pub raw: Vec<(String, Fx)>,
    pub modifiers: Vec<(String, ModifierValue)>,
}

#[derive(Clone, Copy, Debug)]
pub struct LocalStatsGold {
    pub base: u32,
    pub purchasable: bool,
    pub total: u32,
    pub sell: u32,
}

#[derive(Clone, Debug)]
pub struct LocalStatsStruct {
    pub name: String,
    pub stats: LocalStatsHashMap,
    pub stack: bool,
    pub gold: LocalStatsGold,
    pub maps: Vec<(String, bool)>,
}

/// The tool catalog, keyed by tool id.
pub type LocalStats = Vec<(u64, LocalStatsStruct)>;

} // verus!
