//! Riot reference descriptors: champions and shop items as the data
//! files describe them, with every numeric field held as a fixed-point
//! [`Fx`].  Keyed collections are association vectors; lookup is by
//! first match.

use crate::fx::Fx;
use vstd::prelude::*;

verus! {

#[derive(Clone, Debug)]
pub struct RiotChampionImage {
    pub full: String,
}

/// Per-champion growth coefficients.
#[derive(Clone, Copy, Debug)]
pub struct RiotChampionStats {
    pub hp: Fx,
    pub hpperlevel: Fx,
    pub mp: Fx,
    pub mpperlevel: Fx,
    pub armor: Fx,
    pub armorperlevel: Fx,
    pub spellblock: Fx,
    pub spellblockperlevel: Fx,
    pub attackrange: Fx,
    pub attackdamage: Fx,
    pub attackdamageperlevel: Fx,
    pub attackspeedperlevel: Fx,
    pub attackspeed: Fx,
}

#[derive(Clone, Debug)]
pub struct RiotChampionPassive {
    pub name: String,
    pub description: String,
    pub image: RiotChampionImage,
}

#[derive(Clone, Debug)]
pub struct RiotChampionSpell {
    pub id: String,
    pub name: String,
    pub description: String,
    pub cooldown: Vec<Fx>,
    pub image: RiotChampionImage,
}

#[derive(Clone, Copy, Debug)]
pub struct RiotChampionSkin {
    pub num: u8,
}

#[derive(Clone, Debug)]
pub struct RiotChampionData {
    pub id: String,
    pub name: String,
    pub image: RiotChampionImage,
    pub skins: Vec<RiotChampionSkin>,
    pub stats: RiotChampionStats,
    pub spells: Vec<RiotChampionSpell>,
    pub passive: RiotChampionPassive,
}

/// A champion descriptor file: internal id to champion data.
#[derive(Clone, Debug)]
pub struct RiotChampion {
    pub data: Vec<(String, RiotChampionData)>,
}

#[derive(Clone, Copy, Debug, Default)]
pub struct RiotItemGold {
    pub base: i32,
    pub total: i32,
    pub sell: i32,
    pub purchasable: bool,
}

#[derive(Clone, Debug)]
pub struct RiotItem {
    pub name: Option<String>,
    pub gold: Option<RiotItemGold>,
    pub description: Option<String>,
    pub stats: Vec<(String, Fx)>,
    pub maps: Option<Vec<(String, bool)>>,
    pub effect: Option<Vec<(String, String)>>,
    pub from: Option<Vec<String>>,
}

/// The full item descriptor file: item id to descriptor.
#[derive(Clone, Debug)]
pub struct RiotItems {
    pub data: Vec<(u64, RiotItem)>,
}

} // verus!
