//! A damage-evaluation engine for MOBA-style live-game snapshots.
//!
//! Given a frozen game state (the active player, the full roster, runes,
//! items and summoner spells) and a candidate shop item, the library
//! computes, for every opposing player, the damage each of the active
//! player's abilities, items, runes and summoner spells would inflict,
//! and how those numbers would change if the active player bought the
//! candidate item.
//!
//! All quantities are fixed-point numbers ([`fx::Fx`]); every public
//! function carries a contract that pins its result down to the exact
//! fixed-point value.  [`service::calculate`] is the per-request entry
//! point; [`laws`] collects the cross-cutting guarantees.

pub mod fx;
pub mod text;
pub mod tool;
pub mod eval;
pub mod expr;
pub mod game;
pub mod laws;
pub mod local;
pub mod riot;
pub mod damage;
pub mod routes;
pub mod service;
pub mod store;
pub mod table;
pub mod target;

