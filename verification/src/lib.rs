//! Authoritative game rules of the Ascendia Online server: combat resolution,
//! drops, progression, economy checks and the text handling of user input.

pub mod error;
pub mod text;
pub mod progression;
pub mod drops;
pub mod engine;
pub mod waves;
pub mod stage_run;
pub mod auth;
pub mod totp;
pub mod credentials;
pub mod social;
pub mod player;
pub mod squad;
pub mod inventory;
pub mod cosmetics;
pub mod offline;
pub mod vip;
pub mod ranking;
pub mod arena;
pub mod battle_pass;
pub mod activities;
pub mod market;
pub mod guild;
pub mod bosses;
pub mod stage;
pub mod limits;
pub mod replay;
pub mod config;
