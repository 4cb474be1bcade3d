//! The verified core of a Discord bot that keeps a social-credit score for
//! every member of a server, shows leaderboards, and lets members catch a
//! random Pokémon every few hours.

pub mod db;
pub mod handler;
pub mod logger;
pub mod models;
pub mod random;
pub mod social_credit;
pub mod text;
pub mod util;
