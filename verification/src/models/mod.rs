//! The bot's data: leaderboards and Pokémon.

pub mod leaderboard;
pub mod pokemon;
