//! Which Pokémon a member owns.

use vstd::prelude::*;

use super::pokemon_info::PokemonType;

verus! {

/// How many of one Pokémon, in one look, a member owns.
pub struct PokemonOwnershipRecord {
    pub discord_id: String,
    pub pokemon_slug: String,
    pub number_owned: i64,
    pub pokemon_type: PokemonType,
}

/// What identifies an ownership record: the member, the Pokémon and its
/// look.
pub struct PokemonOwnershipRecordPK {
    pub discord_id: String,
    pub pokemon_slug: String,
    pub pokemon_type: PokemonType,
}

} // verus!
