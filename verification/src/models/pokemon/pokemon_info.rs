//! What the bot knows of a Pokémon, and how it names and pictures one.

use vstd::prelude::*;
use vstd::seq_lib::lemma_concat_associative;
use vstd::string::*;

use crate::text::{
    int_text, is_digit, lemma_int_text_reads_back, lemma_nat_text_nonempty,
    lemma_nat_text_reads_back, lemma_numbers_join, lemma_numbers_none, lemma_six_lines, nat_text,
    numbers, push_char, push_int, push_nat, same_text, shows_line,
};

verus! {

// POKEMON TYPE
/// How a caught Pokémon looks: plain, shiny, or in its April Fools sprite.
#[derive(Clone, Copy, Debug, PartialEq, Eq, Structural)]
pub enum PokemonType {
    Normal,
    Shiny,
    AprilFools,
}

/// The type that a stored name stands for: the variant's own name.
pub open spec fn type_named(s: Seq<char>) -> Option<PokemonType> {
    if s == "Normal"@ {
        Some(PokemonType::Normal)
    } else if s == "Shiny"@ {
        Some(PokemonType::Shiny)
    } else if s == "AprilFools"@ {
        Some(PokemonType::AprilFools)
    } else {
        None
    }
}

/// The path of a sprite below Showdown's sprite directory. Plain and shiny
/// Pokémon use the animated sprite when there is one and the static Pokémon
/// HOME render otherwise; April Fools sprites are always static.
pub open spec fn sprite_path(kind: PokemonType, link_name: Seq<char>, animated: bool) -> Seq<char> {
    match kind {
        PokemonType::Normal => if animated {
            "ani/"@ + link_name + ".gif"@
        } else {
            "home-centered/"@ + link_name + ".png"@
        },
        PokemonType::AprilFools => "afd/"@ + link_name + ".png"@,
        PokemonType::Shiny => if animated {
            "ani-shiny/"@ + link_name + ".gif"@
        } else {
            "home-centered-shiny/"@ + link_name + ".png"@
        },
    }
}

/// The full address of a sprite on Pokémon Showdown.
pub open spec fn sprite_url(kind: PokemonType, link_name: Seq<char>, animated: bool) -> Seq<char> {
    "https://play.pokemonshowdown.com/sprites/"@ + sprite_path(kind, link_name, animated)
}

/// The sentence that announces a catch.
pub open spec fn catch_text(kind: PokemonType, name: Seq<char>) -> Seq<char> {
    match kind {
        PokemonType::Normal => "you caught a **"@ + name + "**"@,
        PokemonType::AprilFools => "April Fools! You caught a **"@ + name + "**"@,
        PokemonType::Shiny => "you caught a shiny **"@ + name + "**"@,
    }
}

impl PokemonType {
    /// The type stored under a name, or `None` for a name that is not one
    /// of the variants' names (where reading the type from the database
    /// fails).
    pub fn from_name(value: &str) -> (r: Option<PokemonType>)
        ensures
            r == type_named(value@),
    {
        if same_text(value, "Normal") {
            Some(PokemonType::Normal)
        } else if same_text(value, "Shiny") {
            Some(PokemonType::Shiny)
        } else if same_text(value, "AprilFools") {
            Some(PokemonType::AprilFools)
        } else {
            None
        }
    }

    /*
        link generation logic in pokemon showdown code is in `getSpriteData` in `src/battle-dex.ts`, as of when this was written
    */
    /// The address of the sprite that shows `pokemon` in this look.
    pub fn get_link_for_type(&self, pokemon: &Pokemon) -> (r: String)
        ensures
            r@ == sprite_url(*self, pokemon.link_name(), pokemon.has_ani_sprite),
    {
        let pokemon_link_name = pokemon.generate_showdown_link_name();
        let mut url = String::new();
        url.append("https://play.pokemonshowdown.com/sprites/");
        match self {
            PokemonType::Normal => {
                if pokemon.has_ani_sprite {
                    url.append("ani/");
                    url.append(pokemon_link_name.as_str());
                    url.append(".gif");
                } else {
                    url.append("home-centered/");
                    url.append(pokemon_link_name.as_str());
                    url.append(".png");
                }
            },
            PokemonType::AprilFools => {
                url.append("afd/");
                url.append(pokemon_link_name.as_str());
                url.append(".png");
            },
            PokemonType::Shiny => {
                if pokemon.has_ani_sprite {
                    url.append("ani-shiny/");
                    url.append(pokemon_link_name.as_str());
                    url.append(".gif");
                } else {
                    url.append("home-centered-shiny/");
                    url.append(pokemon_link_name.as_str());
                    url.append(".png");
                }
            },
        }
        assert(url@ =~= sprite_url(*self, pokemon.link_name(), pokemon.has_ani_sprite));
        url
    }

    /// The sentence that announces catching `pokemon_name` in this look.
    pub fn get_display_text_for_type(&self, pokemon_name: String) -> (r: String)
        ensures
            r@ == catch_text(*self, pokemon_name@),
    {
        let mut text = String::new();
        match self {
            PokemonType::Normal => text.append("you caught a **"),
            PokemonType::AprilFools => text.append("April Fools! You caught a **"),
            PokemonType::Shiny => text.append("you caught a shiny **"),
        }
        text.append(pokemon_name.as_str());
        text.append("**");
        assert(text@ =~= catch_text(*self, pokemon_name@));
        text
    }
}

// POKEMON STATS
/// A Pokémon's base stats.
#[derive(Clone, Copy, Debug, PartialEq, Eq, Structural)]
pub struct PokemonStats {
    pub hp: u32,
    pub atk: u32,
    pub def: u32,
    pub spa: u32,
    pub spd: u32,
    pub spe: i32,
}

/// The stats as the catch message lists them, one per line.
pub open spec fn stats_text(s: PokemonStats) -> Seq<char> {
    nat_text(s.hp as nat) + " HP\n"@ + nat_text(s.atk as nat) + " Attack\n"@ + nat_text(
        s.def as nat,
    ) + " Defense\n"@ + nat_text(s.spa as nat) + " Special Attack\n"@ + nat_text(s.spd as nat)
        + " Special Defense\n"@ + int_text(s.spe as int) + " Speed"@
}

/// A label of the stats listing holds no digit, and neither starts nor ends
/// with one.
proof fn lemma_label_holds_no_number(t: Seq<char>)
    requires
        t.len() > 0,
        forall|i: int| 0 <= i < t.len() ==> !is_digit(#[trigger] t[i]),
    ensures
        numbers(t) == Seq::<int>::empty(),
        !is_digit(t[0]),
        !is_digit(t.last()),
{
    lemma_numbers_none(t);
}

/// Reading the numbers back out of the stats listing gives the stats in
/// the order HP, Attack, Defense, Special Attack, Special Defense, Speed
/// (the Speed by its magnitude: a minus sign is no digit).
pub proof fn lemma_stats_text_reads_back(s: PokemonStats)
    ensures
        numbers(stats_text(s)) == seq![
            s.hp as int,
            s.atk as int,
            s.def as int,
            s.spa as int,
            s.spd as int,
            if s.spe < 0 { -s.spe } else { s.spe as int },
        ],
{
    reveal_strlit(" HP\n");
    reveal_strlit(" Attack\n");
    reveal_strlit(" Defense\n");
    reveal_strlit(" Special Attack\n");
    reveal_strlit(" Special Defense\n");
    reveal_strlit(" Speed");
    let l1 = " HP\n"@;
    let l2 = " Attack\n"@;
    let l3 = " Defense\n"@;
    let l4 = " Special Attack\n"@;
    let l5 = " Special Defense\n"@;
    let l6 = " Speed"@;
    lemma_label_holds_no_number(l1);
    lemma_label_holds_no_number(l2);
    lemma_label_holds_no_number(l3);
    lemma_label_holds_no_number(l4);
    lemma_label_holds_no_number(l5);
    lemma_label_holds_no_number(l6);
    let a = nat_text(s.hp as nat);
    let b = nat_text(s.atk as nat);
    let c = nat_text(s.def as nat);
    let d = nat_text(s.spa as nat);
    let e = nat_text(s.spd as nat);
    let f = int_text(s.spe as int);
    lemma_nat_text_reads_back(s.hp as nat);
    lemma_nat_text_reads_back(s.atk as nat);
    lemma_nat_text_reads_back(s.def as nat);
    lemma_nat_text_reads_back(s.spa as nat);
    lemma_nat_text_reads_back(s.spd as nat);
    lemma_int_text_reads_back(s.spe as int);
    lemma_nat_text_nonempty(s.hp as nat);
    lemma_nat_text_nonempty(s.atk as nat);
    lemma_nat_text_nonempty(s.def as nat);
    lemma_nat_text_nonempty(s.spa as nat);
    lemma_nat_text_nonempty(s.spd as nat);
    lemma_numbers_join(a, l1);
    lemma_numbers_join(a + l1, b);
    lemma_numbers_join(a + l1 + b, l2);
    lemma_numbers_join(a + l1 + b + l2, c);
    lemma_numbers_join(a + l1 + b + l2 + c, l3);
    lemma_numbers_join(a + l1 + b + l2 + c + l3, d);
    lemma_numbers_join(a + l1 + b + l2 + c + l3 + d, l4);
    lemma_numbers_join(a + l1 + b + l2 + c + l3 + d + l4, e);
    lemma_numbers_join(a + l1 + b + l2 + c + l3 + d + l4 + e, l5);
    lemma_numbers_join(a + l1 + b + l2 + c + l3 + d + l4 + e + l5, f);
    lemma_numbers_join(a + l1 + b + l2 + c + l3 + d + l4 + e + l5 + f, l6);
    assert(numbers(stats_text(s)) =~= seq![
        s.hp as int,
        s.atk as int,
        s.def as int,
        s.spa as int,
        s.spd as int,
        if s.spe < 0 { -s.spe } else { s.spe as int },
    ]);
}

/// Each stat stands on a line of its own, its number followed by its own
/// label: "<hp> HP", "<atk> Attack", "<def> Defense", "<spa> Special
/// Attack", "<spd> Special Defense" and "<spe> Speed".
pub proof fn lemma_stats_text_lines(s: PokemonStats)
    ensures
        shows_line(stats_text(s), nat_text(s.hp as nat) + " HP"@),
        shows_line(stats_text(s), nat_text(s.atk as nat) + " Attack"@),
        shows_line(stats_text(s), nat_text(s.def as nat) + " Defense"@),
        shows_line(stats_text(s), nat_text(s.spa as nat) + " Special Attack"@),
        shows_line(stats_text(s), nat_text(s.spd as nat) + " Special Defense"@),
        shows_line(stats_text(s), int_text(s.spe as int) + " Speed"@),
{
    reveal_strlit(" HP\n");
    reveal_strlit(" Attack\n");
    reveal_strlit(" Defense\n");
    reveal_strlit(" Special Attack\n");
    reveal_strlit(" Special Defense\n");
    reveal_strlit(" HP");
    reveal_strlit(" Attack");
    reveal_strlit(" Defense");
    reveal_strlit(" Special Attack");
    reveal_strlit(" Special Defense");
    let nl = seq!['\n'];
    let na = nat_text(s.hp as nat);
    let nb = nat_text(s.atk as nat);
    let nc = nat_text(s.def as nat);
    let nd = nat_text(s.spa as nat);
    let ne = nat_text(s.spd as nat);
    let h1 = " HP"@;
    let h2 = " Attack"@;
    let h3 = " Defense"@;
    let h4 = " Special Attack"@;
    let h5 = " Special Defense"@;
    assert(" HP\n"@ =~= h1 + nl);
    assert(" Attack\n"@ =~= h2 + nl);
    assert(" Defense\n"@ =~= h3 + nl);
    assert(" Special Attack\n"@ =~= h4 + nl);
    assert(" Special Defense\n"@ =~= h5 + nl);
    let a = na + h1;
    let b = nb + h2;
    let c = nc + h3;
    let d = nd + h4;
    let e = ne + h5;
    let f = int_text(s.spe as int) + " Speed"@;
    // Each label's line break closes the line that its number opened.
    lemma_concat_associative(na, h1, nl);
    let p1 = a + nl;
    lemma_concat_associative(p1 + nb, h2, nl);
    lemma_concat_associative(p1, nb, h2);
    let p2 = p1 + b + nl;
    lemma_concat_associative(p2 + nc, h3, nl);
    lemma_concat_associative(p2, nc, h3);
    let p3 = p2 + c + nl;
    lemma_concat_associative(p3 + nd, h4, nl);
    lemma_concat_associative(p3, nd, h4);
    let p4 = p3 + d + nl;
    lemma_concat_associative(p4 + ne, h5, nl);
    lemma_concat_associative(p4, ne, h5);
    let p5 = p4 + e + nl;
    lemma_concat_associative(p5, int_text(s.spe as int), " Speed"@);
    assert(stats_text(s) == p5 + f);
    lemma_six_lines(a, b, c, d, e, f);
}

impl PokemonStats {
    /// The stats as the catch message lists them: "45 HP\n49 Attack\n..."
    /// through to "... Speed".
    pub fn to_display_string(&self) -> (r: String)
        ensures
            r@ == stats_text(*self),
    {
        let mut out = String::new();
        push_nat(&mut out, self.hp as u64);
        out.append(" HP\n");
        push_nat(&mut out, self.atk as u64);
        out.append(" Attack\n");
        push_nat(&mut out, self.def as u64);
        out.append(" Defense\n");
        push_nat(&mut out, self.spa as u64);
        out.append(" Special Attack\n");
        push_nat(&mut out, self.spd as u64);
        out.append(" Special Defense\n");
        push_int(&mut out, self.spe as i64);
        out.append(" Speed");
        assert(out@ =~= stats_text(*self));
        out
    }
}

impl Default for PokemonStats {
    fn default() -> (r: PokemonStats)
        ensures
            r == (PokemonStats { hp: 0, atk: 0, def: 0, spa: 0, spd: 0, spe: 0 }),
    {
        PokemonStats { hp: 0, atk: 0, def: 0, spa: 0, spd: 0, spe: 0 }
    }
}

// POKEMON RARITY
/// How rare a Pokémon is; it decides the colour of the catch message.
#[derive(Clone, Copy, Debug, PartialEq, Eq, Structural)]
pub enum PokemonRarity {
    Normal,
    Legendary,
    Mythical,
}

/// The rarity stored under a name in the database.
pub open spec fn rarity_stored_as(s: Seq<char>) -> Option<PokemonRarity> {
    if s == "normal"@ {
        Some(PokemonRarity::Normal)
    } else if s == "legendary"@ {
        Some(PokemonRarity::Legendary)
    } else if s == "mythical"@ {
        Some(PokemonRarity::Mythical)
    } else {
        None
    }
}

/// The rarity written under a name in the Pokédex file. Note "mythic",
/// where the database writes "mythical".
pub open spec fn rarity_written_as(s: Seq<char>) -> Option<PokemonRarity> {
    if s == "normal"@ {
        Some(PokemonRarity::Normal)
    } else if s == "legendary"@ {
        Some(PokemonRarity::Legendary)
    } else if s == "mythic"@ {
        Some(PokemonRarity::Mythical)
    } else {
        None
    }
}

/// The RGB value of the catch message's colour: serenity's `LIGHT_GREY`
/// (0x979C9F), `GOLD` (0xF1C40F) and `BLITZ_BLUE` (0x6FC6E2).
pub open spec fn rarity_colour(r: PokemonRarity) -> u32 {
    match r {
        PokemonRarity::Normal => 0x979C9F,
        PokemonRarity::Legendary => 0xF1C40F,
        PokemonRarity::Mythical => 0x6FC6E2,
    }
}

impl PokemonRarity {
    /// The RGB value of the colour that a catch of this rarity is shown in.
    pub fn get_color_for_embed(&self) -> (r: u32)
        ensures
            r == rarity_colour(*self),
    {
        match self {
            PokemonRarity::Normal => 0x979C9F,
            PokemonRarity::Legendary => 0xF1C40F,
            PokemonRarity::Mythical => 0x6FC6E2,
        }
    }

    /// The rarity stored in the database under `value`, or `None` where
    /// reading it fails.
    pub fn from_stored_name(value: &str) -> (r: Option<PokemonRarity>)
        ensures
            r == rarity_stored_as(value@),
    {
        if same_text(value, "normal") {
            Some(PokemonRarity::Normal)
        } else if same_text(value, "legendary") {
            Some(PokemonRarity::Legendary)
        } else if same_text(value, "mythical") {
            Some(PokemonRarity::Mythical)
        } else {
            None
        }
    }

    /// The rarity written in the Pokédex file as `s`, or the message that
    /// names the value it could not read.
    pub fn parse_rarity(s: &str) -> (r: Result<PokemonRarity, String>)
        ensures
            r matches Ok(x) ==> rarity_written_as(s@) == Some(x),
            r matches Err(e) ==> rarity_written_as(s@) is None && e@
                == "Got an invalid value while parsing a PokemonRarity: "@ + s@,
            r is Ok <==> rarity_written_as(s@) is Some,
    {
        if same_text(s, "normal") {
            Ok(PokemonRarity::Normal)
        } else if same_text(s, "legendary") {
            Ok(PokemonRarity::Legendary)
        } else if same_text(s, "mythic") {
            Ok(PokemonRarity::Mythical)
        } else {
            let mut e = String::new();
            e.append("Got an invalid value while parsing a PokemonRarity: ");
            e.append(s);
            Err(e)
        }
    }
}

impl Default for PokemonRarity {
    fn default() -> (r: PokemonRarity)
        ensures
            r == PokemonRarity::Normal,
    {
        PokemonRarity::Normal
    }
}

impl std::str::FromStr for PokemonRarity {
    type Err = String;

    /// The rarity written in the Pokédex file as `s` ("normal", "legendary"
    /// or "mythic"), or the message that names the value it could not read.
    fn from_str(s: &str) -> (r: Result<PokemonRarity, String>)
        ensures
            r is Ok <==> rarity_written_as(s@) is Some,
            r matches Ok(x) ==> rarity_written_as(s@) == Some(x),
            r matches Err(e) ==> e@ == "Got an invalid value while parsing a PokemonRarity: "@ + s@,
    {
        PokemonRarity::parse_rarity(s)
    }
}

// POKEMON
/// A Pokémon as the Pokédex describes it. `height_bits` and `weight_bits`
/// hold the IEEE 754 bit patterns of its height in metres and weight in
/// kilograms; nothing here computes with them.
pub struct Pokemon {
    pub name: String,
    pub slug: String,
    pub rarity: PokemonRarity,
    pub num: i64,  // Pokedex entry can be negative on Showdown data for custom pokemon
    pub max_hp: i64,
    pub gender: Option<String>,
    pub height_bits: u64,
    pub weight_bits: u64,
    pub color: String,
    pub gigantamax: String,
    pub cannot_dynamax: bool,
    pub base_form: String,
    pub base_species: String,
    pub base_stats: PokemonStats,
    pub changes_from: String,
    pub cosmetic_forms: Vec<String>,
    pub other_forms: Vec<String>,
    pub is_cosmetic_form: bool,
    pub form_order: Vec<String>,
    pub form: String,
    pub evolution_condition: Option<String>,
    pub evolution_item: Option<String>,
    pub evolution_level: Option<i64>,
    pub evolution_move: Option<String>,
    pub evolution_region: Option<String>,
    pub evolution_type: Option<String>,
    pub evolutions: Option<Vec<String>>,
    pub previous_evolution: Option<String>,
    pub types: Vec<String>,
    pub has_ani_sprite: bool,
}

/// Whether a Pokédex entry that does not say so has an animated sprite:
/// it does.
pub fn has_ani_sprite_default() -> (r: bool)
    ensures
        r,
{
    true
}

/// The characters that Showdown keeps in a sprite id: ASCII letters and
/// digits.
pub open spec fn is_id_char(c: char) -> bool {
    let v = c as u32;
    (0x30 <= v <= 0x39) || (0x41 <= v <= 0x5A) || (0x61 <= v <= 0x7A)
}

/// ASCII lowercase of a character (`char::to_ascii_lowercase`).
pub open spec fn ascii_lower(c: char) -> char {
    let v = c as u32;
    if 0x41 <= v <= 0x5A {
        (v + 32) as char
    } else {
        c
    }
}

/// Showdown's id of a name: its ASCII letters and digits, in order, in
/// lowercase; everything else is dropped.
pub open spec fn to_id(s: Seq<char>) -> Seq<char>
    decreases s.len(),
{
    if s.len() == 0 {
        Seq::empty()
    } else if is_id_char(s.last()) {
        to_id(s.drop_last()).push(ascii_lower(s.last()))
    } else {
        to_id(s.drop_last())
    }
}

/// The name of a Pokémon's sprite on Showdown: the id of its base species
/// (or of its name, when it has no base species), then for a form a `-`
/// and the id of the form; Ash-Greninja and Dusk Rockruff use the sprites
/// of their base species.
pub open spec fn showdown_link_name(base_species: Seq<char>, name: Seq<char>, form: Seq<char>) -> Seq<
    char,
> {
    let id = if base_species.len() > 0 {
        to_id(base_species) + "-"@ + to_id(form)
    } else {
        to_id(name)
    };
    if id == "greninja-bond"@ {
        "greninja"@
    } else if id == "rockruff-dusk"@ {
        "rockruff"@
    } else {
        id
    }
}

/// The characters a sprite name can hold: lowercase ASCII letters,
/// digits, and the dash before a form.
pub open spec fn is_link_char(c: char) -> bool {
    let v = c as u32;
    (0x30 <= v <= 0x39) || (0x61 <= v <= 0x7A) || v == 0x2D
}

/// An id holds only lowercase ASCII letters and digits.
pub proof fn lemma_to_id_chars(s: Seq<char>)
    ensures
        forall|k: int|
            0 <= k < to_id(s).len() ==> is_link_char(#[trigger] to_id(s)[k]) && to_id(s)[k] != '-',
    decreases s.len(),
{
    if s.len() > 0 {
        lemma_to_id_chars(s.drop_last());
        if is_id_char(s.last()) {
            let c = ascii_lower(s.last());
            let v = s.last() as u32;
            if 0x41 <= v <= 0x5A {
                assert((c as u32) == v + 32);
            }
            assert(is_link_char(c) && c != '-');
            assert forall|k: int| 0 <= k < to_id(s).len() implies is_link_char(
                #[trigger] to_id(s)[k],
            ) && to_id(s)[k] != '-' by {
                if k < to_id(s).len() - 1 {
                    assert(to_id(s)[k] == to_id(s.drop_last())[k]);
                }
            }
        }
    }
}

/// A sprite name, and so a sprite's address, holds only lowercase ASCII
/// letters, digits and dashes.
pub proof fn lemma_link_name_chars(base_species: Seq<char>, name: Seq<char>, form: Seq<char>)
    ensures
        forall|k: int|
            0 <= k < showdown_link_name(base_species, name, form).len() ==> is_link_char(
                #[trigger] showdown_link_name(base_species, name, form)[k],
            ),
{
    reveal_strlit("-");
    reveal_strlit("greninja");
    reveal_strlit("rockruff");
    lemma_to_id_chars(base_species);
    lemma_to_id_chars(name);
    lemma_to_id_chars(form);
    let r = showdown_link_name(base_species, name, form);
    if base_species.len() > 0 {
        let a = to_id(base_species);
        let id = a + "-"@ + to_id(form);
        assert forall|k: int| 0 <= k < id.len() implies is_link_char(#[trigger] id[k]) by {
            if k < a.len() {
                assert(id[k] == a[k]);
            } else if k == a.len() {
                assert(id[k] == '-');
            } else {
                assert(id[k] == to_id(form)[k - a.len() - 1]);
            }
        }
    }
    assert forall|k: int| 0 <= k < r.len() implies is_link_char(#[trigger] r[k]) by {
    }
}

/// Showdown's id of a text.
pub fn showdown_id(s: &str) -> (r: String)
    ensures
        r@ == to_id(s@),
{
    let n = s.unicode_len();
    let mut out = String::new();
    let mut i: usize = 0;
    while i < n
        invariant
            n == s@.len(),
            i <= n,
            out@ == to_id(s@.take(i as int)),
        decreases n - i,
    {
        let c = s.get_char(i);
        let v = c as u32;
        assert(s@.take(i + 1).drop_last() =~= s@.take(i as int));
        assert(s@.take(i + 1).last() == c);
        if 0x30 <= v && v <= 0x39 || 0x61 <= v && v <= 0x7A {
            push_char(&mut out, c);
        } else if 0x41 <= v && v <= 0x5A {
            let lower = ((v + 32) as u8) as char;
            assert(lower == ascii_lower(c));
            push_char(&mut out, lower);
        }
        i = i + 1;
    }
    assert(s@.take(n as int) =~= s@);
    out
}

/// Whether two lists of texts hold the same texts in the same order.
pub open spec fn same_list(a: Option<Vec<String>>, b: Option<Vec<String>>) -> bool {
    match (a, b) {
        (Some(x), Some(y)) => x@ == y@,
        (None, None) => true,
        _ => false,
    }
}

impl Pokemon {
    /// Whether two descriptions say the same of a Pokémon, field by field.
    pub open spec fn same_as(&self, other: &Pokemon) -> bool {
        &&& self.name == other.name
        &&& self.slug == other.slug
        &&& self.rarity == other.rarity
        &&& self.num == other.num
        &&& self.max_hp == other.max_hp
        &&& self.gender == other.gender
        &&& self.height_bits == other.height_bits
        &&& self.weight_bits == other.weight_bits
        &&& self.color == other.color
        &&& self.gigantamax == other.gigantamax
        &&& self.cannot_dynamax == other.cannot_dynamax
        &&& self.base_form == other.base_form
        &&& self.base_species == other.base_species
        &&& self.base_stats == other.base_stats
        &&& self.changes_from == other.changes_from
        &&& self.cosmetic_forms@ == other.cosmetic_forms@
        &&& self.other_forms@ == other.other_forms@
        &&& self.is_cosmetic_form == other.is_cosmetic_form
        &&& self.form_order@ == other.form_order@
        &&& self.form == other.form
        &&& self.evolution_condition == other.evolution_condition
        &&& self.evolution_item == other.evolution_item
        &&& self.evolution_level == other.evolution_level
        &&& self.evolution_move == other.evolution_move
        &&& self.evolution_region == other.evolution_region
        &&& self.evolution_type == other.evolution_type
        &&& same_list(self.evolutions, other.evolutions)
        &&& self.previous_evolution == other.previous_evolution
        &&& self.types@ == other.types@
        &&& self.has_ani_sprite == other.has_ani_sprite
    }

    /// A description with nothing in it: empty texts and lists, no optional
    /// values, zeros, `false`, and the normal rarity.
    pub open spec fn is_blank(&self) -> bool {
        &&& self.name@ == Seq::<char>::empty()
        &&& self.slug@ == Seq::<char>::empty()
        &&& self.rarity == PokemonRarity::Normal
        &&& self.num == 0
        &&& self.max_hp == 0
        &&& self.gender is None
        &&& self.height_bits == 0
        &&& self.weight_bits == 0
        &&& self.color@ == Seq::<char>::empty()
        &&& self.gigantamax@ == Seq::<char>::empty()
        &&& !self.cannot_dynamax
        &&& self.base_form@ == Seq::<char>::empty()
        &&& self.base_species@ == Seq::<char>::empty()
        &&& self.base_stats == PokemonStats { hp: 0, atk: 0, def: 0, spa: 0, spd: 0, spe: 0 }
        &&& self.changes_from@ == Seq::<char>::empty()
        &&& self.cosmetic_forms@ == Seq::<String>::empty()
        &&& self.other_forms@ == Seq::<String>::empty()
        &&& !self.is_cosmetic_form
        &&& self.form_order@ == Seq::<String>::empty()
        &&& self.form@ == Seq::<char>::empty()
        &&& self.evolution_condition is None
        &&& self.evolution_item is None
        &&& self.evolution_level is None
        &&& self.evolution_move is None
        &&& self.evolution_region is None
        &&& self.evolution_type is None
        &&& self.evolutions is None
        &&& self.previous_evolution is None
        &&& self.types@ == Seq::<String>::empty()
        &&& !self.has_ani_sprite
    }

    /// A copy of this description.
    pub fn duplicate(&self) -> (r: Pokemon)
        ensures
            r.same_as(self),
    {
        let cosmetic_forms = self.cosmetic_forms.clone();
        let other_forms = self.other_forms.clone();
        let form_order = self.form_order.clone();
        let types = self.types.clone();
        let evolutions = self.evolutions.clone();
        assert(cosmetic_forms@ =~= self.cosmetic_forms@);
        assert(other_forms@ =~= self.other_forms@);
        assert(form_order@ =~= self.form_order@);
        assert(types@ =~= self.types@);
        proof {
            if self.evolutions is Some {
                assert(evolutions.unwrap()@ =~= self.evolutions.unwrap()@);
            }
        }
        Pokemon {
            name: self.name.clone(),
            slug: self.slug.clone(),
            rarity: self.rarity,
            num: self.num,
            max_hp: self.max_hp,
            gender: self.gender.clone(),
            height_bits: self.height_bits,
            weight_bits: self.weight_bits,
            color: self.color.clone(),
            gigantamax: self.gigantamax.clone(),
            cannot_dynamax: self.cannot_dynamax,
            base_form: self.base_form.clone(),
            base_species: self.base_species.clone(),
            base_stats: self.base_stats,
            changes_from: self.changes_from.clone(),
            cosmetic_forms,
            other_forms,
            is_cosmetic_form: self.is_cosmetic_form,
            form_order,
            form: self.form.clone(),
            evolution_condition: self.evolution_condition.clone(),
            evolution_item: self.evolution_item.clone(),
            evolution_level: self.evolution_level,
            evolution_move: self.evolution_move.clone(),
            evolution_region: self.evolution_region.clone(),
            evolution_type: self.evolution_type.clone(),
            evolutions,
            previous_evolution: self.previous_evolution.clone(),
            types,
            has_ani_sprite: self.has_ani_sprite,
        }
    }

    /// The name of this Pokémon's sprite on Showdown.
    pub open spec fn link_name(&self) -> Seq<char> {
        showdown_link_name(self.base_species@, self.name@, self.form@)
    }

    pub fn generate_showdown_link_name(&self) -> (r: String)
        ensures
            r@ == self.link_name(),
    {
        let has_base = self.base_species.unicode_len() > 0;
        let mut sprite_id = if has_base {
            showdown_id(self.base_species.as_str())
        } else {
            showdown_id(self.name.as_str())
        };
        if has_base {
            sprite_id.append("-");
            let form_id = showdown_id(self.form.as_str());
            sprite_id.append(form_id.as_str());
        }
        if same_text(sprite_id.as_str(), "greninja-bond") {
            "greninja".to_owned()
        } else if same_text(sprite_id.as_str(), "rockruff-dusk") {
            "rockruff".to_owned()
        } else {
            sprite_id
        }
    }
}

impl Default for Pokemon {
    fn default() -> (r: Pokemon)
        ensures
            r.is_blank(),
    {
        Pokemon {
            name: String::new(),
            slug: String::new(),
            rarity: PokemonRarity::Normal,
            num: 0,
            max_hp: 0,
            gender: None,
            height_bits: 0,
            weight_bits: 0,
            color: String::new(),
            gigantamax: String::new(),
            cannot_dynamax: false,
            base_form: String::new(),
            base_species: String::new(),
            base_stats: PokemonStats { hp: 0, atk: 0, def: 0, spa: 0, spd: 0, spe: 0 },
            changes_from: String::new(),
            cosmetic_forms: Vec::new(),
            other_forms: Vec::new(),
            is_cosmetic_form: false,
            form_order: Vec::new(),
            form: String::new(),
            evolution_condition: None,
            evolution_item: None,
            evolution_level: None,
            evolution_move: None,
            evolution_region: None,
            evolution_type: None,
            evolutions: None,
            previous_evolution: None,
            types: Vec::new(),
            has_ani_sprite: false,
        }
    }
}

} // verus!
