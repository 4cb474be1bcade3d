//! Pokémon: what the bot knows of them, and catching one.

pub mod pokemon_command_record;
pub mod pokemon_info;
pub mod pokemon_ownership_record;

use vstd::prelude::*;

use indexmap::IndexMap;

use crate::random::{random_below, thread_rng};
use crate::text::{lowercase, to_lowercase};
use pokemon_info::{Pokemon, PokemonType};

verus! {

/// The look that a roll of `n` (from 0 to 99) gives: shiny above 94, the
/// April Fools sprite above 74, plain otherwise.
pub open spec fn type_for_roll_spec(n: int) -> PokemonType {
    if n > 94 {
        PokemonType::Shiny
    } else if n > 74 {
        PokemonType::AprilFools
    } else {
        PokemonType::Normal
    }
}

/// How many of the rolls below `n` give the look `kind`.
pub open spec fn rolls_giving(kind: PokemonType, n: nat) -> nat
    decreases n,
{
    if n == 0 {
        0
    } else {
        rolls_giving(kind, (n - 1) as nat) + if type_for_roll_spec(n - 1) == kind {
            1nat
        } else {
            0nat
        }
    }
}

proof fn lemma_rolls_giving_prefix(n: nat)
    requires
        n <= 100,
    ensures
        rolls_giving(PokemonType::Normal, n) == if n <= 75 { n } else { 75 },
        rolls_giving(PokemonType::AprilFools, n) == if n <= 75 {
            0
        } else if n <= 95 {
            n - 75
        } else {
            20
        },
        rolls_giving(PokemonType::Shiny, n) == if n <= 95 { 0 } else { n - 95 },
    decreases n,
{
    if n > 0 {
        lemma_rolls_giving_prefix((n - 1) as nat);
    }
}

/// Of the hundred equally likely rolls, 5 give a shiny Pokémon, 20 an
/// April Fools sprite and 75 a plain one.
pub proof fn lemma_roll_odds()
    ensures
        rolls_giving(PokemonType::Shiny, 100) == 5,
        rolls_giving(PokemonType::AprilFools, 100) == 20,
        rolls_giving(PokemonType::Normal, 100) == 75,
{
    lemma_rolls_giving_prefix(100);
}

/// Every look is given by some roll from 0 to 99: the rolls 95 to 99 give
/// a shiny Pokémon, 75 to 94 an April Fools sprite, the rest a plain one.
pub proof fn lemma_every_look_can_be_rolled(kind: PokemonType)
    ensures
        exists|n: int| 0 <= n < 100 && #[trigger] type_for_roll_spec(n) == kind,
        forall|n: int| 95 <= n < 100 ==> #[trigger] type_for_roll_spec(n) == PokemonType::Shiny,
        forall|n: int| 75 <= n < 95 ==> #[trigger] type_for_roll_spec(n) == PokemonType::AprilFools,
        forall|n: int| 0 <= n < 75 ==> #[trigger] type_for_roll_spec(n) == PokemonType::Normal,
{
    match kind {
        PokemonType::Shiny => assert(type_for_roll_spec(99) == kind),
        PokemonType::AprilFools => assert(type_for_roll_spec(80) == kind),
        PokemonType::Normal => assert(type_for_roll_spec(0) == kind),
    }
}

/// The look that a roll of `roll` gives.
pub fn type_for_roll(roll: usize) -> (r: PokemonType)
    ensures
        r == type_for_roll_spec(roll as int),
{
    if roll > 94 {
        return PokemonType::Shiny;
    }
    if roll > 74 {
        return PokemonType::AprilFools;
    }
    PokemonType::Normal
}

/// Rolls the look of a catch: a number from 0 to 99 is drawn, and the look
/// is the one that number gives.
pub fn roll_for_type() -> (r: PokemonType)
    ensures
        exists|n: int| 0 <= n < 100 && r == type_for_roll_spec(n),
{
    let mut rng = thread_rng();
    let rand_num = random_below(&mut rng, 100);
    type_for_roll(rand_num)
}


#[verifier::external_type_specification]
#[verifier::external_body]
#[verifier::reject_recursive_types(K)]
#[verifier::reject_recursive_types(V)]
#[verifier::reject_recursive_types(S)]
pub struct ExIndexMap<K, V, S>(IndexMap<K, V, S>);

/// The entries of an `IndexMap` from names to Pokémon, in the map's order:
/// each key as its characters, with its value.
pub uninterp spec fn pokedex_entries(m: IndexMap<String, Pokemon>) -> Seq<(Seq<char>, Pokemon)>;

/// Whether some entry has the key `k`.
pub open spec fn has_key(s: Seq<(Seq<char>, Pokemon)>, k: Seq<char>) -> bool {
    exists|i: int| 0 <= i < s.len() && #[trigger] s[i].0 == k
}

/// The value under the key `k` (meaningful when some entry has it).
pub open spec fn value_at(s: Seq<(Seq<char>, Pokemon)>, k: Seq<char>) -> Pokemon {
    s[choose|i: int| 0 <= i < s.len() && #[trigger] s[i].0 == k].1
}

/// No two entries share a key.
pub open spec fn distinct_keys(s: Seq<(Seq<char>, Pokemon)>) -> bool {
    forall|i: int, j: int| 0 <= i < j < s.len() ==> #[trigger] s[i].0 != #[trigger] s[j].0
}

/// Where no two entries share a key, the value under a key is the value of
/// any entry that has it.
pub proof fn lemma_value_at_unique(s: Seq<(Seq<char>, Pokemon)>, k: Seq<char>, j: int)
    requires
        distinct_keys(s),
        0 <= j < s.len(),
        s[j].0 == k,
    ensures
        value_at(s, k) == s[j].1,
{
    let c = choose|c: int| 0 <= c < s.len() && #[trigger] s[c].0 == k;
    if j != c {
        if j < c {
            assert(s[j].0 != s[c].0);
        } else {
            assert(s[c].0 != s[j].0);
        }
    }
}

/// The entries after inserting `v` under `k`: where an entry has the key,
/// its value is replaced in place; otherwise the pair goes last.
pub open spec fn entries_insert(s: Seq<(Seq<char>, Pokemon)>, k: Seq<char>, v: Pokemon) -> Seq<
    (Seq<char>, Pokemon),
> {
    if has_key(s, k) {
        let i = choose|i: int| 0 <= i < s.len() && #[trigger] s[i].0 == k;
        s.update(i, (s[i].0, v))
    } else {
        s.push((k, v))
    }
}

/// `IndexMap::new`: a map with no entries.
#[verifier::external_body]
fn pokedex_new() -> (m: IndexMap<String, Pokemon>)
    ensures
        pokedex_entries(m) == Seq::<(Seq<char>, Pokemon)>::empty(),
{
    IndexMap::new()
}

/// `IndexMap::insert`: where an entry has an equal key, its value is
/// replaced and it keeps its place; otherwise the pair is added last.
#[verifier::external_body]
fn pokedex_insert(m: &mut IndexMap<String, Pokemon>, key: String, value: Pokemon)
    ensures
        pokedex_entries(*final(m)) == entries_insert(pokedex_entries(*old(m)), key@, value),
{
    m.insert(key, value);
}

/// `IndexMap::len`: the number of entries.
#[verifier::external_body]
fn pokedex_len(m: &IndexMap<String, Pokemon>) -> (n: usize)
    ensures
        n == pokedex_entries(*m).len(),
{
    m.len()
}

/// `IndexMap::get_index`: the entry at a position, or `None` past the end.
#[verifier::external_body]
fn pokedex_get_index(m: &IndexMap<String, Pokemon>, index: usize) -> (r: Option<
    (&String, &Pokemon),
>)
    ensures
        r is Some <==> index < pokedex_entries(*m).len(),
        r matches Some(e) ==> e.0@ == pokedex_entries(*m)[index as int].0 && *e.1
            == pokedex_entries(*m)[index as int].1,
{
    m.get_index(index)
}

/// `IndexMap::get`: the value under a key equal to `key`, or `None` when
/// no entry has such a key.
#[verifier::external_body]
fn pokedex_get<'a>(m: &'a IndexMap<String, Pokemon>, key: &str) -> (r: Option<&'a Pokemon>)
    ensures
        r is Some <==> has_key(pokedex_entries(*m), key@),
        r matches Some(v) ==> exists|i: int|
            0 <= i < pokedex_entries(*m).len() && #[trigger] pokedex_entries(*m)[i].0 == key@
                && pokedex_entries(*m)[i].1 == *v,
{
    m.get(key)
}

/// The Pokédex as it was read: each name, in order, with its entry; a later
/// entry under a name that came before replaces the earlier one in its
/// place. Every stored Pokémon carries its name as its slug.
pub open spec fn pokedex_from(input: Seq<(String, Pokemon)>) -> Seq<(Seq<char>, Pokemon)>
    decreases input.len(),
{
    if input.len() == 0 {
        Seq::empty()
    } else {
        let (key, value) = input.last();
        entries_insert(pokedex_from(input.drop_last()), key@, Pokemon { slug: key, ..value })
    }
}

/// What a draw of position `i` gives: the entry there, except that a
/// cosmetic form is the entry of its base species (found under the
/// lowercase of the base species' name) with the form's name, base species,
/// form and colour, marked cosmetic.
pub open spec fn resolved(s: Seq<(Seq<char>, Pokemon)>, i: int) -> Pokemon {
    let entry = s[i].1;
    if entry.is_cosmetic_form {
        let base = value_at(s, lowercase(entry.base_species@));
        Pokemon {
            is_cosmetic_form: true,
            name: entry.name,
            base_species: entry.base_species,
            form: entry.form,
            color: entry.color,
            ..base
        }
    } else {
        entry
    }
}

/// A draw of a cosmetic form gives the form's name, base species, form and
/// colour, marked cosmetic; every other field is that of the Pokédex entry
/// stored under the lowercase of its base species. A draw of any other
/// entry gives that entry as it stands.
pub proof fn lemma_draw_of_cosmetic_form(s: Seq<(Seq<char>, Pokemon)>, i: int)
    requires
        0 <= i < s.len(),
    ensures
        !s[i].1.is_cosmetic_form ==> resolved(s, i) == s[i].1,
        s[i].1.is_cosmetic_form ==> ({
            let form = s[i].1;
            let base = value_at(s, lowercase(form.base_species@));
            let r = resolved(s, i);
            &&& r.is_cosmetic_form
            &&& r.name == form.name
            &&& r.base_species == form.base_species
            &&& r.form == form.form
            &&& r.color == form.color
            &&& r.slug == base.slug
            &&& r.rarity == base.rarity
            &&& r.num == base.num
            &&& r.max_hp == base.max_hp
            &&& r.gender == base.gender
            &&& r.height_bits == base.height_bits
            &&& r.weight_bits == base.weight_bits
            &&& r.gigantamax == base.gigantamax
            &&& r.cannot_dynamax == base.cannot_dynamax
            &&& r.base_form == base.base_form
            &&& r.base_stats == base.base_stats
            &&& r.changes_from == base.changes_from
            &&& r.cosmetic_forms == base.cosmetic_forms
            &&& r.other_forms == base.other_forms
            &&& r.form_order == base.form_order
            &&& r.evolution_condition == base.evolution_condition
            &&& r.evolution_item == base.evolution_item
            &&& r.evolution_level == base.evolution_level
            &&& r.evolution_move == base.evolution_move
            &&& r.evolution_region == base.evolution_region
            &&& r.evolution_type == base.evolution_type
            &&& r.evolutions == base.evolutions
            &&& r.previous_evolution == base.previous_evolution
            &&& r.types == base.types
            &&& r.has_ani_sprite == base.has_ani_sprite
        }),
{
}

/// Every cosmetic form's base species is in the Pokédex.
pub open spec fn bases_present(s: Seq<(Seq<char>, Pokemon)>) -> bool {
    forall|i: int|
        0 <= i < s.len() && (#[trigger] s[i]).1.is_cosmetic_form ==> has_key(
            s,
            lowercase(s[i].1.base_species@),
        )
}

/// A draw can always end: either every draw gives a Pokémon with a positive
/// Pokédex number, or the fallback "missingno" is there.
pub open spec fn fallback_reachable(s: Seq<(Seq<char>, Pokemon)>) -> bool {
    has_key(s, "missingno"@) || forall|i: int|
        0 <= i < s.len() ==> (#[trigger] resolved(s, i)).num > 0
}

/// Where, among the draws, the first draw lies that gives a Pokémon with a
/// positive Pokédex number; the number of draws when none does.
pub open spec fn first_hit(s: Seq<(Seq<char>, Pokemon)>, draws: Seq<usize>) -> int
    decreases draws.len(),
{
    if draws.len() == 0 {
        0
    } else {
        let k = first_hit(s, draws.drop_last());
        if k < draws.len() - 1 {
            k
        } else if resolved(s, draws.last() as int).num > 0 {
            draws.len() - 1
        } else {
            draws.len() as int
        }
    }
}

/// What a run of draws gives: the Pokémon at the first draw with a positive
/// Pokédex number, else "missingno".
pub open spec fn drawn_pick(s: Seq<(Seq<char>, Pokemon)>, draws: Seq<usize>) -> Pokemon {
    let k = first_hit(s, draws);
    if k < draws.len() {
        resolved(s, draws[k] as int)
    } else {
        value_at(s, "missingno"@)
    }
}

/// The draws that a catch makes: one to five positions of the Pokédex,
/// drawing stops at the first that gives a Pokémon with a positive number,
/// and all five are made only when none before the last did.
pub open spec fn draws_as_made(s: Seq<(Seq<char>, Pokemon)>, draws: Seq<usize>) -> bool {
    &&& 1 <= draws.len() <= 5
    &&& forall|k: int| 0 <= k < draws.len() ==> #[trigger] draws[k] < s.len()
    &&& first_hit(s, draws) >= draws.len() - 1
    &&& first_hit(s, draws) == draws.len() ==> draws.len() == 5
}

/// The first hit is a draw with a positive number, and every draw before it
/// has none.
pub proof fn lemma_first_hit(s: Seq<(Seq<char>, Pokemon)>, draws: Seq<usize>)
    ensures
        0 <= first_hit(s, draws) <= draws.len(),
        forall|j: int|
            0 <= j < first_hit(s, draws) ==> (#[trigger] resolved(s, draws[j] as int)).num <= 0,
        first_hit(s, draws) < draws.len() ==> resolved(s, draws[first_hit(s, draws)] as int).num > 0,
    decreases draws.len(),
{
    if draws.len() > 0 {
        let p = draws.drop_last();
        lemma_first_hit(s, p);
        assert forall|j: int| 0 <= j < p.len() implies draws[j] == p[j] by {}
    }
}

/// All Pokémon the bot can hand out, keyed by name in the order read.
pub struct PokemonData {
    data: IndexMap<String, Pokemon>,
}

impl PokemonData {
    /// The Pokédex's entries, in order.
    pub closed spec fn entries(&self) -> Seq<(Seq<char>, Pokemon)> {
        pokedex_entries(self.data)
    }

    #[verifier::type_invariant]
    spec fn keys_are_slugs(self) -> bool {
        &&& distinct_keys(pokedex_entries(self.data))
        &&& forall|i: int|
            0 <= i < pokedex_entries(self.data).len() ==> (#[trigger] pokedex_entries(
                self.data,
            )[i]).1.slug@ == pokedex_entries(self.data)[i].0
    }

    /// The Pokédex from the entries of the Pokédex file, in the file's
    /// order: each Pokémon is stored under its name, with that name as its
    /// slug.
    pub fn new(entries: Vec<(String, Pokemon)>) -> (r: PokemonData)
        ensures
            r.entries() == pokedex_from(entries@),
            distinct_keys(r.entries()),
            forall|i: int|
                0 <= i < r.entries().len() ==> (#[trigger] r.entries()[i]).1.slug@
                    == r.entries()[i].0,
    {
        let mut data = pokedex_new();
        let mut rest = entries;
        let ghost input = rest@;
        let n = rest.len();
        // Turn the entries over, so that taking them from the end gives them
        // in their first order.
        let mut stack: Vec<(String, Pokemon)> = Vec::new();
        while rest.len() > 0
            invariant
                n == input.len(),
                rest@.len() + stack@.len() == n,
                rest@ == input.take(rest@.len() as int),
                forall|k: int| 0 <= k < stack@.len() ==> #[trigger] stack@[k] == input[n - 1 - k],
            decreases rest@.len(),
        {
            let item = rest.pop().unwrap();
            stack.push(item);
            assert(rest@ =~= input.take(rest@.len() as int));
        }
        let mut i: usize = 0;
        while i < n
            invariant
                n == input.len(),
                i <= n,
                stack@.len() == n - i,
                forall|k: int| 0 <= k < stack@.len() ==> #[trigger] stack@[k] == input[n - 1 - k],
                pokedex_entries(data) == pokedex_from(input.take(i as int)),
                distinct_keys(pokedex_entries(data)),
                forall|j: int|
                    0 <= j < pokedex_entries(data).len() ==> (#[trigger] pokedex_entries(data)[j]).1.slug@
                        == pokedex_entries(data)[j].0,
            decreases n - i,
        {
            assert(stack@[stack@.len() - 1] == input[i as int]);
            let (key, mut pokemon) = stack.pop().unwrap();
            // This is a hack because of limitations in my data scraper which generates the pokemon list
            pokemon.slug = key.clone();
            let ghost before = pokedex_entries(data);
            pokedex_insert(&mut data, key, pokemon);
            proof {
                assert(input.take(i + 1).drop_last() =~= input.take(i as int));
                assert(input.take(i + 1).last() == input[i as int]);
                lemma_insert_keeps_shape(before, input[i as int].0@, pokemon);
            }
            i = i + 1;
        }
        assert(input.take(n as int) =~= input);
        PokemonData { data }
    }

    /// What a draw of position `index` gives (see `resolved`).
    pub fn pokemon_at(&self, index: usize) -> (r: Pokemon)
        requires
            index < self.entries().len(),
            self.entries()[index as int].1.is_cosmetic_form ==> has_key(
                self.entries(),
                lowercase(self.entries()[index as int].1.base_species@),
            ),
        ensures
            r.same_as(&resolved(self.entries(), index as int)),
            self.entries()[index as int].1.is_cosmetic_form ==> ({
                let base = value_at(
                    self.entries(),
                    lowercase(self.entries()[index as int].1.base_species@),
                );
                &&& r.num == base.num
                &&& r.base_stats == base.base_stats
                &&& r.types@ == base.types@
                &&& r.slug == base.slug
                &&& r.name == self.entries()[index as int].1.name
                &&& r.form == self.entries()[index as int].1.form
            }),
    {
        proof {
            use_type_invariant(self);
            lemma_draw_of_cosmetic_form(self.entries(), index as int);
        }
        let ghost s = pokedex_entries(self.data);
        let (_, entry) = pokedex_get_index(&self.data, index).unwrap();
        if entry.is_cosmetic_form {
            // Apply cosmetic forms. This must be done before the pokedex number
            // check because cosmetic forms don't have their pokedex number in
            // their entry.
            let key = to_lowercase(entry.base_species.as_str());
            let base = pokedex_get(&self.data, key.as_str()).unwrap();
            proof {
                let j = choose|j: int| 0 <= j < s.len() && #[trigger] s[j].0 == key@ && s[j].1 == *base;
                lemma_value_at_unique(s, key@, j);
                assert(value_at(s, key@) == *base);
            }
            let mut pokemon = base.duplicate();
            pokemon.is_cosmetic_form = true;
            pokemon.name = entry.name.clone();
            pokemon.base_species = entry.base_species.clone();
            pokemon.form = entry.form.clone();
            pokemon.color = entry.color.clone();
            pokemon
        } else {
            entry.duplicate()
        }
    }

    /// The Pokémon that a run of drawn positions gives: the first drawn
    /// position that gives a Pokémon with a positive Pokédex number (a draw
    /// of "missingno" or of a fan-made Pokémon is passed over); when none
    /// does, "missingno" itself.
    pub fn pick_from_draws(&self, draws: &Vec<usize>) -> (r: Pokemon)
        requires
            1 <= draws@.len() <= 5,
            forall|k: int| 0 <= k < draws@.len() ==> #[trigger] draws@[k] < self.entries().len(),
            forall|k: int|
                0 <= k < draws@.len() && self.entries()[#[trigger] draws@[k] as int].1.is_cosmetic_form
                    ==> has_key(
                    self.entries(),
                    lowercase(self.entries()[draws@[k] as int].1.base_species@),
                ),
            (forall|k: int|
                0 <= k < draws@.len() ==> (#[trigger] resolved(self.entries(), draws@[k] as int)).num
                    <= 0) ==> has_key(self.entries(), "missingno"@),
        ensures
            r.same_as(&drawn_pick(self.entries(), draws@)),
    {
        proof {
            use_type_invariant(self);
            lemma_first_hit(self.entries(), draws@);
        }
        let ghost s = pokedex_entries(self.data);
        let mut k: usize = 0;
        while k < draws.len()
            invariant
                s == self.entries(),
                k <= draws@.len(),
                forall|i: int| 0 <= i < draws@.len() ==> #[trigger] draws@[i] < s.len(),
                forall|i: int|
                    0 <= i < draws@.len() && s[#[trigger] draws@[i] as int].1.is_cosmetic_form ==> has_key(
                        s,
                        lowercase(s[draws@[i] as int].1.base_species@),
                    ),
                forall|j: int| 0 <= j < k ==> (#[trigger] resolved(s, draws@[j] as int)).num <= 0,
                0 <= first_hit(s, draws@) <= draws@.len(),
                forall|j: int|
                    0 <= j < first_hit(s, draws@) ==> (#[trigger] resolved(s, draws@[j] as int)).num
                        <= 0,
                first_hit(s, draws@) < draws@.len() ==> resolved(
                    s,
                    draws@[first_hit(s, draws@)] as int,
                ).num > 0,
            decreases draws@.len() - k,
        {
            let index = draws[k];
            assert(draws@[k as int] == index);
            let pokemon = self.pokemon_at(index);
            if pokemon.num > 0 {
                assert(resolved(s, index as int).num > 0);
                assert(first_hit(s, draws@) == k);
                return pokemon;
            }
            assert(resolved(s, draws@[k as int] as int).num <= 0);
            k = k + 1;
        }
        assert(first_hit(s, draws@) == draws@.len());
        // Failed to get a pokemon, return missingno as an easter egg
        let fallback = pokedex_get(&self.data, "missingno").unwrap();
        proof {
            let j = choose|j: int| 0 <= j < s.len() && #[trigger] s[j].0 == "missingno"@ && s[j].1 == *fallback;
            lemma_value_at_unique(s, "missingno"@, j);
        }
        fallback.duplicate()
    }

    /// Draws a Pokémon: random positions are drawn one at a time, at most
    /// five, until one gives a Pokémon with a positive Pokédex number; the
    /// result is what those draws give (`pick_from_draws`), "missingno"
    /// when all five fail.
    pub fn get_random_pokemon(&self) -> (r: Pokemon)
        requires
            self.entries().len() > 0,
            bases_present(self.entries()),
            fallback_reachable(self.entries()),
        ensures
            exists|draws: Seq<usize>|
                draws_as_made(self.entries(), draws) && r.same_as(
                    &#[trigger] drawn_pick(self.entries(), draws),
                ),
    {
        proof {
            use_type_invariant(self);
        }
        let ghost s = pokedex_entries(self.data);
        let mut rng = thread_rng();
        let len = pokedex_len(&self.data);
        let mut draws: Vec<usize> = Vec::new();
        let mut hit = false;
        // Try to get a pokemon a few times
        while draws.len() < 5 && !hit
            invariant
                s == self.entries(),
                len == s.len(),
                len > 0,
                bases_present(s),
                draws@.len() <= 5,
                forall|i: int| 0 <= i < draws@.len() ==> #[trigger] draws@[i] < s.len(),
                !hit ==> forall|j: int|
                    0 <= j < draws@.len() ==> (#[trigger] resolved(s, draws@[j] as int)).num <= 0,
                hit ==> draws@.len() > 0 && resolved(s, draws@.last() as int).num > 0 && forall|j: int|
                    0 <= j < draws@.len() - 1 ==> (#[trigger] resolved(s, draws@[j] as int)).num <= 0,
            decreases 5 - draws@.len(),
        {
            let index = random_below(&mut rng, len);
            assert(s[index as int].1.is_cosmetic_form ==> has_key(s, lowercase(s[index as int].1.base_species@)));
            let pokemon = self.pokemon_at(index);
            let ghost before = draws@;
            draws.push(index);
            assert(forall|j: int| 0 <= j < before.len() ==> draws@[j] == before[j]);
            if pokemon.num > 0 {
                // A real Pokémon: stop drawing
                assert(resolved(s, index as int).num > 0);
                hit = true;
            } else {
                // We rolled missingno or an unofficial Create-A-Pokemon project
                // Pokemon, try again
                assert(resolved(s, index as int).num <= 0);
            }
        }
        proof {
            lemma_first_hit(s, draws@);
            let n = draws@.len() as int;
            if hit {
                assert(first_hit(s, draws@) >= n - 1);
            } else {
                assert(first_hit(s, draws@) == n);
                assert(has_key(s, "missingno"@));
            }
            assert forall|k: int|
                0 <= k < draws@.len() && s[#[trigger] draws@[k] as int].1.is_cosmetic_form implies has_key(
                s,
                lowercase(s[draws@[k] as int].1.base_species@),
            ) by {
                assert(s[draws@[k] as int] == s[draws@[k] as int]);
            }
        }
        let r = self.pick_from_draws(&draws);
        assert(draws_as_made(s, draws@));
        r
    }

    /// Draws a Pokémon as `get_random_pokemon` does, after checking that a
    /// draw cannot fail: `None` when the Pokédex is empty, when a cosmetic
    /// form's base species is missing, or when a draw can give a Pokémon
    /// without a positive number and "missingno" is missing.
    pub fn checked_random_pokemon(&self) -> (r: Option<Pokemon>)
        ensures
            r is Some <==> (self.entries().len() > 0 && bases_present(self.entries())
                && fallback_reachable(self.entries())),
            r matches Some(p) ==> exists|draws: Seq<usize>|
                draws_as_made(self.entries(), draws) && p.same_as(
                    &#[trigger] drawn_pick(self.entries(), draws),
                ),
    {
        proof {
            use_type_invariant(self);
        }
        let ghost s = pokedex_entries(self.data);
        let len = pokedex_len(&self.data);
        if len == 0 {
            return None;
        }
        let mut all_positive = true;
        let mut i: usize = 0;
        while i < len
            invariant
                s == self.entries(),
                distinct_keys(s),
                len == s.len(),
                i <= len,
                forall|j: int|
                    0 <= j < i && (#[trigger] s[j]).1.is_cosmetic_form ==> has_key(
                        s,
                        lowercase(s[j].1.base_species@),
                    ),
                all_positive <==> forall|j: int| 0 <= j < i ==> (#[trigger] resolved(s, j)).num > 0,
            decreases len - i,
        {
            let (_, entry) = pokedex_get_index(&self.data, i).unwrap();
            let ghost resolved_num = resolved(s, i as int).num;
            if entry.is_cosmetic_form {
                let key = to_lowercase(entry.base_species.as_str());
                match pokedex_get(&self.data, key.as_str()) {
                    None => {
                        assert(!bases_present(s));
                        return None;
                    },
                    Some(base) => {
                        proof {
                            let j = choose|j: int| 0 <= j < s.len() && #[trigger] s[j].0 == key@ && s[j].1 == *base;
                            lemma_value_at_unique(s, key@, j);
                            assert(resolved_num == base.num);
                        }
                        if base.num <= 0 {
                            all_positive = false;
                        }
                    },
                }
            } else if entry.num <= 0 {
                all_positive = false;
            }
            assert(resolved_num == resolved(s, i as int).num);
            i = i + 1;
        }
        if !all_positive {
            let fallback = pokedex_get(&self.data, "missingno");
            if fallback.is_none() {
                return None;
            }
        }
        Some(self.get_random_pokemon())
    }
}

/// Inserting keeps the keys distinct and every value's slug its key, when
/// the inserted value's slug is its key.
proof fn lemma_insert_keeps_shape(s: Seq<(Seq<char>, Pokemon)>, k: Seq<char>, v: Pokemon)
    requires
        distinct_keys(s),
        forall|j: int| 0 <= j < s.len() ==> (#[trigger] s[j]).1.slug@ == s[j].0,
        v.slug@ == k,
    ensures
        distinct_keys(entries_insert(s, k, v)),
        forall|j: int|
            0 <= j < entries_insert(s, k, v).len() ==> (#[trigger] entries_insert(s, k, v)[j]).1.slug@
                == entries_insert(s, k, v)[j].0,
{
    let t = entries_insert(s, k, v);
    if has_key(s, k) {
        let i = choose|i: int| 0 <= i < s.len() && #[trigger] s[i].0 == k;
        assert(t == s.update(i, (s[i].0, v)));
        assert forall|a: int, b: int| 0 <= a < b < t.len() implies #[trigger] t[a].0 != #[trigger] t[b].0 by {
            assert(t[a].0 == s[a].0);
            assert(t[b].0 == s[b].0);
        }
    } else {
        assert forall|a: int, b: int| 0 <= a < b < t.len() implies #[trigger] t[a].0 != #[trigger] t[b].0 by {
            if b == s.len() {
                assert(t[b].0 == k);
                assert(t[a] == s[a]);
            } else {
                assert(t[a] == s[a]);
                assert(t[b] == s[b]);
            }
        }
        assert forall|j: int| 0 <= j < t.len() implies (#[trigger] t[j]).1.slug@ == t[j].0 by {
            if j < s.len() {
                assert(t[j] == s[j]);
            }
        }
    }
}

} // verus!
