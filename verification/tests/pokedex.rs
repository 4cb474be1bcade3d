use social_credit_bot::models::pokemon::pokemon_info::{Pokemon, PokemonType};
use social_credit_bot::models::pokemon::{roll_for_type, type_for_roll, PokemonData};

fn entry(key: &str, num: i64) -> (String, Pokemon) {
    (key.to_string(), Pokemon { name: key.to_string(), num, ..Default::default() })
}

#[test]
fn rolls_map_to_types() {
    assert_eq!(type_for_roll(0), PokemonType::Normal);
    assert_eq!(type_for_roll(74), PokemonType::Normal);
    assert_eq!(type_for_roll(75), PokemonType::AprilFools);
    assert_eq!(type_for_roll(94), PokemonType::AprilFools);
    assert_eq!(type_for_roll(95), PokemonType::Shiny);
    assert_eq!(type_for_roll(99), PokemonType::Shiny);
    let shiny = (0..100).filter(|n| type_for_roll(*n) == PokemonType::Shiny).count();
    let fools = (0..100).filter(|n| type_for_roll(*n) == PokemonType::AprilFools).count();
    assert_eq!((shiny, fools), (5, 20));
    let _ = roll_for_type();
}

#[test]
fn entries_get_their_key_as_slug() {
    let data = PokemonData::new(vec![entry("bulbasaur", 1), entry("ivysaur", 2)]);
    assert_eq!(data.pokemon_at(0).slug, "bulbasaur");
    assert_eq!(data.pokemon_at(1).slug, "ivysaur");
}

#[test]
fn later_entry_replaces_earlier_in_place() {
    let data = PokemonData::new(vec![entry("a", 1), entry("b", 2), entry("a", 3)]);
    assert_eq!(data.pokemon_at(0).num, 3);
    assert_eq!(data.pokemon_at(1).num, 2);
}

#[test]
fn cosmetic_form_takes_base_species_data() {
    let base = Pokemon {
        name: "Vivillon".to_string(),
        num: 666,
        types: vec!["Bug".to_string(), "Flying".to_string()],
        color: "White".to_string(),
        ..Default::default()
    };
    let form = Pokemon {
        name: "Vivillon-Icy Snow".to_string(),
        base_species: "Vivillon".to_string(),
        form: "Icy Snow".to_string(),
        color: "Blue".to_string(),
        is_cosmetic_form: true,
        ..Default::default()
    };
    let data = PokemonData::new(vec![("vivillon".to_string(), base), ("vivillonicysnow".to_string(), form)]);
    let p = data.pokemon_at(1);
    assert_eq!(p.num, 666);
    assert_eq!(p.name, "Vivillon-Icy Snow");
    assert_eq!(p.form, "Icy Snow");
    assert_eq!(p.color, "Blue");
    assert_eq!(p.types, vec!["Bug".to_string(), "Flying".to_string()]);
    assert_eq!(p.slug, "vivillon");
    assert!(p.is_cosmetic_form);
    assert_eq!(p.generate_showdown_link_name(), "vivillon-icysnow");
    let drawn = data.get_random_pokemon();
    assert_eq!(drawn.num, 666);
}

#[test]
fn draws_fall_back_to_missingno() {
    let data = PokemonData::new(vec![entry("missingno", 0)]);
    assert_eq!(data.get_random_pokemon().name, "missingno");
    let data = PokemonData::new(vec![entry("missingno", 0), entry("fakemon", -5)]);
    assert_eq!(data.checked_random_pokemon().map(|p| p.name), Some("missingno".to_string()));
}

#[test]
fn checked_draw_refuses_unusable_pokedex() {
    assert!(PokemonData::new(vec![]).checked_random_pokemon().is_none());
    assert!(PokemonData::new(vec![entry("fakemon", -5)]).checked_random_pokemon().is_none());
    let orphan = Pokemon { name: "X-Form".to_string(), base_species: "Nobody".to_string(), is_cosmetic_form: true, ..Default::default() };
    assert!(PokemonData::new(vec![("xform".to_string(), orphan)]).checked_random_pokemon().is_none());
    let data = PokemonData::new(vec![entry("mew", 151)]);
    assert_eq!(data.checked_random_pokemon().map(|p| p.num), Some(151));
}

#[test]
fn draws_keep_the_first_real_pokemon() {
    let data = PokemonData::new(vec![
        entry("missingno", 0),
        entry("fakemon", -5),
        entry("pikachu", 25),
        entry("eevee", 133),
    ]);
    assert_eq!(data.pick_from_draws(&vec![2]).name, "pikachu");
    assert_eq!(data.pick_from_draws(&vec![0, 1, 3, 2]).name, "eevee");
    assert_eq!(data.pick_from_draws(&vec![1, 2, 3]).name, "pikachu");
}

#[test]
fn five_failed_draws_give_missingno() {
    let data = PokemonData::new(vec![entry("missingno", 0), entry("fakemon", -5), entry("mew", 151)]);
    let p = data.pick_from_draws(&vec![1, 0, 1, 1, 0]);
    assert_eq!((p.name.as_str(), p.num), ("missingno", 0));
    assert_eq!(data.pick_from_draws(&vec![1, 0, 1, 1, 2]).num, 151);
}
