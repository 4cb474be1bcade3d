use social_credit_bot::models::pokemon::pokemon_info::{has_ani_sprite_default, Pokemon, PokemonRarity, PokemonType};

#[test]
fn test_link_name_simple() {
    let bulbasaur = Pokemon {
        // base_species
        name: "Bulbasaur".to_string(),
        // form
        ..Default::default()
    };
    assert_eq!(bulbasaur.generate_showdown_link_name(), "bulbasaur");
}

#[test]
fn test_link_name_non_ascii() {
    let flabebe = Pokemon {
        // base_species
        name: "Flabe\u{0301}be\u{0301}".to_string(),
        // form
        ..Default::default()
    };
    assert_eq!(flabebe.generate_showdown_link_name(), "flabebe");
}

#[test]
fn test_link_name_cosmetic_forme() {
    let vivillon_icy_snow = Pokemon {
        base_species: "Vivillon".to_string(),
        name: "Vivillon-Icy Snow".to_string(),
        form: "Icy Snow".to_string(),
        ..Default::default()
    };
    assert_eq!(vivillon_icy_snow.generate_showdown_link_name(), "vivillon-icysnow");
}

#[test]
fn test_link_name_forme_non_ascii() {
    let dudunsparce_three_segment = Pokemon {
        base_species: "Dudunsparce".to_string(),
        name: "Dudunsparce-Three-Segment".to_string(),
        form: "Three-Segment".to_string(),
        ..Default::default()
    };
    assert_eq!(dudunsparce_three_segment.generate_showdown_link_name(), "dudunsparce-threesegment");
}

#[test]
fn test_link_name_non_ascii_forme() {
    let farfetchd_galar = Pokemon {
        base_species: "Farfetch\u{2019}d".to_string(),
        name: "Farfetch\u{2019}d-Galar".to_string(),
        form: "Galar".to_string(),
        ..Default::default()
    };
    assert_eq!(farfetchd_galar.generate_showdown_link_name(), "farfetchd-galar");
}

#[test]
fn test_link_name_mega() {
    let glalie_mega = Pokemon {
        base_species: "Glalie".to_string(),
        name: "Glalie-Mega".to_string(),
        form: "Mega".to_string(),
        ..Default::default()
    };
    assert_eq!(glalie_mega.generate_showdown_link_name(), "glalie-mega");
}

#[test]
fn test_link_name_gmax() {
    let centiskorch_gmax = Pokemon {
        base_species: "Centiskorch".to_string(),
        name: "Centiskorch-Gmax".to_string(),
        form: "Gmax".to_string(),
        ..Default::default()
    };
    assert_eq!(centiskorch_gmax.generate_showdown_link_name(), "centiskorch-gmax");
}

#[test]
fn test_link_name_totem() {
    let gumshoos_totem = Pokemon {
        base_species: "Gumshoos".to_string(),
        name: "Gumshoos-Totem".to_string(),
        form: "Totem".to_string(),
        ..Default::default()
    };
    assert_eq!(gumshoos_totem.generate_showdown_link_name(), "gumshoos-totem");
}

#[test]
fn test_link_name_primal() {
    let kyogre_primal = Pokemon {
        base_species: "Kyogre".to_string(),
        name: "Kyogre-Primal".to_string(),
        form: "Primal".to_string(),
        ..Default::default()
    };
    assert_eq!(kyogre_primal.generate_showdown_link_name(), "kyogre-primal");
}

#[test]
fn test_link_name_explicit_exceptions() {
    let greninja_bond = Pokemon {
        base_species: "Greninja".to_string(),
        name: "Greninja-Bond".to_string(),
        form: "Bond".to_string(),
        ..Default::default()
    };
    assert_eq!(greninja_bond.generate_showdown_link_name(), "greninja");

    let rockruff_dusk = Pokemon {
        base_species: "RockRuff".to_string(),
        name: "Rockruff-Dusk".to_string(),
        form: "Dusk".to_string(),
        ..Default::default()
    };
    assert_eq!(rockruff_dusk.generate_showdown_link_name(), "rockruff");
}

#[test]
fn test_ani_sprite() {
    let venusaur_mega = Pokemon {
        base_species: "Venusaur".to_string(),
        name: "Venusaur-Mega".to_string(),
        form: "Mega".to_string(),
        has_ani_sprite: true,
        ..Default::default()
    };
    assert_eq!(
        PokemonType::Normal.get_link_for_type(&venusaur_mega),
        "https://play.pokemonshowdown.com/sprites/ani/venusaur-mega.gif",
    );
    assert_eq!(
        PokemonType::Shiny.get_link_for_type(&venusaur_mega),
        "https://play.pokemonshowdown.com/sprites/ani-shiny/venusaur-mega.gif",
    );
    assert_eq!(
        PokemonType::AprilFools.get_link_for_type(&venusaur_mega),
        "https://play.pokemonshowdown.com/sprites/afd/venusaur-mega.png",
    );
}

#[test]
fn test_missing_ani_sprite() {
    let venusaur_gmax = Pokemon {
        base_species: "Venusaur".to_string(),
        name: "Venusaur-Gmax".to_string(),
        form: "Gmax".to_string(),
        has_ani_sprite: false,
        ..Default::default()
    };
    assert_eq!(
        PokemonType::Normal.get_link_for_type(&venusaur_gmax),
        "https://play.pokemonshowdown.com/sprites/home-centered/venusaur-gmax.png",
    );
    assert_eq!(
        PokemonType::Shiny.get_link_for_type(&venusaur_gmax),
        "https://play.pokemonshowdown.com/sprites/home-centered-shiny/venusaur-gmax.png",
    );
    assert_eq!(
        PokemonType::AprilFools.get_link_for_type(&venusaur_gmax),
        "https://play.pokemonshowdown.com/sprites/afd/venusaur-gmax.png",
    );
}

#[test]
fn link_for_pokemon_without_base_species() {
    let pikachu = Pokemon { name: "Pikachu".to_string(), has_ani_sprite: true, ..Default::default() };
    assert_eq!(
        PokemonType::Normal.get_link_for_type(&pikachu),
        "https://play.pokemonshowdown.com/sprites/ani/pikachu.gif"
    );
}

#[test]
fn link_name_has_only_lowercase_letters_digits_and_dashes() {
    let porygon = Pokemon {
        base_species: "Porygon-Z".to_string(),
        name: "Porygon-Z-Test".to_string(),
        form: "Mr. Mime Form 2".to_string(),
        ..Default::default()
    };
    let link = porygon.generate_showdown_link_name();
    assert_eq!(link, "porygonz-mrmimeform2");
    assert!(link.chars().all(|c| c.is_ascii_lowercase() || c.is_ascii_digit() || c == '-'));
}

#[test]
fn display_text_for_each_type() {
    assert_eq!(PokemonType::Normal.get_display_text_for_type("Eevee".to_string()), "you caught a **Eevee**");
    assert_eq!(
        PokemonType::AprilFools.get_display_text_for_type("Eevee".to_string()),
        "April Fools! You caught a **Eevee**"
    );
    assert_eq!(PokemonType::Shiny.get_display_text_for_type("Eevee".to_string()), "you caught a shiny **Eevee**");
}

#[test]
fn type_from_stored_name() {
    assert_eq!(PokemonType::from_name("Normal"), Some(PokemonType::Normal));
    assert_eq!(PokemonType::from_name("Shiny"), Some(PokemonType::Shiny));
    assert_eq!(PokemonType::from_name("AprilFools"), Some(PokemonType::AprilFools));
    assert_eq!(PokemonType::from_name("shiny"), None);
}

#[test]
fn stats_display() {
    let stats = social_credit_bot::models::pokemon::pokemon_info::PokemonStats {
        hp: 45,
        atk: 49,
        def: 49,
        spa: 65,
        spd: 65,
        spe: -3,
    };
    assert_eq!(
        stats.to_display_string(),
        "45 HP\n49 Attack\n49 Defense\n65 Special Attack\n65 Special Defense\n-3 Speed"
    );
}

#[test]
fn rarity_colours_and_names() {
    assert_eq!(PokemonRarity::Normal.get_color_for_embed(), 0x979C9F);
    assert_eq!(PokemonRarity::Legendary.get_color_for_embed(), 0xF1C40F);
    assert_eq!(PokemonRarity::Mythical.get_color_for_embed(), 0x6FC6E2);
    assert_eq!(PokemonRarity::from_stored_name("mythical"), Some(PokemonRarity::Mythical));
    assert_eq!(PokemonRarity::from_stored_name("mythic"), None);
    assert_eq!("mythic".parse::<PokemonRarity>(), Ok(PokemonRarity::Mythical));
    assert_eq!("legendary".parse::<PokemonRarity>(), Ok(PokemonRarity::Legendary));
    assert_eq!(
        "mythical".parse::<PokemonRarity>(),
        Err("Got an invalid value while parsing a PokemonRarity: mythical".to_string())
    );
    assert_eq!(PokemonRarity::default(), PokemonRarity::Normal);
}

#[test]
fn defaults_and_copies() {
    assert!(has_ani_sprite_default());
    let blank = Pokemon::default();
    assert!(blank.name.is_empty() && blank.types.is_empty() && !blank.has_ani_sprite && blank.num == 0);
    let p = Pokemon {
        name: "Ditto".to_string(),
        types: vec!["Normal".to_string()],
        evolutions: Some(vec!["None".to_string()]),
        num: 132,
        ..Default::default()
    };
    let q = p.duplicate();
    assert_eq!(q.name, "Ditto");
    assert_eq!(q.types, vec!["Normal".to_string()]);
    assert_eq!(q.evolutions, Some(vec!["None".to_string()]));
    assert_eq!(q.num, 132);
}
