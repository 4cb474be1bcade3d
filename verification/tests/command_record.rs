use social_credit_bot::models::pokemon::pokemon_command_record::{PokemonCommandRecord, SECS_BETWEEN_USES};

fn record(last_used_at: i64) -> PokemonCommandRecord {
    PokemonCommandRecord { discord_id: "1".to_string(), last_used_at, times_used: 4 }
}

#[test]
fn three_hours_between_catches() {
    assert_eq!(SECS_BETWEEN_USES, 10800);
}

#[test]
fn too_soon_reports_the_wait() {
    assert_eq!(record(1000).enough_time_since_timestamp(1000), Err(10800));
    assert_eq!(record(1000).enough_time_since_timestamp(5000), Err(6800));
}

#[test]
fn waiting_the_reported_time_is_enough() {
    let r = record(1000);
    let now = 5000;
    let wait = r.enough_time_since_timestamp(now).unwrap_err();
    assert_eq!(r.enough_time_since_timestamp(now + wait), Ok(()));
    assert_eq!(r.enough_time_since_timestamp(now + wait - 1), Err(1));
    assert_eq!(r.enough_time_since_timestamp(now + wait + 100), Ok(()));
}
