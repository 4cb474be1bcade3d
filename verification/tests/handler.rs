use social_credit_bot::db::{Database, OwnershipWrite, UserLookup, UserStep};
use social_credit_bot::handler::{leaderboard_reply, Command, Handler, LeaderboardReply, Member, MessageRoute, ReactType};
use social_credit_bot::models::leaderboard::{LeaderboardEntry, LeaderboardType};
use social_credit_bot::models::pokemon::pokemon_command_record::PokemonCommandRecord;
use social_credit_bot::models::pokemon::pokemon_info::PokemonType;
use social_credit_bot::models::pokemon::pokemon_ownership_record::PokemonOwnershipRecord;
use social_credit_bot::social_credit::SocialCredit;

fn command_of(content: &str) -> Option<Command> {
    match Handler::route_message(false, content) {
        MessageRoute::Run(c) => Some(c),
        _ => None,
    }
}

#[test]
fn routes_known_commands_case_insensitively() {
    assert!(matches!(command_of("!check"), Some(Command::Check)));
    assert!(matches!(command_of("!CHECK @someone"), Some(Command::Check)));
    assert!(matches!(command_of("!Credit"), Some(Command::Credit)));
    assert!(matches!(command_of("!leaderboard positive"), Some(Command::Leaderboard)));
    assert!(matches!(command_of("!pokemon"), Some(Command::Pokemon)));
}

#[test]
fn routes_unknown_commands_with_their_word() {
    match command_of("!dance now") {
        Some(Command::Unknown(s)) => assert_eq!(s, "!dance"),
        _ => panic!("expected an unknown command"),
    }
    assert_eq!(Handler::unknown_command_log(42, "!dance"), "User 42 tried to use command !dance");
}

#[test]
fn ignores_bots_and_plain_messages() {
    assert!(matches!(Handler::route_message(true, "!check"), MessageRoute::Ignore));
    assert!(matches!(Handler::route_message(false, "check"), MessageRoute::Ignore));
    assert!(matches!(Handler::route_message(false, ""), MessageRoute::Ignore));
    assert!(matches!(Handler::route_message(false, " !check"), MessageRoute::Ignore));
}

#[test]
fn reactions_that_vote() {
    assert_eq!(Handler::reaction_kind(Some("positivefriend")), Some(ReactType::AddScore));
    assert_eq!(Handler::reaction_kind(Some("negativefriend")), Some(ReactType::SubtractScore));
    assert_eq!(Handler::reaction_kind(Some("thumbsup")), None);
    assert_eq!(Handler::reaction_kind(None), None);
}

#[test]
fn no_votes_on_own_messages() {
    assert!(!Handler::counts_reaction(7, Some(7)));
    assert!(Handler::counts_reaction(7, Some(70)));
    assert!(Handler::counts_reaction(7, None));
}

#[test]
fn vote_log_lines() {
    assert_eq!(Handler::credit_update_log(ReactType::AddScore, "9", true), "Added social credit for user 9");
    assert_eq!(Handler::credit_update_log(ReactType::AddScore, "9", false), "Failed to add social credit for user 9");
    assert_eq!(Handler::credit_update_log(ReactType::SubtractScore, "9", true), "Subtracted social credit for user 9");
    assert_eq!(
        Handler::credit_update_log(ReactType::SubtractScore, "9", false),
        "Failed to subtract social credit for user 9"
    );
}

#[test]
fn credit_report_for_known_and_unknown_members() {
    let found = SocialCredit { username: "misty".to_string(), positive_credit: 5, negative_credit: 7, traded_credit: 1 };
    let report = Handler::credit_report(Some(found), "ignored".to_string());
    assert_eq!(report.title, "misty Social Credit Score");
    assert_eq!(report.positive, "5");
    assert_eq!(report.negative, "7");
    assert_eq!(report.sum, usize::MAX.to_string());

    let report = Handler::credit_report(None, "brock".to_string());
    assert_eq!(report.title, "brock Social Credit Score");
    assert_eq!(report.positive, "0");
    assert_eq!(report.negative, "0");
    assert_eq!(report.sum, "0");
}

#[test]
fn cooldown_notice_when_too_soon() {
    let record = Some(PokemonCommandRecord { discord_id: "1".to_string(), last_used_at: 1000, times_used: 1 });
    assert_eq!(
        Handler::cooldown_notice(&record, 1000),
        Some(":x: You need to wait another 3 hours, 0 minutes, and 0 seconds before catching another pokemon.".to_string())
    );
    assert_eq!(Handler::cooldown_notice(&record, 1000 + 10800), None);
    assert_eq!(Handler::cooldown_notice(&None, 0), None);
}

#[test]
fn catch_announcement_mentions_the_member() {
    assert_eq!(
        Handler::catch_announcement(123, PokemonType::Shiny, "Mew".to_string()),
        "<@123>, you caught a shiny **Mew**"
    );
}

#[test]
fn types_joined_with_slashes() {
    assert_eq!(Handler::types_line(&vec![]), "");
    assert_eq!(Handler::types_line(&vec!["Fire".to_string()]), "Fire");
    assert_eq!(Handler::types_line(&vec!["Grass".to_string(), "Poison".to_string()]), "Grass / Poison");
}

#[test]
fn footer_is_one_of_the_nine() {
    let (text, icon) = Handler::pick_footer();
    assert!(icon.starts_with("https://play.pokemonshowdown.com/sprites/itemicons/"));
    assert!(!text.is_empty());
}

#[test]
fn leaderboard_type_from_command() {
    assert_eq!(LeaderboardType::from_command("!leaderboard"), LeaderboardType::Sum);
    assert_eq!(LeaderboardType::from_command("!leaderboard positive"), LeaderboardType::Positive);
    assert_eq!(LeaderboardType::from_command("!leaderboard   negative extra"), LeaderboardType::Negative);
    assert_eq!(LeaderboardType::from_command("!leaderboard total"), LeaderboardType::Total);
    assert_eq!(LeaderboardType::from_command("!leaderboard sum"), LeaderboardType::Sum);
    assert_eq!(LeaderboardType::from_command("!leaderboard Positive"), LeaderboardType::Sum);
    assert_eq!(LeaderboardType::Total.name(), "Total");
}

#[test]
fn leaderboard_reply_table() {
    let entries: Vec<LeaderboardEntry> = (0..5)
        .map(|i| LeaderboardEntry { username: format!("user{}", i), vote_count: 10 - 3 * i as i64 })
        .collect();
    match leaderboard_reply(LeaderboardType::Positive, &entries) {
        LeaderboardReply::Table { title, places, users, scores } => {
            assert_eq!(title, "Positive Leaderboard");
            assert_eq!(places, ":first_place:\n:second_place:\n:third_place:\n4\n5\n");
            assert_eq!(users, "user0\nuser1\nuser2\nuser3\nuser4\n");
            assert_eq!(scores, "10\n7\n4\n1\n-2\n");
            assert_eq!(places.lines().count(), users.lines().count());
            assert_eq!(users.lines().count(), scores.lines().count());
        }
        LeaderboardReply::NoEntries(_) => panic!("expected a table"),
    }
}

#[test]
fn leaderboard_reply_empty() {
    match leaderboard_reply(LeaderboardType::Sum, &vec![]) {
        LeaderboardReply::NoEntries(text) => assert_eq!(text, "There are no entries yet to rank on a leaderboard."),
        LeaderboardReply::Table { .. } => panic!("expected no entries"),
    }
}

#[test]
fn user_lookup_decisions() {
    assert!(matches!(Database::after_user_lookup(UserLookup::Found), UserStep::Ready));
    assert!(matches!(Database::after_user_lookup(UserLookup::Missing), UserStep::AddUser));
    match Database::after_user_lookup(UserLookup::Failed) {
        UserStep::Fail(e) => assert_eq!(e, "Unhandled error when getting a user social credit"),
        _ => panic!("expected a failure"),
    }
    assert_eq!(Database::after_add_user(true), Ok(()));
    assert_eq!(
        Database::after_add_user(false),
        Err("Failed to add user to db when handling social credit retrieval".to_string())
    );
}

#[test]
fn ownership_write_increments_or_inserts() {
    let existing = Some(PokemonOwnershipRecord {
        discord_id: "1".to_string(),
        pokemon_slug: "mew".to_string(),
        number_owned: 3,
        pokemon_type: PokemonType::Normal,
    });
    assert_eq!(Database::ownership_write(&existing), OwnershipWrite::SetCount(4));
    assert_eq!(Database::ownership_write(&None), OwnershipWrite::InsertFirst);
}

#[test]
fn leaderboard_queries() {
    assert!(Database::leaderboard_query(LeaderboardType::Positive).contains("ORDER BY positive_credit DESC LIMIT 5"));
    assert!(Database::leaderboard_query(LeaderboardType::Negative).contains("ORDER BY negative_credit DESC LIMIT 5"));
    assert!(Database::leaderboard_query(LeaderboardType::Total).contains("positive_credit + social_credit.negative_credit"));
    assert!(Database::leaderboard_query(LeaderboardType::Sum).contains("positive_credit - social_credit.negative_credit"));
}

#[test]
fn credit_check_targets_first_mention_else_author() {
    let author = || Member { id: 1, name: "alice".to_string() };
    let r = Handler::credit_target(author(), vec![]);
    assert_eq!((r.id, r.name.as_str()), (1, "alice"));
    let mentions = vec![Member { id: 7, name: "bob".to_string() }, Member { id: 9, name: "carol".to_string() }];
    let r = Handler::credit_target(author(), mentions);
    assert_eq!((r.id, r.name.as_str()), (7, "bob"));
}

#[test]
fn catch_runs_ownership_write_then_command_stamp() {
    let (own, cmd) = Database::catch_statements(OwnershipWrite::SetCount(3));
    assert_eq!(own, "UPDATE pokemon_ownership_record SET number_owned = ? WHERE discord_id = ? AND pokemon_slug = ? AND pokemon_type = ?");
    assert_eq!(cmd, "UPDATE pokemon_command_record SET last_used_at = ?, times_used = times_used + 1 WHERE discord_id = ?");
    let (own, _) = Database::catch_statements(OwnershipWrite::InsertFirst);
    assert_eq!(own, "INSERT INTO pokemon_ownership_record (discord_id, pokemon_slug, number_owned, pokemon_type) VALUES (?, ?, 1, ?)");
}
