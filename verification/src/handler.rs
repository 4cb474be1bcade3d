//! What the bot does with the events Discord sends it: which command a
//! message runs, which reactions count as votes, and the text of every
//! reply. Receiving events and sending replies is left to the program.

use vstd::prelude::*;
use vstd::string::*;

use crate::models::leaderboard::{leaderboard_name, LeaderboardEntry, LeaderboardType};
use crate::models::pokemon::pokemon_command_record::{time_past_wait, PokemonCommandRecord, SECS_BETWEEN_USES};
use crate::models::pokemon::pokemon_info::{catch_text, PokemonType};
use crate::random::{choose_one, thread_rng};
use crate::social_credit::SocialCredit;
use crate::text::{
    digit_char, int_text, lemma_nat_text_injective, lemma_words_shape, lowercase, nat_text, push_int, push_nat,
    same_text, split_words, to_lowercase, words,
};
use crate::util::{human_duration, seconds_to_human_readable};

verus! {

/// Handles the events the bot receives.
pub struct Handler;

/// The character that starts a command.
pub const COMMAND_DELIMITER: char = '!';

/// A command a member can give.
pub enum Command {
    Check,
    Credit,
    Leaderboard,
    Pokemon,
    /// Any other word that starts with the delimiter; it is logged.
    Unknown(String),
}

/// What to do with a message.
pub enum MessageRoute {
    /// Not a command, or sent by a bot.
    Ignore,
    /// A command with no word to name it.
    NoCommand,
    /// Run this command.
    Run(Command),
}

/// A reaction that counts as a vote.
#[derive(Clone, Copy, Debug, PartialEq, Eq, Structural)]
pub enum ReactType {
    AddScore,
    SubtractScore,
}

/// Whether a message starts with the command delimiter.
pub open spec fn starts_command(content: Seq<char>) -> bool {
    content.len() > 0 && content[0] == '!'
}

/// The command that the first word of a message names: the word without
/// its delimiter, in lowercase, decides it.
pub open spec fn names_command(cmd: Command, segment: Seq<char>) -> bool {
    let name = lowercase(segment.drop_first());
    match cmd {
        Command::Check => name == "check"@,
        Command::Credit => name == "credit"@,
        Command::Leaderboard => name == "leaderboard"@,
        Command::Pokemon => name == "pokemon"@,
        Command::Unknown(s) => s@ == segment && name != "check"@ && name != "credit"@ && name
            != "leaderboard"@ && name != "pokemon"@,
    }
}

/// Commands ignore case: two first words whose remainders after the
/// delimiter have the same lowercase name the same known command.
pub proof fn lemma_commands_ignore_case(cmd: Command, a: Seq<char>, b: Seq<char>)
    requires
        !(cmd is Unknown),
        names_command(cmd, a),
        lowercase(a.drop_first()) == lowercase(b.drop_first()),
    ensures
        names_command(cmd, b),
{
}

/// The lines of a leaderboard's "Place" column: medals for the first three
/// places, then the place's number.
pub open spec fn place_line(pos: nat) -> Seq<char> {
    if pos == 0 {
        ":first_place:\n"@
    } else if pos == 1 {
        ":second_place:\n"@
    } else if pos == 2 {
        ":third_place:\n"@
    } else {
        nat_text(pos + 1) + "\n"@
    }
}

/// The "Place" column of a leaderboard with `n` rows.
pub open spec fn places_column(n: nat) -> Seq<char>
    decreases n,
{
    if n == 0 {
        Seq::empty()
    } else {
        places_column((n - 1) as nat) + place_line((n - 1) as nat)
    }
}

/// The "User" column: one member's name per line.
pub open spec fn users_column(es: Seq<LeaderboardEntry>) -> Seq<char>
    decreases es.len(),
{
    if es.len() == 0 {
        Seq::empty()
    } else {
        users_column(es.drop_last()) + es.last().username@ + "\n"@
    }
}

/// The "Score" column: one score per line.
pub open spec fn scores_column(es: Seq<LeaderboardEntry>) -> Seq<char>
    decreases es.len(),
{
    if es.len() == 0 {
        Seq::empty()
    } else {
        scores_column(es.drop_last()) + int_text(es.last().vote_count as int) + "\n"@
    }
}

/// The number of line breaks in a text.
pub open spec fn line_breaks(s: Seq<char>) -> nat
    decreases s.len(),
{
    if s.len() == 0 {
        0
    } else {
        line_breaks(s.drop_last()) + if s.last() == '\n' {
            1nat
        } else {
            0nat
        }
    }
}

proof fn lemma_line_breaks_concat(a: Seq<char>, b: Seq<char>)
    ensures
        line_breaks(a + b) == line_breaks(a) + line_breaks(b),
    decreases b.len(),
{
    if b.len() == 0 {
        assert(a + b =~= a);
    } else {
        lemma_line_breaks_concat(a, b.drop_last());
        assert((a + b).drop_last() =~= a + b.drop_last());
        assert((a + b).last() == b.last());
    }
}

proof fn lemma_nat_text_no_breaks(n: nat)
    ensures
        line_breaks(nat_text(n)) == 0,
    decreases n,
{
    if n >= 10 {
        lemma_nat_text_no_breaks(n / 10);
        assert(nat_text(n).drop_last() =~= nat_text(n / 10));
        assert(nat_text(n).last() == digit_char((n % 10) as int));
    } else {
        assert(nat_text(n).drop_last() =~= Seq::<char>::empty());
        assert(line_breaks(Seq::<char>::empty()) == 0);
        assert(nat_text(n).last() == digit_char(n as int));
    }
}

proof fn lemma_one_break(s: Seq<char>)
    requires
        s.len() > 0,
        s.last() == '\n',
        forall|k: int| 0 <= k < s.len() - 1 ==> s[k] != '\n',
    ensures
        line_breaks(s) == 1,
{
    let p = s.drop_last();
    assert forall|k: int| 0 <= k < p.len() implies p[k] != '\n' by {
        assert(p[k] == s[k]);
    }
    lemma_no_breaks(p);
}

proof fn lemma_no_breaks(s: Seq<char>)
    requires
        forall|k: int| 0 <= k < s.len() ==> s[k] != '\n',
    ensures
        line_breaks(s) == 0,
    decreases s.len(),
{
    if s.len() > 0 {
        let p = s.drop_last();
        assert forall|k: int| 0 <= k < p.len() implies p[k] != '\n' by {
            assert(p[k] == s[k]);
        }
        lemma_no_breaks(p);
    }
}

proof fn lemma_place_line_one_break(pos: nat)
    ensures
        line_breaks(place_line(pos)) == 1,
{
    reveal_strlit(":first_place:\n");
    reveal_strlit(":second_place:\n");
    reveal_strlit(":third_place:\n");
    reveal_strlit("\n");
    if pos == 0 {
        lemma_one_break(":first_place:\n"@);
    } else if pos == 1 {
        lemma_one_break(":second_place:\n"@);
    } else if pos == 2 {
        lemma_one_break(":third_place:\n"@);
    } else {
        lemma_nat_text_no_breaks(pos + 1);
        lemma_one_break("\n"@);
        lemma_line_breaks_concat(nat_text(pos + 1), "\n"@);
    }
}

/// The three columns of a leaderboard line up: each has one line per row,
/// as long as no member's name holds a line break.
pub proof fn lemma_columns_line_up(es: Seq<LeaderboardEntry>)
    requires
        forall|i: int| 0 <= i < es.len() ==> line_breaks(#[trigger] es[i].username@) == 0,
    ensures
        line_breaks(places_column(es.len())) == es.len(),
        line_breaks(users_column(es)) == es.len(),
        line_breaks(scores_column(es)) == es.len(),
    decreases es.len(),
{
    reveal_strlit("\n");
    reveal_strlit("-");
    if es.len() > 0 {
        let p = es.drop_last();
        assert forall|i: int| 0 <= i < p.len() implies line_breaks(#[trigger] p[i].username@) == 0 by {
            assert(p[i] == es[i]);
        }
        lemma_columns_line_up(p);
        let n = (es.len() - 1) as nat;
        lemma_place_line_one_break(n);
        lemma_line_breaks_concat(places_column(n), place_line(n));
        lemma_one_break("\n"@);
        let last = es.last();
        assert(line_breaks(last.username@) == 0);
        lemma_line_breaks_concat(users_column(p), last.username@);
        lemma_line_breaks_concat(users_column(p) + last.username@, "\n"@);
        let v = last.vote_count as int;
        lemma_nat_text_no_breaks((if v < 0 { -v } else { v }) as nat);
        if v < 0 {
            lemma_one_break_free_dash((-v) as nat);
        }
        lemma_line_breaks_concat(scores_column(p), int_text(v));
        lemma_line_breaks_concat(scores_column(p) + int_text(v), "\n"@);
    }
}

proof fn lemma_one_break_free_dash(n: nat)
    ensures
        line_breaks(seq!['-'] + nat_text(n)) == 0,
{
    lemma_nat_text_no_breaks(n);
    lemma_line_breaks_concat(seq!['-'], nat_text(n));
    assert(seq!['-'].drop_last() =~= Seq::<char>::empty());
    assert(line_breaks(Seq::<char>::empty()) == 0);
    assert(line_breaks(seq!['-']) == 0);
}

/// The reply to a leaderboard command.
pub enum LeaderboardReply {
    /// There is nobody to rank yet; send this text.
    NoEntries(String),
    /// A table under a title, with three columns.
    Table { title: String, places: String, users: String, scores: String },
}

/// A server member as the credit check sees them: their id and user name.
pub struct Member {
    pub id: u64,
    pub name: String,
}

/// What the credit check shows of a member.
pub struct CreditReport {
    pub title: String,
    pub positive: String,
    pub negative: String,
    pub sum: String,
}

/// The footers a catch message can carry: a caption and an item icon.
pub open spec fn footers() -> Seq<(Seq<char>, Seq<char>)> {
    seq![
        ("Get squirted on"@, "https://play.pokemonshowdown.com/sprites/itemicons/squirtbottle.png"@),
        ("You've got mail"@, "https://play.pokemonshowdown.com/sprites/itemicons/air-mail.png"@),
        ("Bought with mom's credit card"@, "https://play.pokemonshowdown.com/sprites/itemicons/blue-card.png"@),
        ("CHAOS CONTROL"@, "https://play.pokemonshowdown.com/sprites/itemicons/bug-gem.png"@),
        ("Pills here"@, "https://play.pokemonshowdown.com/sprites/itemicons/calcium.png"@),
        ("Lord Helix was here"@, "https://play.pokemonshowdown.com/sprites/itemicons/helix-fossil.png"@),
        ("Listen to my mixtape"@, "https://play.pokemonshowdown.com/sprites/itemicons/hm-dragon.png"@),
        ("There's a bottom healing on everyone!"@, "https://play.pokemonshowdown.com/sprites/itemicons/hyper-potion.png"@),
        ("You fell for my master bait"@, "https://play.pokemonshowdown.com/sprites/itemicons/master-ball.png"@),
    ]
}

/// Texts joined with " / " between them.
pub open spec fn joined(list: Seq<String>) -> Seq<char>
    decreases list.len(),
{
    if list.len() == 0 {
        Seq::empty()
    } else if list.len() == 1 {
        list[0]@
    } else {
        joined(list.drop_last()) + " / "@ + list.last()@
    }
}

impl Handler {
    /// What to do with a message: nothing when a bot sent it or it does not
    /// start with the delimiter; otherwise the command its first word names.
    pub fn route_message(author_is_bot: bool, content: &str) -> (r: MessageRoute)
        ensures
            match r {
                MessageRoute::Ignore => author_is_bot || !starts_command(content@),
                MessageRoute::NoCommand => !author_is_bot && starts_command(content@) && words(
                    content@,
                ).len() == 0,
                MessageRoute::Run(cmd) => !author_is_bot && starts_command(content@) && words(
                    content@,
                ).len() > 0 && names_command(cmd, words(content@)[0]),
            },
    {
        // Do not process a message if it was sent by a bot
        if author_is_bot {
            return MessageRoute::Ignore;
        }
        // Process a message as a command if it begins with COMMAND_DELIMITER
        if content.unicode_len() == 0 || content.get_char(0) != COMMAND_DELIMITER {
            return MessageRoute::Ignore;
        }
        let segments = split_words(content);
        if segments.len() == 0 {
            return MessageRoute::NoCommand;
        }
        proof {
            lemma_words_shape(content@);
            assert(words(content@)[0].len() > 0);
        }
        let segment = segments[0].as_str();
        // Strip out the command prefix and make the command case-insensitive
        let rest = segment.substring_char(1, segment.unicode_len());
        assert(rest@ =~= segment@.drop_first());
        let command = to_lowercase(rest);
        let cmd = if same_text(command.as_str(), "check") {
            Command::Check
        } else if same_text(command.as_str(), "credit") {
            Command::Credit
        } else if same_text(command.as_str(), "leaderboard") {
            Command::Leaderboard
        } else if same_text(command.as_str(), "pokemon") {
            Command::Pokemon
        } else {
            Command::Unknown(segment.to_owned())
        };
        MessageRoute::Run(cmd)
    }

    /// The log line for a command the bot does not know.
    pub fn unknown_command_log(user_id: u64, segment: &str) -> (r: String)
        ensures
            r@ == "User "@ + nat_text(user_id as nat) + " tried to use command "@ + segment@,
    {
        let mut line = String::new();
        line.append("User ");
        push_nat(&mut line, user_id);
        line.append(" tried to use command ");
        line.append(segment);
        assert(line@ =~= "User "@ + nat_text(user_id as nat) + " tried to use command "@ + segment@);
        line
    }

    /// The vote a custom emoji casts: the "positivefriend" emoji adds to
    /// the author's score, the "negativefriend" emoji subtracts; any other
    /// reaction is no vote.
    pub fn reaction_kind(emoji_name: Option<&str>) -> (r: Option<ReactType>)
        ensures
            r == (match emoji_name {
                Some(n) => if n@ == "positivefriend"@ {
                    Some(ReactType::AddScore)
                } else if n@ == "negativefriend"@ {
                    Some(ReactType::SubtractScore)
                } else {
                    None
                },
                None => None,
            }),
    {
        match emoji_name {
            Some(name) => {
                if same_text(name, "positivefriend") {
                    Some(ReactType::AddScore)
                } else if same_text(name, "negativefriend") {
                    Some(ReactType::SubtractScore)
                } else {
                    None
                }
            },
            None => None,
        }
    }

    /// Whether a vote counts: members cannot vote on their own messages.
    /// The ids are compared in their decimal form, as the database keeps
    /// them.
    pub fn counts_reaction(author_id: u64, reactor_id: Option<u64>) -> (r: bool)
        ensures
            r <==> !(reactor_id == Some(author_id)),
    {
        match reactor_id {
            Some(id) => {
                let author = crate::text::nat_to_string(author_id);
                let reactor = crate::text::nat_to_string(id);
                let same = same_text(author.as_str(), reactor.as_str());
                proof {
                    if same {
                        lemma_nat_text_injective(author_id as nat, id as nat);
                    }
                }
                !same
            },
            None => true,
        }
    }

    /// The log line after a vote was recorded or failed.
    pub fn credit_update_log(kind: ReactType, user_id: &str, succeeded: bool) -> (r: String)
        ensures
            r@ == (match (kind, succeeded) {
                (ReactType::AddScore, true) => "Added social credit for user "@,
                (ReactType::AddScore, false) => "Failed to add social credit for user "@,
                (ReactType::SubtractScore, true) => "Subtracted social credit for user "@,
                (ReactType::SubtractScore, false) => "Failed to subtract social credit for user "@,
            }) + user_id@,
    {
        let mut line = String::new();
        match kind {
            ReactType::AddScore => {
                if succeeded {
                    line.append("Added social credit for user ");
                } else {
                    line.append("Failed to add social credit for user ");
                }
            },
            ReactType::SubtractScore => {
                if succeeded {
                    line.append("Subtracted social credit for user ");
                } else {
                    line.append("Failed to subtract social credit for user ");
                }
            },
        }
        line.append(user_id);
        line
    }

    /// Whose credit a check is about: the first member the message mentions,
    /// or its author when it mentions nobody.
    pub fn credit_target(author: Member, mentions: Vec<Member>) -> (r: Member)
        ensures
            mentions@.len() == 0 ==> r == author,
            mentions@.len() > 0 ==> r == mentions@[0],
    {
        let mut mentions = mentions;
        if mentions.len() == 0 {
            author
        } else {
            mentions.swap_remove(0)
        }
    }

    /// What the credit check shows: the member's record when there is one,
    /// otherwise a record of zeros under the member's name.
    pub fn credit_report(found: Option<SocialCredit>, fallback_username: String) -> (r:
        CreditReport)
        requires
            found matches Some(c) ==> i64::MIN <= c.positive_credit + c.traded_credit <= i64::MAX
                && i64::MIN <= c.score() <= i64::MAX,
        ensures
            match found {
                Some(c) => {
                    &&& r.title@ == c.username@ + " Social Credit Score"@
                    &&& r.positive@ == int_text(c.positive_credit as int)
                    &&& r.negative@ == int_text(c.negative_credit as int)
                    &&& r.sum@ == nat_text((c.score() as usize) as nat)
                },
                None => {
                    &&& r.title@ == fallback_username@ + " Social Credit Score"@
                    &&& r.positive@ == int_text(0)
                    &&& r.negative@ == int_text(0)
                    &&& r.sum@ == nat_text(0)
                },
            },
    {
        let credit = match found {
            Some(credit) => credit,
            None => SocialCredit {
                username: fallback_username,
                positive_credit: 0,
                negative_credit: 0,
                traded_credit: 0,
            },
        };
        let mut title = String::new();
        title.append(credit.username.as_str());
        title.append(" Social Credit Score");
        let positive = crate::text::int_to_string(credit.positive_credit);
        let negative = crate::text::int_to_string(credit.negative_credit);
        let sum = crate::text::nat_to_string(credit.sum_score() as u64);
        CreditReport { title, positive, negative, sum }
    }

    /// The reply when a member tries to catch again too soon: how long they
    /// still have to wait. `None` when they may catch (or have never
    /// caught).
    pub fn cooldown_notice(record: &Option<PokemonCommandRecord>, now: i64) -> (r: Option<String>)
        requires
            record matches Some(c) ==> i64::MIN <= now - SECS_BETWEEN_USES && i64::MIN
                < time_past_wait(c.last_used_at as int, now as int) <= i64::MAX,
        ensures
            match record {
                Some(c) => if time_past_wait(c.last_used_at as int, now as int) < 0 {
                    r matches Some(t) && t@ == ":x: You need to wait another "@ + human_duration(
                        -time_past_wait(c.last_used_at as int, now as int),
                    ) + " before catching another pokemon."@
                } else {
                    r is None
                },
                None => r is None,
            },
    {
        match record {
            Some(command_record) => match command_record.enough_time_since_timestamp(now) {
                Ok(()) => None,
                Err(time_remaining) => {
                    // The user has used this command too recently
                    let time_remaining = seconds_to_human_readable(time_remaining);
                    let mut text = String::new();
                    text.append(":x: You need to wait another ");
                    text.append(time_remaining.as_str());
                    text.append(" before catching another pokemon.");
                    Some(text)
                },
            },
            None => None,
        }
    }

    /// The sentence that tells the channel what a member caught: a mention
    /// of the member, then the catch sentence.
    pub fn catch_announcement(author_id: u64, kind: PokemonType, pokemon_name: String) -> (r:
        String)
        ensures
            r@ == "<@"@ + nat_text(author_id as nat) + ">, "@ + catch_text(kind, pokemon_name@),
    {
        let mut text = String::new();
        text.append("<@");
        push_nat(&mut text, author_id);
        text.append(">, ");
        let sentence = kind.get_display_text_for_type(pokemon_name);
        text.append(sentence.as_str());
        text
    }

    /// A Pokémon's types for the catch message, joined with " / ".
    pub fn types_line(types: &Vec<String>) -> (r: String)
        ensures
            r@ == joined(types@),
    {
        let mut line = String::new();
        let mut i: usize = 0;
        while i < types.len()
            invariant
                i <= types@.len(),
                line@ == joined(types@.take(i as int)),
            decreases types@.len() - i,
        {
            assert(types@.take(i + 1).drop_last() =~= types@.take(i as int));
            if i > 0 {
                line.append(" / ");
            }
            line.append(types[i].as_str());
            proof {
                if i == 0 {
                    assert(line@ =~= types@[0]@);
                }
            }
            i = i + 1;
        }
        assert(types@.take(types@.len() as int) =~= types@);
        line
    }

    /// Picks the footer of a catch message by chance.
    pub fn pick_footer() -> (r: (&'static str, &'static str))
        ensures
            footers().contains((r.0@, r.1@)),
    {
        let choices: Vec<(&'static str, &'static str)> = vec![
            ("Get squirted on", "https://play.pokemonshowdown.com/sprites/itemicons/squirtbottle.png"),
            ("You've got mail", "https://play.pokemonshowdown.com/sprites/itemicons/air-mail.png"),
            ("Bought with mom's credit card", "https://play.pokemonshowdown.com/sprites/itemicons/blue-card.png"),
            ("CHAOS CONTROL", "https://play.pokemonshowdown.com/sprites/itemicons/bug-gem.png"),
            ("Pills here", "https://play.pokemonshowdown.com/sprites/itemicons/calcium.png"),
            ("Lord Helix was here", "https://play.pokemonshowdown.com/sprites/itemicons/helix-fossil.png"),
            ("Listen to my mixtape", "https://play.pokemonshowdown.com/sprites/itemicons/hm-dragon.png"),
            ("There's a bottom healing on everyone!", "https://play.pokemonshowdown.com/sprites/itemicons/hyper-potion.png"),
            ("You fell for my master bait", "https://play.pokemonshowdown.com/sprites/itemicons/master-ball.png"),
        ];
        assert(choices@.len() == 9);
        // Choose a footer text and image
        let mut rng = thread_rng();
        let chosen = *choose_one(choices.as_slice(), &mut rng).unwrap();
        proof {
            let k = choose|k: int| 0 <= k < choices@.len() && choices@[k] == chosen;
            assert(footers()[k] == (choices@[k].0@, choices@[k].1@));
        }
        chosen
    }
}

/// The reply to a leaderboard command for the rows the query gave.
pub fn leaderboard_reply(leaderboard_type: LeaderboardType, entries: &Vec<LeaderboardEntry>) -> (r:
    LeaderboardReply)
    ensures
        match r {
            LeaderboardReply::NoEntries(text) => entries@.len() == 0 && text@
                == "There are no entries yet to rank on a leaderboard."@,
            LeaderboardReply::Table { title, places, users, scores } => {
                &&& entries@.len() > 0
                &&& title@ == leaderboard_name(leaderboard_type) + " Leaderboard"@
                &&& places@ == places_column(entries@.len())
                &&& users@ == users_column(entries@)
                &&& scores@ == scores_column(entries@)
            },
        },
{
    if entries.len() == 0 {
        return LeaderboardReply::NoEntries(
            "There are no entries yet to rank on a leaderboard.".to_owned(),
        );
    }
    let mut places = String::new();
    let mut users = String::new();
    let mut scores = String::new();
    let mut pos: usize = 0;
    while pos < entries.len()
        invariant
            pos <= entries@.len(),
            places@ == places_column(pos as nat),
            users@ == users_column(entries@.take(pos as int)),
            scores@ == scores_column(entries@.take(pos as int)),
        decreases entries@.len() - pos,
    {
        let entry = &entries[pos];
        assert(entries@.take(pos + 1).drop_last() =~= entries@.take(pos as int));
        assert(entries@.take(pos + 1).last() == *entry);
        if pos == 0 {
            places.append(":first_place:\n");
        } else if pos == 1 {
            places.append(":second_place:\n");
        } else if pos == 2 {
            places.append(":third_place:\n");
        } else {
            push_nat(&mut places, (pos + 1) as u64);
            places.append("\n");
        }
        users.append(entry.username.as_str());
        users.append("\n");
        push_int(&mut scores, entry.vote_count);
        scores.append("\n");
        pos = pos + 1;
    }
    assert(entries@.take(entries@.len() as int) =~= entries@);
    let mut title = String::new();
    title.append(leaderboard_type.name());
    title.append(" Leaderboard");
    LeaderboardReply::Table { title, places, users, scores }
}

} // verus!
