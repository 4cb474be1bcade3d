use social_credit_bot::social_credit::SocialCredit;

fn credit(positive: i64, negative: i64, traded: i64) -> SocialCredit {
    SocialCredit { username: "ash".to_string(), positive_credit: positive, negative_credit: negative, traded_credit: traded }
}

#[test]
fn sum_score_adds_traded_and_subtracts_negative() {
    assert_eq!(credit(10, 3, 2).sum_score(), 9);
    assert_eq!(credit(0, 0, 0).sum_score(), 0);
}

#[test]
fn negative_sum_wraps_as_usize() {
    assert_eq!(credit(0, 1, 0).sum_score(), usize::MAX);
}

#[test]
fn a_vote_moves_the_score_by_one() {
    let c = |p: i64, n: i64, t: i64| SocialCredit { username: "u".to_string(), positive_credit: p, negative_credit: n, traded_credit: t };
    assert_eq!(c(4, 1, 2).sum_score(), 5);
    assert_eq!(c(5, 1, 2).sum_score(), 6);
    assert_eq!(c(4, 2, 2).sum_score(), 4);
    // Where the unsigned score wraps around.
    assert_eq!(c(0, 1, 0).sum_score(), usize::MAX);
    assert_eq!(c(1, 1, 0).sum_score(), 0);
    assert_eq!(c(0, 2, 0).sum_score(), usize::MAX - 1);
}
