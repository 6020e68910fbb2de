use vstd::arithmetic::div_mod::{
    lemma_div_is_ordered, lemma_div_multiples_vanish, lemma_div_nonincreasing,
};
use vstd::arithmetic::logarithm::{lemma_log0, lemma_log_s, log};
use vstd::arithmetic::power::{lemma_pow0, lemma_pow1, pow};
use vstd::prelude::*;

verus! {

/// Highest reputation score.
pub const MAX_SCORE: u8 = 100;

/// Score of an agent that has not logged an action yet.
pub const NEUTRAL_SCORE: u8 = 50;

/// Most points that the share of successful actions can earn.
pub const WIN_RATE_WEIGHT: u8 = 40;

/// Most points that the volume handled can earn.
pub const VOLUME_WEIGHT: u8 = 30;

/// Most points that the age of the registration can earn.
pub const AGE_WEIGHT: u8 = 20;

/// Most points that the number of actions can earn.
pub const CONSISTENCY_WEIGHT: u8 = 10;

/// Points earned for each full power of ten in the volume.
pub const POINTS_PER_VOLUME_DIGIT: u8 = 3;

/// Seconds in a day.
pub const SECONDS_PER_DAY: u64 = 86400;

/// Days of age that earn one point.
pub const DAYS_PER_AGE_POINT: u64 = 9;

/// Logged actions that earn one point.
pub const ACTIONS_PER_CONSISTENCY_POINT: u64 = 10;

/// The smaller of `points` and `cap`.
pub open spec fn capped(points: nat, cap: nat) -> nat {
    if points < cap {
        points
    } else {
        cap
    }
}

/// Successful actions per hundred logged, rounded down; 0 where nothing was
/// logged.
pub open spec fn success_rate(successful: nat, total: nat) -> nat {
    if total == 0 {
        0
    } else {
        successful * 100 / total
    }
}

/// Points for the share of successful actions: `WIN_RATE_WEIGHT` hundredths
/// of the success rate, rounded down.
pub open spec fn win_rate_score(successful: nat, total: nat) -> nat {
    success_rate(successful, total) * (WIN_RATE_WEIGHT as nat) / 100
}

/// Points for the volume handled: `POINTS_PER_VOLUME_DIGIT` for each full
/// power of ten in it, at most `VOLUME_WEIGHT`, and none for no volume.
pub open spec fn volume_score(volume: nat) -> nat {
    if volume == 0 {
        0
    } else {
        capped((log(10, volume as int) * POINTS_PER_VOLUME_DIGIT) as nat, VOLUME_WEIGHT as nat)
    }
}

/// Full days between registration and `now`. A clock that reads earlier than
/// the registration gives age 0.
pub open spec fn age_days(registered_at: int, now: int) -> nat {
    if now > registered_at {
        ((now - registered_at) / (SECONDS_PER_DAY as int)) as nat
    } else {
        0
    }
}

/// Points for the age of the registration: one for each
/// `DAYS_PER_AGE_POINT` full days, at most `AGE_WEIGHT`.
pub open spec fn age_score(registered_at: int, now: int) -> nat {
    capped(age_days(registered_at, now) / (DAYS_PER_AGE_POINT as nat), AGE_WEIGHT as nat)
}

/// Points for the number of actions: one for each
/// `ACTIONS_PER_CONSISTENCY_POINT` logged, at most `CONSISTENCY_WEIGHT`.
pub open spec fn consistency_score(total: nat) -> nat {
    capped(total / (ACTIONS_PER_CONSISTENCY_POINT as nat), CONSISTENCY_WEIGHT as nat)
}

/// The reputation score: `NEUTRAL_SCORE` for an agent without actions, else
/// the sum of the four components, held at `MAX_SCORE`.
pub open spec fn reputation(
    successful: nat,
    total: nat,
    volume: nat,
    registered_at: int,
    now: int,
) -> nat {
    if total == 0 {
        NEUTRAL_SCORE as nat
    } else {
        capped(
            win_rate_score(successful, total) + volume_score(volume) + age_score(registered_at, now)
                + consistency_score(total),
            MAX_SCORE as nat,
        )
    }
}

/// The number of full powers of ten in `value`: its number of decimal digits
/// less one. 0 for 0.
pub fn log10_floor(value: u64) -> (digits: u64)
    ensures
        digits == log(10, value as int),
        value > 0 ==> pow(10, digits as nat) <= value < pow(10, (digits + 1) as nat),
{
    let mut rest: u64 = value;
    let mut digits: u64 = 0;
    while rest >= 10
        invariant
            digits + rest <= value,
            log(10, value as int) == digits + log(10, rest as int),
        decreases rest,
    {
        proof {
            lemma_log_s(10, rest as int);
        }
        rest = rest / 10;
        digits = digits + 1;
    }
    proof {
        lemma_log0(10, rest as int);
        if value > 0 {
            lemma_log10_is_floor(value as nat);
        }
    }
    digits
}

/// `log(10, value)` is the logarithm to base ten, rounded down: the one
/// exponent `k` with `10^k <= value < 10^(k+1)`.
pub proof fn lemma_log10_is_floor(value: nat)
    requires
        value > 0,
    ensures
        log(10, value as int) >= 0,
        pow(10, log(10, value as int) as nat) <= value,
        value < pow(10, (log(10, value as int) + 1) as nat),
    decreases value,
{
    if value < 10 {
        lemma_log0(10, value as int);
        lemma_pow0(10);
        lemma_pow1(10);
    } else {
        let rest = value / 10;
        lemma_log_s(10, value as int);
        lemma_log10_is_floor(rest);
        let k = log(10, rest as int) as nat;
        assert(pow(10, k + 1) == 10 * pow(10, k)) by {
            reveal(pow);
        }
        assert(pow(10, k + 2) == 10 * pow(10, k + 1)) by {
            reveal(pow);
        }
    }
}

/// Computes `volume_score`.
fn volume_points(volume: u64) -> (points: u128)
    ensures
        points == volume_score(volume as nat),
        points <= VOLUME_WEIGHT,
{
    if volume == 0 {
        0
    } else {
        let digits: u64 = log10_floor(volume);
        if digits >= 10 {
            VOLUME_WEIGHT as u128
        } else {
            assert(digits * POINTS_PER_VOLUME_DIGIT == digits * 3);
            (digits * (POINTS_PER_VOLUME_DIGIT as u64)) as u128
        }
    }
}

/// Computes `age_score`.
fn age_points(registered_at: i64, current_time: i64) -> (points: u128)
    ensures
        points == age_score(registered_at as int, current_time as int),
        points <= AGE_WEIGHT,
{
    let elapsed: u64 = if current_time > registered_at {
        (current_time as i128 - registered_at as i128) as u64
    } else {
        0
    };
    let days: u64 = elapsed / SECONDS_PER_DAY;
    let points: u64 = days / DAYS_PER_AGE_POINT;
    if points < AGE_WEIGHT as u64 {
        points as u128
    } else {
        AGE_WEIGHT as u128
    }
}

/// Computes `consistency_score`.
fn consistency_points(total: u64) -> (points: u128)
    ensures
        points == consistency_score(total as nat),
        points <= CONSISTENCY_WEIGHT,
{
    let points: u64 = total / ACTIONS_PER_CONSISTENCY_POINT;
    if points < CONSISTENCY_WEIGHT as u64 {
        points as u128
    } else {
        CONSISTENCY_WEIGHT as u128
    }
}

/// Computes `win_rate_score` where something was logged.
fn win_rate_points(successful: u64, total: u64) -> (points: u128)
    requires
        total > 0,
    ensures
        points == win_rate_score(successful as nat, total as nat),
{
    let scaled: u128 = successful as u128 * 100;
    let rate: u128 = scaled / (total as u128);
    proof {
        lemma_div_nonincreasing(scaled as int, total as int);
        assert(rate * WIN_RATE_WEIGHT == rate * 40);
    }
    rate * (WIN_RATE_WEIGHT as u128) / 100
}

/// The reputation score of an agent with these statistics at time
/// `current_time`. It depends on nothing but its five arguments.
pub fn calculate_reputation(
    successful: u64,
    total: u64,
    volume: u64,
    registered_at: i64,
    current_time: i64,
) -> (score: u8)
    ensures
        score == reputation(
            successful as nat,
            total as nat,
            volume as nat,
            registered_at as int,
            current_time as int,
        ),
        score <= MAX_SCORE,
{
    if total == 0 {
        return NEUTRAL_SCORE;
    }
    let sum: u128 = win_rate_points(successful, total) + volume_points(volume) + age_points(
        registered_at,
        current_time,
    ) + consistency_points(total);
    if sum < MAX_SCORE as u128 {
        sum as u8
    } else {
        MAX_SCORE
    }
}

/// Successful actions per hundred logged, rounded down; 0 where nothing was
/// logged.
pub fn compute_success_rate(successful: u64, total: u64) -> (rate: u64)
    requires
        successful <= total,
    ensures
        rate == success_rate(successful as nat, total as nat),
        rate <= 100,
{
    if total == 0 {
        0
    } else {
        let scaled: u128 = successful as u128 * 100;
        proof {
            lemma_success_rate_at_most_100(successful as nat, total as nat);
        }
        (scaled / (total as u128)) as u64
    }
}

/// No more than a hundred in a hundred succeed.
pub proof fn lemma_success_rate_at_most_100(successful: nat, total: nat)
    requires
        successful <= total,
    ensures
        success_rate(successful, total) <= 100,
{
    if total > 0 {
        lemma_div_is_ordered(successful as int * 100, total as int * 100, total as int);
        lemma_div_multiples_vanish(100, total as int);
    }
}

/// Each component stays within its weight, so for statistics in which no
/// more actions succeeded than were logged the four components add up to at
/// most `MAX_SCORE`, and the score is their sum.
pub proof fn lemma_components_within_weights(
    successful: nat,
    total: nat,
    volume: nat,
    registered_at: int,
    now: int,
)
    requires
        successful <= total,
        total > 0,
    ensures
        win_rate_score(successful, total) <= WIN_RATE_WEIGHT,
        volume_score(volume) <= VOLUME_WEIGHT,
        age_score(registered_at, now) <= AGE_WEIGHT,
        consistency_score(total) <= CONSISTENCY_WEIGHT,
        reputation(successful, total, volume, registered_at, now) == win_rate_score(
            successful,
            total,
        ) + volume_score(volume) + age_score(registered_at, now) + consistency_score(total),
{
    lemma_success_rate_at_most_100(successful, total);
}

/// The score is a function of the statistics and the time alone: the same
/// five values give the same score.
pub proof fn lemma_reputation_deterministic(
    successful: nat,
    total: nat,
    volume: nat,
    registered_at: int,
    now: int,
    successful2: nat,
    total2: nat,
    volume2: nat,
    registered_at2: int,
    now2: int,
)
    requires
        successful == successful2,
        total == total2,
        volume == volume2,
        registered_at == registered_at2,
        now == now2,
    ensures
        reputation(successful, total, volume, registered_at, now) == reputation(
            successful2,
            total2,
            volume2,
            registered_at2,
            now2,
        ),
        reputation(successful, total, volume, registered_at, now) <= MAX_SCORE,
{
}

} // verus!
