use vstd::prelude::*;
use crate::errors::AcademyError;
use crate::state::config::Config;
use crate::state::learner::LearnerProfile;

verus! {

/// Seconds in a day. Days are counted from the epoch, in UTC.
pub const SECONDS_PER_DAY: i64 = 86400;

/// The day that the moment `ts` falls on: `ts / 86400`, rounded down.
pub open spec fn day_of(ts: i64) -> int {
    (ts as int) / 86400
}

/// The day of `ts` as the daily budget keeps it, in 16 bits. Up to day 65535
/// it is `day_of(ts)` itself. A moment before the epoch counts as day 0, so
/// that it is never a later day than the day of an earning. From day 65536 on
/// the field cannot hold the day, and keeps it modulo 65536.
pub open spec fn xp_day_of(ts: i64) -> u16 {
    if day_of(ts) < 0 {
        0
    } else {
        (day_of(ts) % 65536) as u16
    }
}

/// Days that passed with no activity between the day of `last` and the day of
/// `now`: 0 if `now` is the day after `last`, negative if it is not a later day.
pub open spec fn missed_days(last: i64, now: i64) -> int {
    day_of(now) - day_of(last) - 1
}

/// The day that the moment `now` falls on.
pub fn current_day(now: i64) -> (day: i64)
    ensures
        day == day_of(now),
{
    if now >= 0 {
        now / SECONDS_PER_DAY
    } else {
        let back: i64 = -(now + 1);
        -(back / SECONDS_PER_DAY) - 1
    }
}

/// The day of `now` in the 16 bits of the daily budget.
pub fn xp_day(now: i64) -> (day: u16)
    ensures
        day == xp_day_of(now),
        0 <= day_of(now) < 65536 ==> day == day_of(now),
{
    let day: i64 = current_day(now);
    if day >= 0 {
        (day % 65536) as u16
    } else {
        0
    }
}

// ----------------------------------------------------------------------------
// Daily budget
// ----------------------------------------------------------------------------
/// What a learner has earned so far on day `today`: nothing if `today` is later
/// than the day of the last earning.
pub open spec fn earned_on(learner: LearnerProfile, today: u16) -> u32 {
    if today > learner.last_xp_day {
        0
    } else {
        learner.xp_earned_today
    }
}

/// Why earning `amount` more on day `today` is refused under the ceiling
/// `ceiling`, if it is.
pub open spec fn consume_refusal(
    learner: LearnerProfile,
    ceiling: u32,
    amount: u32,
    today: u16,
) -> Option<AcademyError> {
    let total = earned_on(learner, today) + amount;
    if total > u32::MAX {
        Some(AcademyError::Overflow)
    } else if total > ceiling {
        Some(AcademyError::DailyXPLimitExceeded)
    } else {
        None
    }
}

/// The profile after `amount` was earned on day `today`.
pub open spec fn consume_applied(learner: LearnerProfile, amount: u32, today: u16) -> LearnerProfile {
    LearnerProfile {
        xp_earned_today: (earned_on(learner, today) + amount) as u32,
        last_xp_day: if today > learner.last_xp_day {
            today
        } else {
            learner.last_xp_day
        },
        ..learner
    }
}

/// Books `amount` experience points on day `today` against the daily ceiling.
/// A later day than the last earning starts from zero. Where the new total
/// does not fit in 32 bits the answer is `Overflow`, where it is above
/// `ceiling` it is `DailyXPLimitExceeded`, and in both cases the profile stays
/// as it was.
pub fn try_consume(learner: &mut LearnerProfile, ceiling: u32, amount: u32, today: u16) -> (result:
    Result<(), AcademyError>)
    ensures
        match consume_refusal(*old(learner), ceiling, amount, today) {
            Some(e) => result == Err::<(), AcademyError>(e) && *final(learner) == *old(learner),
            None => result == Ok::<(), AcademyError>(()) && *final(learner) == consume_applied(
                *old(learner),
                amount,
                today,
            ),
        },
        result is Ok ==> final(learner).xp_earned_today <= ceiling,
{
    let new_day = today > learner.last_xp_day;
    let earned: u32 = if new_day {
        0
    } else {
        learner.xp_earned_today
    };
    let new_total: u32 = match earned.checked_add(amount) {
        Some(total) => total,
        None => { return Err(AcademyError::Overflow); },
    };
    if new_total > ceiling {
        return Err(AcademyError::DailyXPLimitExceeded);
    }
    if new_day {
        learner.last_xp_day = today;
    }
    learner.xp_earned_today = new_total;
    Ok(())
}

/// Books `xp_amount` against the learner's daily budget on the day of `now`,
/// under the platform's ceiling. The total starts from zero only where the
/// day of `now` is later than the day of the last earning; a moment before
/// the epoch is never later.
pub fn check_and_update_daily_xp(
    learner: &mut LearnerProfile,
    config: &Config,
    xp_amount: u32,
    now: i64,
) -> (result: Result<(), AcademyError>)
    ensures
        match consume_refusal(*old(learner), config.max_daily_xp, xp_amount, xp_day_of(now)) {
            Some(e) => result == Err::<(), AcademyError>(e) && *final(learner) == *old(learner),
            None => result == Ok::<(), AcademyError>(()) && *final(learner) == consume_applied(
                *old(learner),
                xp_amount,
                xp_day_of(now),
            ),
        },
        day_of(now) <= old(learner).last_xp_day ==> final(learner).last_xp_day == old(
            learner,
        ).last_xp_day,
        result is Ok ==> final(learner).xp_earned_today <= config.max_daily_xp,
{
    let today = xp_day(now);
    try_consume(learner, config.max_daily_xp, xp_amount, today)
}

/// The sum of `amounts`.
pub open spec fn total_of(amounts: Seq<u32>) -> int
    decreases amounts.len(),
{
    if amounts.len() == 0 {
        0
    } else {
        total_of(amounts.drop_last()) + amounts.last()
    }
}

/// The profile after `amounts` were offered one after the other on day
/// `today`; an offer that is refused leaves the profile as it is.
pub open spec fn consume_each(
    learner: LearnerProfile,
    ceiling: u32,
    today: u16,
    amounts: Seq<u32>,
) -> LearnerProfile
    decreases amounts.len(),
{
    if amounts.len() == 0 {
        learner
    } else {
        let before = consume_each(learner, ceiling, today, amounts.drop_last());
        if consume_refusal(before, ceiling, amounts.last(), today) is None {
            consume_applied(before, amounts.last(), today)
        } else {
            before
        }
    }
}

/// Whether each of `amounts`, offered one after the other on day `today`, is
/// accepted.
pub open spec fn each_accepted(
    learner: LearnerProfile,
    ceiling: u32,
    today: u16,
    amounts: Seq<u32>,
) -> bool
    decreases amounts.len(),
{
    if amounts.len() == 0 {
        true
    } else {
        &&& each_accepted(learner, ceiling, today, amounts.drop_last())
        &&& consume_refusal(
            consume_each(learner, ceiling, today, amounts.drop_last()),
            ceiling,
            amounts.last(),
            today,
        ) is None
    }
}

/// Offers made on one day are all accepted exactly if what was earned before
/// plus their sum stays within the ceiling; the day's total is then that sum.
/// (With no offer at all there is nothing to refuse.)
pub proof fn lemma_same_day_budget(
    learner: LearnerProfile,
    ceiling: u32,
    today: u16,
    amounts: Seq<u32>,
)
    ensures
        each_accepted(learner, ceiling, today, amounts) <==> (amounts.len() == 0 || earned_on(
            learner,
            today,
        ) + total_of(amounts) <= ceiling),
        amounts.len() > 0 && each_accepted(learner, ceiling, today, amounts) ==> earned_on(
            consume_each(learner, ceiling, today, amounts),
            today,
        ) == earned_on(learner, today) + total_of(amounts),
    decreases amounts.len(),
{
    if amounts.len() > 0 {
        let earlier = amounts.drop_last();
        lemma_total_is_not_negative(earlier);
        if earlier.len() == 0 {
            assert(each_accepted(learner, ceiling, today, earlier));
        } else {
            lemma_same_day_budget(learner, ceiling, today, earlier);
        }
    }
}

proof fn lemma_total_is_not_negative(amounts: Seq<u32>)
    ensures
        total_of(amounts) >= 0,
    decreases amounts.len(),
{
    if amounts.len() > 0 {
        lemma_total_is_not_negative(amounts.drop_last());
    }
}

/// The first offer on a later day is judged on its own: whatever was earned
/// before, it is accepted exactly if it is within the ceiling, and the day's
/// total is then the offer alone.
pub proof fn lemma_new_day_starts_from_zero(
    learner: LearnerProfile,
    ceiling: u32,
    amount: u32,
    today: u16,
)
    requires
        today > learner.last_xp_day,
    ensures
        consume_refusal(learner, ceiling, amount, today) is None <==> amount <= ceiling,
        consume_applied(learner, amount, today).xp_earned_today == amount,
        consume_applied(learner, amount, today).last_xp_day == today,
{
}

/// The day of the budget is the day of the moment, compared as numbers: up to
/// day 65535 a moment starts a new day exactly if its day is later than the
/// day of the last earning, and a moment before the epoch never does, so that
/// what was earned still counts and the day of the last earning stays.
pub proof fn lemma_budget_day_is_the_day(learner: LearnerProfile, amount: u32, now: i64)
    requires
        day_of(now) < 65536,
    ensures
        0 <= day_of(now) ==> xp_day_of(now) == day_of(now),
        xp_day_of(now) > learner.last_xp_day <==> day_of(now) > learner.last_xp_day,
        day_of(now) <= learner.last_xp_day ==> earned_on(learner, xp_day_of(now))
            == learner.xp_earned_today && consume_applied(learner, amount, xp_day_of(now)).last_xp_day
            == learner.last_xp_day,
        day_of(now) > learner.last_xp_day ==> earned_on(learner, xp_day_of(now)) == 0
            && consume_applied(learner, amount, xp_day_of(now)).last_xp_day == day_of(now),
{
}

// ----------------------------------------------------------------------------
// Streak
// ----------------------------------------------------------------------------
/// What an activity on a later day did to the streak.
#[derive(Clone, Copy, Debug, PartialEq, Eq, Structural)]
pub enum StreakUpdate {
    /// The day after the last activity: the streak grew by one.
    Continued { new_streak: u16 },
    /// Days were missed, and as many freezes were spent to bridge them: the
    /// streak grew by one.
    SavedByFreezes { freezes_used: u8, new_streak: u16 },
    /// More days were missed than there were freezes: the streak starts again
    /// at 1.
    Broken { old_streak: u16, days_missed: u64 },
}

/// What an activity at `now` does to the streak: nothing on the day of the
/// last activity or an earlier one; `Overflow` where the streak would grow
/// beyond 16 bits.
pub open spec fn streak_outcome(learner: LearnerProfile, now: i64) -> Result<
    Option<StreakUpdate>,
    AcademyError,
> {
    let gap = missed_days(learner.last_activity_date, now);
    if gap < 0 {
        Ok(None)
    } else if gap > learner.streak_freezes {
        Ok(
            Some(
                StreakUpdate::Broken {
                    old_streak: learner.current_streak,
                    days_missed: gap as u64,
                },
            ),
        )
    } else if learner.current_streak == u16::MAX {
        Err(AcademyError::Overflow)
    } else if gap == 0 {
        Ok(Some(StreakUpdate::Continued { new_streak: (learner.current_streak + 1) as u16 }))
    } else {
        Ok(
            Some(
                StreakUpdate::SavedByFreezes {
                    freezes_used: gap as u8,
                    new_streak: (learner.current_streak + 1) as u16,
                },
            ),
        )
    }
}

/// The streak that `update` leaves.
pub open spec fn streak_of(update: StreakUpdate) -> u16 {
    match update {
        StreakUpdate::Continued { new_streak } => new_streak,
        StreakUpdate::SavedByFreezes { new_streak, .. } => new_streak,
        StreakUpdate::Broken { .. } => 1,
    }
}

/// The freezes that `update` spends.
pub open spec fn freezes_spent(update: StreakUpdate) -> u8 {
    match update {
        StreakUpdate::SavedByFreezes { freezes_used, .. } => freezes_used,
        _ => 0,
    }
}

/// The profile after an activity at `now`: unchanged where nothing happens to
/// the streak or the update is refused; else the new streak, the longest streak
/// raised to it if need be, the spent freezes gone, and `now` as the last
/// activity.
pub open spec fn streak_applied(learner: LearnerProfile, now: i64) -> LearnerProfile {
    match streak_outcome(learner, now) {
        Ok(Some(update)) => LearnerProfile {
            current_streak: streak_of(update),
            longest_streak: if streak_of(update) > learner.longest_streak {
                streak_of(update)
            } else {
                learner.longest_streak
            },
            streak_freezes: (learner.streak_freezes - freezes_spent(update)) as u8,
            last_activity_date: now,
            ..learner
        },
        _ => learner,
    }
}

/// Records an activity at `now` in the learner's streak and says what it did.
pub fn update_streak(learner: &mut LearnerProfile, now: i64) -> (result: Result<
    Option<StreakUpdate>,
    AcademyError,
>)
    ensures
        result == streak_outcome(*old(learner), now),
        *final(learner) == streak_applied(*old(learner), now),
        result is Ok && old(learner).wf() ==> final(learner).wf(),
        result matches Ok(Some(_)) ==> final(learner).wf(),
{
    let today: i64 = current_day(now);
    let last_day: i64 = current_day(learner.last_activity_date);
    if today <= last_day {
        return Ok(None);
    }
    let gap: i64 = today - last_day - 1;
    let update = if gap > learner.streak_freezes as i64 {
        let old_streak = learner.current_streak;
        learner.current_streak = 1;
        StreakUpdate::Broken { old_streak, days_missed: gap as u64 }
    } else {
        let new_streak: u16 = match learner.current_streak.checked_add(1) {
            Some(streak) => streak,
            None => { return Err(AcademyError::Overflow); },
        };
        learner.current_streak = new_streak;
        if gap == 0 {
            StreakUpdate::Continued { new_streak }
        } else {
            let freezes_used = gap as u8;
            learner.streak_freezes = learner.streak_freezes - freezes_used;
            StreakUpdate::SavedByFreezes { freezes_used, new_streak }
        }
    };
    if learner.current_streak > learner.longest_streak {
        learner.longest_streak = learner.current_streak;
    }
    learner.last_activity_date = now;
    Ok(Some(update))
}

/// Whatever an activity does to the streak, it never shortens the longest
/// streak, never adds a freeze, and never leaves the current streak longer
/// than the longest once it changed it; and an activity on the day of the
/// last one, or an earlier day, counts no second time.
pub proof fn lemma_streak_is_sound(learner: LearnerProfile, now: i64)
    ensures
        streak_applied(learner, now).longest_streak >= learner.longest_streak,
        streak_applied(learner, now).streak_freezes <= learner.streak_freezes,
        streak_outcome(learner, now) matches Ok(Some(_)) ==> streak_applied(learner, now).wf()
            && streak_applied(learner, now).last_activity_date == now,
        day_of(now) <= day_of(learner.last_activity_date) ==> streak_outcome(learner, now) == Ok::<
            Option<StreakUpdate>,
            AcademyError,
        >(None) && streak_applied(learner, now) == learner,
        streak_outcome(learner, now) matches Ok(Some(_)) ==> streak_outcome(
            streak_applied(learner, now),
            now,
        ) == Ok::<Option<StreakUpdate>, AcademyError>(None),
{
}

/// The streak itself where it is one that is marked: 7, 30, 100 or 365 days.
pub fn check_milestone(streak: u16) -> (milestone: Option<u16>)
    ensures
        milestone == (if streak == 7 || streak == 30 || streak == 100 || streak == 365 {
            Some(streak)
        } else {
            None
        }),
{
    if streak == 7 || streak == 30 || streak == 100 || streak == 365 {
        Some(streak)
    } else {
        None
    }
}

} // verus!
