use vstd::prelude::*;
use crate::errors::AcademyError;
use crate::pubkey::Pubkey;
use crate::state::course::Course;

verus! {

/// What `update_course` works on.
#[derive(Clone, Debug, PartialEq, Eq)]
pub struct UpdateCourse {
    /// The course.
    pub course: Course,
    /// Who asks.
    pub authority: Pubkey,
}

/// The parts of a course to change; an absent one stays as it is.
#[derive(Clone, Copy, Debug, PartialEq, Eq)]
pub struct UpdateCourseParams {
    pub content_tx_id: Option<[u8; 32]>,
    pub is_active: Option<bool>,
    pub completion_bonus_xp: Option<u32>,
    pub creator_reward_xp: Option<u32>,
    pub min_completions_for_reward: Option<u16>,
}

/// Why the course cannot be updated, if it cannot: the asker is not the
/// course's own authority (`Unauthorized`), or new content would take the
/// version beyond 16 bits (`Overflow`).
pub open spec fn update_course_refusal(ctx: UpdateCourse, params: UpdateCourseParams) -> Option<
    AcademyError,
> {
    if ctx.authority != ctx.course.authority {
        Some(AcademyError::Unauthorized)
    } else if params.content_tx_id is Some && ctx.course.version == u16::MAX {
        Some(AcademyError::Overflow)
    } else {
        None
    }
}

/// The course after an update at `now`: each part that `params` names is
/// replaced, new content raises the version by one, and every other part is
/// as before.
pub open spec fn course_updated(course: Course, params: UpdateCourseParams, now: i64) -> Course {
    Course {
        content_tx_id: match params.content_tx_id {
            Some(content) => content,
            None => course.content_tx_id,
        },
        version: if params.content_tx_id is Some {
            (course.version + 1) as u16
        } else {
            course.version
        },
        is_active: match params.is_active {
            Some(active) => active,
            None => course.is_active,
        },
        completion_bonus_xp: match params.completion_bonus_xp {
            Some(bonus) => bonus,
            None => course.completion_bonus_xp,
        },
        creator_reward_xp: match params.creator_reward_xp {
            Some(reward) => reward,
            None => course.creator_reward_xp,
        },
        min_completions_for_reward: match params.min_completions_for_reward {
            Some(completions) => completions,
            None => course.min_completions_for_reward,
        },
        updated_at: now,
        ..course
    }
}

/// Updates the parts of the course that `params` names. A refusal changes
/// nothing.
pub fn update_course(ctx: &mut UpdateCourse, params: UpdateCourseParams, now: i64) -> (result:
    Result<(), AcademyError>)
    ensures
        match update_course_refusal(*old(ctx), params) {
            Some(e) => result == Err::<(), AcademyError>(e) && *final(ctx) == *old(ctx),
            None => result == Ok::<(), AcademyError>(()) && *final(ctx) == (UpdateCourse {
                course: course_updated(old(ctx).course, params, now),
                ..*old(ctx)
            }),
        },
        final(ctx).course.course_id == old(ctx).course.course_id,
        old(ctx).course.wf() ==> final(ctx).course.wf(),
{
    if ctx.authority != ctx.course.authority {
        return Err(AcademyError::Unauthorized);
    }
    if let Some(content_tx_id) = params.content_tx_id {
        let version: u16 = match ctx.course.version.checked_add(1) {
            Some(version) => version,
            None => { return Err(AcademyError::Overflow); },
        };
        ctx.course.content_tx_id = content_tx_id;
        ctx.course.version = version;
    }
    if let Some(is_active) = params.is_active {
        ctx.course.is_active = is_active;
    }
    if let Some(completion_bonus_xp) = params.completion_bonus_xp {
        ctx.course.completion_bonus_xp = completion_bonus_xp;
    }
    if let Some(creator_reward_xp) = params.creator_reward_xp {
        ctx.course.creator_reward_xp = creator_reward_xp;
    }
    if let Some(min_completions) = params.min_completions_for_reward {
        ctx.course.min_completions_for_reward = min_completions;
    }
    ctx.course.updated_at = now;
    Ok(())
}

/// The parts of a course are updated independently: a part that `params`
/// does not name is the same after the update, the version moves only with
/// the content, and then by exactly one.
pub proof fn lemma_update_is_field_independent(course: Course, params: UpdateCourseParams, now: i64)
    ensures
        params.content_tx_id is None ==> course_updated(course, params, now).content_tx_id
            == course.content_tx_id && course_updated(course, params, now).version
            == course.version,
        params.content_tx_id is Some && course.version < u16::MAX ==> course_updated(
            course,
            params,
            now,
        ).version == course.version + 1,
        params.content_tx_id matches Some(content) ==> course_updated(
            course,
            params,
            now,
        ).content_tx_id == content,
        params.is_active is None ==> course_updated(course, params, now).is_active
            == course.is_active,
        params.completion_bonus_xp is None ==> course_updated(
            course,
            params,
            now,
        ).completion_bonus_xp == course.completion_bonus_xp,
        params.creator_reward_xp is None ==> course_updated(course, params, now).creator_reward_xp
            == course.creator_reward_xp,
        params.min_completions_for_reward is None ==> course_updated(
            course,
            params,
            now,
        ).min_completions_for_reward == course.min_completions_for_reward,
        course_updated(course, params, now).course_id == course.course_id,
{
}

} // verus!
