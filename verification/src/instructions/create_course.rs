use vstd::prelude::*;
use crate::errors::AcademyError;
use crate::pubkey::Pubkey;
use crate::state::config::Config;
use crate::state::course::Course;

verus! {

/// What `create_course` works on.
#[derive(Clone, Debug, PartialEq, Eq)]
pub struct CreateCourse {
    /// The configuration record.
    pub config: Config,
    /// Who asks.
    pub authority: Pubkey,
    /// The place of the course with the given identifier: empty until the
    /// course is created.
    pub course: Option<Course>,
    /// Bump of the course record's address.
    pub bump: u8,
}

/// What a new course is made of, besides its identifier.
#[derive(Clone, Copy, Debug, PartialEq, Eq)]
pub struct CreateCourseParams {
    pub creator: Pubkey,
    pub authority: Pubkey,
    pub content_tx_id: [u8; 32],
    pub lesson_count: u8,
    pub difficulty: u8,
    pub xp_per_lesson: u32,
    pub track_id: u16,
    pub track_level: u8,
    pub prerequisite: Option<Pubkey>,
    pub completion_bonus_xp: u32,
    pub creator_reward_xp: u32,
    pub min_completions_for_reward: u16,
}

/// Why the course cannot be created, if it cannot. In this order: the asker
/// is not the platform authority (`Unauthorized`); a course with this
/// identifier exists (`CourseAlreadyExists`); the identifier is longer than
/// 32 bytes (`CourseIdTooLong`); the difficulty is not 1, 2 or 3
/// (`InvalidDifficulty`); the track level is not 1, 2 or 3
/// (`InvalidTrackLevel`).
pub open spec fn create_course_refusal(
    ctx: CreateCourse,
    course_id: Seq<char>,
    params: CreateCourseParams,
) -> Option<AcademyError> {
    if ctx.authority != ctx.config.authority {
        Some(AcademyError::Unauthorized)
    } else if ctx.course is Some {
        Some(AcademyError::CourseAlreadyExists)
    } else if Course::id_len(course_id) > 32 {
        Some(AcademyError::CourseIdTooLong)
    } else if !(1 <= params.difficulty <= 3) {
        Some(AcademyError::InvalidDifficulty)
    } else if !(1 <= params.track_level <= 3) {
        Some(AcademyError::InvalidTrackLevel)
    } else {
        None
    }
}

/// The course as it is created at `now`: version 1, no completions, no
/// enrollments, open for enrollment.
pub open spec fn new_course(course_id: String, params: CreateCourseParams, now: i64, bump: u8) -> Course {
    Course {
        course_id,
        creator: params.creator,
        authority: params.authority,
        content_tx_id: params.content_tx_id,
        version: 1,
        lesson_count: params.lesson_count,
        difficulty: params.difficulty,
        xp_per_lesson: params.xp_per_lesson,
        track_id: params.track_id,
        track_level: params.track_level,
        prerequisite: params.prerequisite,
        completion_bonus_xp: params.completion_bonus_xp,
        creator_reward_xp: params.creator_reward_xp,
        min_completions_for_reward: params.min_completions_for_reward,
        total_completions: 0,
        total_enrollments: 0,
        is_active: true,
        created_at: now,
        updated_at: now,
        _reserved: vstd::array::spec_array_fill_for_copy_type::<u8, 16>(0u8),
        bump,
    }
}

/// Creates the course `course_id`. A refusal changes nothing.
pub fn create_course(
    ctx: &mut CreateCourse,
    course_id: String,
    params: CreateCourseParams,
    now: i64,
) -> (result: Result<(), AcademyError>)
    ensures
        match create_course_refusal(*old(ctx), course_id@, params) {
            Some(e) => result == Err::<(), AcademyError>(e) && *final(ctx) == *old(ctx),
            None => result == Ok::<(), AcademyError>(()) && *final(ctx) == (CreateCourse {
                course: Some(new_course(course_id, params, now, old(ctx).bump)),
                ..*old(ctx)
            }),
        },
        result is Ok ==> final(ctx).course->0.wf(),
{
    if ctx.authority != ctx.config.authority {
        return Err(AcademyError::Unauthorized);
    }
    if ctx.course.is_some() {
        return Err(AcademyError::CourseAlreadyExists);
    }
    if course_id.as_str().as_bytes().len() > Course::MAX_COURSE_ID_LEN {
        return Err(AcademyError::CourseIdTooLong);
    }
    if !(params.difficulty >= 1 && params.difficulty <= 3) {
        return Err(AcademyError::InvalidDifficulty);
    }
    if !(params.track_level >= 1 && params.track_level <= 3) {
        return Err(AcademyError::InvalidTrackLevel);
    }
    ctx.course = Some(
        Course {
            course_id,
            creator: params.creator,
            authority: params.authority,
            content_tx_id: params.content_tx_id,
            version: 1,
            lesson_count: params.lesson_count,
            difficulty: params.difficulty,
            xp_per_lesson: params.xp_per_lesson,
            track_id: params.track_id,
            track_level: params.track_level,
            prerequisite: params.prerequisite,
            completion_bonus_xp: params.completion_bonus_xp,
            creator_reward_xp: params.creator_reward_xp,
            min_completions_for_reward: params.min_completions_for_reward,
            total_completions: 0,
            total_enrollments: 0,
            is_active: true,
            created_at: now,
            updated_at: now,
            _reserved: [0u8; 16],
            bump: ctx.bump,
        },
    );
    Ok(())
}

} // verus!
