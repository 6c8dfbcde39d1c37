use superteam_academy::errors::AcademyError;
use superteam_academy::instructions::{
    close_enrollment, create_course, enroll, update_course, CloseEnrollment, CreateCourse,
    CreateCourseParams, Enroll, UpdateCourse, UpdateCourseParams,
};
use superteam_academy::pubkey::Pubkey;
use superteam_academy::state::{Config, Course, Enrollment};

fn key(byte: u8) -> Pubkey {
    Pubkey::new_from_array([byte; 32])
}

fn config() -> Config {
    Config {
        authority: key(0),
        backend_signer: key(1),
        current_season: 1,
        current_mint: key(2),
        season_closed: false,
        season_started_at: 1000000000,
        max_daily_xp: 2000,
        max_achievement_xp: 500,
        _reserved: [0; 32],
        bump: 255,
    }
}

fn course() -> Course {
    Course {
        course_id: "anchor-beginner".to_string(),
        creator: key(3),
        authority: key(3),
        content_tx_id: [0u8; 32],
        version: 1,
        lesson_count: 10,
        difficulty: 1,
        xp_per_lesson: 30,
        track_id: 1,
        track_level: 1,
        prerequisite: None,
        completion_bonus_xp: 200,
        creator_reward_xp: 50,
        min_completions_for_reward: 10,
        total_completions: 0,
        total_enrollments: 0,
        is_active: true,
        created_at: 1000000000,
        updated_at: 1000000000,
        _reserved: [0; 16],
        bump: 255,
    }
}

fn enrollment(completed_at: Option<i64>) -> Enrollment {
    Enrollment {
        course: key(5),
        enrolled_version: 1,
        enrolled_at: 1000000000,
        completed_at,
        lesson_flags: [0, 0, 0, 0],
        credential_asset: None,
        bonus_claimed: false,
        _reserved: [0; 7],
        bump: 255,
    }
}

fn params() -> CreateCourseParams {
    CreateCourseParams {
        creator: key(3),
        authority: key(4),
        content_tx_id: [9u8; 32],
        lesson_count: 12,
        difficulty: 2,
        xp_per_lesson: 30,
        track_id: 7,
        track_level: 3,
        prerequisite: Some(key(8)),
        completion_bonus_xp: 200,
        creator_reward_xp: 50,
        min_completions_for_reward: 10,
    }
}

fn no_update() -> UpdateCourseParams {
    UpdateCourseParams {
        content_tx_id: None,
        is_active: None,
        completion_bonus_xp: None,
        creator_reward_xp: None,
        min_completions_for_reward: None,
    }
}

fn creating() -> CreateCourse {
    CreateCourse { config: config(), authority: key(0), course: None, bump: 250 }
}

#[test]
fn course_is_created_at_version_one() {
    let mut ctx = creating();
    assert_eq!(create_course(&mut ctx, "rust-101".to_string(), params(), 1700000000), Ok(()));
    assert_eq!(
        ctx.course,
        Some(Course {
            course_id: "rust-101".to_string(),
            creator: key(3),
            authority: key(4),
            content_tx_id: [9u8; 32],
            version: 1,
            lesson_count: 12,
            difficulty: 2,
            xp_per_lesson: 30,
            track_id: 7,
            track_level: 3,
            prerequisite: Some(key(8)),
            completion_bonus_xp: 200,
            creator_reward_xp: 50,
            min_completions_for_reward: 10,
            total_completions: 0,
            total_enrollments: 0,
            is_active: true,
            created_at: 1700000000,
            updated_at: 1700000000,
            _reserved: [0; 16],
            bump: 250,
        })
    );
    assert_eq!(ctx.config, config());
}

#[test]
fn course_id_may_have_32_bytes_and_no_more() {
    let mut ctx = creating();
    assert_eq!(create_course(&mut ctx, "a".repeat(32), params(), 5), Ok(()));
    let mut ctx = creating();
    assert_eq!(create_course(&mut ctx, String::new(), params(), 5), Ok(()));
    let mut ctx = creating();
    assert_eq!(create_course(&mut ctx, "a".repeat(33), params(), 5), Err(AcademyError::CourseIdTooLong));
    assert_eq!(ctx, creating());
    let mut ctx = creating();
    let sixteen_two_byte_chars = "\u{e9}".repeat(16);
    assert_eq!(create_course(&mut ctx, sixteen_two_byte_chars, params(), 5), Ok(()));
    let mut ctx = creating();
    let seventeen_two_byte_chars = "\u{e9}".repeat(17);
    assert_eq!(
        create_course(&mut ctx, seventeen_two_byte_chars, params(), 5),
        Err(AcademyError::CourseIdTooLong)
    );
}

#[test]
fn difficulty_and_level_are_one_to_three() {
    for difficulty in [0u8, 4, 255] {
        let mut ctx = creating();
        let bad = CreateCourseParams { difficulty, ..params() };
        assert_eq!(create_course(&mut ctx, "c".to_string(), bad, 5), Err(AcademyError::InvalidDifficulty));
        assert_eq!(ctx, creating());
    }
    for track_level in [0u8, 4, 255] {
        let mut ctx = creating();
        let bad = CreateCourseParams { track_level, ..params() };
        assert_eq!(create_course(&mut ctx, "c".to_string(), bad, 5), Err(AcademyError::InvalidTrackLevel));
        assert_eq!(ctx, creating());
    }
    for value in 1..=3u8 {
        let mut ctx = creating();
        let good = CreateCourseParams { difficulty: value, track_level: 4 - value, ..params() };
        assert_eq!(create_course(&mut ctx, "c".to_string(), good, 5), Ok(()));
    }
}

#[test]
fn course_refusals_come_in_order() {
    let bad = CreateCourseParams { difficulty: 0, track_level: 0, ..params() };
    let mut ctx = CreateCourse { authority: key(9), course: Some(course()), ..creating() };
    assert_eq!(create_course(&mut ctx, "a".repeat(40), bad, 5), Err(AcademyError::Unauthorized));
    let mut ctx = CreateCourse { course: Some(course()), ..creating() };
    assert_eq!(create_course(&mut ctx, "a".repeat(40), bad, 5), Err(AcademyError::CourseAlreadyExists));
    assert_eq!(ctx.course, Some(course()));
    let mut ctx = creating();
    assert_eq!(create_course(&mut ctx, "a".repeat(40), bad, 5), Err(AcademyError::CourseIdTooLong));
    let mut ctx = creating();
    assert_eq!(create_course(&mut ctx, "a".to_string(), bad, 5), Err(AcademyError::InvalidDifficulty));
}

#[test]
fn updating_the_active_flag_leaves_the_rest() {
    let mut ctx = UpdateCourse { course: course(), authority: key(3) };
    let only_active = UpdateCourseParams { is_active: Some(false), ..no_update() };
    assert_eq!(update_course(&mut ctx, only_active, 1000000500), Ok(()));
    assert_eq!(ctx.course.completion_bonus_xp, 200);
    assert_eq!(ctx.course.creator_reward_xp, 50);
    assert_eq!(ctx.course.content_tx_id, [0u8; 32]);
    assert_eq!(ctx.course.version, 1);
    assert_eq!(ctx.course, Course { is_active: false, updated_at: 1000000500, ..course() });
}

#[test]
fn new_content_raises_the_version_by_one() {
    let mut ctx = UpdateCourse { course: course(), authority: key(3) };
    let content = UpdateCourseParams { content_tx_id: Some([7u8; 32]), ..no_update() };
    assert_eq!(update_course(&mut ctx, content, 1000000500), Ok(()));
    assert_eq!(
        ctx.course,
        Course { content_tx_id: [7u8; 32], version: 2, updated_at: 1000000500, ..course() }
    );
    let same_content_again = UpdateCourseParams { content_tx_id: Some([7u8; 32]), ..no_update() };
    assert_eq!(update_course(&mut ctx, same_content_again, 1000000600), Ok(()));
    assert_eq!(ctx.course.version, 3);
}

#[test]
fn each_reward_setting_is_updated_alone() {
    let mut ctx = UpdateCourse { course: course(), authority: key(3) };
    let bonus = UpdateCourseParams { completion_bonus_xp: Some(1), ..no_update() };
    assert_eq!(update_course(&mut ctx, bonus, 10), Ok(()));
    assert_eq!(ctx.course, Course { completion_bonus_xp: 1, updated_at: 10, ..course() });
    let reward = UpdateCourseParams { creator_reward_xp: Some(2), ..no_update() };
    assert_eq!(update_course(&mut ctx, reward, 11), Ok(()));
    assert_eq!(
        ctx.course,
        Course { completion_bonus_xp: 1, creator_reward_xp: 2, updated_at: 11, ..course() }
    );
    let threshold = UpdateCourseParams { min_completions_for_reward: Some(3), ..no_update() };
    assert_eq!(update_course(&mut ctx, threshold, 12), Ok(()));
    assert_eq!(
        ctx.course,
        Course {
            completion_bonus_xp: 1,
            creator_reward_xp: 2,
            min_completions_for_reward: 3,
            updated_at: 12,
            ..course()
        }
    );
    assert_eq!(update_course(&mut ctx, no_update(), 13), Ok(()));
    assert_eq!(ctx.course.updated_at, 13);
    assert_eq!(ctx.course.version, 1);
}

#[test]
fn course_is_updated_by_its_own_authority() {
    let mut ctx = UpdateCourse { course: Course { authority: key(4), ..course() }, authority: key(0) };
    let before = ctx.clone();
    let all = UpdateCourseParams {
        content_tx_id: Some([1u8; 32]),
        is_active: Some(false),
        completion_bonus_xp: Some(1),
        creator_reward_xp: Some(1),
        min_completions_for_reward: Some(1),
    };
    assert_eq!(update_course(&mut ctx, all, 10), Err(AcademyError::Unauthorized));
    assert_eq!(ctx, before);
    ctx.authority = key(3);
    assert_eq!(update_course(&mut ctx, all, 10), Err(AcademyError::Unauthorized));
    ctx.authority = key(4);
    assert_eq!(update_course(&mut ctx, all, 10), Ok(()));
}

#[test]
fn version_at_its_limit_takes_no_new_content() {
    let full = Course { version: u16::MAX, ..course() };
    let mut ctx = UpdateCourse { course: full.clone(), authority: key(3) };
    let all = UpdateCourseParams {
        content_tx_id: Some([1u8; 32]),
        is_active: Some(false),
        completion_bonus_xp: Some(1),
        creator_reward_xp: Some(1),
        min_completions_for_reward: Some(1),
    };
    assert_eq!(update_course(&mut ctx, all, 10), Err(AcademyError::Overflow));
    assert_eq!(ctx.course, full);
    let rest = UpdateCourseParams { content_tx_id: None, ..all };
    assert_eq!(update_course(&mut ctx, rest, 10), Ok(()));
    assert_eq!(ctx.course.version, u16::MAX);
    assert!(!ctx.course.is_active);
}

fn enrolling(course: Course, shown: Option<Enrollment>) -> Enroll {
    Enroll { course, course_key: key(50), enrollment: None, prerequisite_enrollment: shown, bump: 9 }
}

#[test]
fn enrollment_starts_empty_at_the_course_version() {
    let mut ctx = enrolling(Course { version: 4, ..course() }, None);
    assert_eq!(enroll(&mut ctx, 1700000000), Ok(()));
    assert_eq!(
        ctx.enrollment,
        Some(Enrollment {
            course: key(50),
            enrolled_version: 4,
            enrolled_at: 1700000000,
            completed_at: None,
            lesson_flags: [0; 4],
            credential_asset: None,
            bonus_claimed: false,
            _reserved: [0; 7],
            bump: 9,
        })
    );
    assert_eq!(ctx.course, Course { version: 4, ..course() });
    assert_eq!(ctx.course.total_enrollments, 0);
}

#[test]
fn inactive_course_takes_no_enrollment() {
    let mut ctx = enrolling(Course { is_active: false, ..course() }, None);
    let before = ctx.clone();
    assert_eq!(enroll(&mut ctx, 5), Err(AcademyError::CourseNotActive));
    assert_eq!(ctx, before);
}

#[test]
fn learner_enrolls_once() {
    let mut ctx = enrolling(course(), None);
    assert_eq!(enroll(&mut ctx, 5), Ok(()));
    let before = ctx.clone();
    assert_eq!(enroll(&mut ctx, 6), Err(AcademyError::AlreadyEnrolled));
    assert_eq!(ctx, before);
}

#[test]
fn prerequisite_has_to_be_shown_and_finalized() {
    let with_prerequisite = Course { prerequisite: Some(key(5)), ..course() };
    let mut ctx = enrolling(with_prerequisite.clone(), None);
    assert_eq!(enroll(&mut ctx, 5), Err(AcademyError::PrerequisiteNotMet));
    assert_eq!(ctx.enrollment, None);
    let mut ctx = enrolling(with_prerequisite.clone(), Some(enrollment(None)));
    assert_eq!(enroll(&mut ctx, 5), Err(AcademyError::PrerequisiteNotMet));
    assert_eq!(ctx.enrollment, None);
    let mut ctx = enrolling(with_prerequisite.clone(), Some(enrollment(Some(0))));
    assert_eq!(enroll(&mut ctx, 5), Ok(()));
    assert!(ctx.enrollment.is_some());
    let elsewhere = Enrollment { course: key(6), ..enrollment(Some(1000)) };
    let mut ctx = enrolling(with_prerequisite, Some(elsewhere));
    assert_eq!(enroll(&mut ctx, 5), Err(AcademyError::PrerequisiteNotMet));
    assert_eq!(ctx.enrollment, None);
}

#[test]
fn course_without_prerequisite_asks_for_none() {
    let mut ctx = enrolling(course(), Some(enrollment(None)));
    assert_eq!(enroll(&mut ctx, 5), Ok(()));
}

#[test]
fn abandoned_enrollment_closes_after_a_day() {
    let mut ctx = CloseEnrollment { enrollment: Some(enrollment(None)) };
    assert_eq!(close_enrollment(&mut ctx, 1000000000 + 86399), Err(AcademyError::UnenrollCooldown));
    assert_eq!(ctx.enrollment, Some(enrollment(None)));
    assert_eq!(close_enrollment(&mut ctx, 1000000000), Err(AcademyError::UnenrollCooldown));
    assert_eq!(close_enrollment(&mut ctx, 0), Err(AcademyError::UnenrollCooldown));
    assert_eq!(close_enrollment(&mut ctx, 1000000000 + 86400), Ok(false));
    assert_eq!(ctx.enrollment, None);
}

#[test]
fn finalized_enrollment_closes_at_once() {
    let mut ctx = CloseEnrollment { enrollment: Some(enrollment(Some(1000000001))) };
    assert_eq!(close_enrollment(&mut ctx, 1000000001), Ok(true));
    assert_eq!(ctx.enrollment, None);
    let mut ctx = CloseEnrollment { enrollment: Some(enrollment(Some(5))) };
    assert_eq!(close_enrollment(&mut ctx, i64::MIN), Ok(true));
    assert_eq!(ctx.enrollment, None);
}

#[test]
fn closed_enrollment_cannot_be_closed_again() {
    let mut ctx = CloseEnrollment { enrollment: Some(enrollment(None)) };
    assert_eq!(close_enrollment(&mut ctx, 1000000000 + 86400), Ok(false));
    assert_eq!(close_enrollment(&mut ctx, 1000000000 + 86400), Err(AcademyError::NotEnrolled));
    assert_eq!(ctx.enrollment, None);
}

#[test]
fn cooldown_is_measured_without_wrapping() {
    let early = Enrollment { enrolled_at: i64::MIN, ..enrollment(None) };
    let mut ctx = CloseEnrollment { enrollment: Some(early) };
    assert_eq!(close_enrollment(&mut ctx, i64::MAX), Ok(false));
    let late = Enrollment { enrolled_at: i64::MAX, ..enrollment(None) };
    let mut ctx = CloseEnrollment { enrollment: Some(late) };
    assert_eq!(close_enrollment(&mut ctx, i64::MIN), Err(AcademyError::UnenrollCooldown));
    assert_eq!(ctx.enrollment, Some(late));
}
