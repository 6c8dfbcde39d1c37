use superteam_academy::pubkey::Pubkey;
use superteam_academy::state::{Config, Course, Enrollment, LearnerProfile};

fn setup_course() -> Course {
    Course {
        course_id: "anchor-beginner".to_string(),
        creator: Pubkey::new_from_array([3u8; 32]),
        authority: Pubkey::new_from_array([3u8; 32]),
        content_tx_id: [0u8; 32],
        version: 1,
        lesson_count: 10,
        difficulty: 1,
        xp_per_lesson: 30,
        track_id: 1,
        track_level: 1,
        prerequisite: None,
        completion_bonus_xp: 200,
        creator_reward_xp: 50,
        min_completions_for_reward: 10,
        total_completions: 0,
        total_enrollments: 0,
        is_active: true,
        created_at: 1000000000,
        updated_at: 1000000000,
        _reserved: [0; 16],
        bump: 255,
    }
}

fn setup_learner_profile() -> LearnerProfile {
    LearnerProfile {
        authority: Pubkey::new_from_array([4u8; 32]),
        current_streak: 5,
        longest_streak: 10,
        last_activity_date: 1000000000,
        streak_freezes: 2,
        achievement_flags: [0, 0, 0, 0],
        xp_earned_today: 100,
        last_xp_day: 11574,
        referral_count: 0,
        has_referrer: false,
        _reserved: [0; 16],
        bump: 255,
    }
}

fn setup_enrollment() -> Enrollment {
    Enrollment {
        course: Pubkey::new_from_array([5u8; 32]),
        enrolled_version: 1,
        enrolled_at: 1000000000,
        completed_at: None,
        lesson_flags: [0, 0, 0, 0],
        credential_asset: None,
        bonus_claimed: false,
        _reserved: [0; 7],
        bump: 255,
    }
}

#[test]
fn test_complete_lesson() {
    let mut enrollment = setup_enrollment();

    let new_completion = enrollment.complete_lesson(0);
    assert!(new_completion);
    assert!(enrollment.is_lesson_completed(0));
    assert!(!enrollment.is_lesson_completed(1));
    assert_eq!(enrollment.completed_lessons(), 1);

    let new_completion = enrollment.complete_lesson(5);
    assert!(new_completion);
    assert_eq!(enrollment.completed_lessons(), 2);

    let duplicate = enrollment.complete_lesson(0);
    assert!(!duplicate);
    assert_eq!(enrollment.completed_lessons(), 2);
}

#[test]
fn test_is_course_completed() {
    let mut enrollment = setup_enrollment();
    let course = setup_course();

    assert!(!enrollment.is_course_completed(course.lesson_count));

    for i in 0..course.lesson_count {
        enrollment.complete_lesson(i);
    }

    assert!(enrollment.is_course_completed(course.lesson_count));
    assert_eq!(enrollment.completed_lessons(), course.lesson_count);
}

#[test]
fn test_lesson_out_of_bounds() {
    let mut enrollment = setup_enrollment();

    let result = enrollment.complete_lesson(128);
    assert!(!result);
    assert!(!enrollment.is_lesson_completed(128));
}

#[test]
fn test_claim_achievement() {
    let mut learner = setup_learner_profile();

    assert!(!learner.is_achievement_claimed(0));
    learner.claim_achievement(0);
    assert!(learner.is_achievement_claimed(0));

    assert!(!learner.is_achievement_claimed(65));
    learner.claim_achievement(65);
    assert!(learner.is_achievement_claimed(65));

    assert!(learner.is_achievement_claimed(0));
}

#[test]
fn test_claim_achievement_across_words() {
    let mut learner = setup_learner_profile();

    let indices = vec![0, 63, 64, 127, 128, 191, 192, 255];

    for idx in indices {
        assert!(!learner.is_achievement_claimed(idx));
        learner.claim_achievement(idx);
        assert!(learner.is_achievement_claimed(idx));
    }

    let total: u32 = learner.achievement_flags.iter().map(|w| w.count_ones()).sum();
    assert_eq!(total, 8);
}

#[test]
fn test_unclaimed_achievement() {
    let learner = setup_learner_profile();

    for i in 0..256u16 {
        assert!(!learner.is_achievement_claimed(i as u8));
    }
}

#[test]
fn test_config_size() {
    assert!(Config::SIZE < 10000);
    assert!(Config::SIZE > 100);
}

#[test]
fn test_config_seeds() {
    assert_eq!(Config::SEED, *b"config");
}

#[test]
fn test_course_seeds() {
    let course_id = "anchor-beginner";
    let seeds = Course::seeds(course_id);
    assert_eq!(seeds.len(), 2);
    assert_eq!(seeds[0], b"course");
    assert_eq!(seeds[1], course_id.as_bytes());
}

#[test]
fn test_course_size() {
    assert!(Course::SIZE < 1000);
    assert!(Course::SIZE > 180);
}

#[test]
fn test_course_id_constraints() {
    assert!("".as_bytes().len() <= Course::MAX_COURSE_ID_LEN);

    let max_id = "a".repeat(32);
    assert_eq!(max_id.len(), Course::MAX_COURSE_ID_LEN);

    let over_max = "a".repeat(33);
    assert!(over_max.len() > Course::MAX_COURSE_ID_LEN);
}

#[test]
fn test_enrollment_size() {
    assert!(Enrollment::SIZE < 200);
    assert!(Enrollment::SIZE > 130);
}

#[test]
fn test_learner_profile_size() {
    assert!(LearnerProfile::SIZE < 150);
    assert!(LearnerProfile::SIZE > 80);
}

#[test]
fn sizes_are_the_sums_of_the_fields() {
    assert_eq!(Config::SIZE, 156);
    assert_eq!(Course::SIZE, 236);
    assert_eq!(Enrollment::SIZE, 133);
    assert_eq!(LearnerProfile::SIZE, 111);
}

#[test]
fn seeds_spell_their_words() {
    assert_eq!(Course::SEED, *b"course");
    assert_eq!(LearnerProfile::SEED, *b"learner");
    assert_eq!(Enrollment::SEED, *b"enrollment");
}

#[test]
fn enrollment_seeds_are_salt_course_and_learner() {
    let learner = Pubkey::new_from_array([9u8; 32]);
    let seeds = Enrollment::learner_seeds("rust-101", &learner);
    assert_eq!(seeds.len(), 3);
    assert_eq!(seeds[0], b"enrollment".to_vec());
    assert_eq!(seeds[1], b"rust-101".to_vec());
    assert_eq!(seeds[2], vec![9u8; 32]);
    let course_seeds = Enrollment::course_seeds("rust-101");
    assert_eq!(course_seeds, Course::seeds("rust-101"));
}

#[test]
fn pubkey_equality_is_by_bytes() {
    let mut bytes = [7u8; 32];
    let a = Pubkey::new_from_array(bytes);
    assert_eq!(a, Pubkey::new_from_array([7u8; 32]));
    assert_eq!(a.to_bytes(), [7u8; 32]);
    bytes[31] = 8;
    assert_ne!(a, Pubkey::new_from_array(bytes));
    bytes[31] = 7;
    bytes[0] = 8;
    assert_ne!(a, Pubkey::new_from_array(bytes));
    assert_eq!(Pubkey::default().to_bytes(), [0u8; 32]);
}

#[test]
fn marking_a_lesson_touches_nothing_else() {
    let mut enrollment = setup_enrollment();
    let before = enrollment;
    assert!(enrollment.complete_lesson(64));
    assert_eq!(enrollment.lesson_flags, [0, 1, 0, 0]);
    assert_eq!(Enrollment { lesson_flags: before.lesson_flags, ..enrollment }, before);
    assert!(enrollment.complete_lesson(127));
    assert_eq!(enrollment.lesson_flags, [0, 1 | (1u64 << 63), 0, 0]);
    assert!(!enrollment.complete_lesson(200));
    assert!(!enrollment.complete_lesson(255));
    assert_eq!(enrollment.lesson_flags, [0, 1 | (1u64 << 63), 0, 0]);
}

#[test]
fn lessons_from_128_on_do_not_count() {
    let mut enrollment = setup_enrollment();
    enrollment.lesson_flags = [0, 0, u64::MAX, 1];
    assert_eq!(enrollment.completed_lessons(), 0);
    assert!(!enrollment.is_lesson_completed(128));
    assert!(!enrollment.is_lesson_completed(192));
    enrollment.lesson_flags = [u64::MAX, u64::MAX, u64::MAX, u64::MAX];
    assert_eq!(enrollment.completed_lessons(), 128);
}

#[test]
fn course_completion_for_edge_counts() {
    let mut enrollment = setup_enrollment();
    assert!(enrollment.is_course_completed(0));
    assert!(!enrollment.is_course_completed(1));
    enrollment.complete_lesson(0);
    assert!(enrollment.is_course_completed(1));
    assert!(!enrollment.is_course_completed(10));
    for i in 1..10 {
        enrollment.complete_lesson(i);
    }
    assert!(enrollment.is_course_completed(10));
    assert!(!enrollment.is_course_completed(11));
    for i in 10..128 {
        enrollment.complete_lesson(i);
    }
    assert!(enrollment.is_course_completed(128));
    assert!(!enrollment.is_course_completed(129));
    assert!(!enrollment.is_course_completed(255));
    assert_eq!(enrollment.completed_lessons(), 128);
    let mut gap = setup_enrollment();
    for i in 0..128u8 {
        if i != 77 {
            gap.complete_lesson(i);
        }
    }
    assert!(gap.is_course_completed(77));
    assert!(!gap.is_course_completed(78));
    assert!(!gap.is_course_completed(128));
}

#[test]
fn claiming_an_achievement_twice_keeps_it_claimed() {
    let mut learner = setup_learner_profile();
    learner.claim_achievement(200);
    let once = learner;
    learner.claim_achievement(200);
    assert_eq!(learner, once);
    assert_eq!(learner.achievement_flags, [0, 0, 0, 1u64 << 8]);
    assert_eq!(LearnerProfile { achievement_flags: [0; 4], ..learner }, setup_learner_profile());
}
