use superteam_academy::errors::AcademyError;
use superteam_academy::events::CredentialIssued;
use superteam_academy::instructions::issue_credential::{display_name, level_name, to_decimal, track_name};
use superteam_academy::instructions::{
    issue_credential, Attribute, CredentialOrder, CredentialReceipt, IssueCredential,
};
use superteam_academy::pubkey::Pubkey;
use superteam_academy::state::{Config, Course, Enrollment};

const NOW: i64 = 1000000000;

fn key(byte: u8) -> Pubkey {
    Pubkey::new_from_array([byte; 32])
}

fn config() -> Config {
    Config {
        authority: key(0),
        backend_signer: key(1),
        current_season: 1,
        current_mint: key(2),
        season_closed: false,
        season_started_at: 1000000000,
        max_daily_xp: 2000,
        max_achievement_xp: 500,
        _reserved: [0; 32],
        bump: 255,
    }
}

fn course(track_id: u16, track_level: u8) -> Course {
    Course {
        course_id: "anchor-beginner".to_string(),
        creator: key(3),
        authority: key(3),
        content_tx_id: [0u8; 32],
        version: 1,
        lesson_count: 10,
        difficulty: 1,
        xp_per_lesson: 30,
        track_id,
        track_level,
        prerequisite: None,
        completion_bonus_xp: 200,
        creator_reward_xp: 50,
        min_completions_for_reward: 10,
        total_completions: 0,
        total_enrollments: 0,
        is_active: true,
        created_at: 1000000000,
        updated_at: 1000000000,
        _reserved: [0; 16],
        bump: 255,
    }
}

fn enrollment(completed_at: Option<i64>, credential_asset: Option<Pubkey>) -> Enrollment {
    Enrollment {
        course: key(5),
        enrolled_version: 1,
        enrolled_at: 1000000000,
        completed_at,
        lesson_flags: [0, 0, 0, 0],
        credential_asset,
        bonus_claimed: false,
        _reserved: [0; 7],
        bump: 255,
    }
}

fn issuing(course: Course, enrollment: Enrollment) -> IssueCredential {
    IssueCredential {
        backend_signer: key(1),
        config: config(),
        config_key: key(60),
        course,
        learner: key(4),
        enrollment,
        track_collection: key(61),
        credential_asset: key(62),
    }
}

fn pair(key: &str, value: &str) -> Attribute {
    Attribute { key: key.to_string(), value: value.to_string() }
}

#[test]
fn numbers_are_written_in_decimal() {
    assert_eq!(to_decimal(0), "0");
    assert_eq!(to_decimal(7), "7");
    assert_eq!(to_decimal(9), "9");
    assert_eq!(to_decimal(10), "10");
    assert_eq!(to_decimal(99), "99");
    assert_eq!(to_decimal(100), "100");
    assert_eq!(to_decimal(1234), "1234");
    assert_eq!(to_decimal(10000), "10000");
    assert_eq!(to_decimal(60504), "60504");
    assert_eq!(to_decimal(u16::MAX), "65535");
    for n in 0..=u16::MAX {
        assert_eq!(to_decimal(n), n.to_string());
    }
}

#[test]
fn levels_and_tracks_have_names() {
    assert_eq!(level_name(0), "Beginner");
    assert_eq!(level_name(1), "Beginner");
    assert_eq!(level_name(2), "Intermediate");
    assert_eq!(level_name(3), "Advanced");
    assert_eq!(level_name(4), "Expert");
    assert_eq!(level_name(255), "Expert");
    assert_eq!(track_name(0), "Standalone");
    assert_eq!(track_name(1), "Anchor Framework");
    assert_eq!(track_name(2), "Rust for Solana");
    assert_eq!(track_name(3), "DeFi Development");
    assert_eq!(track_name(4), "Program Security");
    assert_eq!(track_name(5), "Track 5");
    assert_eq!(track_name(4711), "Track 4711");
    assert_eq!(track_name(u16::MAX), "Track 65535");
    assert_eq!(display_name(1, 1), "Anchor Framework \u{2014} Beginner");
    assert_eq!(display_name(40, 3), "Track 40 \u{2014} Advanced");
}

#[test]
fn first_credential_is_created_and_kept() {
    let mut ctx = issuing(course(2, 2), enrollment(Some(NOW), None));
    let receipt = issue_credential(&mut ctx, "https://arweave.net/abc".to_string(), NOW + 9).unwrap();
    assert_eq!(
        receipt,
        CredentialReceipt {
            order: CredentialOrder::Create {
                asset: key(62),
                collection: key(61),
                owner: key(4),
                update_authority: key(60),
                name: "Rust for Solana \u{2014} Intermediate".to_string(),
                uri: "https://arweave.net/abc".to_string(),
                frozen: true,
                attributes: vec![
                    pair("track_id", "2"),
                    pair("track_name", "Rust for Solana"),
                    pair("level", "2"),
                    pair("level_name", "Intermediate"),
                    pair("courses_completed", "1"),
                ],
            },
            issued: CredentialIssued {
                learner: key(4),
                track_id: 2,
                credential_asset: key(62),
                credential_created: true,
                credential_upgraded: false,
                current_level: 2,
                timestamp: NOW + 9,
            },
        }
    );
    assert_eq!(ctx, issuing(course(2, 2), enrollment(Some(NOW), Some(key(62)))));
}

#[test]
fn held_credential_is_upgraded_in_place() {
    let mut ctx = issuing(course(300, 3), enrollment(Some(NOW), Some(key(70))));
    let receipt = issue_credential(&mut ctx, "uri-2".to_string(), NOW + 9).unwrap();
    assert_eq!(
        receipt,
        CredentialReceipt {
            order: CredentialOrder::Upgrade {
                asset: key(70),
                collection: key(61),
                name: "Track 300 \u{2014} Advanced".to_string(),
                uri: "uri-2".to_string(),
                attributes: vec![
                    pair("level", "3"),
                    pair("level_name", "Advanced"),
                    pair("courses_completed", "3"),
                ],
            },
            issued: CredentialIssued {
                learner: key(4),
                track_id: 300,
                credential_asset: key(70),
                credential_created: false,
                credential_upgraded: true,
                current_level: 3,
                timestamp: NOW + 9,
            },
        }
    );
    assert_eq!(ctx, issuing(course(300, 3), enrollment(Some(NOW), Some(key(70)))));
}

#[test]
fn second_issue_upgrades_what_the_first_created() {
    let mut ctx = issuing(course(1, 1), enrollment(Some(NOW), None));
    let first = issue_credential(&mut ctx, "a".to_string(), NOW).unwrap();
    assert!(matches!(first.order, CredentialOrder::Create { .. }));
    ctx.credential_asset = key(99);
    let second = issue_credential(&mut ctx, "b".to_string(), NOW + 1).unwrap();
    match second.order {
        CredentialOrder::Upgrade { asset, .. } => assert_eq!(asset, key(62)),
        CredentialOrder::Create { .. } => panic!("a second credential was created"),
    }
    assert_eq!(second.issued.credential_asset, key(62));
    assert_eq!(ctx.enrollment.credential_asset, Some(key(62)));
}

#[test]
fn credential_waits_for_the_course_to_be_finalized() {
    let mut ctx = issuing(course(1, 1), enrollment(None, None));
    let before = ctx.clone();
    assert_eq!(issue_credential(&mut ctx, "a".to_string(), NOW), Err(AcademyError::CourseNotFinalized));
    assert_eq!(ctx, before);
    ctx.backend_signer = key(4);
    assert_eq!(issue_credential(&mut ctx, "a".to_string(), NOW), Err(AcademyError::Unauthorized));
    ctx.enrollment.completed_at = Some(NOW);
    assert_eq!(issue_credential(&mut ctx, "a".to_string(), NOW), Err(AcademyError::Unauthorized));
    assert_eq!(ctx.enrollment.credential_asset, None);
}
