use vstd::prelude::*;
use crate::errors::AcademyError;
use crate::events::CredentialIssued;
use crate::pubkey::Pubkey;
use crate::state::config::Config;
use crate::state::course::Course;
use crate::state::enrollment::Enrollment;

verus! {

/// What `issue_credential` works on.
#[derive(Clone, Debug, PartialEq, Eq)]
pub struct IssueCredential {
    /// Who attests the completion.
    pub backend_signer: Pubkey,
    /// The configuration record.
    pub config: Config,
    /// The address of the configuration record: the authority over every
    /// credential.
    pub config_key: Pubkey,
    /// The course.
    pub course: Course,
    /// The learner, who owns the credential.
    pub learner: Pubkey,
    /// The learner's enrollment in the course.
    pub enrollment: Enrollment,
    /// The collection of the course's track.
    pub track_collection: Pubkey,
    /// The address for a new credential.
    pub credential_asset: Pubkey,
}

/// One named value on a credential.
#[derive(Clone, Debug, PartialEq, Eq)]
pub struct Attribute {
    pub key: String,
    pub value: String,
}

/// What is to be done to the learner's credential for the track. Whoever
/// runs the request carries it out, signing as the platform.
#[derive(Clone, Debug, PartialEq, Eq)]
pub enum CredentialOrder {
    /// Make a new credential that the learner owns and cannot transfer.
    Create {
        asset: Pubkey,
        collection: Pubkey,
        owner: Pubkey,
        update_authority: Pubkey,
        name: String,
        uri: String,
        frozen: bool,
        attributes: Vec<Attribute>,
    },
    /// Bring the credential that the learner holds to the course's level.
    Upgrade { asset: Pubkey, collection: Pubkey, name: String, uri: String, attributes: Vec<Attribute> },
}

/// What `issue_credential` hands back: the order, and the record of it.
#[derive(Clone, Debug, PartialEq, Eq)]
pub struct CredentialReceipt {
    pub order: CredentialOrder,
    pub issued: CredentialIssued,
}

// ----------------------------------------------------------------------------
// Labels
// ----------------------------------------------------------------------------
/// The character for the digit `d`.
pub open spec fn digit_char(d: nat) -> char {
    if d == 0 {
        '0'
    } else if d == 1 {
        '1'
    } else if d == 2 {
        '2'
    } else if d == 3 {
        '3'
    } else if d == 4 {
        '4'
    } else if d == 5 {
        '5'
    } else if d == 6 {
        '6'
    } else if d == 7 {
        '7'
    } else if d == 8 {
        '8'
    } else {
        '9'
    }
}

/// `n` in decimal digits, without leading zeros.
pub open spec fn decimal(n: nat) -> Seq<char>
    decreases n,
{
    if n < 10 {
        seq![digit_char(n)]
    } else {
        decimal(n / 10).push(digit_char(n % 10))
    }
}

/// The name of level `level`.
pub open spec fn level_label(level: u8) -> Seq<char> {
    if level <= 1 {
        "Beginner"@
    } else if level == 2 {
        "Intermediate"@
    } else if level == 3 {
        "Advanced"@
    } else {
        "Expert"@
    }
}

/// The name of track `track_id`: one of the five known names, else `Track`
/// and the number.
pub open spec fn track_label(track_id: u16) -> Seq<char> {
    if track_id == 0 {
        "Standalone"@
    } else if track_id == 1 {
        "Anchor Framework"@
    } else if track_id == 2 {
        "Rust for Solana"@
    } else if track_id == 3 {
        "DeFi Development"@
    } else if track_id == 4 {
        "Program Security"@
    } else {
        "Track "@ + decimal(track_id as nat)
    }
}

/// The name shown on a credential of track `track_id` at level `level`: the
/// track, a dash, the level.
pub open spec fn display_label(track_id: u16, level: u8) -> Seq<char> {
    track_label(track_id) + " \u{2014} "@ + level_label(level)
}

fn digit_str(d: u8) -> (s: &'static str)
    requires
        d < 10,
    ensures
        s@ == seq![digit_char(d as nat)],
{
    proof {
        reveal_strlit("0");
        reveal_strlit("1");
        reveal_strlit("2");
        reveal_strlit("3");
        reveal_strlit("4");
        reveal_strlit("5");
        reveal_strlit("6");
        reveal_strlit("7");
        reveal_strlit("8");
        reveal_strlit("9");
    }
    if d == 0 {
        "0"
    } else if d == 1 {
        "1"
    } else if d == 2 {
        "2"
    } else if d == 3 {
        "3"
    } else if d == 4 {
        "4"
    } else if d == 5 {
        "5"
    } else if d == 6 {
        "6"
    } else if d == 7 {
        "7"
    } else if d == 8 {
        "8"
    } else {
        "9"
    }
}

/// `n` written in decimal digits.
pub fn to_decimal(n: u16) -> (text: String)
    ensures
        text@ == decimal(n as nat),
    decreases n,
{
    if n < 10 {
        String::from_str(digit_str(n as u8))
    } else {
        let mut text = to_decimal(n / 10);
        text.append(digit_str((n % 10) as u8));
        text
    }
}

/// The name of level `level`.
pub fn level_name(level: u8) -> (name: &'static str)
    ensures
        name@ == level_label(level),
{
    if level <= 1 {
        "Beginner"
    } else if level == 2 {
        "Intermediate"
    } else if level == 3 {
        "Advanced"
    } else {
        "Expert"
    }
}

/// The name of track `track_id`.
pub fn track_name(track_id: u16) -> (name: String)
    ensures
        name@ == track_label(track_id),
{
    if track_id == 0 {
        String::from_str("Standalone")
    } else if track_id == 1 {
        String::from_str("Anchor Framework")
    } else if track_id == 2 {
        String::from_str("Rust for Solana")
    } else if track_id == 3 {
        String::from_str("DeFi Development")
    } else if track_id == 4 {
        String::from_str("Program Security")
    } else {
        let number = to_decimal(track_id);
        String::from_str("Track ").concat(number.as_str())
    }
}

/// The name shown on a credential of track `track_id` at level `level`.
pub fn display_name(track_id: u16, level: u8) -> (name: String)
    ensures
        name@ == display_label(track_id, level),
{
    track_name(track_id).concat(" \u{2014} ").concat(level_name(level))
}

// ----------------------------------------------------------------------------
// Attributes
// ----------------------------------------------------------------------------
/// The keys and values of `attributes`, in order.
pub open spec fn pairs_of(attributes: Seq<Attribute>) -> Seq<(Seq<char>, Seq<char>)> {
    Seq::new(attributes.len(), |i: int| (attributes[i].key@, attributes[i].value@))
}

/// What a new credential says: the track by number and by name, the level by
/// number and by name, and one completed course.
pub open spec fn created_attributes(course: Course) -> Seq<(Seq<char>, Seq<char>)> {
    seq![
        ("track_id"@, decimal(course.track_id as nat)),
        ("track_name"@, track_label(course.track_id)),
        ("level"@, decimal(course.track_level as nat)),
        ("level_name"@, level_label(course.track_level)),
        ("courses_completed"@, "1"@),
    ]
}

/// Whether `pairs` is what an upgraded credential says anew: the level by
/// number and by name, and a number of completed courses. That number is for
/// display only: it is some count written in decimal, and which one is left
/// open here.
pub open spec fn is_upgraded_attributes(pairs: Seq<(Seq<char>, Seq<char>)>, course: Course) -> bool {
    &&& pairs.len() == 3
    &&& pairs[0] == ("level"@, decimal(course.track_level as nat))
    &&& pairs[1] == ("level_name"@, level_label(course.track_level))
    &&& pairs[2].0 == "courses_completed"@
    &&& exists|count: nat| pairs[2].1 == #[trigger] decimal(count)
}

fn attribute(key: &str, value: String) -> (attribute: Attribute)
    ensures
        attribute.key@ == key@,
        attribute.value@ == value@,
{
    Attribute { key: String::from_str(key), value }
}

fn attributes_on_creation(course: &Course) -> (attributes: Vec<Attribute>)
    ensures
        pairs_of(attributes@) == created_attributes(*course),
{
    let mut attributes: Vec<Attribute> = Vec::new();
    attributes.push(attribute("track_id", to_decimal(course.track_id)));
    attributes.push(attribute("track_name", track_name(course.track_id)));
    attributes.push(attribute("level", to_decimal(course.track_level as u16)));
    attributes.push(attribute("level_name", String::from_str(level_name(course.track_level))));
    attributes.push(attribute("courses_completed", String::from_str("1")));
    attributes
}

fn attributes_on_upgrade(course: &Course) -> (attributes: Vec<Attribute>)
    ensures
        is_upgraded_attributes(pairs_of(attributes@), *course),
{
    let mut attributes: Vec<Attribute> = Vec::new();
    attributes.push(attribute("level", to_decimal(course.track_level as u16)));
    attributes.push(attribute("level_name", String::from_str(level_name(course.track_level))));
    attributes.push(attribute("courses_completed", to_decimal(course.track_level as u16)));
    attributes
}

// ----------------------------------------------------------------------------
// The request
// ----------------------------------------------------------------------------
/// Why no credential can be issued, if none can: the attester is not the
/// backend signer (`Unauthorized`), or the course is not finalized
/// (`CourseNotFinalized`).
pub open spec fn issue_credential_refusal(ctx: IssueCredential) -> Option<AcademyError> {
    if ctx.backend_signer != ctx.config.backend_signer {
        Some(AcademyError::Unauthorized)
    } else if ctx.enrollment.completed_at is None {
        Some(AcademyError::CourseNotFinalized)
    } else {
        None
    }
}

/// The credential that the order is about: the one the enrollment holds, or
/// else the new one.
pub open spec fn credential_of(ctx: IssueCredential) -> Pubkey {
    match ctx.enrollment.credential_asset {
        Some(held) => held,
        None => ctx.credential_asset,
    }
}

/// Whether `order` is what `issue_credential` orders for `ctx` with the
/// description `uri`: a new, frozen credential under the platform's
/// authority where the enrollment holds none, else an upgrade of the one it
/// holds; named by track and level either way.
pub open spec fn is_order_for(order: CredentialOrder, ctx: IssueCredential, uri: Seq<char>) -> bool {
    match order {
        CredentialOrder::Create {
            asset,
            collection,
            owner,
            update_authority,
            name,
            uri: order_uri,
            frozen,
            attributes,
        } => {
            &&& ctx.enrollment.credential_asset is None
            &&& asset == ctx.credential_asset
            &&& collection == ctx.track_collection
            &&& owner == ctx.learner
            &&& update_authority == ctx.config_key
            &&& name@ == display_label(ctx.course.track_id, ctx.course.track_level)
            &&& order_uri@ == uri
            &&& frozen
            &&& pairs_of(attributes@) == created_attributes(ctx.course)
        },
        CredentialOrder::Upgrade { asset, collection, name, uri: order_uri, attributes } => {
            &&& ctx.enrollment.credential_asset == Some(asset)
            &&& collection == ctx.track_collection
            &&& name@ == display_label(ctx.course.track_id, ctx.course.track_level)
            &&& order_uri@ == uri
            &&& is_upgraded_attributes(pairs_of(attributes@), ctx.course)
        },
    }
}

/// The record of a credential issued at `now`.
pub open spec fn issued_record(ctx: IssueCredential, now: i64) -> CredentialIssued {
    CredentialIssued {
        learner: ctx.learner,
        track_id: ctx.course.track_id,
        credential_asset: credential_of(ctx),
        credential_created: ctx.enrollment.credential_asset is None,
        credential_upgraded: ctx.enrollment.credential_asset is Some,
        current_level: ctx.course.track_level,
        timestamp: now,
    }
}

/// Orders the learner's credential for the track of a finalized course: a
/// new one where the enrollment holds none, which the enrollment then holds;
/// else an upgrade of the one it holds. A refusal changes nothing.
pub fn issue_credential(ctx: &mut IssueCredential, metadata_uri: String, now: i64) -> (result:
    Result<CredentialReceipt, AcademyError>)
    ensures
        match issue_credential_refusal(*old(ctx)) {
            Some(e) => result == Err::<CredentialReceipt, AcademyError>(e) && *final(ctx) == *old(
                ctx,
            ),
            None => {
                &&& result is Ok
                &&& is_order_for(result->Ok_0.order, *old(ctx), metadata_uri@)
                &&& result->Ok_0.issued == issued_record(*old(ctx), now)
                &&& *final(ctx) == (IssueCredential {
                    enrollment: Enrollment {
                        credential_asset: Some(credential_of(*old(ctx))),
                        ..old(ctx).enrollment
                    },
                    ..*old(ctx)
                })
            },
        },
        old(ctx).enrollment.wf() ==> final(ctx).enrollment.wf(),
{
    if ctx.backend_signer != ctx.config.backend_signer {
        return Err(AcademyError::Unauthorized);
    }
    if ctx.enrollment.completed_at.is_none() {
        return Err(AcademyError::CourseNotFinalized);
    }
    let name = display_name(ctx.course.track_id, ctx.course.track_level);
    match ctx.enrollment.credential_asset {
        None => {
            let attributes = attributes_on_creation(&ctx.course);
            let order = CredentialOrder::Create {
                asset: ctx.credential_asset,
                collection: ctx.track_collection,
                owner: ctx.learner,
                update_authority: ctx.config_key,
                name,
                uri: metadata_uri,
                frozen: true,
                attributes,
            };
            let issued = CredentialIssued {
                learner: ctx.learner,
                track_id: ctx.course.track_id,
                credential_asset: ctx.credential_asset,
                credential_created: true,
                credential_upgraded: false,
                current_level: ctx.course.track_level,
                timestamp: now,
            };
            ctx.enrollment.credential_asset = Some(ctx.credential_asset);
            Ok(CredentialReceipt { order, issued })
        },
        Some(held) => {
            let attributes = attributes_on_upgrade(&ctx.course);
            let order = CredentialOrder::Upgrade {
                asset: held,
                collection: ctx.track_collection,
                name,
                uri: metadata_uri,
                attributes,
            };
            let issued = CredentialIssued {
                learner: ctx.learner,
                track_id: ctx.course.track_id,
                credential_asset: held,
                credential_created: false,
                credential_upgraded: true,
                current_level: ctx.course.track_level,
                timestamp: now,
            };
            Ok(CredentialReceipt { order, issued })
        },
    }
}

} // verus!
