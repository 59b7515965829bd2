use relatum::errors::DomainError;
use relatum::models::department::DepartmentRegistry;
use relatum::models::ids::{DepartmentId, UserId};
use relatum::models::signature::{Signature, SignatureFormat};
use relatum::models::users::{DirectoryMarker, Role, User};
use relatum::models::week::IsoWeek;

#[test]
fn membership_reflects_configured_departments() {
    let registry =
        DepartmentRegistry::new(vec![DepartmentId::new("blue"), DepartmentId::new("red")]);
    assert!(registry.contains(&DepartmentId::new("blue")));
    assert!(registry.contains(&DepartmentId::new("red")));
    assert!(!registry.contains(&DepartmentId::new("green")));
}

#[test]
fn duplicates_are_collapsed_preserving_order() {
    let registry = DepartmentRegistry::new(vec![
        DepartmentId::new("blue"),
        DepartmentId::new("blue"),
        DepartmentId::new("red"),
    ]);
    assert_eq!(registry.all().len(), 2);
    assert_eq!(registry.all()[0].as_str(), "blue");
    assert_eq!(registry.all()[1].as_str(), "red");
}

#[test]
fn empty_registry_contains_nothing() {
    let registry = DepartmentRegistry::default();
    assert!(registry.is_empty());
    assert!(!registry.contains(&DepartmentId::new("blue")));
}

fn png_bytes() -> Vec<u8> {
    vec![0x89, 0x50, 0x4E, 0x47, 0x0D, 0x0A, 0x1A, 0x0A, 0x00, 0x01]
}

#[test]
fn accepts_a_well_formed_png() {
    let sig = Signature::new(SignatureFormat::Png, png_bytes()).unwrap();
    assert_eq!(sig.format(), SignatureFormat::Png);
    assert_eq!(sig.bytes(), png_bytes().as_slice());
}

#[test]
fn rejects_an_empty_image() {
    assert!(matches!(
        Signature::new(SignatureFormat::Png, Vec::new()),
        Err(DomainError::Invalid(_))
    ));
}

#[test]
fn rejects_an_oversized_image() {
    let mut bytes = png_bytes();
    bytes.resize(Signature::MAX_BYTES + 1, 0);
    assert!(matches!(
        Signature::new(SignatureFormat::Png, bytes),
        Err(DomainError::Invalid(_))
    ));
}

#[test]
fn rejects_non_png_bytes() {
    assert!(matches!(
        Signature::new(SignatureFormat::Png, b"not a png".to_vec()),
        Err(DomainError::Invalid(_))
    ));
}

#[test]
fn format_token_round_trips() {
    assert_eq!(SignatureFormat::Png.as_str(), "png");
    assert_eq!(SignatureFormat::parse("png").unwrap(), SignatureFormat::Png);
    assert!(matches!(
        SignatureFormat::parse("gif"),
        Err(DomainError::Invalid(_))
    ));
}

#[test]
fn an_image_of_exactly_the_limit_is_accepted() {
    let mut bytes = png_bytes();
    bytes.resize(Signature::MAX_BYTES, 0);
    assert!(Signature::new(SignatureFormat::Png, bytes).is_ok());
}

fn user(marker: DirectoryMarker, department: Option<&str>) -> User {
    User::new(
        UserId::new("u"),
        "u".to_string(),
        marker,
        department.map(DepartmentId::new),
    )
}

#[test]
fn a_user_without_a_department_has_no_role() {
    assert!(user(DirectoryMarker::Instructor, None).role().is_none());
    assert!(user(DirectoryMarker::Trainee, None).role().is_none());
    assert!(user(DirectoryMarker::Regular, None).role().is_none());
}

#[test]
fn marker_and_department_derive_the_role() {
    assert!(matches!(
        user(DirectoryMarker::Instructor, Some("blue")).role(),
        Some(Role::Instructor { .. })
    ));
    assert!(matches!(
        user(DirectoryMarker::Trainee, Some("blue")).role(),
        Some(Role::Trainee { .. })
    ));
    assert!(matches!(
        user(DirectoryMarker::Regular, Some("blue")).role(),
        Some(Role::Signer { .. })
    ));
}

#[test]
fn assigning_and_clearing_a_department_toggles_activity() {
    let inert = user(DirectoryMarker::Regular, None);
    let active = inert.with_department(DepartmentId::new("blue"));
    assert!(active.role().is_some());
    assert_eq!(active.department().unwrap().as_str(), "blue");
    assert!(active.without_department().role().is_none());
}

#[test]
fn accepts_an_ordinary_week() {
    let w = IsoWeek::new(2026, 24).unwrap();
    assert_eq!(w.year(), 2026);
    assert_eq!(w.week(), 24);
}

#[test]
fn display_zero_pads_the_week() {
    assert_eq!(IsoWeek::new(2026, 4).unwrap().to_string(), "2026-W04");
    assert_eq!(IsoWeek::new(2026, 24).unwrap().to_string(), "2026-W24");
}

#[test]
fn from_str_round_trips_display() {
    for (y, w) in [(2026, 1), (2026, 4), (2026, 24)] {
        let week = IsoWeek::new(y, w).unwrap();
        assert_eq!(week.to_string().parse::<IsoWeek>().unwrap(), week);
    }
}

#[test]
fn accepts_week_53_in_a_long_year() {
    assert!(IsoWeek::new(2026, 53).is_ok());
    assert_eq!("2026-W53".parse::<IsoWeek>().unwrap().week(), 53);
}

#[test]
fn rejects_week_53_in_a_short_year() {
    assert!(matches!(
        IsoWeek::new(2025, 53),
        Err(DomainError::Invalid(_))
    ));
}

#[test]
fn rejects_out_of_range_and_malformed_strings() {
    for bad in [
        "2026-W00", "2026-W54", "2026-24", "garbage", "2026-W", "-W12",
    ] {
        assert!(
            matches!(bad.parse::<IsoWeek>(), Err(DomainError::Invalid(_))),
            "expected {bad:?} to be rejected"
        );
    }
}

#[test]
fn is_after_orders_chronologically() {
    let w24 = IsoWeek::new(2026, 24).unwrap();
    let w25 = IsoWeek::new(2026, 25).unwrap();
    assert!(w25.is_after(&w24));
    assert!(!w24.is_after(&w25));
    assert!(!w24.is_after(&w24));

    let y2026_w1 = IsoWeek::new(2026, 1).unwrap();
    let y2025_w52 = IsoWeek::new(2025, 52).unwrap();
    assert!(y2026_w1.is_after(&y2025_w52));
    assert!(!y2025_w52.is_after(&y2026_w1));
}

#[test]
fn week_text_round_trips_for_negative_and_small_years() {
    for (y, w) in [(-5, 10), (7, 2), (-9999, 1), (9999, 52), (2020, 53)] {
        let week = IsoWeek::new(y, w).unwrap();
        assert_eq!(IsoWeek::parse(&week.to_string()).unwrap(), week);
    }
    assert_eq!(IsoWeek::new(-5, 10).unwrap().to_string(), "-005-W10");
    assert_eq!(IsoWeek::new(7, 2).unwrap().to_string(), "0007-W02");
}

#[test]
fn week_parse_follows_integer_parsing() {
    assert_eq!(IsoWeek::parse("+2026-W+7").unwrap(), IsoWeek::new(2026, 7).unwrap());
    assert_eq!(IsoWeek::parse("2026-W007").unwrap(), IsoWeek::new(2026, 7).unwrap());
    assert!(IsoWeek::parse("2026-W 7").is_err());
    assert!(IsoWeek::parse("2026-W300").is_err());
    assert!(IsoWeek::parse("40000-W01").is_err());
    assert!(IsoWeek::parse("10000-W01").is_err());
    assert!(IsoWeek::parse("2026-W-W01").is_err());
}

#[test]
fn refusals_say_what_was_wrong() {
    match IsoWeek::parse("20\"26\tW") {
        Err(DomainError::Invalid(m)) => {
            assert_eq!(m, "malformed ISO week \"20\\\"26\\tW\", expected YYYY-Www")
        }
        other => panic!("expected a malformed week, got {other:?}"),
    }
    for odd in ["ä'\u{85}", "e\u{301}\u{200b}\u{ad}", "🚀\u{7f}"] {
        match IsoWeek::parse(odd) {
            Err(DomainError::Invalid(m)) => {
                assert_eq!(m, format!("malformed ISO week {odd:?}, expected YYYY-Www"))
            }
            other => panic!("expected a malformed week, got {other:?}"),
        }
    }
    match IsoWeek::parse("x\u{85}") {
        Err(DomainError::Invalid(m)) => {
            assert_eq!(m, "malformed ISO week \"x\\u{85}\", expected YYYY-Www")
        }
        other => panic!("expected a malformed week, got {other:?}"),
    }
    match IsoWeek::parse("2025-W53") {
        Err(DomainError::Invalid(m)) => assert_eq!(m, "not a valid ISO week: 2025-W53"),
        other => panic!("expected an invalid week, got {other:?}"),
    }
    match SignatureFormat::parse("g\u{1}f") {
        Err(DomainError::Invalid(m)) => assert_eq!(m, "unsupported signature format \"g\\u{1}f\""),
        other => panic!("expected an unsupported format, got {other:?}"),
    }
    let mut big = png_bytes();
    big.resize(Signature::MAX_BYTES + 1, 0);
    match Signature::new(SignatureFormat::Png, big) {
        Err(DomainError::Invalid(m)) => {
            assert_eq!(m, "signature image is 262145 bytes, over the 262144-byte limit")
        }
        other => panic!("expected an oversized image, got {other:?}"),
    }
}
