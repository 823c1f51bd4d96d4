use filament_inventory::{FilamentError, FilamentRoll, FilamentRollBuilder};

fn roll(id: &str, diameter: i64, weight: i64, remaining: i64) -> Result<FilamentRoll, FilamentError> {
    FilamentRoll::with_id(id, "Black PLA", "PLA", "#000000", diameter, weight, remaining, "Acme", "")
}

fn is_invalid(r: Result<FilamentRoll, FilamentError>) -> bool {
    matches!(r, Err(FilamentError::InvalidData(_)))
}

#[test]
fn new_roll_is_full_with_a_fresh_hyphenated_id() {
    let f = FilamentRoll::new(
        "Black PLA".to_string(),
        "PLA".to_string(),
        "#000000".to_string(),
        1750,
        1_000_000,
        "Acme".to_string(),
    )
    .unwrap();
    assert_eq!(f.remaining_weight(), f.weight());
    assert_eq!(f.weight(), 1_000_000);
    assert_eq!(f.percentage_remaining(), 100);
    assert_eq!(f.diameter(), 1750);
    assert_eq!(f.name(), "Black PLA");
    assert_eq!(f.material(), "PLA");
    assert_eq!(f.color(), "#000000");
    assert_eq!(f.manufacturer(), "Acme");
    assert_eq!(f.storage_location(), "");
    let id: Vec<char> = f.id().chars().collect();
    assert_eq!(id.len(), 36);
    for (i, c) in id.iter().enumerate() {
        if i == 8 || i == 13 || i == 18 || i == 23 {
            assert_eq!(*c, '-');
        } else {
            assert!(c.is_ascii_hexdigit());
        }
    }
}

#[test]
fn fresh_ids_differ() {
    let make = || {
        FilamentRoll::new(
            "Black PLA".to_string(),
            "PLA".to_string(),
            "#000000".to_string(),
            1750,
            1_000_000,
            "Acme".to_string(),
        )
        .unwrap()
    };
    assert_ne!(make().id(), make().id());
}

#[test]
fn each_empty_text_is_refused() {
    let cases = [
        ("", "PLA", "#000000", "Acme"),
        ("Black PLA", "", "#000000", "Acme"),
        ("Black PLA", "PLA", "", "Acme"),
        ("Black PLA", "PLA", "#000000", ""),
    ];
    for (name, material, color, maker) in cases {
        let r = FilamentRoll::new(
            name.to_string(),
            material.to_string(),
            color.to_string(),
            1750,
            1_000_000,
            maker.to_string(),
        );
        assert!(is_invalid(r));
    }
}

#[test]
fn non_positive_sizes_are_refused() {
    assert!(is_invalid(roll("r1", 0, 1_000_000, 0)));
    assert!(is_invalid(roll("r1", -1750, 1_000_000, 0)));
    assert!(is_invalid(roll("r1", 1750, 0, 0)));
    assert!(is_invalid(roll("r1", 1750, -5, 0)));
}

#[test]
fn rebuilt_roll_bounds_are_checked() {
    assert!(is_invalid(roll("", 1750, 1_000_000, 0)));
    assert!(is_invalid(roll("r1", 1750, 1_000_000, -1)));
    assert!(is_invalid(roll("r1", 1750, 1_000_000, 1_000_001)));
    assert_eq!(roll("r1", 1750, 1_000_000, 0).unwrap().remaining_weight(), 0);
    assert_eq!(roll("r1", 1750, 1_000_000, 1_000_000).unwrap().remaining_weight(), 1_000_000);
}

#[test]
fn builder_keeps_given_fields() {
    let f = FilamentRollBuilder::new(
        "Red PETG".to_string(),
        "PETG".to_string(),
        "#FF0000".to_string(),
        2850,
        750_000,
        "Acme".to_string(),
    )
    .with_id("spool-7")
    .with_remaining_weight(300_000)
    .with_storage_location("Shelf 2")
    .build()
    .unwrap();
    assert_eq!(f.id(), "spool-7");
    assert_eq!(f.remaining_weight(), 300_000);
    assert_eq!(f.storage_location(), "Shelf 2");
    assert_eq!(f.percentage_remaining(), 40);
}

#[test]
fn builder_refuses_empty_id() {
    let r = FilamentRollBuilder::new(
        "Red PETG".to_string(),
        "PETG".to_string(),
        "#FF0000".to_string(),
        2850,
        750_000,
        "Acme".to_string(),
    )
    .with_id("")
    .build();
    assert!(is_invalid(r));
}

#[test]
fn percentage_is_rounded_down() {
    assert_eq!(roll("r1", 1750, 1_000_000, 750_000).unwrap().percentage_remaining(), 75);
    assert_eq!(roll("r1", 1750, 1_000_000, 333_000).unwrap().percentage_remaining(), 33);
    assert_eq!(roll("r1", 1750, 1_000_000, 199_999).unwrap().percentage_remaining(), 19);
    assert_eq!(roll("r1", 1750, 1_000_000, 1).unwrap().percentage_remaining(), 0);
    assert_eq!(roll("r1", 1750, 1_000_000, 0).unwrap().percentage_remaining(), 0);
    assert_eq!(roll("r1", 1750, i64::MAX, i64::MAX).unwrap().percentage_remaining(), 100);
}

#[test]
fn roll_update_out_of_bounds_changes_nothing() {
    let mut f = roll("r1", 1750, 1_000_000, 600_000).unwrap();
    assert!(matches!(f.update_remaining_weight(-10_000), Err(FilamentError::InvalidData(_))));
    assert_eq!(f.remaining_weight(), 600_000);
    assert!(matches!(f.update_remaining_weight(1_200_000), Err(FilamentError::InvalidData(_))));
    assert_eq!(f.remaining_weight(), 600_000);
    assert!(f.update_remaining_weight(0).is_ok());
    assert_eq!(f.remaining_weight(), 0);
    assert!(f.update_remaining_weight(1_000_000).is_ok());
    assert_eq!(f.remaining_weight(), 1_000_000);
}

#[test]
fn copies_are_equal_and_independent() {
    let f = roll("r1", 1750, 1_000_000, 600_000).unwrap();
    let mut g = f.clone();
    assert_eq!(f, g);
    g.update_remaining_weight(500_000).unwrap();
    assert_ne!(f, g);
    assert_eq!(f.remaining_weight(), 600_000);
}

#[test]
fn error_texts() {
    assert_eq!(
        FilamentError::NotFound("abc".to_string()).to_string(),
        "Filament with id 'abc' not found"
    );
    assert_eq!(
        FilamentError::InvalidData("Name cannot be empty".to_string()).to_string(),
        "Invalid filament data: Name cannot be empty"
    );
    assert_eq!(
        FilamentError::RepositoryError("disk full".to_string()).to_string(),
        "Repository error: disk full"
    );
}

#[test]
fn first_broken_rule_names_the_error() {
    let message = |r: Result<FilamentRoll, FilamentError>| match r {
        Err(FilamentError::InvalidData(m)) => m,
        _ => panic!("expected InvalidData"),
    };
    assert_eq!(
        message(FilamentRoll::with_id("", "", "", "", 0, 0, 0, "", "")),
        "Name cannot be empty"
    );
    assert_eq!(message(roll("r1", 0, 1_000_000, 0)), "Diameter must be positive");
    assert_eq!(message(roll("r1", 1750, 0, 0)), "Weight must be positive");
    assert_eq!(message(roll("", 1750, 1_000_000, -1)), "Remaining weight cannot be negative");
    assert_eq!(message(roll("", 1750, 1_000_000, 0)), "Id cannot be empty");
}

#[test]
fn explicit_storage_location_is_reported() {
    assert!(roll("r1", 1750, 1_000_000, 0).unwrap().has_storage_location());
    let f = FilamentRoll::new(
        "Black PLA".to_string(),
        "PLA".to_string(),
        "#000000".to_string(),
        1750,
        1_000_000,
        "Acme".to_string(),
    )
    .unwrap();
    assert!(!f.has_storage_location());
}
