use filament_inventory::{FilamentError, FilamentRepository, FilamentRoll, InMemoryFilamentRepository};

fn grams(g: i64) -> i64 {
    g * 1000
}

fn create_test_filament(id: &str, name: &str, material: &str) -> FilamentRoll {
    FilamentRoll::with_id(
        id,
        name,
        material,
        "#000000",
        1750,
        grams(1000),
        grams(1000),
        "Test Brand",
        "",
    )
    .expect("Failed to create test filament")
}

#[test]
fn test_save_filament() {
    let mut repository = InMemoryFilamentRepository::new();

    let filament = create_test_filament("test-id", "Test Filament", "PLA");

    repository.save(&filament).expect("Failed to save filament");
}

#[test]
fn test_find_filament_by_id() {
    let mut repository = InMemoryFilamentRepository::new();
    let filament = create_test_filament("test-id-123", "Test Filament", "PLA");

    repository.save(&filament).expect("Failed to save filament");
    let found_filament = repository
        .find_by_id("test-id-123")
        .expect("Failed to find filament");

    assert_eq!(filament.id(), found_filament.id());
    assert_eq!(filament.name(), found_filament.name());
}

#[test]
fn test_error_handling_find_by_id() {
    let mut repository = InMemoryFilamentRepository::new();

    let result = repository.find_by_id("non-existent-id");

    assert!(result.is_err());
    match result {
        Err(FilamentError::NotFound(id)) => assert_eq!(id, "non-existent-id"),
        _ => panic!("Expected NotFound error"),
    }
}

#[test]
fn repository_tests_test_update_filament_remaining_weight() {
    let mut repository = InMemoryFilamentRepository::new();
    let filament = create_test_filament("test-id-456", "Basic Black PLA", "PLA");

    repository.save(&filament).expect("Failed to save filament");

    let updated_filament = repository
        .update_remaining_weight("test-id-456", grams(750))
        .expect("Failed to update weight");

    assert_eq!(updated_filament.remaining_weight(), grams(750));
    assert_eq!(updated_filament.percentage_remaining(), 75);
}

#[test]
fn test_error_handling_update_negative_weight() {
    let mut repository = InMemoryFilamentRepository::new();
    let filament = create_test_filament("test-id-negative", "Test Filament", "PLA");

    repository.save(&filament).expect("Failed to save filament");

    let result = repository.update_remaining_weight("test-id-negative", grams(-10));

    assert!(result.is_err());
    match result {
        Err(FilamentError::InvalidData(_)) => assert!(true),
        _ => panic!("Expected InvalidData error"),
    }
}

#[test]
fn test_error_handling_update_excessive_weight() {
    let mut repository = InMemoryFilamentRepository::new();
    let filament = create_test_filament("test-id-excessive", "Test Filament", "PLA");

    repository.save(&filament).expect("Failed to save filament");

    let result = repository.update_remaining_weight("test-id-excessive", grams(1200));

    assert!(result.is_err());
    match result {
        Err(FilamentError::InvalidData(_)) => assert!(true),
        _ => panic!("Expected InvalidData error"),
    }
}

#[test]
fn test_find_all_filaments() {
    let mut repository = InMemoryFilamentRepository::new();

    let filament1 = create_test_filament("test-id-1", "Black PLA", "PLA");
    let filament2 = create_test_filament("test-id-2", "White ABS", "ABS");

    repository.save(&filament1).expect("Failed to save filament1");
    repository.save(&filament2).expect("Failed to save filament2");

    let all_filaments = repository.find_all().expect("Failed to get all filaments");

    assert_eq!(all_filaments.len(), 2);
    assert!(all_filaments.iter().any(|f| f.id() == "test-id-1"));
    assert!(all_filaments.iter().any(|f| f.id() == "test-id-2"));
}

#[test]
fn repository_tests_test_find_by_material() {
    let mut repository = InMemoryFilamentRepository::new();

    let filament1 = create_test_filament("test-id-1", "Black PLA", "PLA");
    let filament2 = create_test_filament("test-id-2", "White ABS", "ABS");
    let filament3 = create_test_filament("test-id-3", "Red PLA", "PLA");

    repository.save(&filament1).expect("Failed to save filament1");
    repository.save(&filament2).expect("Failed to save filament2");
    repository.save(&filament3).expect("Failed to save filament3");

    let pla_filaments = repository
        .find_by_material("PLA")
        .expect("Failed to find by material");

    assert_eq!(pla_filaments.len(), 2);
    assert!(pla_filaments.iter().all(|f| f.material() == "PLA"));
    assert!(pla_filaments.iter().any(|f| f.id() == "test-id-1"));
    assert!(pla_filaments.iter().any(|f| f.id() == "test-id-3"));
}
