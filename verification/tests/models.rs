use arma_persist::models::{
    ActorDisconnected, DomainEvent, EquipmentCategory, Locker, LockerItem, LockerTransferCommitted,
    Money, VGarage, VLocker, VehicleCategory,
};
use arma_persist::models::garage::{
    check_hit_point_counts, check_vehicle_labels, normalize_hit_point_labels,
};
use arma_persist::shared::{GarageError, LockerError};

#[test]
fn money_amount_serializes_as_string() {
    let amount = Money::from_cents(1995).to_amount();

    assert_eq!(amount.as_str(), "19.95");
}

#[test]
fn locker_adds_item_by_classname() {
    let mut locker = Locker::default();
    let item = LockerItem::new("weapons", "hgun_P07_F", 1).expect("item should be valid");

    locker.add_item(item).expect("item should be added");

    assert_eq!(
        locker.get_item("hgun_P07_F").map(|item| item.amount),
        Some(1)
    );
}

#[test]
fn locker_rejects_zero_amount() {
    assert_eq!(
        LockerItem::new("items", "FirstAidKit", 0).expect_err("amount should be invalid"),
        LockerError::InvalidAmount
    );
}

#[test]
fn v_garage_merge_adds_unique_unlocks() {
    let mut garage = VGarage::default();
    garage.add(
        VehicleCategory::Cars,
        vec!["B_Quadbike_01_F".to_string(), "B_Quadbike_01_F".to_string()],
    );

    let mut extra = VGarage::default();
    extra.cars = vec!["B_Quadbike_01_F".to_string(), "C_Offroad_01_F".to_string()];
    garage.merge(&extra);

    assert_eq!(garage.cars, ["B_Quadbike_01_F", "C_Offroad_01_F"]);
}

#[test]
fn v_locker_merge_adds_unique_unlocks() {
    let mut locker = VLocker::default();
    locker.add(
        EquipmentCategory::Weapons,
        vec!["hgun_P07_F".to_string(), "hgun_P07_F".to_string()],
    );

    let mut extra = VLocker::default();
    extra.weapons = vec!["hgun_P07_F".to_string(), "arifle_MX_F".to_string()];
    locker.merge(&extra);

    assert_eq!(locker.weapons, ["hgun_P07_F", "arifle_MX_F"]);
}

#[test]
fn actor_disconnected_uses_expected_event_name() {
    let event = DomainEvent::ActorDisconnected(ActorDisconnected::new("76561198000000000"));

    assert_eq!(event.name(), "actor.disconnected");
}

#[test]
fn locker_transfer_uses_expected_event_name() {
    let event = DomainEvent::LockerTransferCommitted(LockerTransferCommitted::new(
        "76561198000000000",
        2,
        5,
    ));

    assert_eq!(event.name(), "locker.transfer_committed");
}

#[test]
fn money_adds_subtracts_and_shows_as_text() {
    let sum = Money::from_cents(150) + Money::from_cents(50);
    let difference = Money::from_cents(150) - Money::from_cents(200);

    assert_eq!(sum, Money::from_cents(200));
    assert_eq!(difference.cents(), -50);
    assert_eq!(arma_persist::models::MoneyAmount::from(difference).as_str(), "-0.50");
    assert!(sum.is_positive());
    assert!(!difference.is_positive());
    assert!(!Money::zero().is_positive());
}

#[test]
fn hit_point_labels_fill_in_what_is_missing() {
    let mut names: Vec<String> = Vec::new();
    let mut selections = vec!["engine".to_string()];
    normalize_hit_point_labels(&mut names, &mut selections, 1);
    assert_eq!(names, ["engine"]);
    assert_eq!(selections, ["engine"]);

    let mut names = vec!["wheel".to_string()];
    let mut selections: Vec<String> = Vec::new();
    normalize_hit_point_labels(&mut names, &mut selections, 1);
    assert_eq!(selections, ["wheel"]);

    let mut names: Vec<String> = Vec::new();
    let mut selections = vec!["engine".to_string()];
    normalize_hit_point_labels(&mut names, &mut selections, 2);
    assert!(names.is_empty());
    assert_eq!(selections, ["engine"]);
}

#[test]
fn vehicle_labels_and_hit_point_counts_are_checked() {
    assert_eq!(check_vehicle_labels("ABC123", "C_Offroad_01_F"), Ok(()));
    assert_eq!(check_vehicle_labels(" ", " "), Err(GarageError::InvalidPlate));
    assert_eq!(check_vehicle_labels("ABC123", ""), Err(GarageError::InvalidClassname));
    assert_eq!(check_hit_point_counts(2, 2, 2), Ok(()));
    assert_eq!(check_hit_point_counts(1, 2, 2), Err(GarageError::InvalidHitPoints));
    assert_eq!(check_hit_point_counts(2, 2, 1), Err(GarageError::InvalidHitPoints));
}
