use arma_persist::models::{
    Actor, ActorLifeState, ActorRank, ActorSnapshot, ActorStance, ActorStartingConfig,
    DomainEvent, Money, Notification, NotificationKind, ServiceKind, VGarage, VLocker,
};
use arma_persist::repositories::{
    InMemoryActorRepository, InMemoryBankRepository, InMemoryLockerRepository,
    InMemoryNotificationRepository, InMemoryVGarageRepository, InMemoryVLockerRepository,
    NotificationRepository,
};
use arma_persist::services::{
    create_actor_account, ActorService, BankService, LockerService, MedicalService,
    NotificationService, RearmService, VGarageService, VLockerService,
};
use arma_persist::shared::{ActorError, BankError};

#[test]
fn create_actor_locker_creates_empty_locker() {
    let mut service = LockerService::new(InMemoryLockerRepository::new());

    let locker = service
        .create_actor_locker("steam:local-dev")
        .expect("locker should be created");

    assert_eq!(locker.uid, "steam:local-dev");
    assert!(locker.locker.items.is_empty());
}

#[test]
fn create_actor_garage_provisions_starting_unlocks() {
    let mut service = VGarageService::new(InMemoryVGarageRepository::new());
    let starting = VGarage {
        cars: vec!["B_Quadbike_01_F".to_string()],
        ..VGarage::default()
    };

    let garage = service
        .create_actor_garage("steam:local-dev", &starting)
        .expect("garage should be created");

    assert_eq!(garage.uid, "steam:local-dev");
    assert_eq!(garage.unlocks.cars, ["B_Quadbike_01_F"]);
}

#[test]
fn create_actor_garage_merges_existing_garage() {
    let mut service = VGarageService::new(InMemoryVGarageRepository::new());
    let first = VGarage {
        cars: vec!["B_Quadbike_01_F".to_string()],
        ..VGarage::default()
    };
    let second = VGarage {
        cars: vec!["B_Quadbike_01_F".to_string(), "C_Offroad_01_F".to_string()],
        ..VGarage::default()
    };

    service
        .create_actor_garage("steam:local-dev", &first)
        .expect("garage should be created");
    let garage = service
        .create_actor_garage("steam:local-dev", &second)
        .expect("garage should be updated");

    assert_eq!(garage.unlocks.cars, ["B_Quadbike_01_F", "C_Offroad_01_F"]);
}

#[test]
fn create_actor_locker_provisions_starting_unlocks() {
    let mut service = VLockerService::new(InMemoryVLockerRepository::new());
    let starting = VLocker {
        weapons: vec!["hgun_P07_F".to_string()],
        ..VLocker::default()
    };

    let locker = service
        .create_actor_locker("steam:local-dev", &starting)
        .expect("locker should be created");

    assert_eq!(locker.uid, "steam:local-dev");
    assert_eq!(locker.unlocks.weapons, ["hgun_P07_F"]);
}

#[test]
fn create_actor_locker_merges_existing_locker() {
    let mut service = VLockerService::new(InMemoryVLockerRepository::new());
    let first = VLocker {
        weapons: vec!["hgun_P07_F".to_string()],
        ..VLocker::default()
    };
    let second = VLocker {
        weapons: vec!["hgun_P07_F".to_string(), "arifle_MX_F".to_string()],
        ..VLocker::default()
    };

    service
        .create_actor_locker("steam:local-dev", &first)
        .expect("locker should be created");
    let locker = service
        .create_actor_locker("steam:local-dev", &second)
        .expect("locker should be updated");

    assert_eq!(locker.unlocks.weapons, ["hgun_P07_F", "arifle_MX_F"]);
}

#[test]
fn create_actor_account_uses_actor_uid_as_string() {
    let actor = Actor::from_snapshot(ActorSnapshot::new("steam:local-dev", "Tester"));

    let profile = create_actor_account(&actor, &ActorStartingConfig::default())
        .expect("account should be created");

    assert_eq!(profile.uid, "steam:local-dev");
    assert_eq!(profile.account.uid, "steam:local-dev");
}

#[test]
fn create_actor_account_uses_configured_starting_money() {
    let actor = Actor::from_snapshot(ActorSnapshot::new("steam:local-dev", "Tester"));
    let starting = ActorStartingConfig {
        cash: Some(Money::from_cents(12550)),
        bank: Some(Money::from_cents(25025)),
        ..ActorStartingConfig::default()
    };

    let profile = create_actor_account(&actor, &starting).expect("account should be created");

    assert_eq!(profile.cash.as_str(), "125.50");
    assert_eq!(profile.account.balance.as_str(), "250.25");
}

#[test]
fn create_actor_account_rejects_negative_starting_money() {
    let actor = Actor::from_snapshot(ActorSnapshot::new("steam:local-dev", "Tester"));
    let starting = ActorStartingConfig {
        cash: Some(Money::from_cents(-100)),
        ..ActorStartingConfig::default()
    };

    assert!(matches!(
        create_actor_account(&actor, &starting),
        Err(BankError::InvalidAmount)
    ));
}

#[test]
fn full_heal_charges_bank_account() {
    let mut bank = BankService::new(InMemoryBankRepository::new());
    bank.init_player_account("steam:local-dev", Some(Money::from_cents(0)), Some(Money::from_cents(100000)))
        .expect("account should be created");
    let mut service = MedicalService::new(bank);

    let receipt = service
        .full_heal("steam:local-dev")
        .expect("heal should complete");

    assert_eq!(receipt.amount.as_str(), "250.00");
    let account = service
        .bank
        .get_account("steam:local-dev")
        .expect("account lookup should succeed")
        .expect("account should exist");
    assert_eq!(account.account.balance.as_str(), "750.00");
}

#[test]
fn respawn_is_recorded_without_charge() {
    let mut service = MedicalService::new(BankService::new(InMemoryBankRepository::new()));

    let receipt = service
        .record_respawn("steam:local-dev")
        .expect("respawn should record");

    assert_eq!(receipt.amount.as_str(), "0.00");
    assert_eq!(receipt.kind, ServiceKind::MedicalRespawn);
}

#[test]
fn respawn_can_charge_configured_fee() {
    let mut bank = BankService::new(InMemoryBankRepository::new());
    bank.init_player_account("steam:local-dev", Some(Money::from_cents(0)), Some(Money::from_cents(100000)))
        .expect("account should be created");
    let mut service = MedicalService::new(bank);

    let receipt = service
        .record_respawn_with_fee("steam:local-dev", Money::from_cents(10000))
        .expect("respawn should charge");

    assert_eq!(receipt.amount.as_str(), "100.00");
    let account = service
        .bank
        .get_account("steam:local-dev")
        .expect("account lookup should succeed")
        .expect("account should exist");
    assert_eq!(account.account.balance.as_str(), "900.00");
}

#[test]
fn complete_rearm_charges_by_unit_count() {
    let mut bank = BankService::new(InMemoryBankRepository::new());
    bank.init_player_account("steam:local-dev", Some(Money::from_cents(0)), Some(Money::from_cents(100000)))
        .expect("account should be created");
    let mut service = RearmService::new(bank);

    let receipt = service
        .complete("steam:local-dev", "ABC123", 4)
        .expect("rearm should complete");

    assert_eq!(receipt.amount.as_str(), "300.00");
    let account = service
        .bank
        .get_account("steam:local-dev")
        .expect("account lookup should succeed")
        .expect("account should exist");
    assert_eq!(account.account.balance.as_str(), "700.00");
}

#[test]
fn init_or_create_creates_missing_actor_and_emits_event() {
    let mut service = ActorService::new(InMemoryActorRepository::new());
    let result = service
        .init_or_create(ActorSnapshot::new("76561198000000000", "Tester"))
        .expect("actor should be created");

    assert!(result.created);
    assert_eq!(result.actor.uid, "76561198000000000");
    assert_eq!(result.events.len(), 1);
    assert!(matches!(result.events[0], DomainEvent::ActorCreated(_)));
}

#[test]
fn init_or_create_updates_existing_actor_without_event() {
    let mut service = ActorService::new(InMemoryActorRepository::new());
    service
        .init_or_create(ActorSnapshot::new("76561198000000000", "Tester"))
        .expect("actor should be created");

    let mut snapshot = ActorSnapshot::new("76561198000000000", "Renamed");
    snapshot.position = [1.0f64.to_bits(), 2.0f64.to_bits(), 3.0f64.to_bits()];
    snapshot.stance = ActorStance::Crouch;
    snapshot.rank = ActorRank::Sergeant;
    snapshot.life_state = ActorLifeState::Injured;

    let result = service
        .init_or_create(snapshot)
        .expect("actor should be updated");

    assert!(!result.created);
    assert_eq!(result.actor.name, "Renamed");
    assert_eq!(
        result.actor.position,
        [1.0f64.to_bits(), 2.0f64.to_bits(), 3.0f64.to_bits()]
    );
    assert!(result.events.is_empty());
}

#[test]
fn init_or_create_rejects_invalid_snapshot() {
    let mut service = ActorService::new(InMemoryActorRepository::new());

    let error = service
        .init_or_create(ActorSnapshot::new("", "Tester"))
        .expect_err("empty uid should fail");

    assert_eq!(error, ActorError::InvalidUid);
}

#[test]
fn unread_only_returns_unread_notifications_for_uid() {
    let mut repository = InMemoryNotificationRepository::new();
    repository
        .save(Notification::new(
            "steam:local-dev",
            NotificationKind::OrganizationInvite,
            "Invite",
            "Join us",
        ))
        .expect("notification should save");
    repository
        .save(Notification::new(
            "steam:other",
            NotificationKind::OrganizationInvite,
            "Invite",
            "Join us",
        ))
        .expect("notification should save");
    let service = NotificationService::new(repository);

    let notifications = service
        .unread("steam:local-dev")
        .expect("unread lookup should succeed");

    assert_eq!(notifications.len(), 1);
    assert_eq!(notifications[0].uid, "steam:local-dev");
}

#[test]
fn mark_read_sets_read_at() {
    let mut repository = InMemoryNotificationRepository::new();
    let notification = repository
        .save(Notification::new(
            "steam:local-dev",
            NotificationKind::OrganizationInvite,
            "Invite",
            "Join us",
        ))
        .expect("notification should save");
    let mut service = NotificationService::new(repository);

    let notification = service
        .mark_read(
            "steam:local-dev",
            &uuid::Uuid::from_u128(notification.id).to_string(),
        )
        .expect("notification should mark read");

    assert!(notification.read_at.is_some());
}
