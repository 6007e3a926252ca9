use arma_persist::models::{
    EquipmentCategory, VLocker,
    ActorSnapshot, Money, Notification, NotificationKind, PlayerBankProfile, VGarage,
    VehicleCategory,
};
use arma_persist::repositories::{
    BankRepository, InMemoryActorRepository, InMemoryBankRepository,
    InMemoryNotificationRepository, NotificationRepository,
};
use arma_persist::services::{ActorService, BankService, MedicalService, NotificationService, RearmService};
use arma_persist::shared::{BankError, ServiceError};

#[test]
fn money_text_has_two_decimals() {
    assert_eq!(Money::from_cents(0).to_amount().as_str(), "0.00");
    assert_eq!(Money::from_cents(1995).to_amount().as_str(), "19.95");
    assert_eq!(Money::from_cents(-5).to_amount().as_str(), "-0.05");
    assert_eq!(Money::from_cents(100_000_001).to_amount().as_str(), "1000000.01");
}

#[test]
fn merging_unlocks_twice_is_merging_once() {
    let mut garage = VGarage::default();
    garage.add(VehicleCategory::Cars, vec!["A".to_string(), "B".to_string()]);
    let mut extra = VGarage::default();
    extra.cars = vec!["B".to_string(), "C".to_string(), "C".to_string()];

    garage.merge(&extra);
    let once = garage.cars.clone();
    garage.merge(&extra);

    assert_eq!(garage.cars, once);
    assert_eq!(once, ["A", "B", "C"]);
}

#[test]
fn history_keeps_the_ten_newest_transactions() {
    let mut profile = PlayerBankProfile::new("steam:local-dev");
    for cents in 1..=12 {
        profile.record_transaction(Money::from_cents(cents), "deposit");
    }

    assert_eq!(profile.transactions.len(), 10);
    let amounts: Vec<i64> = profile.transactions.iter().map(|t| t.amount.cents()).collect();
    assert_eq!(amounts, [12, 11, 10, 9, 8, 7, 6, 5, 4, 3]);
    assert!(profile.transactions.iter().all(|t| t.uid == "steam:local-dev"));
}

#[test]
fn pin_that_was_set_is_accepted() {
    let mut profile = PlayerBankProfile::new("steam:local-dev");
    assert!(!profile.pin_is_set());
    assert!(!profile.verify_pin("1234"));

    profile.set_pin("1234");

    assert!(profile.pin_is_set());
    assert!(profile.verify_pin("1234"));
    assert!(!profile.verify_pin("4321"));
}

#[test]
fn accepted_charge_never_overdraws() {
    let mut bank = BankService::new(InMemoryBankRepository::new());
    bank.init_player_account("steam:local-dev", Some(Money::from_cents(0)), Some(Money::from_cents(1000)))
        .expect("account should be created");

    assert_eq!(
        bank.withdraw_from_account("steam:local-dev", Money::from_cents(1001))
            .expect_err("charge should be refused"),
        BankError::InsufficientFunds
    );
    let view = bank
        .withdraw_from_account("steam:local-dev", Money::from_cents(1000))
        .expect("charge should be accepted");

    assert_eq!(view.account.balance.as_str(), "0.00");
    assert_eq!(view.transactions.len(), 1);
    assert_eq!(view.transactions[0].amount.as_str(), "-10.00");
    assert_eq!(view.transactions[0].description, "withdrawal");
}

#[test]
fn paying_for_a_service_touches_only_the_payer() {
    let mut bank = BankService::new(InMemoryBankRepository::new());
    bank.init_player_account("payer", Some(Money::from_cents(0)), Some(Money::from_cents(10000))).expect("account should be created");
    bank.init_player_account("bystander", Some(Money::from_cents(500)), Some(Money::from_cents(10000)))
        .expect("account should be created");
    let mut service = RearmService::new(bank);

    service.complete("payer", "ABC123", 1).expect("rearm should complete");

    let payer = service.bank.get_account("payer").unwrap().unwrap();
    let bystander = service.bank.get_account("bystander").unwrap().unwrap();
    assert_eq!(payer.account.balance.as_str(), "25.00");
    assert_eq!(bystander.account.balance.as_str(), "100.00");
    assert_eq!(bystander.cash.as_str(), "5.00");
    assert!(bystander.transactions.is_empty());
}

#[test]
fn free_treatment_charges_nothing() {
    let mut bank = BankService::new(InMemoryBankRepository::new());
    bank.init_player_account("steam:local-dev", Some(Money::from_cents(0)), Some(Money::from_cents(100)))
        .expect("account should be created");
    let mut service = MedicalService::new(bank);

    service
        .full_heal_with_fee("steam:local-dev", Money::from_cents(0))
        .expect("heal should complete");

    let account = service.bank.get_account("steam:local-dev").unwrap().unwrap();
    assert_eq!(account.account.balance.as_str(), "1.00");
    assert!(account.transactions.is_empty());
}

#[test]
fn mark_all_read_leaves_nothing_unread() {
    let mut repository = InMemoryNotificationRepository::new();
    for title in ["one", "two", "three"] {
        repository
            .save(Notification::new("steam:local-dev", NotificationKind::OrganizationPayday, title, "body"))
            .unwrap();
    }
    repository
        .save(Notification::new("steam:other", NotificationKind::OrganizationPayday, "other", "body"))
        .unwrap();
    let mut service = NotificationService::new(repository);

    let marked = service.mark_all_read("steam:local-dev").unwrap();

    assert_eq!(marked.len(), 3);
    let read_at = marked[0].read_at.expect("marked notifications are read");
    assert!(marked.iter().all(|n| n.read_at == Some(read_at)));
    assert!(service.unread("steam:local-dev").unwrap().is_empty());
    assert_eq!(service.unread("steam:other").unwrap().len(), 1);
    assert!(service.mark_all_read("steam:local-dev").unwrap().is_empty());
}

#[test]
fn returning_actor_keeps_its_identity() {
    let mut service = ActorService::new(InMemoryActorRepository::new());
    let first = service
        .init_or_create(ActorSnapshot::new("steam:local-dev", "Tester"))
        .unwrap();
    let mut snapshot = ActorSnapshot::new("steam:local-dev", "Renamed");
    snapshot.organization = "org-1".to_string();
    snapshot.persist_position = false;
    snapshot.position = [7.0f64.to_bits(), 8.0f64.to_bits(), 9.0f64.to_bits()];

    let second = service.init_or_create(snapshot).unwrap();

    assert_eq!(second.actor.uid, first.actor.uid);
    assert_eq!(second.actor.created_at, first.actor.created_at);
    assert_eq!(second.actor.organization, "default");
    assert_eq!(second.actor.position, [0, 0, 0]);
    assert_eq!(second.actor.name, "Renamed");
}

#[test]
fn repository_reads_back_what_was_written() {
    let mut repository = InMemoryBankRepository::new();
    let profile = PlayerBankProfile::with_starting_balances(
        "steam:local-dev",
        Money::from_cents(150),
        Money::from_cents(250),
    );

    repository.save(profile).unwrap();
    let found = repository.find_by_uid("steam:local-dev").unwrap().unwrap();
    assert_eq!(found.cash, Money::from_cents(150));
    assert_eq!(found.account.balance, Money::from_cents(250));

    repository.delete("steam:local-dev").unwrap();
    assert!(repository.find_by_uid("steam:local-dev").unwrap().is_none());
}

#[test]
fn rearm_price_is_seventy_five_per_unit() {
    let service = RearmService::new(BankService::new(InMemoryBankRepository::new()));

    let quote = service.quote(3).expect("quote should be given");

    assert_eq!(quote.amount.as_str(), "225.00");
    assert_eq!(quote.description, "3 rearm units");
    assert_eq!(service.quote(0).expect_err("no units"), ServiceError::InvalidAmount);
}

#[test]
fn bank_profile_view_shows_money_as_text() {
    let mut profile = PlayerBankProfile::new("76561198000000000");
    profile.cash = Money::from_cents(1250);
    profile.account.deposit(Money::from_cents(2500));

    let view = arma_persist::models::PlayerBankProfileView::from(&profile);

    assert_eq!(view.cash.as_str(), "12.50");
    assert_eq!(view.account.balance.as_str(), "25.00");
    assert_eq!(view.pending_earnings.as_str(), "0.00");
    assert_eq!(view.account.uid, "76561198000000000");
    assert!(!view.pin_set);
}

#[test]
fn unlocking_and_removing_a_classname_restores_the_locker() {
    let mut locker = VLocker::default();
    locker.add(EquipmentCategory::Weapons, vec!["hgun_P07_F".to_string()]);
    let before = locker.clone();

    locker.add(EquipmentCategory::Weapons, vec!["arifle_MX_F".to_string()]);
    assert_eq!(
        locker.remove(EquipmentCategory::Weapons, "arifle_MX_F"),
        Some("arifle_MX_F".to_string())
    );
    assert_eq!(locker, before);
    assert_eq!(locker.remove(EquipmentCategory::Weapons, "arifle_MX_F"), None);
    assert_eq!(locker, before);
}

#[test]
fn unlocking_vehicles_twice_is_unlocking_once_and_touches_one_category() {
    let mut garage = VGarage::default();
    garage.add(VehicleCategory::Helis, vec!["heli_A".to_string()]);
    let names = vec!["car_A".to_string(), String::new(), "car_B".to_string(), "car_A".to_string()];
    garage.add(VehicleCategory::Cars, names.clone());
    assert_eq!(garage.get(VehicleCategory::Cars), ["car_A", "car_B"]);
    let once = garage.clone();
    garage.add(VehicleCategory::Cars, names);
    assert_eq!(garage, once);
    assert_eq!(garage.get(VehicleCategory::Helis), ["heli_A"]);

    assert_eq!(garage.remove(VehicleCategory::Cars, "car_A"), Some("car_A".to_string()));
    assert_eq!(garage.get(VehicleCategory::Cars), ["car_B"]);
    assert_eq!(garage.get(VehicleCategory::Helis), ["heli_A"]);
    assert_eq!(garage.remove(VehicleCategory::Cars, "car_A"), None);
}

#[test]
fn amounts_compare_as_their_cents() {
    assert!(Money::from_cents(-5) < Money::from_cents(3));
    assert!(!(Money::from_cents(3) < Money::from_cents(3)));
    assert!(Money::from_cents(3) <= Money::from_cents(3));
    assert!(Money::from_cents(100) > Money::from_cents(99));
}
