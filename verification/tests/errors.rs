use arma_persist::events::{DomainEventHandler, LockerActorCreatedHandler};
use arma_persist::models::{
    Actor, ActorCreated, ActorSnapshot, ActorStartingConfig, DomainEvent, FuelType, LockerItem,
    Money, Notification, NotificationKind, Organization, OrganizationMember, OrganizationRole,
    PlayerBankProfile, ServiceKind,
};
use arma_persist::repositories::{
    InMemoryActorRepository, InMemoryBankRepository, InMemoryNotificationRepository,
    InMemoryOrganizationRepository, NotificationRepository, OrganizationRepository,
};
use arma_persist::services::{
    create_actor_account, pay_for_service, ActorService, BankService, MedicalService,
    NotificationService, OrganizationService, RearmService,
};
use arma_persist::shared::{
    ActorError, BankError, EventError, LockerError, NotificationError, OrganizationError,
    ServiceError,
};

#[test]
fn bank_errors_come_from_their_inputs() {
    let mut bank = BankService::new(InMemoryBankRepository::new());

    assert_eq!(
        bank.init_player_account("  ", Some(Money::from_cents(0)), Some(Money::from_cents(0))).unwrap_err(),
        BankError::InvalidActorUid
    );
    assert_eq!(
        bank.init_player_account("p", None, Some(Money::from_cents(0))).unwrap_err(),
        BankError::InvalidAmount
    );
    assert_eq!(
        bank.withdraw_from_account("p", Money::from_cents(100)).unwrap_err(),
        BankError::AccountNotFound
    );
    bank.init_player_account("p", Some(Money::from_cents(0)), Some(Money::from_cents(100))).unwrap();
    assert_eq!(
        bank.withdraw_from_account("p", Money::from_cents(0)).unwrap_err(),
        BankError::InvalidAmount
    );
    assert_eq!(
        bank.withdraw_from_account("p", Money::from_cents(101)).unwrap_err(),
        BankError::InsufficientFunds
    );
    assert_eq!(bank.get_account(" ").unwrap_err(), BankError::InvalidActorUid);
    assert!(bank.get_account("q").unwrap().is_none());
}

#[test]
fn init_player_account_keeps_an_existing_profile() {
    let mut bank = BankService::new(InMemoryBankRepository::new());
    let first = bank.init_player_account("p", Some(Money::from_cents(100)), Some(Money::from_cents(200))).unwrap();
    let second = bank.init_player_account("p", Some(Money::from_cents(900)), Some(Money::from_cents(900))).unwrap();

    assert_eq!(second.cash.as_str(), "1.00");
    assert_eq!(second.account.balance.as_str(), "2.00");
    assert_eq!(second.account.id, first.account.id);
    assert_eq!(first.account.id.len(), 36);
}

#[test]
fn create_actor_account_rejects_blank_uid() {
    let blank = Actor::from_snapshot(ActorSnapshot::new(" ", "Tester"));
    assert!(matches!(
        create_actor_account(&blank, &ActorStartingConfig::default()),
        Err(BankError::InvalidActorUid)
    ));
    let actor = Actor::from_snapshot(ActorSnapshot::new("p", "Tester"));
    let view = create_actor_account(&actor, &ActorStartingConfig::default()).unwrap();
    assert_eq!(view.cash.as_str(), "0.00");
    assert_eq!(view.pending_earnings.as_str(), "0.00");
    assert!(!view.pin_set);
}

#[test]
fn service_errors_come_from_their_inputs() {
    let mut bank = BankService::new(InMemoryBankRepository::new());
    bank.init_player_account("p", Some(Money::from_cents(0)), Some(Money::from_cents(100))).unwrap();
    let mut rearm = RearmService::new(bank);

    assert_eq!(rearm.complete(" ", "ABC", 1).unwrap_err(), ServiceError::InvalidUid);
    assert_eq!(rearm.complete("p", " ", 1).unwrap_err(), ServiceError::InvalidPlate);
    assert_eq!(rearm.complete("p", "ABC", 0).unwrap_err(), ServiceError::InvalidAmount);
    assert_eq!(
        rearm.complete("p", "ABC", 1).unwrap_err(),
        ServiceError::Bank(BankError::InsufficientFunds)
    );
    assert_eq!(
        rearm.complete("q", "ABC", 1).unwrap_err(),
        ServiceError::Bank(BankError::AccountNotFound)
    );

    let mut medical = MedicalService::new(BankService::new(InMemoryBankRepository::new()));
    assert_eq!(
        medical.full_heal_with_fee("p", Money::from_cents(-1)).unwrap_err(),
        ServiceError::InvalidAmount
    );
    assert_eq!(
        medical.full_heal("p").unwrap_err(),
        ServiceError::Bank(BankError::AccountNotFound)
    );
}

#[test]
fn priced_service_takes_the_price_it_is_given() {
    let mut bank = BankService::new(InMemoryBankRepository::new());
    bank.init_player_account("p", Some(Money::from_cents(0)), Some(Money::from_cents(10000))).unwrap();

    let receipt = pay_for_service(
        &mut bank,
        "p",
        "ABC123",
        ServiceKind::Repair,
        Ok(Money::from_cents(1250)),
        "half repair".to_string(),
    )
    .unwrap();
    assert_eq!(receipt.amount.as_str(), "12.50");
    assert_eq!(receipt.kind, ServiceKind::Repair);
    assert_eq!(bank.get_account("p").unwrap().unwrap().account.balance.as_str(), "87.50");

    assert_eq!(
        pay_for_service(
            &mut bank,
            "p",
            "ABC123",
            ServiceKind::Repair,
            Err(ServiceError::InvalidDamage),
            String::new(),
        )
        .unwrap_err(),
        ServiceError::InvalidDamage
    );
}

#[test]
fn actor_errors_come_from_their_inputs() {
    let mut service = ActorService::new(InMemoryActorRepository::new());
    assert_eq!(
        service.init_or_create(ActorSnapshot::new("p", " ")).unwrap_err(),
        ActorError::InvalidName
    );
    assert_eq!(service.get(" ").unwrap_err(), ActorError::InvalidUid);
    let created = service.init_or_create(ActorSnapshot::new("p", "Tester")).unwrap();
    assert_eq!(created.actor.schema_version, Actor::CURRENT_SCHEMA_VERSION);
    assert_eq!(created.actor.created_at, created.actor.updated_at);
    assert!(created.actor.created_at > 0);
    assert_eq!(service.get("p").unwrap().unwrap().name, "Tester");
    service.delete("p").unwrap();
    assert!(service.get("p").unwrap().is_none());
}

#[test]
fn notification_errors_come_from_their_inputs() {
    let mut repository = InMemoryNotificationRepository::new();
    let saved = repository
        .save(Notification::new("p", NotificationKind::OrganizationKicked, "Kicked", "bye"))
        .unwrap();
    let mut service = NotificationService::new(repository);
    let id = uuid::Uuid::from_u128(saved.id);

    assert_eq!(service.list(" ").unwrap_err(), NotificationError::InvalidUid);
    assert_eq!(service.mark_read("p", "not-a-uuid").unwrap_err(), NotificationError::InvalidId);
    assert_eq!(
        service.mark_read("q", &id.to_string()).unwrap_err(),
        NotificationError::NotFound
    );
    assert_eq!(
        service
            .mark_read("p", &uuid::Uuid::from_u128(saved.id ^ 1).to_string())
            .unwrap_err(),
        NotificationError::NotFound
    );
    let braced = format!("{{{}}}", id.hyphenated().to_string().to_uppercase());
    let first = service.mark_read("p", &braced).unwrap();
    let again = service.mark_read("p", &id.simple().to_string()).unwrap();
    assert_eq!(first.read_at, again.read_at);
}

#[test]
fn notifications_are_listed_newest_first() {
    let mut repository = InMemoryNotificationRepository::new();
    let mut old = Notification::new("p", NotificationKind::OrganizationJoined, "old", "");
    old.created_at = 1_000;
    let mut new = Notification::new("p", NotificationKind::OrganizationJoined, "new", "");
    new.created_at = 2_000;
    let mut tie_low = Notification::new("p", NotificationKind::OrganizationJoined, "tie-low", "");
    tie_low.created_at = 1_500;
    tie_low.id = 1;
    let mut tie_high = Notification::new("p", NotificationKind::OrganizationJoined, "tie-high", "");
    tie_high.created_at = 1_500;
    tie_high.id = 2;
    for n in [old, tie_low, new, tie_high] {
        repository.save(n).unwrap();
    }

    let titles: Vec<String> = repository
        .list_by_uid("p")
        .unwrap()
        .into_iter()
        .map(|n| n.title)
        .collect();

    assert_eq!(titles, ["new", "tie-high", "tie-low", "old"]);
    assert!(Notification::new("p", NotificationKind::OrganizationJoined, "", "").id
        != Notification::new("p", NotificationKind::OrganizationJoined, "", "").id);
}

#[test]
fn organization_errors_come_from_their_inputs() {
    let mut service = OrganizationService::new(InMemoryOrganizationRepository::new());
    service.create_default_org().unwrap();
    service.create_player_org("org-1", "Player Org", "ceo-uid").unwrap();

    assert_eq!(service.get(" ").unwrap_err(), OrganizationError::InvalidId);
    assert_eq!(service.add_member("org-2", "x").unwrap_err(), OrganizationError::NotFound);
    assert_eq!(
        service.require_member("stranger", "org-1").unwrap_err(),
        OrganizationError::NotMember
    );
    assert_eq!(
        service.accept_invite("x", "missing").unwrap_err(),
        OrganizationError::InviteNotFound
    );
    let invite = service.create_invite("ceo-uid", "org-1", "member-uid").unwrap();
    assert_eq!(invite.id.len(), 36);
    assert_eq!(
        service.create_invite("ceo-uid", "org-1", "member-uid").unwrap_err(),
        OrganizationError::InviteNotPending
    );
    assert_eq!(
        service.create_invite("ceo-uid", "org-1", "ceo-uid").unwrap_err(),
        OrganizationError::AlreadyMember
    );
    assert_eq!(
        service.accept_invite("other-uid", &invite.id).unwrap_err(),
        OrganizationError::InviteeMismatch
    );
    service.decline_invite("member-uid", &invite.id).unwrap();
    assert_eq!(
        service.decline_invite("member-uid", &invite.id).unwrap_err(),
        OrganizationError::InviteNotPending
    );
    assert_eq!(
        service.issue_payday("ceo-uid", "org-1", Some(Money::from_cents(100)), false).unwrap_err(),
        OrganizationError::EmptyPayday
    );
    assert_eq!(
        service.issue_payday("ceo-uid", "org-1", Some(Money::from_cents(-100)), false).unwrap_err(),
        OrganizationError::InvalidAmount
    );
    assert_eq!(
        service.issue_payday("ceo-uid", "org-1", None, false).unwrap_err(),
        OrganizationError::InvalidAmount
    );
    assert_eq!(
        service.kick_member("org-1", "ceo-uid", "ceo-uid").unwrap_err(),
        OrganizationError::LastCeoCannotLeave
    );
    assert_eq!(
        service.disband_player_org("default", "ceo-uid").unwrap_err(),
        OrganizationError::NotMember
    );
}

#[test]
fn disband_reports_each_member_once() {
    let mut service = OrganizationService::new(InMemoryOrganizationRepository::new());
    service.create_default_org().unwrap();
    let mut organization = Organization::player_org("org-1", "Player Org", "ceo-uid");
    organization.members.push(OrganizationMember::new("member-uid", OrganizationRole::Member));
    organization.members.push(OrganizationMember::new("member-uid", OrganizationRole::Member));
    service.repository.save(organization).unwrap();

    let disband = service.disband_player_org("org-1", "ceo-uid").unwrap();

    assert_eq!(disband.reassigned_uids, ["ceo-uid", "member-uid"]);
    assert_eq!(disband.default_organization.members.len(), 2);
}

#[test]
fn locker_handler_reports_blank_uid() {
    let mut handler = LockerActorCreatedHandler::default();
    let actor = Actor::from_snapshot(ActorSnapshot::new(" ", "Tester"));
    let event = DomainEvent::ActorCreated(ActorCreated::new(actor, ActorStartingConfig::default()));

    match handler.handle(&event) {
        Err(EventError::HandlerFailed { handler, event, message }) => {
            assert_eq!(handler, "locker.actor_created");
            assert_eq!(event, "actor.created");
            assert!(!message.is_empty());
        }
        other => panic!("unexpected {other:?}"),
    }
    assert_eq!(handler.name(), "locker.actor_created");
}

#[test]
fn locker_items_are_checked_and_changed_in_place() {
    assert_eq!(LockerItem::new(" ", "x", 1).unwrap_err(), LockerError::InvalidCategory);
    assert_eq!(LockerItem::new("items", " ", 1).unwrap_err(), LockerError::InvalidClassname);
    let mut locker = arma_persist::models::Locker::default();
    locker.add_item(LockerItem::new("items", "FirstAidKit", 2).unwrap()).unwrap();

    locker.get_item_mut("FirstAidKit").expect("item is stored").amount = 5;

    assert_eq!(locker.get_item("FirstAidKit").map(|i| i.amount), Some(5));
    assert!(locker.get_item_mut("Missing").is_none());
    assert_eq!(locker.remove_item("FirstAidKit").map(|i| i.amount), Some(5));
    assert!(locker.get_item("FirstAidKit").is_none());
}

#[test]
fn pin_hash_is_hexadecimal_sha256() {
    let mut profile = PlayerBankProfile::new("p");
    profile.set_pin("1234");
    let shown = format!("{:?}", profile.pin.as_ref().expect("pin is set"));
    let hash = shown.split("hash: \"").nth(1).and_then(|rest| rest.split('"').next()).unwrap();

    assert_eq!(hash.len(), 64);
    assert!(hash.chars().all(|c| c.is_ascii_hexdigit() && !c.is_ascii_uppercase()));
}

#[test]
fn fuel_types_are_read_from_text() {
    assert_eq!(FuelType::parse(" Jet-A1 "), Ok(FuelType::Jeta1));
    assert_eq!(FuelType::parse("regular"), Ok(FuelType::Regular));
    assert_eq!(FuelType::parse("diesel"), Err(()));
    assert_eq!(FuelType::Jeta1.as_text(), "jeta1");
}

#[test]
fn fresh_ids_are_version_four_uuids() {
    let first = Notification::new("p", NotificationKind::OrganizationInvite, "t", "b");
    let second = Notification::new("p", NotificationKind::OrganizationInvite, "t", "b");

    assert_eq!(uuid::Uuid::from_u128(first.id).get_version_num(), 4);
    assert_ne!(first.id, second.id);
    assert!(first.created_at > 0);

    let account = PlayerBankProfile::new("p").account;
    let parsed = uuid::Uuid::parse_str(&account.id).expect("account id is a uuid");
    assert_eq!(parsed.get_version_num(), 4);
    assert_eq!(parsed.to_string(), account.id);
}

#[test]
fn snapshots_start_with_an_empty_loadout() {
    let snapshot = ActorSnapshot::new("p", "Tester");
    assert_eq!(snapshot.loadout, serde_json::Value::Array(Vec::new()));

    let actor = Actor::from_snapshot(snapshot.clone());
    let copy = actor.clone();
    assert_eq!(copy, actor);
    assert_eq!(copy.loadout, snapshot.loadout);
    assert_eq!(copy.organization, "default");
    assert!(copy.holster);
}
