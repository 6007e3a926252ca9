use arma_persist::models::{
    Money, Organization, OrganizationAction, OrganizationInviteStatus, OrganizationMember,
    OrganizationRole, VGarage, VLocker,
};
use arma_persist::repositories::{InMemoryOrganizationRepository, OrganizationRepository};
use arma_persist::services::OrganizationService;
use arma_persist::shared::OrganizationError;

#[test]
fn default_org_has_no_player_uid_ceo_member() {
    let mut service = OrganizationService::new(InMemoryOrganizationRepository::new());
    let organization = service
        .create_default_org()
        .expect("default org should be created");

    assert!(organization.members.is_empty());
    assert!(!organization.is_ceo("ceo-uid"));
    assert_eq!(organization.bank, Money::zero());
}

#[test]
fn add_member_adds_default_org_member_once() {
    let mut service = OrganizationService::new(InMemoryOrganizationRepository::new());
    service
        .create_default_org()
        .expect("default org should be created");

    service
        .add_member("default", "member-uid")
        .expect("member should be added");
    let organization = service
        .add_member("default", "member-uid")
        .expect("member add should be idempotent");

    assert_eq!(organization.members.len(), 1);
    assert!(organization.has_member("member-uid"));
    assert!(!organization.is_ceo("member-uid"));
}

#[test]
fn default_org_uses_configured_starting_values() {
    let mut service = OrganizationService::new(InMemoryOrganizationRepository::new());
    let garage = VGarage {
        cars: vec!["B_Quadbike_01_F".to_string()],
        ..VGarage::default()
    };
    let locker = VLocker {
        weapons: vec!["hgun_P07_F".to_string()],
        ..VLocker::default()
    };

    let organization = service
        .create_default_org_with_starting(Some(Money::from_cents(100050)), &garage, &locker)
        .expect("default org should be created");

    assert_eq!(organization.bank.to_amount().as_str(), "1000.50");
    assert_eq!(organization.virtual_garage.cars, ["B_Quadbike_01_F"]);
    assert_eq!(organization.virtual_locker.weapons, ["hgun_P07_F"]);
}

#[test]
fn default_org_ceo_slot_can_spend_and_buy_unlocks() {
    let mut service = OrganizationService::new(InMemoryOrganizationRepository::new());
    service
        .create_default_org()
        .expect("default org should be created");

    assert!(
        service
            .require_spend_allowed_with_default_ceo_slot("ceo-uid", "default", true)
            .is_ok()
    );
    assert!(
        service
            .require_buy_unlock_allowed_with_default_ceo_slot("ceo-uid", "default", true)
            .is_ok()
    );
}

#[test]
fn default_org_ceo_cannot_perform_restricted_admin_actions() {
    let mut service = OrganizationService::new(InMemoryOrganizationRepository::new());
    service
        .create_default_org()
        .expect("default org should be created");

    let error = service
        .require_action_allowed_with_default_ceo_slot(
            "ceo-uid",
            "default",
            OrganizationAction::Rename,
            true,
        )
        .expect_err("default org rename should be blocked");

    assert_eq!(error, OrganizationError::RestrictedDefaultOrgAction);
}

#[test]
fn default_org_non_slot_player_cannot_spend() {
    let mut service = OrganizationService::new(InMemoryOrganizationRepository::new());
    service
        .create_default_org()
        .expect("default org should be created");

    assert_eq!(
        service
            .require_spend_allowed_with_default_ceo_slot("member-uid", "default", false)
            .expect_err("non slot player cannot spend"),
        OrganizationError::NotCeo
    );
}

#[test]
fn player_org_ceo_can_perform_admin_actions() {
    let mut service = OrganizationService::new(InMemoryOrganizationRepository::new());
    service
        .create_player_org("org-1", "Player Org", "ceo-uid")
        .expect("player org should be created");

    assert!(
        service
            .require_action_allowed("ceo-uid", "org-1", OrganizationAction::Rename)
            .is_ok()
    );
}

#[test]
fn member_can_access_but_cannot_spend() {
    let mut service = OrganizationService::new(InMemoryOrganizationRepository::new());
    let mut organization = Organization::player_org("org-1", "Player Org", "ceo-uid");
    organization.members.push(OrganizationMember::new(
        "member-uid",
        OrganizationRole::Member,
    ));
    service
        .repository
        .save(organization)
        .expect("org should be saved");

    assert!(service.require_member("member-uid", "org-1").is_ok());
    assert_eq!(
        service
            .require_spend_allowed("member-uid", "org-1")
            .expect_err("member cannot spend"),
        OrganizationError::NotCeo
    );
}

#[test]
fn player_org_ceo_cannot_leave_without_disbanding() {
    let mut service = OrganizationService::new(InMemoryOrganizationRepository::new());
    service
        .create_player_org("org-1", "Player Org", "ceo-uid")
        .expect("player org should be created");

    assert_eq!(
        service
            .leave_member("org-1", "ceo-uid")
            .expect_err("ceo should disband instead of leave"),
        OrganizationError::LastCeoCannotLeave
    );
}

#[test]
fn player_org_member_leave_moves_member_to_default_org() {
    let mut service = OrganizationService::new(InMemoryOrganizationRepository::new());
    service
        .create_default_org()
        .expect("default org should be created");
    let mut organization = Organization::player_org("org-1", "Player Org", "ceo-uid");
    organization.members.push(OrganizationMember::new(
        "member-uid",
        OrganizationRole::Member,
    ));
    service.repository.save(organization).unwrap();

    let transfer = service
        .leave_member("org-1", "member-uid")
        .expect("member should leave");

    assert_eq!(transfer.organization.id, "org-1");
    assert_eq!(transfer.default_organization.id, "default");
    assert_eq!(transfer.uid, "member-uid");
    assert!(
        !service
            .get("org-1")
            .unwrap()
            .unwrap()
            .has_member("member-uid")
    );
    assert!(
        service
            .get("default")
            .unwrap()
            .unwrap()
            .has_member("member-uid")
    );
}

#[test]
fn default_org_member_cannot_leave_or_be_kicked() {
    let mut service = OrganizationService::new(InMemoryOrganizationRepository::new());
    service
        .create_default_org()
        .expect("default org should be created");
    service.add_member("default", "member-uid").unwrap();

    assert_eq!(
        service
            .leave_member("default", "member-uid")
            .expect_err("default member cannot leave"),
        OrganizationError::CannotLeaveDefaultOrg
    );
    assert_eq!(
        service
            .kick_member("default", "ceo-uid", "member-uid")
            .expect_err("default member cannot be kicked"),
        OrganizationError::RestrictedDefaultOrgAction
    );
}

#[test]
fn kick_member_moves_member_to_default_org() {
    let mut service = OrganizationService::new(InMemoryOrganizationRepository::new());
    service
        .create_default_org()
        .expect("default org should be created");
    let mut organization = Organization::player_org("org-1", "Player Org", "ceo-uid");
    organization.members.push(OrganizationMember::new(
        "member-uid",
        OrganizationRole::Member,
    ));
    service.repository.save(organization).unwrap();

    let transfer = service
        .kick_member("org-1", "ceo-uid", "member-uid")
        .expect("member should be kicked");

    assert_eq!(transfer.uid, "member-uid");
    assert!(
        !service
            .get("org-1")
            .unwrap()
            .unwrap()
            .has_member("member-uid")
    );
    assert!(
        service
            .get("default")
            .unwrap()
            .unwrap()
            .has_member("member-uid")
    );
}

#[test]
fn create_player_org_moves_ceo_from_default_org() {
    let mut service = OrganizationService::new(InMemoryOrganizationRepository::new());
    service
        .create_default_org()
        .expect("default org should be created");
    service.add_member("default", "ceo-uid").unwrap();

    let organization = service
        .create_player_org("org-1", "Player Org", "ceo-uid")
        .expect("player org should be created");

    assert!(organization.is_ceo("ceo-uid"));
    assert!(
        !service
            .get("default")
            .unwrap()
            .unwrap()
            .has_member("ceo-uid")
    );
}

#[test]
fn accept_invite_moves_member_from_previous_org() {
    let mut service = OrganizationService::new(InMemoryOrganizationRepository::new());
    service
        .create_default_org()
        .expect("default org should be created");
    service.add_member("default", "member-uid").unwrap();
    service
        .create_player_org("org-1", "Player Org", "ceo-uid")
        .expect("player org should be created");
    let invite = service
        .create_invite("ceo-uid", "org-1", "member-uid")
        .expect("invite should be created");

    let (organization, _) = service
        .accept_invite("member-uid", &invite.id.to_string())
        .expect("invite should be accepted");

    assert!(organization.has_member("member-uid"));
    assert!(
        !service
            .get("default")
            .unwrap()
            .unwrap()
            .has_member("member-uid")
    );
}

#[test]
fn disband_player_org_reassigns_members_to_default_org() {
    let mut service = OrganizationService::new(InMemoryOrganizationRepository::new());
    service
        .create_default_org()
        .expect("default org should be created");
    let mut organization = Organization::player_org("org-1", "Player Org", "ceo-uid");
    organization.members.push(OrganizationMember::new(
        "member-uid",
        OrganizationRole::Member,
    ));
    service.repository.save(organization).unwrap();

    let disband = service
        .disband_player_org("org-1", "ceo-uid")
        .expect("player org should disband");

    assert_eq!(disband.disbanded.id, "org-1");
    assert_eq!(disband.reassigned_uids, ["ceo-uid", "member-uid"]);
    assert!(service.get("org-1").expect("lookup should work").is_none());
    let default_org = service
        .get("default")
        .expect("lookup should work")
        .expect("default org should exist");
    assert!(default_org.has_member("ceo-uid"));
    assert!(default_org.has_member("member-uid"));
    assert!(!default_org.is_ceo("ceo-uid"));
}

#[test]
fn default_org_ceo_slot_can_issue_payday_to_members() {
    let mut service = OrganizationService::new(InMemoryOrganizationRepository::new());
    service
        .create_default_org_with_starting(Some(Money::from_cents(10000)), &VGarage::default(), &VLocker::default())
        .expect("default org should be created");
    service
        .add_member("default", "ceo-uid")
        .expect("issuer should be added");
    service
        .add_member("default", "member-1")
        .expect("member should be added");
    service
        .add_member("default", "member-2")
        .expect("member should be added");

    let payday = service
        .issue_payday("ceo-uid", "default", Some(Money::from_cents(2500)), true)
        .expect("payday should be issued");

    assert_eq!(payday.amount.as_str(), "25.00");
    assert_eq!(payday.recipients, ["member-1", "member-2"]);
    assert_eq!(payday.organization.bank.as_str(), "50.00");
}

#[test]
fn payday_uses_org_members() {
    let mut service = OrganizationService::new(InMemoryOrganizationRepository::new());
    service
        .create_default_org_with_starting(Some(Money::from_cents(10000)), &VGarage::default(), &VLocker::default())
        .expect("default org should be created");
    service
        .add_member("default", "ceo-uid")
        .expect("issuer should be added");
    service
        .add_member("default", "member-1")
        .expect("member should be added");
    service
        .add_member("default", "member-2")
        .expect("member should be added");

    let payday = service
        .issue_payday("ceo-uid", "default", Some(Money::from_cents(2500)), true)
        .expect("payday should be issued");

    assert_eq!(payday.recipients, ["member-1", "member-2"]);
    assert_eq!(payday.organization.bank.as_str(), "50.00");
}

#[test]
fn payday_rejects_insufficient_org_funds() {
    let mut service = OrganizationService::new(InMemoryOrganizationRepository::new());
    service
        .create_default_org_with_starting(Some(Money::from_cents(1000)), &VGarage::default(), &VLocker::default())
        .expect("default org should be created");
    service
        .add_member("default", "member-1")
        .expect("member should be added");

    assert_eq!(
        service
            .issue_payday("ceo-uid", "default", Some(Money::from_cents(2500)), true)
            .expect_err("payday should fail"),
        OrganizationError::InsufficientFunds
    );
}

#[test]
fn player_org_payday_uses_member_recipients() {
    let mut service = OrganizationService::new(InMemoryOrganizationRepository::new());
    service
        .create_player_org("org-1", "Player Org", "ceo-uid")
        .expect("player org should be created");
    let mut organization = service.get("org-1").unwrap().unwrap();
    organization.bank = Money::from_cents(10_000);
    organization.members.push(OrganizationMember::new(
        "member-uid",
        OrganizationRole::Member,
    ));
    service.repository.save(organization).unwrap();

    let payday = service
        .issue_payday("ceo-uid", "org-1", Some(Money::from_cents(2500)), false)
        .expect("payday should be issued");

    assert_eq!(payday.recipients, ["member-uid"]);
    assert_eq!(payday.organization.bank.as_str(), "75.00");
}

#[test]
fn default_org_needs_a_starting_bank_that_was_read_and_is_not_negative() {
    let mut service = OrganizationService::new(InMemoryOrganizationRepository::new());
    assert_eq!(
        service
            .create_default_org_with_starting(None, &VGarage::default(), &VLocker::default())
            .unwrap_err(),
        OrganizationError::InvalidAmount
    );
    assert_eq!(
        service
            .create_default_org_with_starting(
                Some(Money::from_cents(-1)),
                &VGarage::default(),
                &VLocker::default()
            )
            .unwrap_err(),
        OrganizationError::InvalidAmount
    );
}

#[test]
fn a_created_invite_is_accepted_once_by_its_id() {
    let mut service = OrganizationService::new(InMemoryOrganizationRepository::new());
    service.create_default_org().unwrap();
    service.add_member("default", "member-uid").unwrap();
    service.create_player_org("org-1", "Player Org", "ceo-uid").unwrap();
    let invite = service.create_invite("ceo-uid", "org-1", "member-uid").unwrap();

    assert_eq!(invite.id.len(), 36);
    assert_eq!(invite.id.as_bytes()[8], b'-');
    assert_eq!(invite.id.as_bytes()[14], b'4');

    let (organization, accepted) = service.accept_invite("member-uid", &invite.id).unwrap();
    assert!(organization.has_member("member-uid"));
    assert!(!organization.is_ceo("member-uid"));
    assert_eq!(accepted.status, OrganizationInviteStatus::Accepted);
    assert_eq!(service.get("org-1").unwrap(), Some(organization));
    assert_eq!(
        service.accept_invite("member-uid", &invite.id).unwrap_err(),
        OrganizationError::InviteNotPending
    );
}
