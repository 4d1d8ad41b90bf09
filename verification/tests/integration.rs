use rns_v1_badge_lockers::Amount;
use rns_v1_badge_lockers::Deposit;
use rns_v1_badge_lockers::Instant;
use rns_v1_badge_lockers::LockError;
use rns_v1_badge_lockers::ResourceId;
use rns_v1_badge_lockers::V1AuthRelinquishment;

struct TestEnv {
    v1_admin_badge_resource: ResourceId,
    v1_upgrade_badge_resource: ResourceId,
    escrow: V1AuthRelinquishment,
}

fn setup() -> TestEnv {
    let v1_admin_badge_resource = ResourceId { hi: 0x11, lo: 0xa1 };
    let v1_upgrade_badge_resource = ResourceId { hi: 0x22, lo: 0xb2 };
    let escrow = V1AuthRelinquishment::instantiate(
        v1_admin_badge_resource,
        v1_upgrade_badge_resource,
    );
    TestEnv { v1_admin_badge_resource, v1_upgrade_badge_resource, escrow }
}

fn now() -> Instant {
    Instant { seconds_since_unix_epoch: 1_700_000_000 }
}

#[test]
fn test_instantiation() {
    let env = setup();

    let status = env.escrow.get_lock_status();
    assert_eq!(status.admin_badges_locked, Amount::from_units(0));
    assert_eq!(status.upgrade_badges_locked, Amount::from_units(0));
    assert_eq!(status.admin_badge_resource, env.v1_admin_badge_resource);
    assert_eq!(status.upgrade_badge_resource, env.v1_upgrade_badge_resource);
}

#[test]
fn test_lock_admin_badges() {
    let mut env = setup();

    let admin_badges = Deposit {
        resource: env.v1_admin_badge_resource,
        amount: Amount::from_units(5),
    };
    let result = env.escrow.lock_admin_badges(admin_badges, now());

    assert!(result.is_ok(), "Should emit V1AdminBadgesLockedEvent");
    let event = result.unwrap();
    assert_eq!(event.badges_locked, Amount::from_units(5));
    assert_eq!(event.total_locked_now, Amount::from_units(5));
    assert_eq!(env.escrow.get_lock_status().admin_badges_locked, Amount::from_units(5));
}

#[test]
fn test_lock_upgrade_badges() {
    let mut env = setup();

    let upgrade_badges = Deposit {
        resource: env.v1_upgrade_badge_resource,
        amount: Amount::from_units(3),
    };
    let result = env.escrow.lock_upgrade_badges(upgrade_badges, now());

    assert!(result.is_ok(), "Should emit V1UpgradeBadgeLockedEvent");
    let event = result.unwrap();
    assert_eq!(event.badges_locked, Amount::from_units(3));
    assert_eq!(event.total_locked_now, Amount::from_units(3));
    assert_eq!(env.escrow.get_lock_status().upgrade_badges_locked, Amount::from_units(3));
}

#[test]
fn test_cumulative_locking() {
    let mut env = setup();

    for amount in [Amount::from_units(2), Amount::from_units(5), Amount::from_units(1)] {
        let admin_badges = Deposit { resource: env.v1_admin_badge_resource, amount };
        env.escrow
            .lock_admin_badges(admin_badges, now())
            .expect("admin badge lock should succeed");
    }

    for amount in [Amount::from_attos(500_000_000_000_000_000), Amount::from_units(2)] {
        let upgrade_badges = Deposit { resource: env.v1_upgrade_badge_resource, amount };
        env.escrow
            .lock_upgrade_badges(upgrade_badges, now())
            .expect("upgrade badge lock should succeed");
    }

    let status = env.escrow.get_lock_status();
    assert_eq!(status.admin_badges_locked, Amount::from_units(8));
    assert_eq!(status.upgrade_badges_locked, Amount::from_attos(2_500_000_000_000_000_000));
}

#[test]
fn test_invalid_admin_badge_resource() {
    let mut env = setup();

    let fake_resource = ResourceId { hi: 0xff, lo: 0xfe };
    let fake_badges = Deposit { resource: fake_resource, amount: Amount::from_units(1) };
    let before = env.escrow.get_lock_status();

    let result = env.escrow.lock_admin_badges(fake_badges, now());

    match result {
        Ok(_) => panic!("locking a foreign resource as admin badges must fail"),
        Err(LockError::ResourceMismatch { returned }) => {
            assert_eq!(returned, Deposit { resource: fake_resource, amount: Amount::from_units(1) });
        }
    }
    let after = env.escrow.get_lock_status();
    assert_eq!(after, before);
}

#[test]
fn test_invalid_upgrade_badge_resource() {
    let mut env = setup();

    let fake_resource = ResourceId { hi: 0xff, lo: 0xfe };
    let fake_badges = Deposit { resource: fake_resource, amount: Amount::from_units(1) };
    let before = env.escrow.get_lock_status();

    let result = env.escrow.lock_upgrade_badges(fake_badges, now());

    match result {
        Ok(_) => panic!("locking a foreign resource as upgrade badges must fail"),
        Err(LockError::ResourceMismatch { returned }) => {
            assert_eq!(returned, Deposit { resource: fake_resource, amount: Amount::from_units(1) });
        }
    }
    let after = env.escrow.get_lock_status();
    assert_eq!(after, before);
}
