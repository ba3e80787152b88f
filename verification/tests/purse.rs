use bevy::math::{Quat, Vec3};
use bevy::transform::components::Transform;
use pig_farm::money::{PIG_COST, PIG_SALE_VALUE, STARTING_BALANCE};
use pig_farm::pig::PIG_LIFETIME_NANOS;
use pig_farm::{spawn_pig, Money};

fn somewhere() -> Transform {
    Transform::from_xyz(12.5, -3.0, 1.0)
}

#[test]
fn a_new_game_starts_with_one_hundred() {
    assert_eq!(STARTING_BALANCE, 100);
    assert_eq!(Money::new(), Money(100));
}

#[test]
fn a_pig_costs_ten_and_sells_for_fifteen() {
    assert_eq!(PIG_COST, 10);
    assert_eq!(PIG_SALE_VALUE, 15);
}

#[test]
fn buying_with_enough_money_charges_the_cost() {
    let mut money = Money::new();
    let bought = spawn_pig(&mut money, somewhere());
    assert!(bought.is_some());
    assert_eq!(money, Money(90));
}

#[test]
fn a_bought_pig_has_its_whole_lifetime_ahead() {
    let mut money = Money(25);
    let bought = spawn_pig(&mut money, somewhere()).expect("25 covers a pig");
    assert_eq!(bought.pig.lifetime.elapsed_nanos(), 0);
    assert_eq!(bought.pig.lifetime.duration_nanos(), 2_000_000_000);
    assert_eq!(PIG_LIFETIME_NANOS, 2_000_000_000);
}

#[test]
fn a_bought_pig_stands_where_the_player_stands() {
    let player = Transform {
        translation: Vec3::new(-40.0, 17.25, 3.0),
        rotation: Quat::from_rotation_z(0.5),
        scale: Vec3::new(2.0, 2.0, 1.0),
    };
    let mut money = Money::new();
    let bought = spawn_pig(&mut money, player).expect("the starting purse covers a pig");
    assert_eq!(bought.transform, player);
    assert_ne!(bought.transform, Transform::IDENTITY);

    let elsewhere = spawn_pig(&mut money, somewhere()).expect("90 covers a pig");
    assert_eq!(elsewhere.transform, somewhere());
}

#[test]
fn buying_with_exactly_the_cost_empties_the_purse() {
    let mut money = Money(10);
    assert!(spawn_pig(&mut money, somewhere()).is_some());
    assert_eq!(money, Money(0));
}

#[test]
fn buying_with_one_unit_too_little_changes_nothing() {
    let mut money = Money(9);
    assert_eq!(spawn_pig(&mut money, somewhere()), None);
    assert_eq!(money, Money(9));
}

#[test]
fn buying_with_an_empty_purse_changes_nothing() {
    let mut money = Money(0);
    assert_eq!(spawn_pig(&mut money, somewhere()), None);
    assert_eq!(money, Money(0));
}

#[test]
fn a_starting_purse_buys_ten_pigs_and_no_more() {
    let mut money = Money::new();
    let mut pigs = 0;
    while spawn_pig(&mut money, somewhere()).is_some() {
        pigs += 1;
    }
    assert_eq!(pigs, 10);
    assert_eq!(money, Money(0));
}

#[test]
fn pay_for_pig_says_whether_it_paid() {
    let mut rich = Money(u64::MAX);
    assert!(rich.pay_for_pig());
    assert_eq!(rich, Money(u64::MAX - 10));
    let mut poor = Money(3);
    assert!(!poor.pay_for_pig());
    assert_eq!(poor, Money(3));
}

#[test]
fn bank_pig_sale_adds_the_sale_value() {
    let mut money = Money(90);
    money.bank_pig_sale();
    assert_eq!(money, Money(105));
}

#[test]
fn the_purse_has_room_up_to_the_last_sale_that_fits() {
    assert!(Money(0).can_bank_pig_sale());
    assert!(Money(u64::MAX - 15).can_bank_pig_sale());
    assert!(!Money(u64::MAX - 14).can_bank_pig_sale());
    assert!(!Money(u64::MAX).can_bank_pig_sale());
    let mut money = Money(u64::MAX - 15);
    money.bank_pig_sale();
    assert_eq!(money, Money(u64::MAX));
}
