use dri::{Fuel, FuelType};

#[test]
fn wood_has_its_three_constants() {
    assert_eq!(FuelType::Wood.max_hp(), 100);
    assert_eq!(FuelType::Wood.generated_energy(), 10);
    assert_eq!(FuelType::Wood.get_price(), 80);
}

#[test]
fn empty_has_zero_for_all_three_constants() {
    assert_eq!(FuelType::Empty.max_hp(), 0);
    assert_eq!(FuelType::Empty.generated_energy(), 0);
    assert_eq!(FuelType::Empty.get_price(), 0);
}

#[test]
fn new_keeps_kind_and_durability() {
    let fuel = Fuel::new(FuelType::Wood, 37);
    assert_eq!(fuel.of, FuelType::Wood);
    assert_eq!(fuel.hp, 37);
}

#[test]
fn default_cell_is_empty() {
    assert_eq!(Fuel::default(), Fuel { of: FuelType::Empty, hp: 0 });
}

#[test]
fn empty_cell_is_skipped_by_a_tick() {
    let cell = Fuel::new(FuelType::Empty, 0);
    assert_eq!(cell.tick(1), (cell, 0));
    assert_eq!(cell.tick(0), (cell, 0));
    assert_eq!(cell.tick(u32::MAX), (cell, 0));
}

#[test]
fn empty_cell_with_stray_durability_is_skipped_too() {
    let cell = Fuel::new(FuelType::Empty, 3);
    assert_eq!(cell.tick(5), (cell, 0));
    assert_eq!(cell.energy(), 0);
}

#[test]
fn burning_cell_loses_the_rate_and_pays() {
    let cell = Fuel::new(FuelType::Wood, 100);
    assert_eq!(cell.tick(1), (Fuel::new(FuelType::Wood, 99), 10));
    assert_eq!(cell.tick(7), (Fuel::new(FuelType::Wood, 93), 10));
    assert_eq!(cell.tick(99), (Fuel::new(FuelType::Wood, 1), 10));
}

#[test]
fn cell_at_one_burns_out_at_rate_five_and_still_pays() {
    let cell = Fuel::new(FuelType::Wood, 1);
    assert_eq!(cell.tick(5), (Fuel::new(FuelType::Empty, 0), 10));
}

#[test]
fn cell_burns_out_when_durability_equals_the_rate() {
    let cell = Fuel::new(FuelType::Wood, 5);
    assert_eq!(cell.tick(5), (Fuel::new(FuelType::Empty, 0), 10));
    assert_eq!(cell.tick(u32::MAX), (Fuel::new(FuelType::Empty, 0), 10));
}

#[test]
fn fuel_without_durability_is_cleared_and_pays_nothing() {
    let cell = Fuel::new(FuelType::Wood, 0);
    assert_eq!(cell.tick(1), (Fuel::new(FuelType::Empty, 0), 0));
    assert_eq!(cell.energy(), 0);
}

#[test]
fn rate_zero_keeps_durability_and_pays() {
    let cell = Fuel::new(FuelType::Wood, 42);
    assert_eq!(cell.tick(0), (cell, 10));
}

#[test]
fn durability_above_the_maximum_burns_like_any_other() {
    let cell = Fuel::new(FuelType::Wood, u32::MAX);
    assert_eq!(cell.tick(1), (Fuel::new(FuelType::Wood, u32::MAX - 1), 10));
}

#[test]
fn energy_is_paid_only_while_burning() {
    assert_eq!(Fuel::new(FuelType::Wood, 1).energy(), 10);
    assert_eq!(Fuel::new(FuelType::Wood, 100).energy(), 10);
    assert_eq!(Fuel::new(FuelType::Wood, 0).energy(), 0);
    assert_eq!(Fuel::new(FuelType::Empty, 0).energy(), 0);
}
