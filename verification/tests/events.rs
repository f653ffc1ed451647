use dri::{
    cell_event, AppState, CellReaction, Command, Delegate, Fuel, FuelType, Grid, GridError,
    GridIndex, Handled, PointerEvent,
};

fn at(row: usize, col: usize) -> GridIndex {
    GridIndex::from((row, col))
}

#[test]
fn tick_command_runs_one_step() {
    let mut state = AppState { grid: Grid::new(2, 2), balance: 5, ticks: 2 };
    assert_eq!(state.grid.set(at(1, 0), Fuel::new(FuelType::Wood, 50)), Ok(()));
    let mut delegate = Delegate;
    assert!(state.can_tick());
    assert_eq!(delegate.command(&Command::Tick, &mut state), Ok(Handled::Yes));
    assert_eq!(state.balance, 15);
    assert_eq!(state.grid.get(at(1, 0)), Ok(Fuel::new(FuelType::Wood, 48)));
}

#[test]
fn place_command_buys_wood() {
    let mut state = AppState { grid: Grid::new(20, 20), balance: 100, ticks: 1 };
    let mut delegate = Delegate;
    assert_eq!(delegate.command(&Command::PlaceFuel(19, 7), &mut state), Ok(Handled::Yes));
    assert_eq!(state.balance, 20);
    assert_eq!(state.grid.get(at(19, 7)), Ok(Fuel::new(FuelType::Wood, 100)));
    assert_eq!(state.grid.get(at(7, 19)), Ok(Fuel::default()));
}

#[test]
fn place_command_without_the_price_is_handled_and_does_nothing() {
    let mut state = AppState { grid: Grid::new(2, 2), balance: 20, ticks: 1 };
    let mut delegate = Delegate;
    assert_eq!(delegate.command(&Command::PlaceFuel(0, 0), &mut state), Ok(Handled::Yes));
    assert_eq!(state.balance, 20);
    assert_eq!(state.grid.get(at(0, 0)), Ok(Fuel::default()));
}

#[test]
fn place_command_outside_the_grid_is_an_error() {
    let mut state = AppState { grid: Grid::new(2, 2), balance: 100, ticks: 1 };
    let mut delegate = Delegate;
    assert_eq!(
        delegate.command(&Command::PlaceFuel(2, 0), &mut state),
        Err(GridError::IndexOutOfRange)
    );
    assert_eq!(state.balance, 100);
    assert_eq!(state.grid.energy(), 0);
}

#[test]
fn other_commands_are_not_handled() {
    let mut state = AppState { grid: Grid::new(2, 2), balance: 100, ticks: 1 };
    assert_eq!(state.grid.set(at(0, 0), Fuel::new(FuelType::Wood, 50)), Ok(()));
    let mut delegate = Delegate;
    assert_eq!(delegate.command(&Command::Other, &mut state), Ok(Handled::No));
    assert_eq!(state.balance, 100);
    assert_eq!(state.grid.get(at(0, 0)), Ok(Fuel::new(FuelType::Wood, 50)));
}

#[test]
fn commands_are_carried_out_in_the_order_given() {
    let mut state = AppState { grid: Grid::new(2, 2), balance: 100, ticks: 1 };
    let mut delegate = Delegate;
    let script = [
        Command::PlaceFuel(0, 0),
        Command::Tick,
        Command::Tick,
        Command::PlaceFuel(1, 1),
        Command::Other,
        Command::Tick,
    ];
    for command in script.iter() {
        assert!(state.can_tick());
        assert!(delegate.command(command, &mut state).is_ok());
    }
    assert_eq!(state.balance, 50);
    assert_eq!(state.grid.get(at(0, 0)), Ok(Fuel::new(FuelType::Wood, 97)));
    assert_eq!(state.grid.get(at(1, 1)), Ok(Fuel::default()));
}

#[test]
fn left_press_arms_the_cell() {
    let quiet = CellReaction { active: Some(true), command: None, repaint: true };
    assert_eq!(cell_event(at(1, 2), PointerEvent::LeftDown, false, true), quiet);
    assert_eq!(cell_event(at(1, 2), PointerEvent::LeftDown, true, false), quiet);
}

#[test]
fn left_release_over_an_armed_cell_places_fuel_there() {
    let reaction = cell_event(at(4, 9), PointerEvent::LeftUp, true, true);
    assert_eq!(reaction.active, Some(false));
    assert_eq!(reaction.command, Some(Command::PlaceFuel(4, 9)));
    assert!(reaction.repaint);
}

#[test]
fn left_release_away_from_an_armed_cell_only_disarms_it() {
    let reaction = cell_event(at(4, 9), PointerEvent::LeftUp, true, false);
    assert_eq!(reaction, CellReaction { active: Some(false), command: None, repaint: true });
}

#[test]
fn left_release_over_a_cell_that_was_not_armed_does_nothing() {
    let nothing = CellReaction { active: None, command: None, repaint: false };
    assert_eq!(cell_event(at(0, 0), PointerEvent::LeftUp, false, true), nothing);
    assert_eq!(cell_event(at(0, 0), PointerEvent::LeftUp, false, false), nothing);
}

#[test]
fn other_pointer_events_do_nothing() {
    let nothing = CellReaction { active: None, command: None, repaint: false };
    assert_eq!(cell_event(at(0, 0), PointerEvent::Other, true, true), nothing);
    assert_eq!(cell_event(at(0, 0), PointerEvent::Other, false, false), nothing);
}

#[test]
fn click_on_a_cell_ends_in_a_purchase() {
    let mut state = AppState { grid: Grid::new(3, 3), balance: 100, ticks: 1 };
    let mut delegate = Delegate;
    let pressed = cell_event(at(2, 1), PointerEvent::LeftDown, false, true);
    let active = pressed.active.unwrap_or(false);
    let released = cell_event(at(2, 1), PointerEvent::LeftUp, active, true);
    let command = released.command.expect("a release over an armed cell sends a command");
    assert_eq!(delegate.command(&command, &mut state), Ok(Handled::Yes));
    assert_eq!(state.grid.get(at(2, 1)), Ok(Fuel::new(FuelType::Wood, 100)));
    assert_eq!(state.balance, 20);
}
