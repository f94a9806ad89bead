use nbody::spawn::{is_on_grid, spawn_data, Seed, LEVELS};

fn fields(seed: &Seed) -> [i32; 5] {
    [seed.x_tenths, seed.y_tenths, seed.mass, seed.velocity_x, seed.velocity_y]
}

#[test]
fn spawn_data_makes_the_requested_number() {
    assert_eq!(spawn_data(3000).len(), 3000);
    assert_eq!(spawn_data(1).len(), 1);
}

#[test]
fn spawn_data_of_nothing_is_empty() {
    assert!(spawn_data(0).is_empty());
}

#[test]
fn spawn_data_stays_on_the_grid() {
    for seed in spawn_data(3000) {
        for value in fields(&seed) {
            assert!(0 <= value && value < 10, "{value} is off the grid");
        }
    }
}

#[test]
fn spawn_data_draws_every_level_in_every_field() {
    let seeds = spawn_data(3000);
    for field in 0..5 {
        let mut seen = [false; 10];
        for seed in &seeds {
            seen[fields(seed)[field] as usize] = true;
        }
        assert_eq!(seen, [true; 10], "field {field}");
    }
}

#[test]
fn spawn_data_differs_from_call_to_call() {
    assert_ne!(spawn_data(200), spawn_data(200));
}

#[test]
fn spawned_positions_lie_in_the_unit_square() {
    for seed in spawn_data(500) {
        let x = seed.x_tenths as f64 / 10.0;
        let y = seed.y_tenths as f64 / 10.0;
        assert!(0.0 <= x && x < 1.0);
        assert!(0.0 <= y && y < 1.0);
        assert!(seed.mass as f64 >= 0.0);
    }
}

#[test]
fn levels_is_ten() {
    assert_eq!(LEVELS, 10);
}

#[test]
fn is_on_grid_at_the_edges() {
    assert!(is_on_grid(0));
    assert!(is_on_grid(9));
    assert!(!is_on_grid(-1));
    assert!(!is_on_grid(10));
    assert!(!is_on_grid(i32::MIN));
    assert!(!is_on_grid(i32::MAX));
}

#[test]
fn from_draws_keeps_the_order_of_the_draws() {
    let seed = Seed::from_draws(1, 2, 3, 4, 5).unwrap();
    assert_eq!(
        seed,
        Seed { x_tenths: 1, y_tenths: 2, mass: 3, velocity_x: 4, velocity_y: 5 }
    );
}

#[test]
fn from_draws_takes_the_corners_of_the_grid() {
    assert_eq!(
        Seed::from_draws(0, 0, 0, 0, 0),
        Some(Seed { x_tenths: 0, y_tenths: 0, mass: 0, velocity_x: 0, velocity_y: 0 })
    );
    assert_eq!(
        Seed::from_draws(9, 9, 9, 9, 9),
        Some(Seed { x_tenths: 9, y_tenths: 9, mass: 9, velocity_x: 9, velocity_y: 9 })
    );
}

#[test]
fn from_draws_refuses_any_field_off_the_grid() {
    for bad in [-1, 10, 11, i32::MIN, i32::MAX] {
        assert_eq!(Seed::from_draws(bad, 1, 1, 1, 1), None);
        assert_eq!(Seed::from_draws(1, bad, 1, 1, 1), None);
        assert_eq!(Seed::from_draws(1, 1, bad, 1, 1), None);
        assert_eq!(Seed::from_draws(1, 1, 1, bad, 1), None);
        assert_eq!(Seed::from_draws(1, 1, 1, 1, bad), None);
    }
}
