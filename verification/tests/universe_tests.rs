use godmod::planet::Planet;
use godmod::universe::Universe;

fn bits(x: f64) -> u64 {
    x.to_bits()
}

fn planet(name: &str, px: f64, py: f64, vx: f64, vy: f64, mass: f64, radius: f64) -> Planet {
    Planet::new(name.to_string(), bits(px), bits(py), bits(vx), bits(vy), bits(mass), bits(radius))
        .unwrap()
}

#[test]
fn step_pulls_two_bodies_together() {
    let m1 = 5.97e24;
    let m2 = 7.36e22;
    let d = 3.84e8;
    let dt = 10.0f64;
    let mut universe = Universe {
        planets: vec![
            planet("Terre", 0.0, 0.0, 0.0, 0.0, m1, 6.371e6),
            planet("Lune", d, 0.0, 0.0, 0.0, m2, 1.737e6),
        ],
    };
    universe.do_time_step(dt.to_bits());
    // The integration phase never changes the number of bodies, and no pair
    // collides here.
    assert_eq!(universe.planets.len(), 2);
    let v1 = f64::from_bits(universe.planets[0].get_speed().x);
    let v2 = f64::from_bits(universe.planets[1].get_speed().x);
    // Mutual attraction: the first body accelerates toward +x, the second
    // toward -x, each by G*m1*m2/d^2 / m_self * dt.
    assert!(v1 > 0.0);
    assert!(v2 < 0.0);
    let f = 6.6743e-11 * m1 * m2 / (d * d);
    let expected1 = f / m1 * dt;
    let expected2 = f / m2 * dt;
    assert!((v1 - expected1).abs() <= 1e-6 * expected1);
    assert!((v2 + expected2).abs() <= 1e-6 * expected2);
    // The y components stay untouched.
    assert_eq!(universe.planets[0].get_speed().y, bits(0.0));
    assert_eq!(universe.planets[1].get_speed().y, bits(0.0));
}

#[test]
fn step_merges_overlapping_bodies() {
    // Radii 1.737e6 each, placed 1.0e6 apart: within the combined radius
    // 3.474e6, so one step must merge them.
    let m1 = 7.36e22;
    let m2 = 5.0e22;
    let mut universe = Universe {
        planets: vec![
            planet("Lune 1", 0.0, 0.0, 0.0, 0.0, m1, 1.737e6),
            planet("Lune 2", 1.0e6, 0.0, 0.0, 0.0, m2, 1.737e6),
        ],
    };
    universe.do_time_step(bits(10.0));
    assert_eq!(universe.planets.len(), 1);
    let survivor = &universe.planets[0];
    assert_eq!(*survivor.get_mass(), bits(m1 + m2));
    let name = survivor.get_name();
    assert!(name.contains("Lune 1"));
    assert!(name.contains("Lune 2"));
    assert_eq!(name, "Lune 1 + Lune 2");
}

#[test]
fn step_merge_heavier_absorbs_lighter() {
    // The second body is heavier: it survives and its name comes first.
    let mut universe = Universe {
        planets: vec![
            planet("Light", 0.0, 0.0, 0.0, 0.0, 5.0e22, 1.737e6),
            planet("Heavy", 1.0e6, 0.0, 0.0, 0.0, 7.36e22, 1.737e6),
        ],
    };
    universe.do_time_step(bits(10.0));
    assert_eq!(universe.planets.len(), 1);
    assert_eq!(universe.planets[0].get_name(), "Heavy + Light");
}

#[test]
fn step_keeps_count_without_collision() {
    // Three far-apart bodies: more than two planets and no collision, so the
    // escape phase runs and removes nothing.
    let mut universe = Universe {
        planets: vec![
            planet("A", 0.0, 0.0, 0.0, 0.0, 5.97e24, 6.371e6),
            planet("B", 3.84e8, 0.0, 0.0, 1000.0, 7.36e22, 1.737e6),
            planet("C", -3.84e8, 0.0, 0.0, -1000.0, 7.36e22, 1.737e6),
        ],
    };
    for _ in 0..5 {
        universe.do_time_step(bits(10.0));
        assert_eq!(universe.planets.len(), 3);
    }
    assert_eq!(universe.planets[0].get_name(), "A");
    assert_eq!(universe.planets[1].get_name(), "B");
    assert_eq!(universe.planets[2].get_name(), "C");
}

#[test]
fn step_single_body_at_rest_is_unchanged() {
    // One body feels no force: position and velocity stay exactly as they
    // were, for any timestep.
    for dt in [10.0f64, -3.25, 1.0e300, 0.0] {
        let mut universe = Universe {
            planets: vec![planet("Solo", 5.0e3, -2.0e3, 0.0, 0.0, 5.97e24, 6.371e6)],
        };
        universe.do_time_step(dt.to_bits());
        assert_eq!(universe.planets.len(), 1);
        let p = &universe.planets[0];
        assert_eq!(p.get_position().x, bits(5.0e3));
        assert_eq!(p.get_position().y, bits(-2.0e3));
        assert_eq!(p.get_speed().x, bits(0.0));
        assert_eq!(p.get_speed().y, bits(0.0));
    }
}

#[test]
fn step_single_moving_body_keeps_velocity() {
    let mut universe = Universe {
        planets: vec![planet("Solo", 0.0, 0.0, 123.5, -7.25, 5.97e24, 6.371e6)],
    };
    universe.do_time_step(bits(10.0));
    assert_eq!(universe.planets.len(), 1);
    let p = &universe.planets[0];
    // No force, so the velocity is unchanged and the body drifts linearly.
    assert_eq!(p.get_speed().x, bits(123.5));
    assert_eq!(p.get_speed().y, bits(-7.25));
    assert_eq!(p.get_position().x, bits(0.0 + 123.5 * 10.0));
    assert_eq!(p.get_position().y, bits(0.0 + -7.25 * 10.0));
}

#[test]
fn universe_energy_sums_in_order() {
    let universe = Universe {
        planets: vec![
            planet("A", 0.0, 0.0, 2.0, 0.0, 3.0, 1.0),
            planet("B", 1.0e3, 0.0, -1.0, 2.0, 5.0, 1.0),
        ],
    };
    let e1 = 3.0f64 * (2.0f64 * 2.0 + 0.0 * 0.0);
    let e2 = 5.0f64 * ((-1.0f64) * (-1.0) + 2.0 * 2.0);
    assert_eq!(universe.energy(), bits((0.0 + e1) + e2));
    let empty = Universe { planets: vec![] };
    assert_eq!(empty.energy(), bits(0.0));
}
