use godmod::planet::{BuildError, GravityError, Planet};

fn bits(x: f64) -> u64 {
    x.to_bits()
}

fn planet(name: &str, px: f64, py: f64, vx: f64, vy: f64, mass: f64, radius: f64) -> Planet {
    Planet::new(name.to_string(), bits(px), bits(py), bits(vx), bits(vy), bits(mass), bits(radius))
        .unwrap()
}

#[test]
fn planet_constructor_args() {
    let result = Planet::new(
        "Lune 1".to_string(),
        bits(0.0),
        bits(0.0),
        bits(0.0),
        bits(0.0),
        bits(-7.36e22),
        bits(1.737e6),
    );
    assert!(result.is_err());
    let result = Planet::new(
        "Lune 1".to_string(),
        bits(0.0),
        bits(0.0),
        bits(0.0),
        bits(0.0),
        bits(7.36e22),
        bits(-1.737e6),
    );
    assert!(result.is_err());
    let result = Planet::new(
        "Lune 1".to_string(),
        bits(0.0),
        bits(0.0),
        bits(0.0),
        bits(0.0),
        bits(7.36e22),
        bits(1.737e6),
    );
    assert!(result.is_ok());
}

#[test]
fn force_overflow() {
    let planet1 = planet("Lune 1", 0.0, 0.0, 0.0, 0.0, 7.36e22, 1e-200);
    let planet2 = planet("Lune 2", 0.0, 1e-180, 0.0, 0.0, 7.36e22, 1e-200);
    let result = planet1.gravity_force_applied_by_planet(&planet2);
    // The squared separation underflows to zero, so the distance compares
    // equal to zero.
    assert!(matches!(result.unwrap_err(), GravityError::ZeroSeparation));
    let planet1 = planet("Lune 1", 0.0, 0.0, 0.0, 0.0, 7.36e22, 1e6);
    let planet2 = planet("Lune 2", 0.0, 1e4, 0.0, 0.0, 7.36e22, 1e6);
    let result = planet1.gravity_force_applied_by_planet(&planet2);
    assert!(matches!(result.unwrap_err(), GravityError::OverlappingBodies));
}

#[test]
fn constructor_rejects_negative_mass() {
    let result = Planet::new(
        "Rogue".to_string(),
        bits(1.0),
        bits(2.0),
        bits(3.0),
        bits(4.0),
        bits(-1.0),
        bits(5.0),
    );
    assert!(matches!(result, Err(BuildError::InvalidMass)));
}

#[test]
fn constructor_rejects_zero_mass_and_nan() {
    assert!(matches!(
        Planet::new("A".to_string(), 0, 0, 0, 0, bits(0.0), bits(1.0)),
        Err(BuildError::InvalidMass)
    ));
    assert!(matches!(
        Planet::new("A".to_string(), 0, 0, 0, 0, bits(f64::NAN), bits(1.0)),
        Err(BuildError::InvalidMass)
    ));
    assert!(matches!(
        Planet::new("A".to_string(), 0, 0, 0, 0, bits(1.0), bits(f64::NAN)),
        Err(BuildError::InvalidRadius)
    ));
}

#[test]
fn constructor_stores_fields() {
    let p = planet("Terre", 1.5, -2.5, 3.5, -4.5, 5.97e24, 6.371e6);
    assert_eq!(p.get_name(), "Terre");
    assert_eq!(p.get_position().x, bits(1.5));
    assert_eq!(p.get_position().y, bits(-2.5));
    assert_eq!(p.get_speed().x, bits(3.5));
    assert_eq!(p.get_speed().y, bits(-4.5));
    assert_eq!(*p.get_mass(), bits(5.97e24));
    assert_eq!(p.get_force().x, bits(0.0));
    assert_eq!(p.get_force().y, bits(0.0));
}

#[test]
fn distance_matches_euclidean_formula() {
    let a = planet("A", 1.0, 2.0, 0.0, 0.0, 1.0, 0.0);
    let b = planet("B", 4.0, 6.0, 0.0, 0.0, 1.0, 0.0);
    // 3-4-5 triangle.
    assert_eq!(a.distance(&b), bits(5.0));
    let c = planet("C", -7.25, 3.5, 0.0, 0.0, 1.0, 0.0);
    let d = planet("D", 11.0, -19.75, 0.0, 0.0, 1.0, 0.0);
    let dx = -7.25f64 - 11.0;
    let dy = 3.5f64 - (-19.75);
    let expected = (dx * dx + dy * dy).sqrt();
    assert_eq!(c.distance(&d), bits(expected));
}

#[test]
fn distance_is_symmetric() {
    let a = planet("A", 1.25e7, -3.5e3, 0.0, 0.0, 1.0, 0.0);
    let b = planet("B", -9.75e2, 8.125e5, 0.0, 0.0, 1.0, 0.0);
    assert_eq!(a.distance(&b), b.distance(&a));
    let c = planet("C", 0.1, 0.2, 0.0, 0.0, 1.0, 0.0);
    let d = planet("D", 0.3, -0.7, 0.0, 0.0, 1.0, 0.0);
    assert_eq!(c.distance(&d), d.distance(&c));
}

#[test]
fn crashes_on_uses_radius_sum() {
    let a = planet("A", 0.0, 0.0, 0.0, 0.0, 1.0, 2.0);
    let b = planet("B", 5.0, 0.0, 0.0, 0.0, 1.0, 2.5);
    assert!(!a.crashes_on(&b));
    let c = planet("C", 4.0, 0.0, 0.0, 0.0, 1.0, 2.5);
    assert!(a.crashes_on(&c));
    assert!(c.crashes_on(&a));
}

#[test]
fn gravity_force_magnitude_and_direction() {
    let m1 = 5.97e24;
    let m2 = 7.36e22;
    let d = 3.84e8;
    let a = planet("Terre", 0.0, 0.0, 0.0, 0.0, m1, 6.371e6);
    let b = planet("Lune", d, 0.0, 0.0, 0.0, m2, 1.737e6);
    let force = a.gravity_force_applied_by_planet(&b).unwrap();
    // Replicate the computation exactly.
    let dxf = d - 0.0;
    let dist = (dxf * dxf + 0.0f64 * 0.0f64).sqrt();
    let norm = 6.6743e-11 * m1 * m2 / (dist * dist);
    assert_eq!(force.x, bits((dxf / dist) * norm));
    assert_eq!(force.y, bits((0.0f64 / dist) * norm));
    // The force pulls the receiver toward the other body (+x here), with
    // magnitude close to the textbook value.
    let fx = f64::from_bits(force.x);
    assert!(fx > 0.0);
    let expected = 6.6743e-11 * m1 * m2 / (d * d);
    assert!((fx - expected).abs() <= 1e-6 * expected);
}

#[test]
fn gravity_force_fails_on_zero_separation() {
    let a = planet("A", 7.0, -3.0, 0.0, 0.0, 1e10, 0.0);
    let b = planet("B", 7.0, -3.0, 0.0, 0.0, 2e10, 0.0);
    assert!(matches!(
        a.gravity_force_applied_by_planet(&b),
        Err(GravityError::ZeroSeparation)
    ));
}

#[test]
fn gravity_force_fails_on_overlap() {
    // Distance 1.0e6, combined radius 3.474e6: overlapping but separated.
    let a = planet("A", 0.0, 0.0, 0.0, 0.0, 7.36e22, 1.737e6);
    let b = planet("B", 1.0e6, 0.0, 0.0, 0.0, 7.36e22, 1.737e6);
    assert!(matches!(
        a.gravity_force_applied_by_planet(&b),
        Err(GravityError::OverlappingBodies)
    ));
}

#[test]
fn absorb_conserves_mass_exactly() {
    let m1 = 5.97e24;
    let m2 = 7.36e22;
    let mut a = planet("Terre", 0.0, 0.0, 10.0, 0.0, m1, 6.371e6);
    let mut b = planet("Lune", 1.0, 0.0, 0.0, -20.0, m2, 1.737e6);
    a.absorb(&mut b);
    assert_eq!(*a.get_mass(), bits(m1 + m2));
    assert_eq!(a.get_name(), "Terre + Lune");
    // The absorbed planet itself is untouched.
    assert_eq!(b.get_name(), "Lune");
    assert_eq!(*b.get_mass(), bits(m2));
}

#[test]
fn absorb_conserves_momentum() {
    let m1 = 5.97e24;
    let m2 = 7.36e22;
    let (v1x, v1y) = (10.0, -2.0);
    let (v2x, v2y) = (0.0, -20.0);
    let mut a = planet("A", 0.0, 0.0, v1x, v1y, m1, 6.371e6);
    let mut b = planet("B", 1.0, 0.0, v2x, v2y, m2, 1.737e6);
    a.absorb(&mut b);
    let vx = f64::from_bits(a.get_speed().x);
    let vy = f64::from_bits(a.get_speed().y);
    let px = (m1 + m2) * vx;
    let py = (m1 + m2) * vy;
    let expected_px = m1 * v1x + m2 * v2x;
    let expected_py = m1 * v1y + m2 * v2y;
    assert!((px - expected_px).abs() <= 1e-9 * expected_px.abs());
    assert!((py - expected_py).abs() <= 1e-9 * expected_py.abs());
    // And the velocity is exactly the specified combination.
    assert_eq!(a.get_speed().x, bits((m2 * v2x + v1x * m1) / (m2 + m1)));
    assert_eq!(a.get_speed().y, bits((m2 * v2y + v1y * m1) / (m2 + m1)));
}

#[test]
fn absorb_combines_radii() {
    let mut a = planet("A", 0.0, 0.0, 0.0, 0.0, 2.0, 3.0);
    let mut b = planet("B", 1.0, 0.0, 0.0, 0.0, 1.0, 4.0);
    a.absorb(&mut b);
    // sqrt(4^2 + 3^2) == 5.
    assert_eq!(*a.get_radius(), bits(5.0));
}

#[test]
fn energy_formula_exact() {
    let m = 3.0;
    let (vx, vy) = (2.0, -1.5);
    let p = planet("A", 0.0, 0.0, vx, vy, m, 1.0);
    assert_eq!(p.energy(), bits(m * (vx * vx + vy * vy)));
}

#[test]
fn add_force_accumulates_and_reset_clears() {
    let mut a = planet("A", 0.0, 0.0, 0.0, 0.0, 5.97e24, 6.371e6);
    let b = planet("B", 3.84e8, 0.0, 0.0, 0.0, 7.36e22, 1.737e6);
    assert!(a.add_force_applied_by(&b).is_ok());
    let once = *a.get_force();
    assert!(f64::from_bits(once.x) > 0.0);
    assert!(a.add_force_applied_by(&b).is_ok());
    let twice = *a.get_force();
    assert_eq!(twice.x, bits(f64::from_bits(once.x) + f64::from_bits(once.x)));
    a.reset_force();
    assert_eq!(a.get_force().x, bits(0.0));
    assert_eq!(a.get_force().y, bits(0.0));
}

#[test]
fn add_force_err_leaves_planet_unchanged() {
    let mut a = planet("A", 0.0, 0.0, 0.0, 0.0, 1e10, 2.0);
    let b = planet("B", 1.0, 0.0, 0.0, 0.0, 1e10, 2.0);
    let r = a.add_force_applied_by(&b);
    assert!(matches!(r, Err(GravityError::OverlappingBodies)));
    assert_eq!(a.get_force().x, bits(0.0));
    assert_eq!(a.get_force().y, bits(0.0));
}

#[test]
fn update_speed_and_position_integrate() {
    let mut a = planet("A", 1.0, 2.0, 3.0, 4.0, 2.0, 1.0);
    let b = planet("B", 1.0e3, 2.0, 0.0, 0.0, 1e15, 1.0);
    a.add_force_applied_by(&b).unwrap();
    let f = *a.get_force();
    let dt = 0.5f64;
    a.update_speed(dt.to_bits());
    let vx = 3.0 + f64::from_bits(f.x) / 2.0 * dt;
    let vy = 4.0 + f64::from_bits(f.y) / 2.0 * dt;
    assert_eq!(a.get_speed().x, bits(vx));
    assert_eq!(a.get_speed().y, bits(vy));
    a.update_position(dt.to_bits());
    assert_eq!(a.get_position().x, bits(1.0 + vx * dt));
    assert_eq!(a.get_position().y, bits(2.0 + vy * dt));
}

#[test]
fn planet_after_time_step_is_pure_and_exact() {
    let m1 = 5.97e24;
    let m2 = 7.36e22;
    let d = 3.84e8;
    let planets = vec![
        planet("Terre", 0.0, 0.0, 0.0, 0.0, m1, 6.371e6),
        planet("Lune", d, 0.0, 0.0, 1000.0, m2, 1.737e6),
    ];
    let dt = 10.0f64;
    let next = planets[0].planet_after_time_step(dt.to_bits(), &planets, 0);
    // The original is untouched, the result is the integrated planet.
    assert_eq!(planets[0].get_speed().x, bits(0.0));
    let dxf = d - 0.0;
    let dist = (dxf * dxf + 0.0f64 * 0.0f64).sqrt();
    let norm = 6.6743e-11 * m1 * m2 / (dist * dist);
    let fx = (dxf / dist) * norm;
    let fy = (0.0f64 / dist) * norm;
    let vx = 0.0 + fx / m1 * dt;
    let vy = 0.0 + fy / m1 * dt;
    assert_eq!(next.get_speed().x, bits(vx));
    assert_eq!(next.get_speed().y, bits(vy));
    assert_eq!(next.get_position().x, bits(0.0 + vx * dt));
    assert_eq!(next.get_position().y, bits(0.0 + vy * dt));
    assert_eq!(next.get_force().x, bits(fx));
    assert_eq!(next.get_name(), "Terre");
}

#[test]
fn unit_vector_points_toward_other() {
    let a = planet("A", 1.0, 2.0, 0.0, 0.0, 1.0, 0.0);
    let b = planet("B", 4.0, 6.0, 0.0, 0.0, 1.0, 0.0);
    let u = a.unit_vector_to(&b);
    // Distance 5: the direction is (3/5, 4/5).
    assert_eq!(u.x, bits(3.0 / 5.0));
    assert_eq!(u.y, bits(4.0 / 5.0));
    let back = b.unit_vector_to(&a);
    assert_eq!(back.x, bits(-3.0 / 5.0));
    assert_eq!(back.y, bits(-4.0 / 5.0));
}
