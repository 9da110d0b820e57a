//! A planet: a point/sphere mass with its pure geometry and physics.

use crate::fbits::{
    add_bits, div_bits, eq_bits, f64_add, f64_div, f64_eq, f64_le, f64_lt, f64_mul, f64_sqrt,
    f64_sub, is_finite_bits, is_nan_bits, le_bits, lemma_pos_zero_not_nan, lt_bits, mul_bits,
    sqrt_bits, sub_bits, NEG_ZERO, POS_ZERO,
};
use crate::physics::{Force, Position, Speed, UnitVector};
use vstd::prelude::*;
use vstd::string::StringExecFns;

verus! {

/// Bit pattern of the gravitational constant `G = 6.6743e-11`.
pub const G_BITS: u64 = 0x3dd2_589e_ffed_8acc;

/// Why a planet could not be constructed.
#[derive(Clone, Copy, Debug, PartialEq, Eq, Structural)]
pub enum BuildError {
    /// The mass was not strictly positive.
    InvalidMass,
    /// The radius was negative.
    InvalidRadius,
}

/// Why a pairwise gravity force could not be computed.
#[derive(Clone, Copy, Debug, PartialEq, Eq, Structural)]
pub enum GravityError {
    /// The two bodies occupy the same point: the force direction is undefined.
    ZeroSeparation,
    /// The two bodies are already within collision distance; resolving the
    /// overlap (by a merge) is the collection's concern, not this layer's.
    OverlappingBodies,
}

/// A point/sphere mass. All scalar fields are IEEE-754 binary64 bit patterns.
#[derive(Debug)]
pub struct Planet {
    name: String,
    position: Position,
    speed: Speed,
    force: Force,
    mass: u64,
    radius: u64,
}

/// The mathematical value of a [`Planet`].
pub struct PlanetV {
    pub name: Seq<char>,
    pub position: Position,
    pub speed: Speed,
    pub force: Force,
    pub mass: u64,
    pub radius: u64,
}

impl View for Planet {
    type V = PlanetV;

    closed spec fn view(&self) -> PlanetV {
        PlanetV {
            name: self.name@,
            position: self.position,
            speed: self.speed,
            force: self.force,
            mass: self.mass,
            radius: self.radius,
        }
    }
}

/// The construction-enforced invariant: the mass is strictly positive and the
/// radius is non-negative (as binary64 comparisons, so neither is a NaN).
pub open spec fn valid_planet(p: PlanetV) -> bool {
    lt_bits(POS_ZERO, p.mass) && le_bits(POS_ZERO, p.radius)
}

/// The squared Euclidean distance between the positions of `a` and `b`,
/// computed as `(ax-bx)^2 + (ay-by)^2` in binary64 arithmetic.
pub open spec fn dist_sq_bits(a: PlanetV, b: PlanetV) -> u64 {
    add_bits(
        mul_bits(sub_bits(a.position.x, b.position.x), sub_bits(a.position.x, b.position.x)),
        mul_bits(sub_bits(a.position.y, b.position.y), sub_bits(a.position.y, b.position.y)),
    )
}

/// The Euclidean distance between the positions of `a` and `b`.
pub open spec fn dist_bits(a: PlanetV, b: PlanetV) -> u64 {
    sqrt_bits(dist_sq_bits(a, b))
}

/// The unit direction from `a`'s position toward `b`'s position.
pub open spec fn unit_vector_bits(a: PlanetV, b: PlanetV) -> UnitVector {
    UnitVector {
        x: div_bits(sub_bits(b.position.x, a.position.x), dist_bits(a, b)),
        y: div_bits(sub_bits(b.position.y, a.position.y), dist_bits(a, b)),
    }
}

/// Whether `a` and `b` collide: their distance is below the sum of their radii.
pub open spec fn crashes_spec(a: PlanetV, b: PlanetV) -> bool {
    lt_bits(dist_bits(a, b), add_bits(b.radius, a.radius))
}

/// The magnitude `G * a.mass * b.mass / d^2` of the gravity force between `a`
/// and `b`, in binary64 arithmetic.
pub open spec fn force_norm_bits(a: PlanetV, b: PlanetV) -> u64 {
    div_bits(
        mul_bits(mul_bits(G_BITS, a.mass), b.mass),
        mul_bits(dist_bits(a, b), dist_bits(a, b)),
    )
}

/// The gravity force applied on `a` by `b`: an error when the two occupy the
/// same point or are already overlapping, and otherwise the unit direction
/// from `a` toward `b` scaled by `G * a.mass * b.mass / d^2`.
pub open spec fn gravity_spec(a: PlanetV, b: PlanetV) -> Result<Force, GravityError> {
    if eq_bits(dist_bits(a, b), POS_ZERO) {
        Err(GravityError::ZeroSeparation)
    } else if crashes_spec(a, b) {
        Err(GravityError::OverlappingBodies)
    } else {
        Ok(
            Force {
                x: mul_bits(unit_vector_bits(a, b).x, force_norm_bits(a, b)),
                y: mul_bits(unit_vector_bits(a, b).y, force_norm_bits(a, b)),
            },
        )
    }
}

/// The contribution of `b` to the net force on `a`: the pairwise gravity
/// force, with any pairwise failure (zero separation or unresolved overlap)
/// degraded to a zero contribution rather than aborting the whole sum.
pub open spec fn contrib_bits(a: PlanetV, b: PlanetV) -> Force {
    match gravity_spec(a, b) {
        Ok(f) => f,
        Err(_) => Force { x: POS_ZERO, y: POS_ZERO },
    }
}

/// The net force on `p` from the first `n` planets of `others`, skipping the
/// planet at index `skip` (the receiver itself), summed in order in binary64
/// arithmetic starting from `(+0.0, +0.0)`.
pub open spec fn net_force_upto(p: PlanetV, others: Seq<PlanetV>, skip: int, n: int) -> Force
    decreases n,
{
    if n <= 0 {
        Force { x: POS_ZERO, y: POS_ZERO }
    } else {
        let prev = net_force_upto(p, others, skip, n - 1);
        if n - 1 == skip {
            prev
        } else {
            Force {
                x: add_bits(prev.x, contrib_bits(p, others[n - 1]).x),
                y: add_bits(prev.y, contrib_bits(p, others[n - 1]).y),
            }
        }
    }
}

/// The net force on `p` from all planets of `others` except the one at index
/// `skip` (an index of `others.len()` or more skips nothing).
pub open spec fn net_force_bits(p: PlanetV, others: Seq<PlanetV>, skip: int) -> Force {
    net_force_upto(p, others, skip, others.len() as int)
}

/// One semi-implicit Euler step of `p` under the net force of `others`: the
/// velocity is updated first (`v + F/m * dt`) and the updated velocity then
/// moves the position (`x + v' * dt`). The accumulated force is replaced by
/// the net force of this step; name, mass and radius are unchanged.
pub open spec fn advanced_bits(p: PlanetV, others: Seq<PlanetV>, skip: int, dt: u64) -> PlanetV {
    let f = net_force_bits(p, others, skip);
    let vx = add_bits(p.speed.x, mul_bits(div_bits(f.x, p.mass), dt));
    let vy = add_bits(p.speed.y, mul_bits(div_bits(f.y, p.mass), dt));
    PlanetV {
        name: p.name,
        position: Position {
            x: add_bits(p.position.x, mul_bits(vx, dt)),
            y: add_bits(p.position.y, mul_bits(vy, dt)),
        },
        speed: Speed { x: vx, y: vy },
        force: f,
        mass: p.mass,
        radius: p.radius,
    }
}

/// The inelastic merge of `o` into the surviving planet `s`: the names are
/// joined with `" + "`, the velocity is the momentum-conserving combination
/// `(m_o*v_o + v_s*m_s) / (m_o + m_s)`, the masses add, and the radius
/// combines as if cross-sectional areas add. The survivor keeps its position
/// and its accumulated force.
pub open spec fn absorbed_bits(s: PlanetV, o: PlanetV) -> PlanetV {
    PlanetV {
        name: s.name + " + "@ + o.name,
        position: s.position,
        speed: Speed {
            x: div_bits(
                add_bits(mul_bits(o.mass, o.speed.x), mul_bits(s.speed.x, s.mass)),
                add_bits(o.mass, s.mass),
            ),
            y: div_bits(
                add_bits(mul_bits(o.mass, o.speed.y), mul_bits(s.speed.y, s.mass)),
                add_bits(o.mass, s.mass),
            ),
        },
        force: s.force,
        mass: add_bits(s.mass, o.mass),
        radius: sqrt_bits(add_bits(mul_bits(o.radius, o.radius), mul_bits(s.radius, s.radius))),
    }
}

/// The kinetic-energy figure of a planet: `mass * (vx^2 + vy^2)`. This is
/// twice the physical kinetic energy (the conventional 1/2 factor is absent);
/// the formula is kept exactly as the simulation defines it.
pub open spec fn energy_bits(p: PlanetV) -> u64 {
    mul_bits(p.mass, add_bits(mul_bits(p.speed.x, p.speed.x), mul_bits(p.speed.y, p.speed.y)))
}

/// Side conditions under which a zero net force provably leaves a planet's
/// velocity unchanged: the mass is positive (so `0/m` is `+0`), the timestep
/// is finite (so `0 * dt` is a zero), and neither velocity component is a NaN
/// or `-0.0` (so adding that zero returns it unchanged).
pub open spec fn keeps_speed_under_zero_force(p: PlanetV, dt: u64) -> bool {
    lt_bits(POS_ZERO, p.mass) && is_finite_bits(dt) && !is_nan_bits(p.speed.x) && p.speed.x
        != NEG_ZERO && !is_nan_bits(p.speed.y) && p.speed.y != NEG_ZERO
}

/// The planet is exactly at rest (both velocity components are `+0.0`) and
/// neither position component is a NaN or `-0.0`, so an integration step under
/// zero net force provably moves it nowhere.
pub open spec fn at_rest(p: PlanetV) -> bool {
    p.speed.x == POS_ZERO && p.speed.y == POS_ZERO && !is_nan_bits(p.position.x) && p.position.x
        != NEG_ZERO && !is_nan_bits(p.position.y) && p.position.y != NEG_ZERO
}

impl Planet {
    /// Constructs a planet. Fails with [`BuildError::InvalidMass`] unless the
    /// mass is strictly positive, then with [`BuildError::InvalidRadius`]
    /// unless the radius is non-negative; a constructed planet therefore
    /// always satisfies [`valid_planet`]. The accumulated force starts at
    /// zero.
    pub fn new(
        name: String,
        pos_x: u64,
        pos_y: u64,
        spd_x: u64,
        spd_y: u64,
        mass: u64,
        radius: u64,
    ) -> (r: Result<Planet, BuildError>)
        ensures
            !lt_bits(POS_ZERO, mass) ==> r == Result::<Planet, BuildError>::Err(
                BuildError::InvalidMass,
            ),
            lt_bits(POS_ZERO, mass) && !le_bits(POS_ZERO, radius) ==> r == Result::<
                Planet,
                BuildError,
            >::Err(BuildError::InvalidRadius),
            lt_bits(POS_ZERO, mass) && le_bits(POS_ZERO, radius) ==> r is Ok
                && r.unwrap()@ == (PlanetV {
                name: name@,
                position: Position { x: pos_x, y: pos_y },
                speed: Speed { x: spd_x, y: spd_y },
                force: Force { x: POS_ZERO, y: POS_ZERO },
                mass,
                radius,
            }),
            r is Ok ==> valid_planet(r.unwrap()@),
    {
        if !f64_lt(POS_ZERO, mass) {
            Err(BuildError::InvalidMass)
        } else if !f64_le(POS_ZERO, radius) {
            Err(BuildError::InvalidRadius)
        } else {
            Ok(
                Planet {
                    name,
                    position: Position { x: pos_x, y: pos_y },
                    speed: Speed { x: spd_x, y: spd_y },
                    force: Force { x: POS_ZERO, y: POS_ZERO },
                    mass,
                    radius,
                },
            )
        }
    }

    pub fn get_name(&self) -> (r: &String)
        ensures
            r@ == self@.name,
    {
        &self.name
    }

    pub fn get_position(&self) -> (r: &Position)
        ensures
            *r == self@.position,
    {
        &self.position
    }

    pub fn get_speed(&self) -> (r: &Speed)
        ensures
            *r == self@.speed,
    {
        &self.speed
    }

    pub fn get_mass(&self) -> (r: &u64)
        ensures
            *r == self@.mass,
    {
        &self.mass
    }

    pub fn get_force(&self) -> (r: &Force)
        ensures
            *r == self@.force,
    {
        &self.force
    }

    pub fn get_radius(&self) -> (r: &u64)
        ensures
            *r == self@.radius,
    {
        &self.radius
    }

    /// The Euclidean distance between this planet's position and `other`'s.
    /// Distance is symmetric whenever no position coordinate is a NaN.
    pub fn distance(&self, other: &Planet) -> (r: u64)
        ensures
            r == dist_bits(self@, other@),
            !is_nan_bits(self@.position.x) && !is_nan_bits(other@.position.x) && !is_nan_bits(
                self@.position.y,
            ) && !is_nan_bits(other@.position.y) ==> r == dist_bits(other@, self@),
    {
        let dx = f64_sub(self.position.x, other.position.x);
        let dy = f64_sub(self.position.y, other.position.y);
        let dist_squared = f64_add(f64_mul(dx, dx), f64_mul(dy, dy));
        f64_sqrt(dist_squared)
    }

    /// The unit direction from this planet toward `other`. Normalization by a
    /// zero magnitude is undefined input: the caller must rule it out first.
    pub fn unit_vector_to(&self, other: &Planet) -> (r: UnitVector)
        requires
            !eq_bits(dist_bits(self@, other@), POS_ZERO),
        ensures
            r == unit_vector_bits(self@, other@),
    {
        let distance = self.distance(other);
        UnitVector {
            x: f64_div(f64_sub(other.position.x, self.position.x), distance),
            y: f64_div(f64_sub(other.position.y, self.position.y), distance),
        }
    }

    /// Whether this planet collides with `other`: their distance is below the
    /// sum of the two radii. Symmetric in both operands' radii, not mass.
    pub fn crashes_on(&self, other: &Planet) -> (r: bool)
        ensures
            r == crashes_spec(self@, other@),
    {
        let distance = self.distance(other);
        if f64_lt(distance, f64_add(other.radius, self.radius)) {
            return true;
        }
        false
    }

    /// The gravity force applied on this planet by `other`:
    /// [`GravityError::ZeroSeparation`] exactly when the distance compares
    /// equal to zero, otherwise [`GravityError::OverlappingBodies`] exactly
    /// when the two planets collide, and otherwise the unit direction toward
    /// `other` scaled by `G * m_self * m_other / d^2`.
    pub fn gravity_force_applied_by_planet(&self, other_planet: &Planet) -> (r: Result<
        Force,
        GravityError,
    >)
        ensures
            r == gravity_spec(self@, other_planet@),
    {
        let distance = self.distance(other_planet);
        let force_norm = f64_div(
            f64_mul(f64_mul(G_BITS, self.mass), other_planet.mass),
            f64_mul(distance, distance),
        );
        if f64_eq(distance, POS_ZERO) {
            return Err(GravityError::ZeroSeparation);
        }
        let unit_vector = self.unit_vector_to(other_planet);
        if self.crashes_on(other_planet) {
            Err(GravityError::OverlappingBodies)
        } else {
            Ok(Force { x: f64_mul(unit_vector.x, force_norm), y: f64_mul(unit_vector.y, force_norm) })
        }
    }

    /// The net force applied on this planet by all of `other_planets` except
    /// the one at index `self_index` (the receiver's own slot; an index out of
    /// range skips nothing). Pairwise failures contribute zero.
    pub fn gravity_force_applied_by_planets(
        &self,
        other_planets: &Vec<Planet>,
        self_index: usize,
    ) -> (r: Force)
        ensures
            r == net_force_bits(
                self@,
                other_planets@.map_values(|p: Planet| p@),
                self_index as int,
            ),
    {
        let ghost others = other_planets@.map_values(|p: Planet| p@);
        let mut total_force = Force { x: POS_ZERO, y: POS_ZERO };
        let mut j: usize = 0;
        while j < other_planets.len()
            invariant
                j <= other_planets.len(),
                others == other_planets@.map_values(|p: Planet| p@),
                total_force == net_force_upto(self@, others, self_index as int, j as int),
            decreases other_planets.len() - j,
        {
            if j != self_index {
                let force = match self.gravity_force_applied_by_planet(&other_planets[j]) {
                    Ok(f) => f,
                    Err(_) => Force { x: POS_ZERO, y: POS_ZERO },
                };
                total_force = Force {
                    x: f64_add(total_force.x, force.x),
                    y: f64_add(total_force.y, force.y),
                };
            }
            j += 1;
        }
        total_force
    }

    /// Resets the accumulated force to zero; everything else is unchanged.
    pub fn reset_force(&mut self)
        ensures
            final(self)@ == (PlanetV {
                force: Force { x: POS_ZERO, y: POS_ZERO },
                ..old(self)@
            }),
    {
        self.force.x = POS_ZERO;
        self.force.y = POS_ZERO;
    }

    /// Adds the pairwise gravity force from `other_planet` to the accumulated
    /// force; on a pairwise failure the error is returned and nothing changes.
    pub fn add_force_applied_by(&mut self, other_planet: &Planet) -> (r: Result<(), GravityError>)
        ensures
            gravity_spec(old(self)@, other_planet@) is Ok ==> r is Ok && final(self)@ == (PlanetV {
                force: Force {
                    x: add_bits(
                        old(self)@.force.x,
                        gravity_spec(old(self)@, other_planet@).unwrap().x,
                    ),
                    y: add_bits(
                        old(self)@.force.y,
                        gravity_spec(old(self)@, other_planet@).unwrap().y,
                    ),
                },
                ..old(self)@
            }),
            gravity_spec(old(self)@, other_planet@) is Err ==> r == Result::<
                (),
                GravityError,
            >::Err(gravity_spec(old(self)@, other_planet@).unwrap_err()) && *final(self) == *old(
                self,
            ),
    {
        match self.gravity_force_applied_by_planet(other_planet) {
            Ok(force) => {
                self.force.x = f64_add(self.force.x, force.x);
                self.force.y = f64_add(self.force.y, force.y);
                Ok(())
            },
            Err(e) => Err(e),
        }
    }

    /// Integrates the velocity: `v += force / mass * dt`, componentwise.
    pub fn update_speed(&mut self, dt: u64)
        ensures
            final(self)@ == (PlanetV {
                speed: Speed {
                    x: add_bits(
                        old(self)@.speed.x,
                        mul_bits(div_bits(old(self)@.force.x, old(self)@.mass), dt),
                    ),
                    y: add_bits(
                        old(self)@.speed.y,
                        mul_bits(div_bits(old(self)@.force.y, old(self)@.mass), dt),
                    ),
                },
                ..old(self)@
            }),
    {
        self.speed.x = f64_add(self.speed.x, f64_mul(f64_div(self.force.x, self.mass), dt));
        self.speed.y = f64_add(self.speed.y, f64_mul(f64_div(self.force.y, self.mass), dt));
    }

    /// Integrates the position: `x += v * dt`, componentwise.
    pub fn update_position(&mut self, dt: u64)
        ensures
            final(self)@ == (PlanetV {
                position: Position {
                    x: add_bits(old(self)@.position.x, mul_bits(old(self)@.speed.x, dt)),
                    y: add_bits(old(self)@.position.y, mul_bits(old(self)@.speed.y, dt)),
                },
                ..old(self)@
            }),
    {
        self.position.x = f64_add(self.position.x, f64_mul(self.speed.x, dt));
        self.position.y = f64_add(self.position.y, f64_mul(self.speed.y, dt));
    }

    /// One pure semi-implicit Euler step: the planet advanced by `dt` under
    /// the net force of `other_planets` (skipping `self_index`), as a new
    /// planet value; `self` is not mutated. Under zero net force the velocity
    /// is provably unchanged, and a planet at rest also keeps its position.
    pub fn planet_after_time_step(
        &self,
        dt: u64,
        other_planets: &Vec<Planet>,
        self_index: usize,
    ) -> (r: Planet)
        ensures
            r@ == advanced_bits(
                self@,
                other_planets@.map_values(|p: Planet| p@),
                self_index as int,
                dt,
            ),
            valid_planet(self@) ==> valid_planet(r@),
            ({
                let f = net_force_bits(
                    self@,
                    other_planets@.map_values(|p: Planet| p@),
                    self_index as int,
                );
                f.x == POS_ZERO && f.y == POS_ZERO
            }) && keeps_speed_under_zero_force(self@, dt) ==> r@.speed == self@.speed,
            ({
                let f = net_force_bits(
                    self@,
                    other_planets@.map_values(|p: Planet| p@),
                    self_index as int,
                );
                f.x == POS_ZERO && f.y == POS_ZERO
            }) && lt_bits(POS_ZERO, self@.mass) && is_finite_bits(dt) && at_rest(self@)
                ==> r@.speed == self@.speed && r@.position == self@.position,
    {
        let external_force = self.gravity_force_applied_by_planets(other_planets, self_index);
        let new_speed = Speed {
            x: f64_add(self.speed.x, f64_mul(f64_div(external_force.x, self.mass), dt)),
            y: f64_add(self.speed.y, f64_mul(f64_div(external_force.y, self.mass), dt)),
        };
        let new_position = Position {
            x: f64_add(self.position.x, f64_mul(new_speed.x, dt)),
            y: f64_add(self.position.y, f64_mul(new_speed.y, dt)),
        };
        proof {
            lemma_pos_zero_not_nan();
        }
        Planet {
            position: new_position,
            speed: new_speed,
            force: external_force,
            name: self.name.clone(),
            mass: self.mass,
            radius: self.radius,
        }
    }

    /// Merges `other_planet` into this planet, the survivor of an inelastic
    /// collision: names joined with `" + "`, momentum-conserving velocity,
    /// masses added, radii combined as if cross-sectional areas add.
    /// `other_planet` itself is unchanged; discarding it is the caller's
    /// concern. A merge of two valid planets leaves the survivor valid.
    pub fn absorb(&mut self, other_planet: &mut Planet)
        ensures
            final(self)@ == absorbed_bits(old(self)@, old(other_planet)@),
            *final(other_planet) == *old(other_planet),
            valid_planet(old(self)@) && valid_planet(old(other_planet)@) ==> valid_planet(
                final(self)@,
            ),
    {
        let m = merged(self, other_planet);
        *self = m;
    }

    /// The kinetic-energy figure `mass * (vx^2 + vy^2)` (twice the physical
    /// kinetic energy; the formula is preserved exactly).
    pub fn energy(&self) -> (r: u64)
        ensures
            r == energy_bits(self@),
    {
        f64_mul(
            self.mass,
            f64_add(f64_mul(self.speed.x, self.speed.x), f64_mul(self.speed.y, self.speed.y)),
        )
    }
}

/// The merge of `o` into the survivor `s`, as a fresh planet value, so the
/// collection can replace the survivor in place while both operands are only
/// read. A merge of two valid planets yields a valid planet: the sum of two
/// positive masses is positive, and the combined radius is a square root of a
/// sum of squares, hence non-negative.
pub(crate) fn merged(s: &Planet, o: &Planet) -> (r: Planet)
    ensures
        r@ == absorbed_bits(s@, o@),
        valid_planet(s@) && valid_planet(o@) ==> valid_planet(r@),
{
    let name = s.name.clone().concat(" + ").concat(o.name.as_str());
    let speed = Speed {
        x: f64_div(
            f64_add(f64_mul(o.mass, o.speed.x), f64_mul(s.speed.x, s.mass)),
            f64_add(o.mass, s.mass),
        ),
        y: f64_div(
            f64_add(f64_mul(o.mass, o.speed.y), f64_mul(s.speed.y, s.mass)),
            f64_add(o.mass, s.mass),
        ),
    };
    Planet {
        name,
        position: s.position,
        speed,
        force: s.force,
        mass: f64_add(s.mass, o.mass),
        radius: f64_sqrt(f64_add(f64_mul(o.radius, o.radius), f64_mul(s.radius, s.radius))),
    }
}

} // verus!
