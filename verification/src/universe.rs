//! The universe: the owning collection of planets and the per-step transition.
//!
//! A step runs four ordered phases on one consistent snapshot:
//!
//! 1. force & integration — every planet is advanced from the same pre-step
//!    snapshot (simultaneous-update semantics);
//! 2. collision detection — all unordered pairs `(i, j)`, `i < j`, of the
//!    post-integration collection are scanned in order; in a colliding pair
//!    the heavier planet (ties keep the lower index) absorbs the lighter one
//!    in place, the absorbed index is recorded, and the surviving planet is
//!    flagged as freed if both of its force components are below the escape
//!    threshold;
//! 3. removal — the recorded absorbed planets are removed, highest index
//!    first so earlier indices stay valid;
//! 4. escape — only when phase 2 found no collision and more than two planets
//!    remain, the planets flagged as freed are removed. (A planet is only
//!    ever flagged together with a collision, so this phase removes nothing;
//!    the coupling is documented behaviour and is kept literally.)

use crate::fbits::{add_bits, f64_add, f64_le, f64_lt, is_finite_bits, le_bits, lt_bits, POS_ZERO};
use crate::physics::Force;
use crate::planet::{
    absorbed_bits, advanced_bits, at_rest, crashes_spec, energy_bits, keeps_speed_under_zero_force,
    merged, net_force_upto, valid_planet, Planet, PlanetV,
};
use vstd::prelude::*;

verus! {

/// Bit pattern of the escape-force threshold `100.0`.
pub const ESCAPE_FORCE_BITS: u64 = 0x4059_0000_0000_0000;

/// The owning collection of planets.
#[derive(Debug)]
pub struct Universe {
    pub planets: Vec<Planet>,
}

impl View for Universe {
    type V = Seq<PlanetV>;

    open spec fn view(&self) -> Seq<PlanetV> {
        self.planets@.map_values(|p: Planet| p@)
    }
}

/// Whether a surviving planet is flagged as freed right after a merge: both
/// components of its accumulated force are below the escape threshold.
pub open spec fn freed_spec(p: PlanetV) -> bool {
    lt_bits(p.force.x, ESCAPE_FORCE_BITS) && lt_bits(p.force.y, ESCAPE_FORCE_BITS)
}

/// The state of the collision-detection scan: the collection as mutated so
/// far, the recorded indices of absorbed planets, and the recorded indices of
/// planets flagged as freed.
pub struct ScanState {
    pub planets: Seq<PlanetV>,
    pub crashed: Seq<int>,
    pub freed: Seq<int>,
}

/// One pair check of the collision scan. If the planets at `i` and `j`
/// collide, the heavier (ties keep `i`) absorbs the lighter in place, the
/// absorbed index is recorded, and the survivor is flagged as freed when its
/// force is below the escape threshold; otherwise nothing changes.
pub open spec fn merge_pair(st: ScanState, i: int, j: int) -> ScanState {
    if crashes_spec(st.planets[i], st.planets[j]) {
        if le_bits(st.planets[j].mass, st.planets[i].mass) {
            let ps2 = st.planets.update(i, absorbed_bits(st.planets[i], st.planets[j]));
            ScanState {
                planets: ps2,
                crashed: st.crashed.push(j),
                freed: if freed_spec(ps2[i]) {
                    st.freed.push(i)
                } else {
                    st.freed
                },
            }
        } else {
            let ps2 = st.planets.update(j, absorbed_bits(st.planets[j], st.planets[i]));
            ScanState {
                planets: ps2,
                crashed: st.crashed.push(i),
                freed: if freed_spec(ps2[j]) {
                    st.freed.push(j)
                } else {
                    st.freed
                },
            }
        }
    } else {
        st
    }
}

/// The collision scan from pair `(i, j)` onward, in the order of the nested
/// loops: `j` runs from `i + 1` up, then `i` advances.
pub open spec fn scan_from(st: ScanState, i: int, j: int) -> ScanState
    decreases st.planets.len() - i, st.planets.len() - j,
{
    if i < 0 || i >= st.planets.len() || j < i + 1 {
        st
    } else if j >= st.planets.len() {
        scan_from(st, i + 1, i + 2)
    } else {
        scan_from(merge_pair(st, i, j), i, j + 1)
    }
}

/// The full collision scan of a collection.
pub open spec fn scan_spec(ps: Seq<PlanetV>) -> ScanState {
    scan_from(ScanState { planets: ps, crashed: Seq::empty(), freed: Seq::empty() }, 0, 1)
}

/// The planets of `ps` from index `k` on whose index is not in `dropped`, in
/// order: the result of removing every recorded index.
pub open spec fn kept_from(ps: Seq<PlanetV>, dropped: Seq<int>, k: int) -> Seq<PlanetV>
    decreases ps.len() - k,
{
    if k < 0 || k >= ps.len() {
        Seq::empty()
    } else {
        let rest = kept_from(ps, dropped, k + 1);
        if dropped.contains(k) {
            rest
        } else {
            seq![ps[k]] + rest
        }
    }
}

/// Phase 1 of a step: every planet advanced from the same pre-step snapshot.
/// The size of the collection is unchanged by construction.
pub open spec fn advanced_all(ps: Seq<PlanetV>, dt: u64) -> Seq<PlanetV> {
    Seq::new(ps.len(), |i: int| advanced_bits(ps[i], ps, i, dt))
}

/// One full step: integrate, scan for collisions, remove the absorbed
/// planets, and — only when no collision was found and more than two planets
/// remain — remove the planets flagged as freed.
pub open spec fn step_spec(ps: Seq<PlanetV>, dt: u64) -> Seq<PlanetV> {
    let st = scan_spec(advanced_all(ps, dt));
    let after_crash = kept_from(st.planets, st.crashed, 0);
    if st.crashed.len() == 0 && after_crash.len() > 2 {
        kept_from(after_crash, st.freed, 0)
    } else {
        after_crash
    }
}

/// The total kinetic-energy figure: the planets' energies summed in order in
/// binary64 arithmetic starting from `+0.0`, over the first `n` planets.
pub open spec fn total_energy_upto(ps: Seq<PlanetV>, n: int) -> u64
    decreases n,
{
    if n <= 0 {
        POS_ZERO
    } else {
        add_bits(total_energy_upto(ps, n - 1), energy_bits(ps[n - 1]))
    }
}

/// The total kinetic-energy figure of the whole collection.
pub open spec fn total_energy_bits(ps: Seq<PlanetV>) -> u64 {
    total_energy_upto(ps, ps.len() as int)
}

/// Whether any element of `v` equals `x`.
pub open spec fn has_index(v: Seq<usize>, x: int) -> bool {
    exists|k: int| 0 <= k < v.len() && v[k] as int == x
}

/// Whether any planet of `ps` collides with any later one.
pub open spec fn any_collision(ps: Seq<PlanetV>) -> bool {
    exists|a: int, b: int| 0 <= a < b < ps.len() && crashes_spec(ps[a], ps[b])
}

fn contains_index(v: &Vec<usize>, x: usize) -> (r: bool)
    ensures
        r == has_index(v@, x as int),
{
    let mut k: usize = 0;
    while k < v.len()
        invariant
            k <= v.len(),
            forall|m: int| 0 <= m < k ==> v@[m] != x,
        decreases v.len() - k,
    {
        if v[k] == x {
            return true;
        }
        k += 1;
    }
    false
}

/// Removes from `planets` every index recorded in `dropped`, processing
/// indices from the highest down so earlier indices stay valid.
fn remove_dropped(planets: &mut Vec<Planet>, dropped: &Vec<usize>)
    ensures
        final(planets)@.map_values(|p: Planet| p@) == kept_from(
            old(planets)@.map_values(|p: Planet| p@),
            dropped@.map_values(|u: usize| u as int),
            0,
        ),
{
    let ghost ps = planets@.map_values(|p: Planet| p@);
    let ghost d = dropped@.map_values(|u: usize| u as int);
    let mut k: usize = planets.len();
    proof {
        assert(planets@.map_values(|p: Planet| p@) =~= ps.take(k as int) + kept_from(
            ps,
            d,
            k as int,
        ));
    }
    while k > 0
        invariant
            ps == old(planets)@.map_values(|p: Planet| p@),
            d == dropped@.map_values(|u: usize| u as int),
            k <= ps.len(),
            planets@.map_values(|p: Planet| p@) == ps.take(k as int) + kept_from(
                ps,
                d,
                k as int,
            ),
        decreases k,
    {
        k -= 1;
        let ghost before = planets@.map_values(|p: Planet| p@);
        proof {
            assert(ps.take(k as int + 1).len() == k as int + 1);
            assert(before.len() == planets@.len());
        }
        if contains_index(dropped, k) {
            proof {
                assert(d.contains(k as int)) by {
                    let m = choose|m: int|
                        0 <= m < dropped@.len() && dropped@[m] as int == k as int;
                    assert(d[m] == k as int);
                }
            }
            planets.remove(k);
            proof {
                assert(planets@.map_values(|p: Planet| p@) =~= before.remove(k as int));
                assert(before.remove(k as int) =~= ps.take(k as int) + kept_from(ps, d, k as int));
            }
        } else {
            proof {
                assert(!d.contains(k as int)) by {
                    if d.contains(k as int) {
                        let m = choose|m: int| 0 <= m < d.len() && d[m] == k as int;
                        assert(dropped@[m] as int == k as int);
                    }
                }
                assert(before =~= ps.take(k as int) + kept_from(ps, d, k as int));
            }
        }
    }
    proof {
        assert(ps.take(0) + kept_from(ps, d, 0) =~= kept_from(ps, d, 0));
    }
}

impl Universe {
    /// Advances the whole universe by one fixed timestep `dt`.
    ///
    /// The result is pinned down exactly by [`step_spec`]. Moreover: a step
    /// never grows the collection, and one in which no two advanced planets
    /// collide is exactly the integration phase, with the number of planets
    /// unchanged — only the removal phases can shrink it. Validity of every
    /// planet (positive mass, non-negative radius) is preserved; and a
    /// universe of exactly one planet keeps that planet's
    /// velocity — and, when it is at rest, also its position — unchanged,
    /// since nothing exerts a force on it.
    pub fn do_time_step(&mut self, dt: u64)
        ensures
            final(self)@ == step_spec(old(self)@, dt),
            final(self)@.len() <= old(self)@.len(),
            !any_collision(advanced_all(old(self)@, dt)) ==> final(self)@ == advanced_all(
                old(self)@,
                dt,
            ),
            (forall|k: int| 0 <= k < old(self)@.len() ==> valid_planet(old(self)@[k]))
                ==> (forall|k: int|
                0 <= k < final(self)@.len() ==> valid_planet(final(self)@[k])),
            old(self)@.len() == 1 && keeps_speed_under_zero_force(old(self)@[0], dt)
                ==> final(self)@.len() == 1 && final(self)@[0].speed == old(self)@[0].speed,
            old(self)@.len() == 1 && lt_bits(POS_ZERO, old(self)@[0].mass) && is_finite_bits(dt)
                && at_rest(old(self)@[0]) ==> final(self)@.len() == 1 && final(self)@[0].speed
                == old(self)@[0].speed && final(self)@[0].position == old(self)@[0].position,
    {
        let ghost ps0 = self@;
        // Phase 1: advance every planet from the same pre-step snapshot.
        let n = self.planets.len();
        let mut planets_after_timestep: Vec<Planet> = Vec::new();
        let mut i: usize = 0;
        while i < n
            invariant
                n == self.planets.len(),
                ps0 == self@,
                i <= n,
                planets_after_timestep@.len() == i as int,
                forall|k: int|
                    0 <= k < i as int ==> #[trigger] planets_after_timestep@[k]@ == advanced_bits(
                        ps0[k],
                        ps0,
                        k,
                        dt,
                    ),
                forall|k: int|
                    0 <= k < i as int ==> (valid_planet(ps0[k]) ==> valid_planet(
                        planets_after_timestep@[k]@,
                    )),
                old(self)@.len() == 1 && keeps_speed_under_zero_force(old(self)@[0], dt) && i > 0
                    ==> planets_after_timestep@[0]@.speed == ps0[0].speed,
                old(self)@.len() == 1 && lt_bits(POS_ZERO, old(self)@[0].mass) && is_finite_bits(
                    dt,
                ) && at_rest(old(self)@[0]) && i > 0 ==> planets_after_timestep@[0]@.speed
                    == ps0[0].speed && planets_after_timestep@[0]@.position == ps0[0].position,
            decreases n - i,
        {
            proof {
                if ps0.len() == 1 {
                    assert(net_force_upto(ps0[0], ps0, 0, 1) == net_force_upto(ps0[0], ps0, 0, 0));
                    assert(net_force_upto(ps0[0], ps0, 0, 0) == (Force {
                        x: POS_ZERO,
                        y: POS_ZERO,
                    }));
                }
            }
            let p = self.planets[i].planet_after_time_step(dt, &self.planets, i);
            planets_after_timestep.push(p);
            i += 1;
        }
        self.planets = planets_after_timestep;
        let ghost adv = self@;
        proof {
            assert(adv =~= advanced_all(ps0, dt));
        }
        // Phase 2: scan all pairs in order, merging colliding pairs in place.
        let mut planets_crashs: Vec<usize> = Vec::new();
        let mut planets_freed: Vec<usize> = Vec::new();
        proof {
            assert(planets_crashs@.map_values(|u: usize| u as int) =~= Seq::<int>::empty());
            assert(planets_freed@.map_values(|u: usize| u as int) =~= Seq::<int>::empty());
        }
        let mut i_planet: usize = 0;
        while i_planet < n
            invariant
                n == self.planets.len(),
                self@.len() == n as int,
                i_planet <= n,
                adv.len() == n as int,
                scan_from(
                    ScanState {
                        planets: self@,
                        crashed: planets_crashs@.map_values(|u: usize| u as int),
                        freed: planets_freed@.map_values(|u: usize| u as int),
                    },
                    i_planet as int,
                    i_planet as int + 1,
                ) == scan_spec(adv),
                forall|k: int| 0 <= k < planets_crashs@.len() ==> planets_crashs@[k] < n,
                forall|k: int| 0 <= k < planets_freed@.len() ==> planets_freed@[k] < n,
                (forall|k: int| 0 <= k < adv.len() ==> valid_planet(adv[k])) ==> (forall|k: int|
                    0 <= k < self@.len() ==> valid_planet(self@[k])),
            decreases n - i_planet,
        {
            let mut j_planet: usize = i_planet + 1;
            while j_planet < n
                invariant
                    n == self.planets.len(),
                    self@.len() == n as int,
                    i_planet < n,
                    i_planet + 1 <= j_planet,
                    j_planet <= n,
                    adv.len() == n as int,
                    scan_from(
                        ScanState {
                            planets: self@,
                            crashed: planets_crashs@.map_values(|u: usize| u as int),
                            freed: planets_freed@.map_values(|u: usize| u as int),
                        },
                        i_planet as int,
                        j_planet as int,
                    ) == scan_spec(adv),
                    forall|k: int| 0 <= k < planets_crashs@.len() ==> planets_crashs@[k] < n,
                    forall|k: int| 0 <= k < planets_freed@.len() ==> planets_freed@[k] < n,
                    (forall|k: int| 0 <= k < adv.len() ==> valid_planet(adv[k])) ==> (forall|
                        k: int,
                    |
                        0 <= k < self@.len() ==> valid_planet(self@[k])),
                decreases n - j_planet,
            {
                let ghost st_before = ScanState {
                    planets: self@,
                    crashed: planets_crashs@.map_values(|u: usize| u as int),
                    freed: planets_freed@.map_values(|u: usize| u as int),
                };
                if self.planets[i_planet].crashes_on(&self.planets[j_planet]) {
                    let heavier_first = f64_le(
                        *self.planets[j_planet].get_mass(),
                        *self.planets[i_planet].get_mass(),
                    );
                    if heavier_first {
                        let m = merged(&self.planets[i_planet], &self.planets[j_planet]);
                        self.planets[i_planet] = m;
                        planets_crashs.push(j_planet);
                        let survivor_force = *self.planets[i_planet].get_force();
                        if f64_lt(survivor_force.x, ESCAPE_FORCE_BITS) && f64_lt(
                            survivor_force.y,
                            ESCAPE_FORCE_BITS,
                        ) {
                            planets_freed.push(i_planet);
                        }
                    } else {
                        let m = merged(&self.planets[j_planet], &self.planets[i_planet]);
                        self.planets[j_planet] = m;
                        planets_crashs.push(i_planet);
                        let survivor_force = *self.planets[j_planet].get_force();
                        if f64_lt(survivor_force.x, ESCAPE_FORCE_BITS) && f64_lt(
                            survivor_force.y,
                            ESCAPE_FORCE_BITS,
                        ) {
                            planets_freed.push(j_planet);
                        }
                    }
                }
                proof {
                    let st_after = ScanState {
                        planets: self@,
                        crashed: planets_crashs@.map_values(|u: usize| u as int),
                        freed: planets_freed@.map_values(|u: usize| u as int),
                    };
                    assert(st_after.planets =~= merge_pair(
                        st_before,
                        i_planet as int,
                        j_planet as int,
                    ).planets);
                    assert(st_after.crashed =~= merge_pair(
                        st_before,
                        i_planet as int,
                        j_planet as int,
                    ).crashed);
                    assert(st_after.freed =~= merge_pair(
                        st_before,
                        i_planet as int,
                        j_planet as int,
                    ).freed);
                    assert(scan_from(st_before, i_planet as int, j_planet as int) == scan_from(
                        st_after,
                        i_planet as int,
                        j_planet as int + 1,
                    ));
                }
                j_planet += 1;
            }
            proof {
                let st = ScanState {
                    planets: self@,
                    crashed: planets_crashs@.map_values(|u: usize| u as int),
                    freed: planets_freed@.map_values(|u: usize| u as int),
                };
                assert(scan_from(st, i_planet as int, n as int) == scan_from(
                    st,
                    i_planet as int + 1,
                    i_planet as int + 2,
                ));
            }
            i_planet += 1;
        }
        proof {
            let st = ScanState {
                planets: self@,
                crashed: planets_crashs@.map_values(|u: usize| u as int),
                freed: planets_freed@.map_values(|u: usize| u as int),
            };
            assert(scan_from(st, n as int, n as int + 1) == st);
            assert(st == scan_spec(adv));
        }
        // Phase 3: remove the absorbed planets, highest index first.
        let ghost st_final = scan_spec(adv);
        let ghost after_crash = kept_from(st_final.planets, st_final.crashed, 0);
        proof {
            if forall|k: int| 0 <= k < st_final.planets.len() ==> valid_planet(
                st_final.planets[k],
            ) {
                lemma_kept_from_valid(st_final.planets, st_final.crashed, 0);
            }
        }
        remove_dropped(&mut self.planets, &planets_crashs);
        // Phase 4: when no collision was found and more than two planets
        // remain, remove the planets flagged as freed.
        if planets_crashs.len() == 0 && self.planets.len() > 2 {
            proof {
                if forall|k: int| 0 <= k < after_crash.len() ==> valid_planet(after_crash[k]) {
                    lemma_kept_from_valid(after_crash, st_final.freed, 0);
                }
            }
            remove_dropped(&mut self.planets, &planets_freed);
        }
        proof {
            lemma_step_never_grows(ps0, dt);
            if !any_collision(advanced_all(ps0, dt)) {
                lemma_step_without_collision(ps0, dt);
            }
            if ps0.len() == 1 {
                lemma_single_planet_scan(adv);
                assert(kept_from(adv, Seq::<int>::empty(), 1) =~= Seq::<PlanetV>::empty());
                assert(kept_from(adv, Seq::<int>::empty(), 0) =~= adv);
            }
        }
    }

    /// The total kinetic-energy figure of the universe: the sum of every
    /// planet's `mass * (vx^2 + vy^2)`, accumulated in order from `+0.0`.
    pub fn energy(&self) -> (r: u64)
        ensures
            r == total_energy_bits(self@),
    {
        let mut energy: u64 = POS_ZERO;
        let mut i: usize = 0;
        while i < self.planets.len()
            invariant
                i <= self.planets.len(),
                energy == total_energy_upto(self@, i as int),
            decreases self.planets.len() - i,
        {
            energy = f64_add(energy, self.planets[i].energy());
            i += 1;
        }
        energy
    }
}

/// The scan of a collection with fewer than two planets does nothing: there
/// is no pair to check.
pub proof fn lemma_single_planet_scan(ps: Seq<PlanetV>)
    requires
        ps.len() <= 1,
    ensures
        scan_spec(ps) == (ScanState { planets: ps, crashed: Seq::<int>::empty(), freed: Seq::<
            int,
        >::empty() }),
{
    let st = ScanState { planets: ps, crashed: Seq::<int>::empty(), freed: Seq::<int>::empty() };
    if ps.len() == 0 {
        assert(scan_from(st, 0, 1) == st);
    } else {
        assert(scan_from(st, 0, 1) == scan_from(st, 1, 2));
        assert(scan_from(st, 1, 2) == st);
    }
}

/// The collision scan only merges planets in place: it never changes the size
/// of the collection.
pub proof fn lemma_scan_planets_len(st: ScanState, i: int, j: int)
    ensures
        scan_from(st, i, j).planets.len() == st.planets.len(),
    decreases st.planets.len() - i, st.planets.len() - j,
{
    if i < 0 || i >= st.planets.len() || j < i + 1 {
    } else if j >= st.planets.len() {
        lemma_scan_planets_len(st, i + 1, i + 2);
    } else {
        assert(merge_pair(st, i, j).planets.len() == st.planets.len());
        lemma_scan_planets_len(merge_pair(st, i, j), i, j + 1);
    }
}

/// The removal phase only removes: it keeps at most the planets from index
/// `k` on.
pub proof fn lemma_kept_from_len(ps: Seq<PlanetV>, dropped: Seq<int>, k: int)
    requires
        0 <= k <= ps.len(),
    ensures
        kept_from(ps, dropped, k).len() <= ps.len() - k,
    decreases ps.len() - k,
{
    if k < ps.len() {
        lemma_kept_from_len(ps, dropped, k + 1);
    }
}

/// With no recorded index, the removal phase keeps every planet from `k` on.
pub proof fn lemma_kept_from_all(ps: Seq<PlanetV>, dropped: Seq<int>, k: int)
    requires
        dropped.len() == 0,
        0 <= k <= ps.len(),
    ensures
        kept_from(ps, dropped, k) == ps.skip(k),
    decreases ps.len() - k,
{
    if k >= ps.len() {
        assert(kept_from(ps, dropped, k) =~= ps.skip(k));
    } else {
        lemma_kept_from_all(ps, dropped, k + 1);
        assert(!dropped.contains(k));
        assert(kept_from(ps, dropped, k) =~= ps.skip(k));
    }
}

/// A scan that finds no colliding pair changes nothing and records nothing.
pub proof fn lemma_scan_no_collision(st: ScanState, i: int, j: int)
    requires
        forall|a: int, b: int|
            0 <= a < b < st.planets.len() ==> !crashes_spec(st.planets[a], st.planets[b]),
    ensures
        scan_from(st, i, j) == st,
    decreases st.planets.len() - i, st.planets.len() - j,
{
    if i < 0 || i >= st.planets.len() || j < i + 1 {
    } else if j >= st.planets.len() {
        lemma_scan_no_collision(st, i + 1, i + 2);
    } else {
        assert(merge_pair(st, i, j) == st);
        lemma_scan_no_collision(st, i, j + 1);
    }
}

/// A step never changes the number of planets during the integration phase —
/// the advanced collection has exactly the original size — and never grows
/// the collection: only the removal phases can shrink it.
pub proof fn lemma_step_never_grows(ps: Seq<PlanetV>, dt: u64)
    ensures
        advanced_all(ps, dt).len() == ps.len(),
        step_spec(ps, dt).len() <= ps.len(),
{
    let adv = advanced_all(ps, dt);
    let st0 = ScanState { planets: adv, crashed: Seq::empty(), freed: Seq::empty() };
    lemma_scan_planets_len(st0, 0, 1);
    let st = scan_spec(adv);
    lemma_kept_from_len(st.planets, st.crashed, 0);
    let after_crash = kept_from(st.planets, st.crashed, 0);
    if st.crashed.len() == 0 && after_crash.len() > 2 {
        lemma_kept_from_len(after_crash, st.freed, 0);
    }
}

/// The collision scan flags a planet as freed only when it also records a
/// collision: the freed list never outgrows the crashed list.
pub proof fn lemma_scan_freed_bounded(st: ScanState, i: int, j: int)
    requires
        st.freed.len() <= st.crashed.len(),
    ensures
        scan_from(st, i, j).freed.len() <= scan_from(st, i, j).crashed.len(),
    decreases st.planets.len() - i, st.planets.len() - j,
{
    if i < 0 || i >= st.planets.len() || j < i + 1 {
    } else if j >= st.planets.len() {
        lemma_scan_freed_bounded(st, i + 1, i + 2);
    } else {
        assert(merge_pair(st, i, j).freed.len() <= merge_pair(st, i, j).crashed.len());
        lemma_scan_freed_bounded(merge_pair(st, i, j), i, j + 1);
    }
}

/// The escape phase never removes a planet: it only runs when the scan found
/// no collision, but a planet is only flagged as freed together with a
/// collision. A step is therefore exactly the integrate–scan–remove pipeline
/// of the first three phases; this makes the documented coupling of the
/// escape phase to "a merge happened this same step" precise.
pub proof fn lemma_escape_phase_removes_nothing(ps: Seq<PlanetV>, dt: u64)
    ensures
        step_spec(ps, dt) == kept_from(
            scan_spec(advanced_all(ps, dt)).planets,
            scan_spec(advanced_all(ps, dt)).crashed,
            0,
        ),
{
    let adv = advanced_all(ps, dt);
    let st0 = ScanState { planets: adv, crashed: Seq::empty(), freed: Seq::empty() };
    lemma_scan_freed_bounded(st0, 0, 1);
    let st = scan_spec(adv);
    let after_crash = kept_from(st.planets, st.crashed, 0);
    if st.crashed.len() == 0 && after_crash.len() > 2 {
        lemma_kept_from_all(after_crash, st.freed, 0);
        assert(after_crash.skip(0) =~= after_crash);
    }
}

/// A step in which no two advanced planets collide removes nothing: it
/// returns exactly the integrated collection, so the number of planets is
/// unchanged.
pub proof fn lemma_step_without_collision(ps: Seq<PlanetV>, dt: u64)
    requires
        !any_collision(advanced_all(ps, dt)),
    ensures
        step_spec(ps, dt) == advanced_all(ps, dt),
        step_spec(ps, dt).len() == ps.len(),
{
    let adv = advanced_all(ps, dt);
    let st0 = ScanState { planets: adv, crashed: Seq::empty(), freed: Seq::empty() };
    assert forall|a: int, b: int|
        0 <= a < b < adv.len() implies !crashes_spec(adv[a], adv[b]) by {
        if crashes_spec(adv[a], adv[b]) {
            assert(any_collision(adv));
        }
    }
    lemma_scan_no_collision(st0, 0, 1);
    lemma_kept_from_all(adv, Seq::<int>::empty(), 0);
    assert(adv.skip(0) =~= adv);
}

/// Every planet kept by the removal phase is one of the scanned planets, so
/// validity of all planets survives removal.
pub proof fn lemma_kept_from_valid(ps: Seq<PlanetV>, dropped: Seq<int>, k: int)
    requires
        forall|i: int| 0 <= i < ps.len() ==> valid_planet(ps[i]),
    ensures
        forall|m: int|
            0 <= m < kept_from(ps, dropped, k).len() ==> valid_planet(kept_from(ps, dropped, k)[m]),
    decreases ps.len() - k,
{
    if k < 0 || k >= ps.len() {
    } else {
        lemma_kept_from_valid(ps, dropped, k + 1);
        let rest = kept_from(ps, dropped, k + 1);
        if !dropped.contains(k) {
            assert(kept_from(ps, dropped, k) == seq![ps[k]] + rest);
            assert(forall|m: int|
                0 <= m < rest.len() ==> (seq![ps[k]] + rest)[m + 1] == rest[m]);
        }
    }
}

} // verus!
