use vstd::prelude::*;

verus! {

/// A window, named by an identifier that the compositor hands out.
pub type WindowId = u64;

/// Planets per orbit ring.
pub const ORBIT_CAPACITY: usize = 7;

/// A window treated as a celestial body in the orbital switcher.
///
/// Its place on the rings is held exactly: the planet sits on ring
/// `orbit_index`, at position `slot` among the `ring_size` planets of that
/// ring, so its angle is `slot / ring_size` of a full turn from twelve o'clock.
#[derive(Debug, Clone, Copy, PartialEq, Eq, Structural)]
pub struct Planet {
    pub window: WindowId,
    /// Concentric orbit ring index (0 = innermost).
    pub orbit_index: usize,
    /// Position of the planet on its ring.
    pub slot: usize,
    /// Number of planets sharing the ring.
    pub ring_size: usize,
}

impl Planet {
    /// A planet at angle zero on ring `orbit_index`.
    pub fn new(window: WindowId, orbit_index: usize) -> (p: Self)
        ensures
            p == (Planet { window, orbit_index, slot: 0, ring_size: 1 }),
    {
        Planet { window, orbit_index, slot: 0, ring_size: 1 }
    }
}

/// The windows of a list of planets, in order.
pub open spec fn planet_windows(planets: Seq<Planet>) -> Seq<WindowId> {
    planets.map_values(|p: Planet| p.window)
}

/// Number of planets on the ring that holds planet `i` of `n`.
pub open spec fn ring_size_of(n: int, i: int) -> int {
    let ring_start = (i / ORBIT_CAPACITY as int) * ORBIT_CAPACITY as int;
    if n - ring_start > ORBIT_CAPACITY as int {
        ORBIT_CAPACITY as int
    } else {
        n - ring_start
    }
}

/// Planet `i` of `n` sits on ring `i / 7` at slot `i % 7`, sharing its ring
/// with the other planets of the same group of seven.
pub open spec fn orbit_placed(p: Planet, n: int, i: int) -> bool {
    &&& p.orbit_index == i / ORBIT_CAPACITY as int
    &&& p.slot == i % ORBIT_CAPACITY as int
    &&& p.ring_size == ring_size_of(n, i)
}

/// Every planet of the list sits where `assign_orbits` puts it.
pub open spec fn orbits_assigned(planets: Seq<Planet>) -> bool {
    forall|i: int| 0 <= i < planets.len() ==> orbit_placed(#[trigger] planets[i], planets.len() as int, i)
}

/// Distributes planets evenly across concentric orbit rings: seven to a
/// ring, each ring's planets spread evenly around it.
pub fn assign_orbits(planets: &mut Vec<Planet>)
    ensures
        final(planets)@.len() == old(planets)@.len(),
        planet_windows(final(planets)@) == planet_windows(old(planets)@),
        orbits_assigned(final(planets)@),
{
    let n = planets.len();
    let mut i: usize = 0;
    while i < n
        invariant
            n == planets@.len(),
            n == old(planets)@.len(),
            i <= n,
            forall|j: int| 0 <= j < n ==> #[trigger] planets@[j].window == old(planets)@[j].window,
            forall|j: int| 0 <= j < i ==> orbit_placed(#[trigger] planets@[j], n as int, j),
        decreases n - i,
    {
        let orbit_index = i / ORBIT_CAPACITY;
        let slot = i % ORBIT_CAPACITY;
        let ring_start = orbit_index * ORBIT_CAPACITY;
        let ring_size = if n - ring_start > ORBIT_CAPACITY {
            ORBIT_CAPACITY
        } else {
            n - ring_start
        };
        let window = planets[i].window;
        planets.set(i, Planet { window, orbit_index, slot, ring_size });
        i += 1;
    }
    assert(planet_windows(planets@) =~= planet_windows(old(planets)@));
}

/// Rings are well formed: every planet's slot lies on its ring, no ring holds
/// more than seven planets, and the rings are filled innermost first.
pub proof fn lemma_assigned_rings_well_formed(planets: Seq<Planet>)
    requires
        orbits_assigned(planets),
    ensures
        forall|i: int|
            0 <= i < planets.len() ==> {
                let p = #[trigger] planets[i];
                &&& 1 <= p.ring_size <= ORBIT_CAPACITY
                &&& p.slot < p.ring_size
            },
        forall|i: int, j: int|
            0 <= i <= j < planets.len() ==> #[trigger] planets[i].orbit_index <= #[trigger] planets[j].orbit_index,
{
    assert forall|i: int| 0 <= i < planets.len() implies {
        let p = #[trigger] planets[i];
        &&& 1 <= p.ring_size <= ORBIT_CAPACITY
        &&& p.slot < p.ring_size
    } by {
        let n = planets.len() as int;
        let q = i / 7;
        assert(q * 7 + i % 7 == i) by (nonlinear_arith)
            requires
                q == i / 7,
                i >= 0,
        ;
    }
    assert forall|i: int, j: int| 0 <= i <= j < planets.len() implies #[trigger] planets[i].orbit_index
        <= #[trigger] planets[j].orbit_index by {
        assert(i / 7 <= j / 7) by (nonlinear_arith)
            requires
                0 <= i <= j,
        ;
    }
}

} // verus!
