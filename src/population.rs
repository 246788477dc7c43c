//! The population generator: assembles the simulated particles from the
//! position and velocity draws that the caller made from its random source.
use vstd::prelude::*;

verus! {

/// The atomic species, and with it the cooling transition.
#[derive(Clone, Copy, Debug, PartialEq, Eq, Structural)]
pub enum Species {
    Rubidium87,
}

/// One simulated atom. `V` is the caller's vector type.
#[derive(Clone, Copy, Debug)]
pub struct Particle<V> {
    pub position: V,
    pub velocity: V,
    /// The force accumulator, which the engine clears each step.
    pub force: V,
    pub mass_amu: u64,
    pub species: Species,
    /// The engine runs its first-step initialisation on such particles.
    pub newly_created: bool,
}

#[derive(Clone, Copy, Debug, PartialEq, Eq, Structural)]
pub enum PopulationError {
    /// There is not exactly one position draw per particle.
    PositionDraws,
    /// There is not exactly one velocity draw per particle.
    VelocityDraws,
}

/// The number of particles made for a configured atom number: a negative
/// number makes none.
pub open spec fn particle_count_for(atom_number: i32) -> nat {
    if atom_number < 0 { 0 } else { atom_number as nat }
}

pub fn particle_count(atom_number: i32) -> (r: usize)
    ensures
        r == particle_count_for(atom_number),
{
    if atom_number < 0 { 0 } else { atom_number as usize }
}

/// The particle made from the `i`-th draws.
pub open spec fn particle_from<V>(
    position: V,
    velocity: V,
    zero_force: V,
    mass_amu: u64,
    species: Species,
) -> Particle<V> {
    Particle { position, velocity, force: zero_force, mass_amu, species, newly_created: true }
}

/// Makes `count` particles, the `i`-th at `positions[i]` moving with
/// `velocities[i]`, each with the given mass and species, a cleared force and
/// the newly-created mark. Fails, rather than make fewer or more particles, when
/// the draws do not number exactly `count` each.
pub fn build_population<V: Copy>(
    count: usize,
    positions: &Vec<V>,
    velocities: &Vec<V>,
    zero_force: V,
    mass_amu: u64,
    species: Species,
) -> (r: Result<Vec<Particle<V>>, PopulationError>)
    ensures
        positions@.len() != count ==> r == Err::<Vec<Particle<V>>, PopulationError>(
            PopulationError::PositionDraws,
        ),
        positions@.len() == count && velocities@.len() != count ==> r == Err::<
            Vec<Particle<V>>,
            PopulationError,
        >(PopulationError::VelocityDraws),
        positions@.len() == count && velocities@.len() == count ==> (r matches Ok(ps) && ps@.len()
            == count && forall|i: int|
            0 <= i < count ==> #[trigger] ps@[i] == particle_from(
                positions@[i],
                velocities@[i],
                zero_force,
                mass_amu,
                species,
            )),
{
    if positions.len() != count {
        return Err(PopulationError::PositionDraws);
    }
    if velocities.len() != count {
        return Err(PopulationError::VelocityDraws);
    }
    let mut ps: Vec<Particle<V>> = Vec::new();
    let mut i: usize = 0;
    while i < count
        invariant
            i <= count,
            positions@.len() == count,
            velocities@.len() == count,
            ps@.len() == i,
            forall|k: int|
                0 <= k < i ==> #[trigger] ps@[k] == particle_from(
                    positions@[k],
                    velocities@[k],
                    zero_force,
                    mass_amu,
                    species,
                ),
        decreases count - i,
    {
        let p = Particle {
            position: positions[i],
            velocity: velocities[i],
            force: zero_force,
            mass_amu,
            species,
            newly_created: true,
        };
        ps.push(p);
        i = i + 1;
    }
    Ok(ps)
}

} // verus!
