use atomecs_simulations::config::{resolve_configuration, ConfigError, FileOutcome};
use atomecs_simulations::population::{
    build_population, particle_count, PopulationError, Species,
};
use rand_distr::{Distribution, Normal};

#[test]
fn population_has_one_particle_per_draw() {
    let n = particle_count(1000);
    assert_eq!(n, 1000);
    let positions: Vec<[f64; 3]> = (0..n).map(|i| [-0.1299, i as f64, 0.0]).collect();
    let velocities: Vec<[f64; 3]> = (0..n).map(|i| [20.0, 0.0, i as f64]).collect();
    let ps = build_population(n, &positions, &velocities, [0.0; 3], 87, Species::Rubidium87)
        .unwrap();
    assert_eq!(ps.len(), 1000);
    for (i, p) in ps.iter().enumerate() {
        assert_eq!(p.position, positions[i]);
        assert_eq!(p.velocity, velocities[i]);
        assert_eq!(p.force, [0.0; 3]);
        assert_eq!(p.mass_amu, 87);
        assert_eq!(p.species, Species::Rubidium87);
        assert!(p.newly_created);
    }
}

#[test]
fn short_draws_are_refused_not_truncated() {
    let pos = vec![1u8, 2, 3];
    let vel = vec![4u8, 5];
    assert_eq!(
        build_population(3, &pos, &vel, 0, 87, Species::Rubidium87).err(),
        Some(PopulationError::VelocityDraws)
    );
    assert_eq!(
        build_population(4, &pos, &vel, 0, 87, Species::Rubidium87).err(),
        Some(PopulationError::PositionDraws)
    );
    assert_eq!(particle_count(-5), 0);
    assert_eq!(build_population(0, &Vec::<u8>::new(), &Vec::new(), 0, 87, Species::Rubidium87).unwrap().len(), 0);
}

#[test]
fn parsed_file_is_taken_as_is() {
    let parsed = (0.0f64, -12.5f64, 42i32);
    let defaults = (0.0f64, -12.0f64, 5000i32);
    assert_eq!(resolve_configuration(FileOutcome::Parsed(parsed), Some(defaults)), Ok(parsed));
    assert_eq!(resolve_configuration(FileOutcome::Absent, Some(defaults)), Ok(defaults));
    assert_eq!(
        resolve_configuration(FileOutcome::<(f64, f64, i32)>::Malformed, Some(defaults)),
        Err(ConfigError::Malformed)
    );
    assert_eq!(
        resolve_configuration(FileOutcome::<(f64, f64, i32)>::Absent, None),
        Err(ConfigError::Missing)
    );
}

#[test]
fn zero_spread_normal_returns_mean() {
    let dist = Normal::new(20.0, 0.0).unwrap();
    let mut rng = rand::thread_rng();
    for _ in 0..1000 {
        assert_eq!(dist.sample(&mut rng), 20.0);
    }
}
