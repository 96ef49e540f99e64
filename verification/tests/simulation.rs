use phonon_monte_carlo::config::ConfigError;
use phonon_monte_carlo::data_structures::{DiffuseDistribution, SpecularDistribution, SpecularityModel};
use phonon_monte_carlo::materials::Branch;
use phonon_monte_carlo::phonon::{EnergyAccount, PhononState};
use phonon_monte_carlo::simulate::{set_up_boundary_models, BoundaryModels};
use phonon_monte_carlo::simulate_particle::ParticleQueue;

#[test]
fn boundary_models_from_names() {
    assert_eq!(
        set_up_boundary_models("Soffer", "PHONG", "uniform"),
        Ok(BoundaryModels {
            specularity_model: SpecularityModel::Soffer,
            specular_distribution: SpecularDistribution::Phong,
            diffuse_distribution: DiffuseDistribution::Uniform,
        })
    );
}

#[test]
fn boundary_models_first_unknown_name_reported() {
    assert_eq!(
        set_up_boundary_models("x", "y", "z"),
        Err(ConfigError::UnknownSpecularityModel)
    );
    assert_eq!(
        set_up_boundary_models("constant", "y", "z"),
        Err(ConfigError::UnknownSpecularDistribution)
    );
    assert_eq!(
        set_up_boundary_models("constant", "ideal", "z"),
        Err(ConfigError::UnknownDiffuseDistribution)
    );
}

#[test]
fn energy_accounts_by_state() {
    assert_eq!(PhononState::Absorbed.energy_account(), Some(EnergyAccount::Absorbed));
    assert_eq!(PhononState::Lost.energy_account(), Some(EnergyAccount::Lost));
    assert_eq!(PhononState::Alive.energy_account(), None);
    assert_eq!(PhononState::Downconverted.energy_account(), None);
}

#[test]
fn only_alive_phonons_move() {
    assert!(PhononState::Alive.is_alive());
    assert!(!PhononState::Absorbed.is_alive());
    assert!(!PhononState::Lost.is_alive());
    assert!(!PhononState::Downconverted.is_alive());
}

#[test]
fn branches_are_distinct() {
    assert_ne!(Branch::L, Branch::FT);
    assert_ne!(Branch::FT, Branch::ST);
}

#[test]
fn event_without_downconversion_has_one_track() {
    let mut q = ParticleQueue::new("first");
    assert_eq!(q.next_particle(), Some(("first", 0)));
    q.push_secondaries(None);
    assert_eq!(q.next_particle(), None);
    assert_eq!(q.tracks_started(), 1);
}

#[test]
fn secondaries_processed_last_in_first_out() {
    let mut q = ParticleQueue::new(0);
    assert_eq!(q.next_particle(), Some((0, 0)));
    q.push_secondaries(Some((1, 2)));
    assert_eq!(q.next_particle(), Some((2, 1)));
    q.push_secondaries(Some((3, 4)));
    assert_eq!(q.next_particle(), Some((4, 2)));
    q.push_secondaries(None);
    assert_eq!(q.next_particle(), Some((3, 3)));
    q.push_secondaries(None);
    assert_eq!(q.next_particle(), Some((1, 4)));
    q.push_secondaries(None);
    assert_eq!(q.next_particle(), None);
    // one first phonon and two down-conversions: 1 + 2 * 2 tracks
    assert_eq!(q.tracks_started(), 5);
}

#[test]
fn bridge_hit_loses_the_phonon() {
    assert_eq!(PhononState::Alive.after_wall_hit(true), PhononState::Lost);
    assert_eq!(PhononState::Alive.after_wall_hit(false), PhononState::Alive);
}
