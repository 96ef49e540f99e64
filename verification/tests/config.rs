use phonon_monte_carlo::config::{
    collect_complete_rows, default_num_workers, find_short_polygon, ConfigError, ParameterSummary,
};

fn valid_summary() -> ParameterSummary {
    ParameterSummary {
        number_of_particles: 1000,
        source_beyond_half_thickness: false,
        outside_wall_points: 4,
        outside_wall_bridge_flags: 4,
        outside_wall_circle_radii: 4,
        absorptivity_out_of_range: false,
        clamps_absorptivity_out_of_range: false,
        specularity_model: "Constant".to_string(),
        p_specular_out_of_range: false,
        roughness_prefactor_negative: false,
        specular_distribution: "PhongRescaled".to_string(),
        diffuse_distribution: "Lambertian".to_string(),
        clamps_top_points: vec![4, 3],
        clamps_bottom_points: vec![5],
        inside_wall_points: vec![],
    }
}

#[test]
fn default_workers_means_all_cores() {
    assert_eq!(default_num_workers(), 0);
}

#[test]
fn valid_configuration_passes() {
    assert_eq!(valid_summary().check_parameter_validity(), Ok(()));
}

#[test]
fn model_names_in_other_case_pass() {
    let mut s = valid_summary();
    s.specularity_model = "SOFFER".to_string();
    s.specular_distribution = "ideal".to_string();
    s.diffuse_distribution = "UniForm".to_string();
    assert_eq!(s.check_parameter_validity(), Ok(()));
}

#[test]
fn zero_particles_rejected() {
    let mut s = valid_summary();
    s.number_of_particles = 0;
    s.source_beyond_half_thickness = true;
    assert_eq!(s.check_parameter_validity(), Err(ConfigError::NoParticles));
}

#[test]
fn source_beyond_half_thickness_rejected() {
    let mut s = valid_summary();
    s.source_beyond_half_thickness = true;
    s.absorptivity_out_of_range = true;
    assert_eq!(s.check_parameter_validity(), Err(ConfigError::SourceBeyondHalfThickness));
}

#[test]
fn bridge_flag_count_mismatch_rejected() {
    let mut s = valid_summary();
    s.outside_wall_bridge_flags = 3;
    s.outside_wall_circle_radii = 2;
    assert_eq!(
        s.check_parameter_validity(),
        Err(ConfigError::BridgeFlagCountMismatch { points: 4, flags: 3 })
    );
}

#[test]
fn circle_radius_count_mismatch_rejected() {
    let mut s = valid_summary();
    s.outside_wall_circle_radii = 5;
    assert_eq!(
        s.check_parameter_validity(),
        Err(ConfigError::CircleRadiusCountMismatch { points: 4, radii: 5 })
    );
}

#[test]
fn absorptivity_out_of_range_rejected() {
    let mut s = valid_summary();
    s.absorptivity_out_of_range = true;
    s.clamps_absorptivity_out_of_range = true;
    assert_eq!(s.check_parameter_validity(), Err(ConfigError::AbsorptivityOutOfRange));
}

#[test]
fn clamps_absorptivity_out_of_range_rejected() {
    let mut s = valid_summary();
    s.clamps_absorptivity_out_of_range = true;
    s.specularity_model = "nonsense".to_string();
    assert_eq!(s.check_parameter_validity(), Err(ConfigError::ClampsAbsorptivityOutOfRange));
}

#[test]
fn unknown_specularity_model_rejected() {
    let mut s = valid_summary();
    s.specularity_model = "Lambertian".to_string();
    s.p_specular_out_of_range = true;
    assert_eq!(s.check_parameter_validity(), Err(ConfigError::UnknownSpecularityModel));
}

#[test]
fn p_specular_out_of_range_rejected() {
    let mut s = valid_summary();
    s.p_specular_out_of_range = true;
    s.roughness_prefactor_negative = true;
    assert_eq!(s.check_parameter_validity(), Err(ConfigError::PSpecularOutOfRange));
}

#[test]
fn negative_roughness_prefactor_rejected() {
    let mut s = valid_summary();
    s.roughness_prefactor_negative = true;
    s.specular_distribution = "mirror".to_string();
    assert_eq!(s.check_parameter_validity(), Err(ConfigError::NegativeRoughnessPrefactor));
}

#[test]
fn unknown_specular_distribution_rejected() {
    let mut s = valid_summary();
    s.specular_distribution = "Constant".to_string();
    s.diffuse_distribution = "Phong".to_string();
    assert_eq!(s.check_parameter_validity(), Err(ConfigError::UnknownSpecularDistribution));
}

#[test]
fn unknown_diffuse_distribution_rejected() {
    let mut s = valid_summary();
    s.diffuse_distribution = "SofferRough".to_string();
    s.outside_wall_points = 2;
    s.outside_wall_bridge_flags = 2;
    s.outside_wall_circle_radii = 2;
    assert_eq!(s.check_parameter_validity(), Err(ConfigError::UnknownDiffuseDistribution));
}

#[test]
fn outside_wall_with_two_points_rejected() {
    let mut s = valid_summary();
    s.outside_wall_points = 2;
    s.outside_wall_bridge_flags = 2;
    s.outside_wall_circle_radii = 2;
    s.clamps_top_points = vec![1];
    assert_eq!(s.check_parameter_validity(), Err(ConfigError::OutsideWallTooFewPoints { points: 2 }));
}

#[test]
fn short_top_clamp_rejected_with_its_index() {
    let mut s = valid_summary();
    s.clamps_top_points = vec![3, 4, 2, 1];
    s.clamps_bottom_points = vec![0];
    assert_eq!(
        s.check_parameter_validity(),
        Err(ConfigError::ClampTopTooFewPoints { polygon: 2, points: 2 })
    );
}

#[test]
fn short_bottom_clamp_rejected_with_its_index() {
    let mut s = valid_summary();
    s.clamps_bottom_points = vec![3, 0];
    s.inside_wall_points = vec![1];
    assert_eq!(
        s.check_parameter_validity(),
        Err(ConfigError::ClampBottomTooFewPoints { polygon: 1, points: 0 })
    );
}

#[test]
fn short_inside_wall_rejected_with_its_index() {
    let mut s = valid_summary();
    s.inside_wall_points = vec![6, 3, 3, 2];
    assert_eq!(
        s.check_parameter_validity(),
        Err(ConfigError::InsideWallTooFewPoints { wall: 3, points: 2 })
    );
}

#[test]
fn first_short_polygon_is_found() {
    assert_eq!(find_short_polygon(&vec![]), None);
    assert_eq!(find_short_polygon(&vec![3, 3, 7]), None);
    assert_eq!(find_short_polygon(&vec![3, 1, 0]), Some(1));
    assert_eq!(find_short_polygon(&vec![2]), Some(0));
}

#[test]
fn rows_with_missing_entries_skipped() {
    let xs = vec![Some(1.0), Some(2.0), None, Some(4.0), Some(5.0)];
    let ys = vec![Some(0.1), None, Some(0.3), Some(0.4), Some(0.5)];
    let zs = vec![Some(-1.0), Some(-2.0), Some(-3.0), Some(-4.0), None];
    let rows = collect_complete_rows(&xs, &ys, &zs);
    assert_eq!(rows, vec![(1.0, 0.1, -1.0), (4.0, 0.4, -4.0)]);
}

#[test]
fn empty_batch_gives_no_rows() {
    let none: Vec<Option<f64>> = vec![];
    assert!(collect_complete_rows(&none, &none, &none).is_empty());
}
