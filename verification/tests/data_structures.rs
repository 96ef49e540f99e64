use phonon_monte_carlo::data_structures::{
    DiffuseDistribution, ScatteringLocation, SpecularDistribution, SpecularityModel,
};

#[test]
fn scattering_location_names() {
    assert_eq!(ScatteringLocation::Wall.as_str(), "Wall");
    assert_eq!(ScatteringLocation::Top.as_str(), "Top");
    assert_eq!(ScatteringLocation::Bottom.as_str(), "Bottom");
}

#[test]
fn specularity_model_names_ignore_case() {
    assert_eq!(SpecularityModel::from_name("Constant"), Some(SpecularityModel::Constant));
    assert_eq!(SpecularityModel::from_name("CONSTANT"), Some(SpecularityModel::Constant));
    assert_eq!(SpecularityModel::from_name("soffer"), Some(SpecularityModel::Soffer));
    assert_eq!(SpecularityModel::from_name("SoFfEr"), Some(SpecularityModel::Soffer));
    assert_eq!(SpecularityModel::from_name("Sofer"), None);
    assert_eq!(SpecularityModel::from_name(""), None);
    assert_eq!(SpecularityModel::from_name(" constant"), None);
}

#[test]
fn specularity_model_lowercase_names_are_exact() {
    assert_eq!(SpecularityModel::from_lowercase_name("constant"), Some(SpecularityModel::Constant));
    assert_eq!(SpecularityModel::from_lowercase_name("soffer"), Some(SpecularityModel::Soffer));
    assert_eq!(SpecularityModel::from_lowercase_name("Constant"), None);
}

#[test]
fn specular_distribution_names_ignore_case() {
    assert_eq!(SpecularDistribution::from_name("Ideal"), Some(SpecularDistribution::Ideal));
    assert_eq!(SpecularDistribution::from_name("PHONG"), Some(SpecularDistribution::Phong));
    assert_eq!(
        SpecularDistribution::from_name("PhongRescaled"),
        Some(SpecularDistribution::PhongRescaled)
    );
    assert_eq!(SpecularDistribution::from_name("Phong Rescaled"), None);
    assert_eq!(
        SpecularDistribution::from_lowercase_name("phongrescaled"),
        Some(SpecularDistribution::PhongRescaled)
    );
    assert_eq!(SpecularDistribution::from_lowercase_name("Ideal"), None);
}

#[test]
fn diffuse_distribution_names_ignore_case() {
    assert_eq!(DiffuseDistribution::from_name("Lambertian"), Some(DiffuseDistribution::Lambertian));
    assert_eq!(DiffuseDistribution::from_name("UNIFORM"), Some(DiffuseDistribution::Uniform));
    assert_eq!(DiffuseDistribution::from_name("SofferRough"), None);
    assert_eq!(
        DiffuseDistribution::from_lowercase_name("lambertian"),
        Some(DiffuseDistribution::Lambertian)
    );
    assert_eq!(DiffuseDistribution::from_lowercase_name("Uniform"), None);
}
