//! Set-up of a simulation: the sizes of the lookup tables for direction sampling
//! and the scattering models at the top and bottom surfaces.
use crate::config::{ConfigError, ParameterSummary};
use crate::data_structures::{
    diffuse_distribution_named, specular_distribution_named, specularity_model_named,
    unicode_lowercase, DiffuseDistribution, SpecularDistribution, SpecularityModel,
};
use vstd::prelude::*;

verus! {

/// Size of the sine lookup table. A power of 2, so that a bitwise AND with
/// `SIN_TABLE_SIZE - 1` takes a random number modulo the size.
pub const SIN_TABLE_SIZE: usize = 2048;

/// Size of the square root lookup table. A power of 2, as `SIN_TABLE_SIZE`.
pub const SQRT_TABLE_SIZE: usize = 8192;

/// The models that govern scattering at the top and bottom surfaces.
#[derive(Debug, Clone, Copy, PartialEq, Eq, Structural)]
pub struct BoundaryModels {
    pub specularity_model: SpecularityModel,
    pub specular_distribution: SpecularDistribution,
    pub diffuse_distribution: DiffuseDistribution,
}

/// The models that three names select, in any letter case; the first name that selects
/// nothing gives the error.
pub open spec fn boundary_models_named(
    specularity_model: Seq<char>,
    specular_distribution: Seq<char>,
    diffuse_distribution: Seq<char>,
) -> Result<BoundaryModels, ConfigError> {
    match specularity_model_named(unicode_lowercase(specularity_model)) {
        None => Err(ConfigError::UnknownSpecularityModel),
        Some(s) => match specular_distribution_named(unicode_lowercase(specular_distribution)) {
            None => Err(ConfigError::UnknownSpecularDistribution),
            Some(p) => match diffuse_distribution_named(unicode_lowercase(diffuse_distribution)) {
                None => Err(ConfigError::UnknownDiffuseDistribution),
                Some(d) => Ok(
                    BoundaryModels {
                        specularity_model: s,
                        specular_distribution: p,
                        diffuse_distribution: d,
                    },
                ),
            },
        },
    }
}

/// Setting up succeeds exactly when each of the three names selects a model, and then
/// each field holds the model that its own name selects; an unknown specularity model
/// name is reported first.
pub proof fn lemma_boundary_models_are_the_named_models(
    specularity_model: Seq<char>,
    specular_distribution: Seq<char>,
    diffuse_distribution: Seq<char>,
)
    ensures
        ({
            let r = boundary_models_named(specularity_model, specular_distribution, diffuse_distribution);
            let s = specularity_model_named(unicode_lowercase(specularity_model));
            let p = specular_distribution_named(unicode_lowercase(specular_distribution));
            let d = diffuse_distribution_named(unicode_lowercase(diffuse_distribution));
            &&& r is Ok <==> s is Some && p is Some && d is Some
            &&& r matches Ok(m) ==> Some(m.specularity_model) == s && Some(m.specular_distribution)
                == p && Some(m.diffuse_distribution) == d
            &&& s is None ==> r == Err::<BoundaryModels, ConfigError>(
                ConfigError::UnknownSpecularityModel,
            )
            &&& s is Some && p is None ==> r == Err::<BoundaryModels, ConfigError>(
                ConfigError::UnknownSpecularDistribution,
            )
            &&& s is Some && p is Some && d is None ==> r == Err::<BoundaryModels, ConfigError>(
                ConfigError::UnknownDiffuseDistribution,
            )
        }),
{
}

/// Selects the top and bottom scattering models from the names in the configuration.
pub fn set_up_boundary_models(
    specularity_model: &str,
    specular_distribution: &str,
    diffuse_distribution: &str,
) -> (models: Result<BoundaryModels, ConfigError>)
    ensures
        models == boundary_models_named(
            specularity_model@,
            specular_distribution@,
            diffuse_distribution@,
        ),        models is Ok <==> specularity_model_named(unicode_lowercase(specularity_model@)) is Some
            && specular_distribution_named(unicode_lowercase(specular_distribution@)) is Some
            && diffuse_distribution_named(unicode_lowercase(diffuse_distribution@)) is Some,
        models matches Ok(m) ==> {
            &&& Some(m.specularity_model) == specularity_model_named(
                unicode_lowercase(specularity_model@),
            )
            &&& Some(m.specular_distribution) == specular_distribution_named(
                unicode_lowercase(specular_distribution@),
            )
            &&& Some(m.diffuse_distribution) == diffuse_distribution_named(
                unicode_lowercase(diffuse_distribution@),
            )
        },
        models == Err::<BoundaryModels, ConfigError>(ConfigError::UnknownSpecularityModel)
            <==> specularity_model_named(unicode_lowercase(specularity_model@)) is None,
{
    let s = match SpecularityModel::from_name(specularity_model) {
        Some(s) => s,
        None => return Err(ConfigError::UnknownSpecularityModel),
    };
    let p = match SpecularDistribution::from_name(specular_distribution) {
        Some(p) => p,
        None => return Err(ConfigError::UnknownSpecularDistribution),
    };
    let d = match DiffuseDistribution::from_name(diffuse_distribution) {
        Some(d) => d,
        None => return Err(ConfigError::UnknownDiffuseDistribution),
    };
    proof {
        lemma_boundary_models_are_the_named_models(
            specularity_model@,
            specular_distribution@,
            diffuse_distribution@,
        );
    }
    Ok(BoundaryModels { specularity_model: s, specular_distribution: p, diffuse_distribution: d })
}

/// A configuration that passes the validity check names known models: setting up the
/// top and bottom scattering models from it cannot fail.
pub proof fn lemma_valid_configuration_sets_up_models(summary: ParameterSummary)
    requires
        summary.verdict() is Ok,
    ensures
        boundary_models_named(
            summary.specularity_model@,
            summary.specular_distribution@,
            summary.diffuse_distribution@,
        ) is Ok,
{
}

} // verus!
