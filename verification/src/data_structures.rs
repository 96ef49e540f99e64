//! Data structures used throughout the crate: scattering locations and the
//! models that govern scattering at the top and bottom surfaces, together
//! with the names under which a configuration selects them.
use vstd::prelude::*;
use vstd::string::StringExecFns;

verus! {

/// Contains information about the kind of location where a particle scattered.
#[derive(Debug, Clone, Copy, PartialEq, Eq, Structural)]
pub enum ScatteringLocation {
    Wall,
    Top,
    Bottom,
}

/// The name under which a scattering location is written to the output file.
pub open spec fn location_name(location: ScatteringLocation) -> Seq<char> {
    match location {
        ScatteringLocation::Wall => "Wall"@,
        ScatteringLocation::Top => "Top"@,
        ScatteringLocation::Bottom => "Bottom"@,
    }
}

impl ScatteringLocation {
    pub fn as_str(&self) -> (name: &'static str)
        ensures
            name@ == location_name(*self),
    {
        match self {
            ScatteringLocation::Wall => "Wall",
            ScatteringLocation::Top => "Top",
            ScatteringLocation::Bottom => "Bottom",
        }
    }
}

/// Model for specularity (probability of specular reflection).
#[derive(Debug, Clone, Copy, PartialEq, Eq, Structural)]
pub enum SpecularityModel {
    Constant,
    Soffer,
}

/// Type of diffuse distribution for top and bottom scattering.
#[derive(Debug, Clone, Copy, PartialEq, Eq, Structural)]
pub enum DiffuseDistribution {
    Lambertian,
    Uniform,
}

/// Distribution for specular top and bottom scattering.
#[derive(Debug, Clone, Copy, PartialEq, Eq, Structural)]
pub enum SpecularDistribution {
    Ideal,
    Phong,
    PhongRescaled,
}

/// What `str::to_lowercase` returns for a string with these characters:
/// its lowercase equivalent by the Unicode property Lowercase.
pub uninterp spec fn unicode_lowercase(s: Seq<char>) -> Seq<char>;

/// Calls `str::to_lowercase`. Claimed: the result's characters are the named
/// lowercase mapping of the argument's characters, and depend on them alone.
#[verifier::external_body]
pub(crate) fn to_lowercase(s: &str) -> (lower: String)
    ensures
        lower@ == unicode_lowercase(s@),
{
    s.to_lowercase()
}

/// Whether the characters of `s` are those of the literal `lit`.
pub(crate) fn equals_literal(s: &str, lit: &str) -> (same: bool)
    ensures
        same == (s@ == lit@),
{
    let a = String::from_str(s);
    let b = String::from_str(lit);
    a == b
}

/// The specularity model that a lowercase name selects, if any.
pub open spec fn specularity_model_named(lower: Seq<char>) -> Option<SpecularityModel> {
    if lower == "constant"@ {
        Some(SpecularityModel::Constant)
    } else if lower == "soffer"@ {
        Some(SpecularityModel::Soffer)
    } else {
        None
    }
}

/// The specular distribution that a lowercase name selects, if any.
pub open spec fn specular_distribution_named(lower: Seq<char>) -> Option<SpecularDistribution> {
    if lower == "ideal"@ {
        Some(SpecularDistribution::Ideal)
    } else if lower == "phong"@ {
        Some(SpecularDistribution::Phong)
    } else if lower == "phongrescaled"@ {
        Some(SpecularDistribution::PhongRescaled)
    } else {
        None
    }
}

/// The diffuse distribution that a lowercase name selects, if any.
pub open spec fn diffuse_distribution_named(lower: Seq<char>) -> Option<DiffuseDistribution> {
    if lower == "lambertian"@ {
        Some(DiffuseDistribution::Lambertian)
    } else if lower == "uniform"@ {
        Some(DiffuseDistribution::Uniform)
    } else {
        None
    }
}

/// The lowercase name of a specularity model.
pub open spec fn specularity_model_keyword(model: SpecularityModel) -> Seq<char> {
    match model {
        SpecularityModel::Constant => "constant"@,
        SpecularityModel::Soffer => "soffer"@,
    }
}

/// The lowercase name of a specular distribution.
pub open spec fn specular_distribution_keyword(distribution: SpecularDistribution) -> Seq<char> {
    match distribution {
        SpecularDistribution::Ideal => "ideal"@,
        SpecularDistribution::Phong => "phong"@,
        SpecularDistribution::PhongRescaled => "phongrescaled"@,
    }
}

/// The lowercase name of a diffuse distribution.
pub open spec fn diffuse_distribution_keyword(distribution: DiffuseDistribution) -> Seq<char> {
    match distribution {
        DiffuseDistribution::Lambertian => "lambertian"@,
        DiffuseDistribution::Uniform => "uniform"@,
    }
}

/// A lowercase name selects a model exactly when it is that model's name, so each model
/// has one name and each name at most one model.
pub proof fn lemma_names_select_their_models(lower: Seq<char>)
    ensures
        forall|m: SpecularityModel|
            specularity_model_named(lower) == Some(m) <==> lower == specularity_model_keyword(m),
        forall|d: SpecularDistribution|
            specular_distribution_named(lower) == Some(d) <==> lower == specular_distribution_keyword(
                d,
            ),
        forall|d: DiffuseDistribution|
            diffuse_distribution_named(lower) == Some(d) <==> lower == diffuse_distribution_keyword(
                d,
            ),
{
    reveal_strlit("constant");
    reveal_strlit("soffer");
    reveal_strlit("ideal");
    reveal_strlit("phong");
    reveal_strlit("phongrescaled");
    reveal_strlit("lambertian");
    reveal_strlit("uniform");
    assert("constant"@ != "soffer"@) by {
        assert("constant"@[0] != "soffer"@[0]);
    }
    assert("ideal"@ != "phong"@) by {
        assert("ideal"@[0] != "phong"@[0]);
    }
    assert("ideal"@ != "phongrescaled"@) by {
        assert("ideal"@[0] != "phongrescaled"@[0]);
    }
    assert("phong"@ != "phongrescaled"@) by {
        assert("phong"@.len() != "phongrescaled"@.len());
    }
    assert("lambertian"@ != "uniform"@) by {
        assert("lambertian"@[0] != "uniform"@[0]);
    }
}

impl SpecularityModel {
    /// Selects the model from a name that is already in lowercase.
    pub fn from_lowercase_name(lower: &str) -> (model: Option<Self>)
        ensures
            model == specularity_model_named(lower@),
            model matches Some(m) ==> lower@ == specularity_model_keyword(m),
            model is None ==> forall|m: SpecularityModel| lower@ != specularity_model_keyword(m),
    {
        proof {
            lemma_names_select_their_models(lower@);
        }
        if equals_literal(lower, "constant") {
            Some(SpecularityModel::Constant)
        } else if equals_literal(lower, "soffer") {
            Some(SpecularityModel::Soffer)
        } else {
            None
        }
    }

    /// Selects the model from its name in any letter case ("Constant" or "Soffer").
    pub fn from_name(name: &str) -> (model: Option<Self>)
        ensures
            model == specularity_model_named(unicode_lowercase(name@)),
    {
        let lower = to_lowercase(name);
        Self::from_lowercase_name(lower.as_str())
    }
}

impl SpecularDistribution {
    /// Selects the distribution from a name that is already in lowercase.
    pub fn from_lowercase_name(lower: &str) -> (distribution: Option<Self>)
        ensures
            distribution == specular_distribution_named(lower@),
            distribution matches Some(d) ==> lower@ == specular_distribution_keyword(d),
            distribution is None ==> forall|d: SpecularDistribution|
                lower@ != specular_distribution_keyword(d),
    {
        proof {
            lemma_names_select_their_models(lower@);
        }
        if equals_literal(lower, "ideal") {
            Some(SpecularDistribution::Ideal)
        } else if equals_literal(lower, "phong") {
            Some(SpecularDistribution::Phong)
        } else if equals_literal(lower, "phongrescaled") {
            Some(SpecularDistribution::PhongRescaled)
        } else {
            None
        }
    }

    /// Selects the distribution from its name in any letter case
    /// ("Ideal", "Phong" or "PhongRescaled").
    pub fn from_name(name: &str) -> (distribution: Option<Self>)
        ensures
            distribution == specular_distribution_named(unicode_lowercase(name@)),
    {
        let lower = to_lowercase(name);
        Self::from_lowercase_name(lower.as_str())
    }
}

impl DiffuseDistribution {
    /// Selects the distribution from a name that is already in lowercase.
    pub fn from_lowercase_name(lower: &str) -> (distribution: Option<Self>)
        ensures
            distribution == diffuse_distribution_named(lower@),
            distribution matches Some(d) ==> lower@ == diffuse_distribution_keyword(d),
            distribution is None ==> forall|d: DiffuseDistribution|
                lower@ != diffuse_distribution_keyword(d),
    {
        proof {
            lemma_names_select_their_models(lower@);
        }
        if equals_literal(lower, "lambertian") {
            Some(DiffuseDistribution::Lambertian)
        } else if equals_literal(lower, "uniform") {
            Some(DiffuseDistribution::Uniform)
        } else {
            None
        }
    }

    /// Selects the distribution from its name in any letter case ("Lambertian" or "Uniform").
    pub fn from_name(name: &str) -> (distribution: Option<Self>)
        ensures
            distribution == diffuse_distribution_named(unicode_lowercase(name@)),
    {
        let lower = to_lowercase(name);
        Self::from_lowercase_name(lower.as_str())
    }
}

} // verus!
