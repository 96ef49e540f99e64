//! Checks of the simulation configuration and the rows of a particle source table.
//!
//! The configuration itself is read from a TOML file around this library. What the
//! checks here read of it is handed over as plain values: counts, names, and the
//! outcome of each range test on a physical quantity.
use crate::data_structures::{
    diffuse_distribution_named, specular_distribution_named, specularity_model_named,
    unicode_lowercase, DiffuseDistribution, SpecularDistribution, SpecularityModel,
};
use vstd::prelude::*;

verus! {

/// Number of worker threads when the configuration names none: 0 stands for all
/// available CPU cores.
pub fn default_num_workers() -> (workers: usize)
    ensures
        workers == 0,
{
    0
}

/// Fewest points that a polygon of the configuration may have.
pub const MIN_POLYGON_POINTS: usize = 3;

/// A configuration error, with the counts that it concerns.
#[derive(Debug, Clone, Copy, PartialEq, Eq, Structural)]
pub enum ConfigError {
    /// `number_of_particles` is 0.
    NoParticles,
    /// The particle source lies farther than half the thickness from the mid plane.
    SourceBeyondHalfThickness,
    /// The outside wall has a different number of points than of bridge flags.
    BridgeFlagCountMismatch { points: usize, flags: usize },
    /// The outside wall has a different number of points than of circle radii.
    CircleRadiusCountMismatch { points: usize, radii: usize },
    /// `absorptivity` lies outside 0.0 to 1.0.
    AbsorptivityOutOfRange,
    /// `clamps_absorptivity` lies outside 0.0 to 1.0.
    ClampsAbsorptivityOutOfRange,
    /// `specularity_model` is neither "Constant" nor "Soffer".
    UnknownSpecularityModel,
    /// `p_specular` lies outside 0.0 to 1.0.
    PSpecularOutOfRange,
    /// `specularity_roughness_prefactor` is below 0.0.
    NegativeRoughnessPrefactor,
    /// `specular_distribution` is none of "Ideal", "Phong", "PhongRescaled".
    UnknownSpecularDistribution,
    /// `diffuse_distribution` is neither "Lambertian" nor "Uniform".
    UnknownDiffuseDistribution,
    /// The outside wall has fewer than 3 points.
    OutsideWallTooFewPoints { points: usize },
    /// A top clamp polygon has fewer than 3 points.
    ClampTopTooFewPoints { polygon: usize, points: usize },
    /// A bottom clamp polygon has fewer than 3 points.
    ClampBottomTooFewPoints { polygon: usize, points: usize },
    /// An inside wall has fewer than 3 points.
    InsideWallTooFewPoints { wall: usize, points: usize },
}

/// What the validity check reads of a configuration.
///
/// Each `..._out_of_range`, `..._negative` and `..._beyond_...` flag is the outcome of
/// the comparison on the physical quantity that the field names:
/// `|z| > thickness / 2`, `value < 0.0 || value > 1.0`, `value < 0.0`.
pub struct ParameterSummary {
    pub number_of_particles: usize,
    pub source_beyond_half_thickness: bool,
    pub outside_wall_points: usize,
    pub outside_wall_bridge_flags: usize,
    pub outside_wall_circle_radii: usize,
    pub absorptivity_out_of_range: bool,
    pub clamps_absorptivity_out_of_range: bool,
    pub specularity_model: String,
    pub p_specular_out_of_range: bool,
    pub roughness_prefactor_negative: bool,
    pub specular_distribution: String,
    pub diffuse_distribution: String,
    /// Number of points of each top clamp polygon.
    pub clamps_top_points: Vec<usize>,
    /// Number of points of each bottom clamp polygon.
    pub clamps_bottom_points: Vec<usize>,
    /// Number of points of each inside wall.
    pub inside_wall_points: Vec<usize>,
}

/// `i` is the first position of `sizes` that holds fewer than 3 points.
pub open spec fn is_first_short(sizes: Seq<usize>, i: int) -> bool {
    &&& 0 <= i < sizes.len()
    &&& sizes[i] < MIN_POLYGON_POINTS
    &&& forall|j: int| 0 <= j < i ==> sizes[j] >= MIN_POLYGON_POINTS
}

/// The first position of `sizes` that holds fewer than 3 points, if there is one.
pub open spec fn first_short(sizes: Seq<usize>) -> Option<int> {
    if exists|i: int| is_first_short(sizes, i) {
        Some(choose|i: int| is_first_short(sizes, i))
    } else {
        None
    }
}

/// At most one position is the first short one.
pub proof fn lemma_first_short_unique(sizes: Seq<usize>, i: int, k: int)
    requires
        is_first_short(sizes, i),
        is_first_short(sizes, k),
    ensures
        i == k,
{
    if i < k {
        assert(sizes[i] >= MIN_POLYGON_POINTS);
    } else if k < i {
        assert(sizes[k] >= MIN_POLYGON_POINTS);
    }
}

/// Finds the first polygon with fewer than 3 points.
pub fn find_short_polygon(sizes: &Vec<usize>) -> (found: Option<usize>)
    ensures
        match found {
            Some(i) => first_short(sizes@) == Some(i as int),
            None => first_short(sizes@) is None,
        },
        found is None <==> forall|i: int| 0 <= i < sizes.len() ==> sizes[i] >= MIN_POLYGON_POINTS,
{
    let mut i: usize = 0;
    while i < sizes.len()
        invariant
            i <= sizes.len(),
            forall|j: int| 0 <= j < i ==> sizes[j] >= MIN_POLYGON_POINTS,
        decreases sizes.len() - i,
    {
        if sizes[i] < MIN_POLYGON_POINTS {
            assert(is_first_short(sizes@, i as int));
            proof {
                let c = choose|k: int| is_first_short(sizes@, k);
                lemma_first_short_unique(sizes@, i as int, c);
            }
            return Some(i);
        }
        i += 1;
    }
    assert(!exists|k: int| is_first_short(sizes@, k));
    None
}

/// Every polygon size in `sizes` is at least 3 points.
pub open spec fn all_polygons_large_enough(sizes: Seq<usize>) -> bool {
    forall|i: int| 0 <= i < sizes.len() ==> sizes[i] >= MIN_POLYGON_POINTS
}

/// Every requirement on a configuration holds.
pub open spec fn passes_every_check(p: &ParameterSummary) -> bool {
    &&& p.number_of_particles > 0
    &&& !p.source_beyond_half_thickness
    &&& p.outside_wall_points == p.outside_wall_bridge_flags
    &&& p.outside_wall_points == p.outside_wall_circle_radii
    &&& !p.absorptivity_out_of_range
    &&& !p.clamps_absorptivity_out_of_range
    &&& specularity_model_named(unicode_lowercase(p.specularity_model@)) is Some
    &&& !p.p_specular_out_of_range
    &&& !p.roughness_prefactor_negative
    &&& specular_distribution_named(unicode_lowercase(p.specular_distribution@)) is Some
    &&& diffuse_distribution_named(unicode_lowercase(p.diffuse_distribution@)) is Some
    &&& p.outside_wall_points >= MIN_POLYGON_POINTS
    &&& all_polygons_large_enough(p.clamps_top_points@)
    &&& all_polygons_large_enough(p.clamps_bottom_points@)
    &&& all_polygons_large_enough(p.inside_wall_points@)
}

/// The first short polygon, where there is one, has fewer than 3 points and every one
/// before it has at least 3; there is none exactly when all are large enough.
pub proof fn lemma_first_short_polygon(sizes: Seq<usize>)
    ensures
        first_short(sizes) is None <==> all_polygons_large_enough(sizes),
        first_short(sizes) matches Some(i) ==> 0 <= i < sizes.len() && sizes[i] < MIN_POLYGON_POINTS
            && forall|j: int| 0 <= j < i ==> sizes[j] >= MIN_POLYGON_POINTS,
{
    if !all_polygons_large_enough(sizes) {
        let w = choose|i: int| 0 <= i < sizes.len() && sizes[i] < MIN_POLYGON_POINTS;
        lemma_short_has_first(sizes, w);
    }
    if exists|i: int| is_first_short(sizes, i) {
        let c = choose|i: int| is_first_short(sizes, i);
        assert(is_first_short(sizes, c));
    }
}

proof fn lemma_short_has_first(sizes: Seq<usize>, w: int)
    requires
        0 <= w < sizes.len(),
        sizes[w] < MIN_POLYGON_POINTS,
    ensures
        exists|i: int| is_first_short(sizes, i),
    decreases w,
{
    if forall|j: int| 0 <= j < w ==> sizes[j] >= MIN_POLYGON_POINTS {
        assert(is_first_short(sizes, w));
    } else {
        let v = choose|j: int| 0 <= j < w && sizes[j] < MIN_POLYGON_POINTS;
        lemma_short_has_first(sizes, v);
    }
}

/// A configuration is accepted exactly when every requirement holds, and each error
/// names a requirement that fails, with the counts it concerns.
pub proof fn lemma_verdict_names_a_failed_check(p: &ParameterSummary)
    ensures
        p.verdict() is Ok <==> passes_every_check(p),
        p.verdict() == Err::<(), ConfigError>(ConfigError::NoParticles) <==> p.number_of_particles == 0,
        p.verdict() == Err::<(), ConfigError>(ConfigError::SourceBeyondHalfThickness)
            ==> p.source_beyond_half_thickness,
        p.verdict() matches Err(ConfigError::BridgeFlagCountMismatch { points, flags }) ==> points
            == p.outside_wall_points && flags == p.outside_wall_bridge_flags && points != flags,
        p.verdict() matches Err(ConfigError::CircleRadiusCountMismatch { points, radii }) ==> points
            == p.outside_wall_points && radii == p.outside_wall_circle_radii && points != radii,
        p.verdict() == Err::<(), ConfigError>(ConfigError::AbsorptivityOutOfRange)
            ==> p.absorptivity_out_of_range,
        p.verdict() == Err::<(), ConfigError>(ConfigError::ClampsAbsorptivityOutOfRange)
            ==> p.clamps_absorptivity_out_of_range,
        p.verdict() == Err::<(), ConfigError>(ConfigError::UnknownSpecularityModel)
            ==> specularity_model_named(unicode_lowercase(p.specularity_model@)) is None,
        p.verdict() == Err::<(), ConfigError>(ConfigError::PSpecularOutOfRange)
            ==> p.p_specular_out_of_range,
        p.verdict() == Err::<(), ConfigError>(ConfigError::NegativeRoughnessPrefactor)
            ==> p.roughness_prefactor_negative,
        p.verdict() == Err::<(), ConfigError>(ConfigError::UnknownSpecularDistribution)
            ==> specular_distribution_named(unicode_lowercase(p.specular_distribution@)) is None,
        p.verdict() == Err::<(), ConfigError>(ConfigError::UnknownDiffuseDistribution)
            ==> diffuse_distribution_named(unicode_lowercase(p.diffuse_distribution@)) is None,
        p.verdict() matches Err(ConfigError::OutsideWallTooFewPoints { points }) ==> points
            == p.outside_wall_points && points < MIN_POLYGON_POINTS,
        p.verdict() matches Err(ConfigError::ClampTopTooFewPoints { polygon, points }) ==> polygon
            < p.clamps_top_points.len() && points == p.clamps_top_points@[polygon as int] && points
            < MIN_POLYGON_POINTS,
        p.verdict() matches Err(ConfigError::ClampBottomTooFewPoints { polygon, points }) ==> polygon
            < p.clamps_bottom_points.len() && points == p.clamps_bottom_points@[polygon as int]
            && points < MIN_POLYGON_POINTS,
        p.verdict() matches Err(ConfigError::InsideWallTooFewPoints { wall, points }) ==> wall
            < p.inside_wall_points.len() && points == p.inside_wall_points@[wall as int] && points
            < MIN_POLYGON_POINTS,
{
    lemma_first_short_polygon(p.clamps_top_points@);
    lemma_first_short_polygon(p.clamps_bottom_points@);
    lemma_first_short_polygon(p.inside_wall_points@);
    if let Some(i) = first_short(p.clamps_top_points@) {
        assert(i < p.clamps_top_points.len());
        assert(i as usize as int == i);
    }
    if let Some(i) = first_short(p.clamps_bottom_points@) {
        assert(i < p.clamps_bottom_points.len());
        assert(i as usize as int == i);
    }
    if let Some(i) = first_short(p.inside_wall_points@) {
        assert(i < p.inside_wall_points.len());
        assert(i as usize as int == i);
    }
}

impl ParameterSummary {
    /// The verdict of the validity check: the first check in the order below that
    /// fails gives the error, and `Ok` comes when none fails.
    pub open spec fn verdict(&self) -> Result<(), ConfigError> {
        if self.number_of_particles == 0 {
            Err(ConfigError::NoParticles)
        } else if self.source_beyond_half_thickness {
            Err(ConfigError::SourceBeyondHalfThickness)
        } else if self.outside_wall_points != self.outside_wall_bridge_flags {
            Err(
                ConfigError::BridgeFlagCountMismatch {
                    points: self.outside_wall_points,
                    flags: self.outside_wall_bridge_flags,
                },
            )
        } else if self.outside_wall_points != self.outside_wall_circle_radii {
            Err(
                ConfigError::CircleRadiusCountMismatch {
                    points: self.outside_wall_points,
                    radii: self.outside_wall_circle_radii,
                },
            )
        } else if self.absorptivity_out_of_range {
            Err(ConfigError::AbsorptivityOutOfRange)
        } else if self.clamps_absorptivity_out_of_range {
            Err(ConfigError::ClampsAbsorptivityOutOfRange)
        } else if specularity_model_named(unicode_lowercase(self.specularity_model@)) is None {
            Err(ConfigError::UnknownSpecularityModel)
        } else if self.p_specular_out_of_range {
            Err(ConfigError::PSpecularOutOfRange)
        } else if self.roughness_prefactor_negative {
            Err(ConfigError::NegativeRoughnessPrefactor)
        } else if specular_distribution_named(unicode_lowercase(self.specular_distribution@)) is None {
            Err(ConfigError::UnknownSpecularDistribution)
        } else if diffuse_distribution_named(unicode_lowercase(self.diffuse_distribution@)) is None {
            Err(ConfigError::UnknownDiffuseDistribution)
        } else if self.outside_wall_points < MIN_POLYGON_POINTS {
            Err(ConfigError::OutsideWallTooFewPoints { points: self.outside_wall_points })
        } else if let Some(i) = first_short(self.clamps_top_points@) {
            Err(
                ConfigError::ClampTopTooFewPoints {
                    polygon: i as usize,
                    points: self.clamps_top_points@[i],
                },
            )
        } else if let Some(i) = first_short(self.clamps_bottom_points@) {
            Err(
                ConfigError::ClampBottomTooFewPoints {
                    polygon: i as usize,
                    points: self.clamps_bottom_points@[i],
                },
            )
        } else if let Some(i) = first_short(self.inside_wall_points@) {
            Err(ConfigError::InsideWallTooFewPoints { wall: i as usize, points: self.inside_wall_points@[i] })
        } else {
            Ok(())
        }
    }

    /// Check validity of the fields provided by the user.
    pub fn check_parameter_validity(&self) -> (verdict: Result<(), ConfigError>)
        ensures
            verdict == self.verdict(),
            verdict is Ok <==> passes_every_check(self),
    {
        proof {
            lemma_verdict_names_a_failed_check(self);
        }
        if self.number_of_particles == 0 {
            return Err(ConfigError::NoParticles);
        }
        if self.source_beyond_half_thickness {
            return Err(ConfigError::SourceBeyondHalfThickness);
        }
        if self.outside_wall_points != self.outside_wall_bridge_flags {
            return Err(
                ConfigError::BridgeFlagCountMismatch {
                    points: self.outside_wall_points,
                    flags: self.outside_wall_bridge_flags,
                },
            );
        }
        if self.outside_wall_points != self.outside_wall_circle_radii {
            return Err(
                ConfigError::CircleRadiusCountMismatch {
                    points: self.outside_wall_points,
                    radii: self.outside_wall_circle_radii,
                },
            );
        }
        if self.absorptivity_out_of_range {
            return Err(ConfigError::AbsorptivityOutOfRange);
        }
        if self.clamps_absorptivity_out_of_range {
            return Err(ConfigError::ClampsAbsorptivityOutOfRange);
        }
        if SpecularityModel::from_name(self.specularity_model.as_str()).is_none() {
            return Err(ConfigError::UnknownSpecularityModel);
        }
        if self.p_specular_out_of_range {
            return Err(ConfigError::PSpecularOutOfRange);
        }
        if self.roughness_prefactor_negative {
            return Err(ConfigError::NegativeRoughnessPrefactor);
        }
        if SpecularDistribution::from_name(self.specular_distribution.as_str()).is_none() {
            return Err(ConfigError::UnknownSpecularDistribution);
        }
        if DiffuseDistribution::from_name(self.diffuse_distribution.as_str()).is_none() {
            return Err(ConfigError::UnknownDiffuseDistribution);
        }
        if self.outside_wall_points < MIN_POLYGON_POINTS {
            return Err(ConfigError::OutsideWallTooFewPoints { points: self.outside_wall_points });
        }
        if let Some(i) = find_short_polygon(&self.clamps_top_points) {
            return Err(
                ConfigError::ClampTopTooFewPoints { polygon: i, points: self.clamps_top_points[i] },
            );
        }
        if let Some(i) = find_short_polygon(&self.clamps_bottom_points) {
            return Err(
                ConfigError::ClampBottomTooFewPoints {
                    polygon: i,
                    points: self.clamps_bottom_points[i],
                },
            );
        }
        if let Some(i) = find_short_polygon(&self.inside_wall_points) {
            return Err(
                ConfigError::InsideWallTooFewPoints { wall: i, points: self.inside_wall_points[i] },
            );
        }
        Ok(())
    }
}

/// The rows of three columns of a source table in which no entry is missing, in order.
pub open spec fn complete_rows<T>(xs: Seq<Option<T>>, ys: Seq<Option<T>>, zs: Seq<Option<T>>) -> Seq<
    (T, T, T),
>
    decreases xs.len(),
{
    if xs.len() == 0 {
        seq![]
    } else {
        let before = complete_rows(xs.drop_last(), ys.drop_last(), zs.drop_last());
        match (xs.last(), ys.last(), zs.last()) {
            (Some(x), Some(y), Some(z)) => before.push((x, y, z)),
            _ => before,
        }
    }
}

/// Row `i` of the three columns has all three coordinates.
pub open spec fn row_is_complete<T>(
    xs: Seq<Option<T>>,
    ys: Seq<Option<T>>,
    zs: Seq<Option<T>>,
    i: int,
) -> bool {
    &&& 0 <= i < xs.len()
    &&& xs[i] is Some
    &&& ys[i] is Some
    &&& zs[i] is Some
}

/// `rows` lists, in increasing row order, the coordinates of the rows at the positions
/// `at`, and those positions are exactly the complete rows.
pub open spec fn lists_complete_rows<T>(
    xs: Seq<Option<T>>,
    ys: Seq<Option<T>>,
    zs: Seq<Option<T>>,
    rows: Seq<(T, T, T)>,
    at: Seq<int>,
) -> bool {
    &&& at.len() == rows.len()
    &&& forall|k: int|
        #![trigger at[k]]
        0 <= k < at.len() ==> row_is_complete(xs, ys, zs, at[k]) && rows[k] == (
            xs[at[k]]->0,
            ys[at[k]]->0,
            zs[at[k]]->0,
        )
    &&& forall|k: int, l: int| 0 <= k < l < at.len() ==> at[k] < at[l]
    &&& forall|i: int|
        #![trigger row_is_complete(xs, ys, zs, i)]
        row_is_complete(xs, ys, zs, i) ==> exists|k: int| 0 <= k < at.len() && at[k] == i
}

/// The rows kept are exactly the complete rows, each once, in the order of the table.
pub proof fn lemma_complete_rows_are_the_complete_rows<T>(
    xs: Seq<Option<T>>,
    ys: Seq<Option<T>>,
    zs: Seq<Option<T>>,
)
    requires
        xs.len() == ys.len(),
        xs.len() == zs.len(),
    ensures
        exists|at: Seq<int>| lists_complete_rows(xs, ys, zs, complete_rows(xs, ys, zs), at),
    decreases xs.len(),
{
    if xs.len() == 0 {
        assert(lists_complete_rows(xs, ys, zs, complete_rows(xs, ys, zs), Seq::<int>::empty()));
    } else {
        let n = xs.len() - 1;
        let (px, py, pz) = (xs.drop_last(), ys.drop_last(), zs.drop_last());
        lemma_complete_rows_are_the_complete_rows(px, py, pz);
        let before = complete_rows(px, py, pz);
        let at0 = choose|at: Seq<int>| lists_complete_rows(px, py, pz, before, at);
        assert forall|i: int| 0 <= i < n implies #[trigger] row_is_complete(xs, ys, zs, i)
            == row_is_complete(px, py, pz, i) by {}
        if row_is_complete(xs, ys, zs, n) {
            let at = at0.push(n);
            let rows = complete_rows(xs, ys, zs);
            assert(rows == before.push((xs[n]->0, ys[n]->0, zs[n]->0)));
            assert forall|k: int| #![trigger at[k]] 0 <= k < at.len() implies row_is_complete(
                xs,
                ys,
                zs,
                at[k],
            ) && rows[k] == (xs[at[k]]->0, ys[at[k]]->0, zs[at[k]]->0) by {
                if k < at0.len() {
                    assert(at0[k] == at[k]);
                    assert(row_is_complete(px, py, pz, at0[k]));
                }
            }
            assert forall|k: int, l: int| 0 <= k < l < at.len() implies at[k] < at[l] by {
                if l < at0.len() {
                } else {
                    assert(at0[k] == at[k]);
                    assert(row_is_complete(px, py, pz, at0[k]));
                }
            }
            assert forall|i: int| #[trigger] row_is_complete(xs, ys, zs, i) implies exists|k: int|
                0 <= k < at.len() && at[k] == i by {
                if i < n {
                    assert(row_is_complete(px, py, pz, i));
                    let k = choose|k: int| 0 <= k < at0.len() && at0[k] == i;
                    assert(at[k] == i);
                } else {
                    assert(at[at0.len() as int] == i);
                }
            }
            assert(lists_complete_rows(xs, ys, zs, rows, at));
        } else {
            let rows = complete_rows(xs, ys, zs);
            assert(rows == before);
            assert forall|k: int| #![trigger at0[k]] 0 <= k < at0.len() implies row_is_complete(
                xs,
                ys,
                zs,
                at0[k],
            ) && rows[k] == (xs[at0[k]]->0, ys[at0[k]]->0, zs[at0[k]]->0) by {
                assert(row_is_complete(px, py, pz, at0[k]));
            }
            assert forall|i: int| #[trigger] row_is_complete(xs, ys, zs, i) implies exists|k: int|
                0 <= k < at0.len() && at0[k] == i by {
                assert(i < n);
                assert(row_is_complete(px, py, pz, i));
            }
            assert(lists_complete_rows(xs, ys, zs, rows, at0));
        }
    }
}

/// Collects the source positions of one batch of the source table, skipping each row
/// in which any of the three coordinates is missing.
pub fn collect_complete_rows<T: Copy>(
    xs: &Vec<Option<T>>,
    ys: &Vec<Option<T>>,
    zs: &Vec<Option<T>>,
) -> (rows: Vec<(T, T, T)>)
    requires
        xs.len() == ys.len(),
        xs.len() == zs.len(),
    ensures
        rows@ == complete_rows(xs@, ys@, zs@),
        exists|at: Seq<int>| lists_complete_rows(xs@, ys@, zs@, rows@, at),
{
    let mut rows: Vec<(T, T, T)> = Vec::new();
    let mut i: usize = 0;
    while i < xs.len()
        invariant
            i <= xs.len(),
            xs.len() == ys.len(),
            xs.len() == zs.len(),
            rows@ == complete_rows(xs@.take(i as int), ys@.take(i as int), zs@.take(i as int)),
        decreases xs.len() - i,
    {
        proof {
            let n = i + 1;
            assert(xs@.take(n as int).drop_last() == xs@.take(i as int));
            assert(ys@.take(n as int).drop_last() == ys@.take(i as int));
            assert(zs@.take(n as int).drop_last() == zs@.take(i as int));
        }
        match (xs[i], ys[i], zs[i]) {
            (Some(x), Some(y), Some(z)) => {
                rows.push((x, y, z));
            },
            _ => {},
        }
        i += 1;
    }
    assert(xs@.take(xs.len() as int) == xs@);
    assert(ys@.take(ys.len() as int) == ys@);
    assert(zs@.take(zs.len() as int) == zs@);
    proof {
        lemma_complete_rows_are_the_complete_rows(xs@, ys@, zs@);
    }
    rows
}

} // verus!
