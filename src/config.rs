//! Checks on the integer part of a planet configuration.
use vstd::prelude::*;

verus! {

/// Fewest vertices along a face edge that still form a triangle.
pub const MIN_RESOLUTION: u32 = 2;

/// Most vertices along a face edge for which every vertex index of the
/// planet, `6 * resolution²` of them, fits in a `u32`.
pub const MAX_RESOLUTION: u32 = 26754;

/// Why a configuration is refused before anything is generated.
#[derive(Clone, Copy, Debug, PartialEq, Eq, Structural)]
pub enum ConfigError {
    /// Fewer than two vertices along a face edge.
    ResolutionTooSmall,
    /// So many vertices that their indices do not fit in a `u32`.
    ResolutionTooLarge,
    /// No noise octave to sum.
    NoLayers,
    /// A scalar setting is infinite or not a number.
    NonFinite,
}

/// A resolution for which a planet can be generated and indexed.
pub open spec fn valid_resolution(resolution: int) -> bool {
    MIN_RESOLUTION <= resolution <= MAX_RESOLUTION
}

/// The result that `check_config` owes for given settings.
pub open spec fn config_verdict(resolution: int, layers: int) -> Result<(), ConfigError> {
    if resolution < MIN_RESOLUTION {
        Err(ConfigError::ResolutionTooSmall)
    } else if resolution > MAX_RESOLUTION {
        Err(ConfigError::ResolutionTooLarge)
    } else if layers == 0 {
        Err(ConfigError::NoLayers)
    } else {
        Ok(())
    }
}

/// Checks the resolution and the octave count of a configuration.
pub fn check_config(resolution: u32, layers: u32) -> (r: Result<(), ConfigError>)
    ensures
        r == config_verdict(resolution as int, layers as int),
        r is Ok <==> valid_resolution(resolution as int) && layers >= 1,
{
    if resolution < MIN_RESOLUTION {
        Err(ConfigError::ResolutionTooSmall)
    } else if resolution > MAX_RESOLUTION {
        Err(ConfigError::ResolutionTooLarge)
    } else if layers == 0 {
        Err(ConfigError::NoLayers)
    } else {
        Ok(())
    }
}

/// Every vertex index of a planet of valid resolution fits in a `u32`.
pub proof fn lemma_vertex_count_fits(resolution: int)
    requires
        valid_resolution(resolution),
    ensures
        6 * resolution * resolution <= u32::MAX,
{
    assert(6 * resolution * resolution <= 6 * 26754 * 26754) by (nonlinear_arith)
        requires
            0 <= resolution <= 26754,
    ;
}

} // verus!
