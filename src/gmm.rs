//! Domain tags and site defaults shared by every attenuation model.

use vstd::prelude::*;

verus! {

/// Default depth, in meters, to the layer where the shear-wave velocity
/// reaches 1400 m/s; used for a site that carries no depth of its own.
pub const DL: u64 = 250;

/// Magnitude scale of an earthquake. It is metadata only: the attenuation
/// formula reads the numeric magnitude the same way whatever its scale.
#[derive(Debug, Clone, Copy, PartialEq, Eq, Structural)]
pub enum Magnitude {
    /// Moment magnitude (Mw).
    Mw,
    /// Local magnitude (Ml).
    Ml,
}

/// Kind of ground motion that a model predicts.
#[derive(Debug, Clone, Copy, PartialEq, Eq, Structural)]
pub enum GmpePointKind {
    /// Peak ground acceleration, in percent of g.
    Pga,
    /// Peak spectral acceleration, in percent of g.
    Psa,
    /// Peak ground velocity, in cm/s.
    Pgv,
}

impl GmpePointKind {
    /// Whether the kind is an acceleration, whose raw value in cm/s² is
    /// reported as a percentage of standard gravity.
    pub open spec fn is_acceleration_spec(self) -> bool {
        self is Pga || self is Psa
    }

    /// Whether values of this kind are converted from cm/s² to percent of g.
    pub fn is_acceleration(&self) -> (r: bool)
        ensures
            r == self.is_acceleration_spec(),
    {
        match self {
            GmpePointKind::Pga => true,
            GmpePointKind::Psa => true,
            GmpePointKind::Pgv => false,
        }
    }
}

/// The deep-layer depth that the formula reads for a site: its own value,
/// or `DL` where it has none.
pub open spec fn basin_depth_spec(dl: Option<u64>) -> u64 {
    match dl {
        Some(d) => d,
        None => DL,
    }
}

/// The deep-layer depth used for a site whose depth may be absent.
pub fn basin_depth_or_default(dl: Option<u64>) -> (r: u64)
    ensures
        r == basin_depth_spec(dl),
{
    match dl {
        Some(d) => d,
        None => DL,
    }
}

/// The volcanic-front indicator that the formula reads: 1 where the site
/// carries a flag, whatever its value, and 0 where it carries none.
pub open spec fn volcanic_front_spec(xvf: Option<u8>) -> u8 {
    if xvf is Some {
        1
    } else {
        0
    }
}

/// The volcanic-front indicator of a site whose flag may be absent.
pub fn volcanic_front_indicator(xvf: Option<u8>) -> (r: u8)
    ensures
        r == volcanic_front_spec(xvf),
{
    match xvf {
        Some(_) => 1,
        None => 0,
    }
}

/// A site without a deep-layer depth is read exactly as a site whose depth
/// is the default `DL`.
pub proof fn lemma_absent_depth_is_default()
    ensures
        basin_depth_spec(None) == basin_depth_spec(Some(DL)),
{
}

} // verus!
