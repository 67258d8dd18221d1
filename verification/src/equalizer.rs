//! The layout of the ten-band equalizer and of the bass boost: where each
//! filter sits, what shape it has and how wide it is.
//!
//! Quality factors are given in thousandths, so that the layout is made of
//! whole numbers; the filter design reads them as fractions.
use vstd::prelude::*;

verus! {

pub const BAND_COUNT: usize = 10;

/// Quality factor of the shelving filters, in thousandths.
pub const SHELF_Q: u32 = 707;

/// Quality factor of the peaking filters, in thousandths.
pub const PEAK_Q: u32 = 1410;

/// Corner frequency of the bass boost in Hz.
pub const BASS_FREQUENCY: u32 = 200;

/// The shape of a filter's response.
#[derive(Debug, Clone, Copy, PartialEq, Eq, Structural)]
pub enum BandShape {
    LowShelf,
    Peaking,
    HighShelf,
}

/// One filter of a chain: its frequency in Hz, its shape and its quality
/// factor in thousandths.
#[derive(Debug, Clone, Copy, PartialEq, Eq, Structural)]
pub struct Band {
    pub frequency: u32,
    pub shape: BandShape,
    pub q: u32,
}

/// The centre frequency of equalizer band `index` in Hz.
pub open spec fn band_frequency(index: int) -> u32 {
    if index == 0 {
        60
    } else if index == 1 {
        170
    } else if index == 2 {
        310
    } else if index == 3 {
        600
    } else if index == 4 {
        1000
    } else if index == 5 {
        3000
    } else if index == 6 {
        6000
    } else if index == 7 {
        12000
    } else if index == 8 {
        14000
    } else {
        16000
    }
}

/// The lowest band is a low shelf, the highest a high shelf, and every band
/// between them a peak.
pub open spec fn band_shape(index: int) -> BandShape {
    if index == 0 {
        BandShape::LowShelf
    } else if index == BAND_COUNT - 1 {
        BandShape::HighShelf
    } else {
        BandShape::Peaking
    }
}

/// Equalizer band `index`.
pub open spec fn spec_band(index: int) -> Band {
    Band {
        frequency: band_frequency(index),
        shape: band_shape(index),
        q: if band_shape(index) == BandShape::Peaking {
            PEAK_Q
        } else {
            SHELF_Q
        },
    }
}

/// The filter at place `index` of the equalizer; bands are chained in this
/// order, lowest first.
pub fn band(index: usize) -> (band: Band)
    requires
        index < BAND_COUNT,
    ensures
        band == spec_band(index as int),
{
    let frequency: u32 = if index == 0 {
        60
    } else if index == 1 {
        170
    } else if index == 2 {
        310
    } else if index == 3 {
        600
    } else if index == 4 {
        1000
    } else if index == 5 {
        3000
    } else if index == 6 {
        6000
    } else if index == 7 {
        12000
    } else if index == 8 {
        14000
    } else {
        16000
    };
    if index == 0 {
        Band { frequency, shape: BandShape::LowShelf, q: SHELF_Q }
    } else if index == BAND_COUNT - 1 {
        Band { frequency, shape: BandShape::HighShelf, q: SHELF_Q }
    } else {
        Band { frequency, shape: BandShape::Peaking, q: PEAK_Q }
    }
}

/// The single filter of the bass boost: a low shelf at 200 Hz.
pub fn bass_band() -> (band: Band)
    ensures
        band == (Band { frequency: BASS_FREQUENCY, shape: BandShape::LowShelf, q: SHELF_Q }),
{
    Band { frequency: BASS_FREQUENCY, shape: BandShape::LowShelf, q: SHELF_Q }
}

/// The bands rise in frequency along the chain.
pub proof fn law_bands_ascend(lower: int, higher: int)
    requires
        0 <= lower < higher < BAND_COUNT,
    ensures
        band_frequency(lower) < band_frequency(higher),
{
}

} // verus!
