use vstd::prelude::*;
use crate::comfy::EdgeRef;
use crate::fixed::Fixed;

verus! {

/// The Canny edge preprocessor.
#[derive(Debug)]
pub struct CannyEdgePreprocessor {
    pub low_threshold: u8,
    pub high_threshold: u8,
    pub resolution: u16,
    pub image: EdgeRef,
}

/// The pose preprocessor.
#[derive(Debug)]
pub struct OpenposePreprocessor {
    pub detect_hand: String,
    pub detect_body: String,
    pub detect_face: String,
    pub resolution: u16,
    pub image: EdgeRef,
}

/// The line art preprocessor.
#[derive(Debug)]
pub struct LineArtPreprocessor {
    /// `enable` or `disable`.
    pub coarse: String,
    pub resolution: u16,
    pub image: EdgeRef,
}

/// The tile preprocessor.
#[derive(Debug)]
pub struct TilePreprocessor {
    /// From 1 to 10.
    pub pyrup_iters: u8,
    pub resolution: u16,
    pub image: Option<EdgeRef>,
}

/// The soft edge preprocessor.
#[derive(Debug)]
pub struct HEDPreprocessor {
    pub safe: String,
    pub resolution: u16,
    pub image: Option<EdgeRef>,
}

/// The LeReS depth map preprocessor.
#[derive(Debug)]
pub struct LeReSDepthMapPreprocessor {
    pub rm_nearest: Fixed,
    pub rm_background: Fixed,
    pub boost: String,
    pub resolution: u16,
    pub image: Option<EdgeRef>,
}

/// The MiDaS depth map preprocessor.
#[derive(Debug)]
pub struct MiDaSDepthMapPreprocessor {
    pub a: Fixed,
    pub bg_threshold: Fixed,
    pub resolution: u16,
    pub image: Option<EdgeRef>,
}

/// The Zoe depth map preprocessor.
#[derive(Debug)]
pub struct ZoeDepthMapPreprocessor {
    pub resolution: u16,
    pub image: Option<EdgeRef>,
}

/// The standard line art preprocessor.
#[derive(Debug)]
pub struct LineartStandardPreprocessor {
    pub guassian_sigma: Fixed,
    /// From 0 to 16.
    pub intensity_threshold: u8,
    pub resolution: u16,
    pub image: Option<EdgeRef>,
}

/// The straight line preprocessor.
#[derive(Debug)]
pub struct MLSDPreprocessor {
    pub score_threshold: Fixed,
    pub dist_threshold: Fixed,
    pub resolution: u16,
    pub image: Option<EdgeRef>,
}

impl CannyEdgePreprocessor {
    /// Sets the resolution and the two thresholds.
    pub fn set(&mut self, resolution: u16, low_threshold: u8, high_threshold: u8)
        ensures
            *final(self) == (CannyEdgePreprocessor {
                resolution,
                low_threshold,
                high_threshold,
                ..*old(self)
            }),
    {
        self.resolution = resolution;
        self.low_threshold = low_threshold;
        self.high_threshold = high_threshold;
    }
}

impl LineArtPreprocessor {
    /// Whether `self` is `before` with the resolution set and coarse lines
    /// enabled or disabled.
    pub open spec fn set_of(&self, before: &LineArtPreprocessor, resolution: u16, coarse: bool) -> bool {
        &&& self.coarse@ == if coarse {
            "enable"@
        } else {
            "disable"@
        }
        &&& self.resolution == resolution
        &&& self.image == before.image
    }

    /// Sets the resolution, and enables or disables coarse lines.
    pub fn set(&mut self, resolution: u16, coarse: bool)
        ensures
            final(self).set_of(old(self), resolution, coarse),
    {
        self.coarse = if coarse {
            "enable".to_owned()
        } else {
            "disable".to_owned()
        };
        self.resolution = resolution;
    }
}

impl LineartStandardPreprocessor {
    /// Sets the resolution.
    pub fn set_resolution(&mut self, resolution: u16)
        ensures
            *final(self) == (LineartStandardPreprocessor { resolution, ..*old(self) }),
    {
        self.resolution = resolution;
    }
}

impl TilePreprocessor {
    /// Sets the resolution and the number of iterations.
    pub fn set(&mut self, resolution: u16, pyrup_iters: u8)
        ensures
            *final(self) == (TilePreprocessor { resolution, pyrup_iters, ..*old(self) }),
    {
        self.resolution = resolution;
        self.pyrup_iters = pyrup_iters;
    }
}

} // verus!
