use vstd::prelude::*;
use crate::comfy::EdgeRef;
use crate::fixed::Fixed;

verus! {

/// Applies an image prompt adapter to a model.
#[derive(Debug)]
pub struct IPAdapterApply {
    pub weight: Fixed,
    pub noise: Fixed,
    pub weight_type: String,
    pub start_at: Fixed,
    pub end_at: Fixed,
    pub unfold_batch: bool,
    pub ipadapter: EdgeRef,
    pub clip_vision: EdgeRef,
    /// The loader of the reference image.
    pub image: EdgeRef,
    pub model: EdgeRef,
}

/// Loads the adapter's model.
#[derive(Debug)]
pub struct IPAdapterModelLoader {
    pub ipadapter_file: String,
}

/// Loads the vision model of the adapter.
#[derive(Debug)]
pub struct CLIPVisionLoader {
    pub clip_name: String,
}

impl IPAdapterApply {
    /// Sets the weight, the noise and the bounds.
    pub fn set(&mut self, weight: Fixed, noise: Fixed, start_at: Fixed, end_at: Fixed)
        ensures
            *final(self) == (IPAdapterApply { weight, noise, start_at, end_at, ..*old(self) }),
    {
        self.weight = weight;
        self.noise = noise;
        self.start_at = start_at;
        self.end_at = end_at;
    }
}

} // verus!
