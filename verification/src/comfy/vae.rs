use vstd::prelude::*;
use crate::comfy::EdgeRef;

verus! {

/// Decodes a latent image.
#[derive(Debug)]
pub struct VaeDecode {
    pub samples: EdgeRef,
    pub vae: EdgeRef,
}

/// Encodes an image as a latent image.
#[derive(Debug)]
pub struct VAEEncode {
    pub pixels: EdgeRef,
    pub vae: EdgeRef,
}

} // verus!
