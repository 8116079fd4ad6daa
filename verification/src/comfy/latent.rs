use vstd::prelude::*;
use crate::comfy::EdgeRef;

verus! {

/// An empty latent image of a given size.
#[derive(Debug)]
pub struct EmptyLatent {
    pub width: u16,
    pub height: u16,
    pub batch_size: u8,
}

/// Repeats a latent image to make a batch.
#[derive(Debug)]
pub struct RepeatLatent {
    pub amount: u8,
    pub samples: EdgeRef,
}

impl EmptyLatent {
    /// Sets the size and the batch size.
    pub fn resize(&mut self, w: u16, h: u16, batch_size: u8)
        ensures
            *final(self) == (EmptyLatent { width: w, height: h, batch_size }),
    {
        self.width = w;
        self.height = h;
        self.batch_size = batch_size;
    }
}

impl RepeatLatent {
    /// Sets how often the latent image is repeated.
    pub fn set_amount(&mut self, amount: u8)
        ensures
            *final(self) == (RepeatLatent { amount, ..*old(self) }),
    {
        self.amount = amount;
    }
}

} // verus!
