use vstd::prelude::*;
use crate::comfy::EdgeRef;

verus! {

/// Chooses between generating from text and from an image.
#[derive(Debug)]
pub struct TxtimgSwitch {
    /// `txt2img` or `img2img`.
    pub input: String,
    pub txt2img: EdgeRef,
    pub img2img: EdgeRef,
}

/// Sends one input to the selected preprocessor.
#[derive(Debug)]
pub struct PreprocessorSwitchPre {
    /// From 1 to 11.
    pub select: u8,
    pub input: EdgeRef,
}

/// Takes the output of the selected preprocessor.
#[derive(Debug)]
pub struct PreprocessorSwitchAfter {
    /// From 1 to 11.
    pub select: u8,
    pub sel_mode: bool,
    pub input1: EdgeRef,
    pub input2: EdgeRef,
    pub input3: EdgeRef,
    pub input4: EdgeRef,
    pub input5: EdgeRef,
    pub input6: EdgeRef,
    pub input7: EdgeRef,
    pub input8: EdgeRef,
    pub input9: EdgeRef,
    pub input10: EdgeRef,
}

} // verus!
