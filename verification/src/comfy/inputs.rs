use vstd::prelude::*;
use crate::comfy::str_eq;
use crate::comfy::control_net::{CtrlnetStack};
use crate::comfy::efficient::{EfficientLoader};
use crate::comfy::image::{CropImage, EmptyImage, ImageFilter, ImagePreprocessor, ImageRembg, ImageSave, ImageScaleSide, LoadImage, SaveImage, Tagger, UpscaleImage};
use crate::comfy::ip_adapter::{CLIPVisionLoader, IPAdapterApply, IPAdapterModelLoader};
use crate::comfy::latent::{EmptyLatent, RepeatLatent};
use crate::comfy::lora::{LoraStack, LoraStacker};
use crate::comfy::preprocessor::{CannyEdgePreprocessor, HEDPreprocessor, LeReSDepthMapPreprocessor, LineArtPreprocessor, LineartStandardPreprocessor, MLSDPreprocessor, MiDaSDepthMapPreprocessor, OpenposePreprocessor, TilePreprocessor};
use crate::comfy::sampler::{KSampler};
use crate::comfy::switch::{PreprocessorSwitchAfter, PreprocessorSwitchPre, TxtimgSwitch};
use crate::comfy::text::{TextConcat, TextString};
use crate::comfy::vae::{VAEEncode, VaeDecode};

verus! {

/// The shapes that a node's payload can have: a closed set of tags, one for
/// each variant of [`Inputs`].
#[derive(Clone, Copy, Debug, PartialEq, Eq, Structural)]
pub enum Shape {
    LoadImage,
    LoraStack,
    LoraStacker,
    CtrlnetStack,
    ImagePreprocessor,
    EfficientLoader,
    KSampler,
    VaeDecode,
    VaeEncode,
    ImageSave,
    SaveImage,
    ImageScaleSide,
    UpscaleImage,
    CropImage,
    ImageFilter,
    EmptyImage,
    ImageRembg,
    EmptyLatent,
    RepeatLatent,
    CannyEdgePreprocessor,
    OpenposePreprocessor,
    LineArtPreprocessor,
    TilePreprocessor,
    HEDPreprocessor,
    LeReSDepthMapPreprocessor,
    MiDaSDepthMapPreprocessor,
    LineartStandardPreprocessor,
    MLSDPreprocessor,
    IPAdapterApply,
    IPAdapterModelLoader,
    CLIPVisionLoader,
    TxtimgSwitch,
    PreprocessorSwitchPre,
    PreprocessorSwitchAfter,
    TextString,
    TextConcat,
    Tagger,
}

/// The payload of a node: a flat record of fields and edge references, in one
/// of the supported shapes.
#[derive(Debug)]
pub enum Inputs {
    /// The image loader.
    LoadImage(LoadImage),
    /// The stack of three LoRA slots.
    LoraStack(LoraStack),
    /// The LoRA stacker.
    LoraStacker(LoraStacker),
    /// The stack of three control-net slots.
    CtrlnetStack(CtrlnetStack),
    /// A preprocessor chosen by name.
    ImagePreprocessor(ImagePreprocessor),
    /// The loader of checkpoint, prompts and size.
    EfficientLoader(EfficientLoader),
    /// The sampler.
    KSampler(KSampler),
    /// The decoder of latent images.
    VaeDecode(VaeDecode),
    /// The encoder of latent images.
    VaeEncode(VAEEncode),
    /// The image saver with a path.
    ImageSave(ImageSave),
    /// The plain image saver.
    SaveImage(SaveImage),
    /// Scaling to a side length.
    ImageScaleSide(ImageScaleSide),
    /// Upscaling with a model.
    UpscaleImage(UpscaleImage),
    /// Cropping to a target size.
    CropImage(CropImage),
    /// Filter adjustments.
    ImageFilter(ImageFilter),
    /// An image of one colour.
    EmptyImage(EmptyImage),
    /// Background removal.
    ImageRembg(ImageRembg),
    /// An empty latent image.
    EmptyLatent(EmptyLatent),
    /// A repeated latent image.
    RepeatLatent(RepeatLatent),
    /// The Canny edge preprocessor.
    CannyEdgePreprocessor(CannyEdgePreprocessor),
    /// The pose preprocessor.
    OpenposePreprocessor(OpenposePreprocessor),
    /// The line art preprocessor.
    LineArtPreprocessor(LineArtPreprocessor),
    /// The tile preprocessor.
    TilePreprocessor(TilePreprocessor),
    /// The soft edge preprocessor.
    HEDPreprocessor(HEDPreprocessor),
    /// The LeReS depth map preprocessor.
    LeReSDepthMapPreprocessor(LeReSDepthMapPreprocessor),
    /// The MiDaS depth map preprocessor.
    MiDaSDepthMapPreprocessor(MiDaSDepthMapPreprocessor),
    /// The standard line art preprocessor.
    LineartStandardPreprocessor(LineartStandardPreprocessor),
    /// The straight line preprocessor.
    MLSDPreprocessor(MLSDPreprocessor),
    /// The image prompt adapter.
    IPAdapterApply(IPAdapterApply),
    /// The loader of the adapter's model.
    IPAdapterModelLoader(IPAdapterModelLoader),
    /// The loader of the vision model.
    CLIPVisionLoader(CLIPVisionLoader),
    /// The switch between text and image input.
    TxtimgSwitch(TxtimgSwitch),
    /// The switch before the preprocessors.
    PreprocessorSwitchPre(PreprocessorSwitchPre),
    /// The switch after the preprocessors.
    PreprocessorSwitchAfter(PreprocessorSwitchAfter),
    /// Up to four strings.
    TextString(TextString),
    /// The join of up to four texts.
    TextConcat(TextConcat),
    /// The tagger.
    Tagger(Tagger),
}

impl Inputs {
    /// The shape that the payload has.
    pub open spec fn spec_shape(&self) -> Shape {
        match self {
            Inputs::LoadImage(_) => Shape::LoadImage,
            Inputs::LoraStack(_) => Shape::LoraStack,
            Inputs::LoraStacker(_) => Shape::LoraStacker,
            Inputs::CtrlnetStack(_) => Shape::CtrlnetStack,
            Inputs::ImagePreprocessor(_) => Shape::ImagePreprocessor,
            Inputs::EfficientLoader(_) => Shape::EfficientLoader,
            Inputs::KSampler(_) => Shape::KSampler,
            Inputs::VaeDecode(_) => Shape::VaeDecode,
            Inputs::VaeEncode(_) => Shape::VaeEncode,
            Inputs::ImageSave(_) => Shape::ImageSave,
            Inputs::SaveImage(_) => Shape::SaveImage,
            Inputs::ImageScaleSide(_) => Shape::ImageScaleSide,
            Inputs::UpscaleImage(_) => Shape::UpscaleImage,
            Inputs::CropImage(_) => Shape::CropImage,
            Inputs::ImageFilter(_) => Shape::ImageFilter,
            Inputs::EmptyImage(_) => Shape::EmptyImage,
            Inputs::ImageRembg(_) => Shape::ImageRembg,
            Inputs::EmptyLatent(_) => Shape::EmptyLatent,
            Inputs::RepeatLatent(_) => Shape::RepeatLatent,
            Inputs::CannyEdgePreprocessor(_) => Shape::CannyEdgePreprocessor,
            Inputs::OpenposePreprocessor(_) => Shape::OpenposePreprocessor,
            Inputs::LineArtPreprocessor(_) => Shape::LineArtPreprocessor,
            Inputs::TilePreprocessor(_) => Shape::TilePreprocessor,
            Inputs::HEDPreprocessor(_) => Shape::HEDPreprocessor,
            Inputs::LeReSDepthMapPreprocessor(_) => Shape::LeReSDepthMapPreprocessor,
            Inputs::MiDaSDepthMapPreprocessor(_) => Shape::MiDaSDepthMapPreprocessor,
            Inputs::LineartStandardPreprocessor(_) => Shape::LineartStandardPreprocessor,
            Inputs::MLSDPreprocessor(_) => Shape::MLSDPreprocessor,
            Inputs::IPAdapterApply(_) => Shape::IPAdapterApply,
            Inputs::IPAdapterModelLoader(_) => Shape::IPAdapterModelLoader,
            Inputs::CLIPVisionLoader(_) => Shape::CLIPVisionLoader,
            Inputs::TxtimgSwitch(_) => Shape::TxtimgSwitch,
            Inputs::PreprocessorSwitchPre(_) => Shape::PreprocessorSwitchPre,
            Inputs::PreprocessorSwitchAfter(_) => Shape::PreprocessorSwitchAfter,
            Inputs::TextString(_) => Shape::TextString,
            Inputs::TextConcat(_) => Shape::TextConcat,
            Inputs::Tagger(_) => Shape::Tagger,
        }
    }

    /// The shape that the payload has.
    #[verifier::when_used_as_spec(spec_shape)]
    pub fn shape(&self) -> (r: Shape)
        ensures
            r == self.spec_shape(),
    {
        match self {
            Inputs::LoadImage(_) => Shape::LoadImage,
            Inputs::LoraStack(_) => Shape::LoraStack,
            Inputs::LoraStacker(_) => Shape::LoraStacker,
            Inputs::CtrlnetStack(_) => Shape::CtrlnetStack,
            Inputs::ImagePreprocessor(_) => Shape::ImagePreprocessor,
            Inputs::EfficientLoader(_) => Shape::EfficientLoader,
            Inputs::KSampler(_) => Shape::KSampler,
            Inputs::VaeDecode(_) => Shape::VaeDecode,
            Inputs::VaeEncode(_) => Shape::VaeEncode,
            Inputs::ImageSave(_) => Shape::ImageSave,
            Inputs::SaveImage(_) => Shape::SaveImage,
            Inputs::ImageScaleSide(_) => Shape::ImageScaleSide,
            Inputs::UpscaleImage(_) => Shape::UpscaleImage,
            Inputs::CropImage(_) => Shape::CropImage,
            Inputs::ImageFilter(_) => Shape::ImageFilter,
            Inputs::EmptyImage(_) => Shape::EmptyImage,
            Inputs::ImageRembg(_) => Shape::ImageRembg,
            Inputs::EmptyLatent(_) => Shape::EmptyLatent,
            Inputs::RepeatLatent(_) => Shape::RepeatLatent,
            Inputs::CannyEdgePreprocessor(_) => Shape::CannyEdgePreprocessor,
            Inputs::OpenposePreprocessor(_) => Shape::OpenposePreprocessor,
            Inputs::LineArtPreprocessor(_) => Shape::LineArtPreprocessor,
            Inputs::TilePreprocessor(_) => Shape::TilePreprocessor,
            Inputs::HEDPreprocessor(_) => Shape::HEDPreprocessor,
            Inputs::LeReSDepthMapPreprocessor(_) => Shape::LeReSDepthMapPreprocessor,
            Inputs::MiDaSDepthMapPreprocessor(_) => Shape::MiDaSDepthMapPreprocessor,
            Inputs::LineartStandardPreprocessor(_) => Shape::LineartStandardPreprocessor,
            Inputs::MLSDPreprocessor(_) => Shape::MLSDPreprocessor,
            Inputs::IPAdapterApply(_) => Shape::IPAdapterApply,
            Inputs::IPAdapterModelLoader(_) => Shape::IPAdapterModelLoader,
            Inputs::CLIPVisionLoader(_) => Shape::CLIPVisionLoader,
            Inputs::TxtimgSwitch(_) => Shape::TxtimgSwitch,
            Inputs::PreprocessorSwitchPre(_) => Shape::PreprocessorSwitchPre,
            Inputs::PreprocessorSwitchAfter(_) => Shape::PreprocessorSwitchAfter,
            Inputs::TextString(_) => Shape::TextString,
            Inputs::TextConcat(_) => Shape::TextConcat,
            Inputs::Tagger(_) => Shape::Tagger,
        }
    }
}

impl Shape {
    /// The shape that the role name `name` stands for.
    pub open spec fn spec_from_name(name: Seq<char>) -> Option<Shape> {
        if name == "LoadImage"@ {
            Some(Shape::LoadImage)
        } else if name == "LoraStack"@ {
            Some(Shape::LoraStack)
        } else if name == "LoraStacker"@ {
            Some(Shape::LoraStacker)
        } else if name == "CtrlnetStack"@ {
            Some(Shape::CtrlnetStack)
        } else if name == "ImagePreprocessor"@ {
            Some(Shape::ImagePreprocessor)
        } else if name == "EfficientLoader"@ {
            Some(Shape::EfficientLoader)
        } else if name == "KSampler"@ {
            Some(Shape::KSampler)
        } else if name == "VaeDecode"@ {
            Some(Shape::VaeDecode)
        } else if name == "VaeEncode"@ {
            Some(Shape::VaeEncode)
        } else if name == "ImageSave"@ {
            Some(Shape::ImageSave)
        } else if name == "SaveImage"@ {
            Some(Shape::SaveImage)
        } else if name == "ImageScaleSide"@ {
            Some(Shape::ImageScaleSide)
        } else if name == "UpscaleImage"@ {
            Some(Shape::UpscaleImage)
        } else if name == "CropImage"@ {
            Some(Shape::CropImage)
        } else if name == "ImageFilter"@ {
            Some(Shape::ImageFilter)
        } else if name == "EmptyImage"@ {
            Some(Shape::EmptyImage)
        } else if name == "ImageRembg"@ {
            Some(Shape::ImageRembg)
        } else if name == "EmptyLatent"@ {
            Some(Shape::EmptyLatent)
        } else if name == "RepeatLatent"@ {
            Some(Shape::RepeatLatent)
        } else if name == "CannyEdgePreprocessor"@ {
            Some(Shape::CannyEdgePreprocessor)
        } else if name == "OpenposePreprocessor"@ {
            Some(Shape::OpenposePreprocessor)
        } else if name == "LineArtPreprocessor"@ {
            Some(Shape::LineArtPreprocessor)
        } else if name == "TilePreprocessor"@ {
            Some(Shape::TilePreprocessor)
        } else if name == "HEDPreprocessor"@ {
            Some(Shape::HEDPreprocessor)
        } else if name == "LeReSDepthMapPreprocessor"@ {
            Some(Shape::LeReSDepthMapPreprocessor)
        } else if name == "MiDaSDepthMapPreprocessor"@ {
            Some(Shape::MiDaSDepthMapPreprocessor)
        } else if name == "LineartStandardPreprocessor"@ {
            Some(Shape::LineartStandardPreprocessor)
        } else if name == "MLSDPreprocessor"@ {
            Some(Shape::MLSDPreprocessor)
        } else if name == "IPAdapterApply"@ {
            Some(Shape::IPAdapterApply)
        } else if name == "IPAdapterModelLoader"@ {
            Some(Shape::IPAdapterModelLoader)
        } else if name == "CLIPVisionLoader"@ {
            Some(Shape::CLIPVisionLoader)
        } else if name == "TxtimgSwitch"@ {
            Some(Shape::TxtimgSwitch)
        } else if name == "PreprocessorSwitchPre"@ {
            Some(Shape::PreprocessorSwitchPre)
        } else if name == "PreprocessorSwitchAfter"@ {
            Some(Shape::PreprocessorSwitchAfter)
        } else if name == "TextString"@ {
            Some(Shape::TextString)
        } else if name == "TextConcat"@ {
            Some(Shape::TextConcat)
        } else if name == "Tagger"@ {
            Some(Shape::Tagger)
        } else {
            None
        }
    }

    /// The shape that the role name `name` stands for: each shape is named as
    /// its variant is; any other name stands for none.
    pub fn from_name(name: &str) -> (r: Option<Shape>)
        ensures
            r == Shape::spec_from_name(name@),
    {
        if str_eq(name, "LoadImage") {
            Some(Shape::LoadImage)
        } else if str_eq(name, "LoraStack") {
            Some(Shape::LoraStack)
        } else if str_eq(name, "LoraStacker") {
            Some(Shape::LoraStacker)
        } else if str_eq(name, "CtrlnetStack") {
            Some(Shape::CtrlnetStack)
        } else if str_eq(name, "ImagePreprocessor") {
            Some(Shape::ImagePreprocessor)
        } else if str_eq(name, "EfficientLoader") {
            Some(Shape::EfficientLoader)
        } else if str_eq(name, "KSampler") {
            Some(Shape::KSampler)
        } else if str_eq(name, "VaeDecode") {
            Some(Shape::VaeDecode)
        } else if str_eq(name, "VaeEncode") {
            Some(Shape::VaeEncode)
        } else if str_eq(name, "ImageSave") {
            Some(Shape::ImageSave)
        } else if str_eq(name, "SaveImage") {
            Some(Shape::SaveImage)
        } else if str_eq(name, "ImageScaleSide") {
            Some(Shape::ImageScaleSide)
        } else if str_eq(name, "UpscaleImage") {
            Some(Shape::UpscaleImage)
        } else if str_eq(name, "CropImage") {
            Some(Shape::CropImage)
        } else if str_eq(name, "ImageFilter") {
            Some(Shape::ImageFilter)
        } else if str_eq(name, "EmptyImage") {
            Some(Shape::EmptyImage)
        } else if str_eq(name, "ImageRembg") {
            Some(Shape::ImageRembg)
        } else if str_eq(name, "EmptyLatent") {
            Some(Shape::EmptyLatent)
        } else if str_eq(name, "RepeatLatent") {
            Some(Shape::RepeatLatent)
        } else if str_eq(name, "CannyEdgePreprocessor") {
            Some(Shape::CannyEdgePreprocessor)
        } else if str_eq(name, "OpenposePreprocessor") {
            Some(Shape::OpenposePreprocessor)
        } else if str_eq(name, "LineArtPreprocessor") {
            Some(Shape::LineArtPreprocessor)
        } else if str_eq(name, "TilePreprocessor") {
            Some(Shape::TilePreprocessor)
        } else if str_eq(name, "HEDPreprocessor") {
            Some(Shape::HEDPreprocessor)
        } else if str_eq(name, "LeReSDepthMapPreprocessor") {
            Some(Shape::LeReSDepthMapPreprocessor)
        } else if str_eq(name, "MiDaSDepthMapPreprocessor") {
            Some(Shape::MiDaSDepthMapPreprocessor)
        } else if str_eq(name, "LineartStandardPreprocessor") {
            Some(Shape::LineartStandardPreprocessor)
        } else if str_eq(name, "MLSDPreprocessor") {
            Some(Shape::MLSDPreprocessor)
        } else if str_eq(name, "IPAdapterApply") {
            Some(Shape::IPAdapterApply)
        } else if str_eq(name, "IPAdapterModelLoader") {
            Some(Shape::IPAdapterModelLoader)
        } else if str_eq(name, "CLIPVisionLoader") {
            Some(Shape::CLIPVisionLoader)
        } else if str_eq(name, "TxtimgSwitch") {
            Some(Shape::TxtimgSwitch)
        } else if str_eq(name, "PreprocessorSwitchPre") {
            Some(Shape::PreprocessorSwitchPre)
        } else if str_eq(name, "PreprocessorSwitchAfter") {
            Some(Shape::PreprocessorSwitchAfter)
        } else if str_eq(name, "TextString") {
            Some(Shape::TextString)
        } else if str_eq(name, "TextConcat") {
            Some(Shape::TextConcat)
        } else if str_eq(name, "Tagger") {
            Some(Shape::Tagger)
        } else {
            None
        }
    }
}

} // verus!
