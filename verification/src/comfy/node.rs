use vstd::prelude::*;
use crate::comfy::control_net::CtrlnetStack;
use crate::comfy::efficient::EfficientLoader;
use crate::comfy::image::{CropImage, EmptyImage, ImageFilter, ImagePreprocessor, ImageRembg, ImageSave, ImageScaleSide, LoadImage, SaveImage, Tagger};
use crate::comfy::ip_adapter::{CLIPVisionLoader, IPAdapterApply, IPAdapterModelLoader};
use crate::comfy::latent::{EmptyLatent, RepeatLatent};
use crate::comfy::lora::{LoraStack, LoraStacker};
use crate::comfy::preprocessor::{CannyEdgePreprocessor, LineArtPreprocessor, LineartStandardPreprocessor, TilePreprocessor};
use crate::comfy::sampler::KSampler;
use crate::comfy::text::{TextConcat, TextString};
use crate::comfy::vae::VaeDecode;
use crate::comfy::inputs::Inputs;
use crate::error::AppError;

verus! {

/// The display data of a node.
#[derive(Debug)]
pub struct Meta {
    pub title: String,
}

/// One node of the graph: its id, its backend class, its title and its
/// payload.
#[derive(Debug)]
pub struct Node {
    pub inputs: Inputs,
    /// The backend's name of the node's class.
    pub class_type: String,
    pub meta: Meta,
    /// The id under which the graph holds the node.
    pub id: String,
    /// The fields of the payload that the shape does not know, each by its
    /// name and its JSON text. They are carried along as they came.
    pub extra: Vec<(String, String)>,
}

// The typed accessors: each gives the payload in one shape, and a shape
// mismatch that names the node's title where the payload has another shape.
impl Node {
    /// The payload, whatever its shape.
    pub fn inputs_mut(&mut self) -> (r: &mut Inputs)
        ensures
            *r == old(self).inputs,
            *final(self) == (Node { inputs: *final(r), ..*old(self) }),
    {
        &mut self.inputs
    }

    pub fn ctrlnet_stack(&self) -> (r: Result<&CtrlnetStack, AppError>)
        ensures
            match r {
                Ok(v) => self.inputs == Inputs::CtrlnetStack(*v),
                Err(e) => !(self.inputs is CtrlnetStack) && e.is_shape_mismatch(self.meta.title@),
            },
    {
        match &self.inputs {
            Inputs::CtrlnetStack(v) => Ok(v),
            _ => Err(AppError::ShapeMismatch(self.meta.title.clone())),
        }
    }

    pub fn ctrlnet_stack_mut(&mut self) -> (r: Result<&mut CtrlnetStack, AppError>)
        ensures
            match r {
                Ok(v) => old(self).inputs == Inputs::CtrlnetStack(*v) && *final(self) == (Node {
                    inputs: Inputs::CtrlnetStack(*final(v)),
                    ..*old(self)
                }),
                Err(e) => !(old(self).inputs is CtrlnetStack) && e.is_shape_mismatch(
                    old(self).meta.title@,
                ) && *final(self) == *old(self),
            },
    {
        match &mut self.inputs {
            Inputs::CtrlnetStack(v) => Ok(v),
            _ => Err(AppError::ShapeMismatch(self.meta.title.clone())),
        }
    }

    pub fn efficient_loader(&self) -> (r: Result<&EfficientLoader, AppError>)
        ensures
            match r {
                Ok(v) => self.inputs == Inputs::EfficientLoader(*v),
                Err(e) => !(self.inputs is EfficientLoader) && e.is_shape_mismatch(self.meta.title@),
            },
    {
        match &self.inputs {
            Inputs::EfficientLoader(v) => Ok(v),
            _ => Err(AppError::ShapeMismatch(self.meta.title.clone())),
        }
    }

    pub fn efficient_loader_mut(&mut self) -> (r: Result<&mut EfficientLoader, AppError>)
        ensures
            match r {
                Ok(v) => old(self).inputs == Inputs::EfficientLoader(*v) && *final(self) == (Node {
                    inputs: Inputs::EfficientLoader(*final(v)),
                    ..*old(self)
                }),
                Err(e) => !(old(self).inputs is EfficientLoader) && e.is_shape_mismatch(
                    old(self).meta.title@,
                ) && *final(self) == *old(self),
            },
    {
        match &mut self.inputs {
            Inputs::EfficientLoader(v) => Ok(v),
            _ => Err(AppError::ShapeMismatch(self.meta.title.clone())),
        }
    }

    pub fn image_preprocessor(&self) -> (r: Result<&ImagePreprocessor, AppError>)
        ensures
            match r {
                Ok(v) => self.inputs == Inputs::ImagePreprocessor(*v),
                Err(e) => !(self.inputs is ImagePreprocessor) && e.is_shape_mismatch(self.meta.title@),
            },
    {
        match &self.inputs {
            Inputs::ImagePreprocessor(v) => Ok(v),
            _ => Err(AppError::ShapeMismatch(self.meta.title.clone())),
        }
    }

    pub fn image_preprocessor_mut(&mut self) -> (r: Result<&mut ImagePreprocessor, AppError>)
        ensures
            match r {
                Ok(v) => old(self).inputs == Inputs::ImagePreprocessor(*v) && *final(self) == (Node {
                    inputs: Inputs::ImagePreprocessor(*final(v)),
                    ..*old(self)
                }),
                Err(e) => !(old(self).inputs is ImagePreprocessor) && e.is_shape_mismatch(
                    old(self).meta.title@,
                ) && *final(self) == *old(self),
            },
    {
        match &mut self.inputs {
            Inputs::ImagePreprocessor(v) => Ok(v),
            _ => Err(AppError::ShapeMismatch(self.meta.title.clone())),
        }
    }

    pub fn image_save(&self) -> (r: Result<&ImageSave, AppError>)
        ensures
            match r {
                Ok(v) => self.inputs == Inputs::ImageSave(*v),
                Err(e) => !(self.inputs is ImageSave) && e.is_shape_mismatch(self.meta.title@),
            },
    {
        match &self.inputs {
            Inputs::ImageSave(v) => Ok(v),
            _ => Err(AppError::ShapeMismatch(self.meta.title.clone())),
        }
    }

    pub fn image_save_mut(&mut self) -> (r: Result<&mut ImageSave, AppError>)
        ensures
            match r {
                Ok(v) => old(self).inputs == Inputs::ImageSave(*v) && *final(self) == (Node {
                    inputs: Inputs::ImageSave(*final(v)),
                    ..*old(self)
                }),
                Err(e) => !(old(self).inputs is ImageSave) && e.is_shape_mismatch(
                    old(self).meta.title@,
                ) && *final(self) == *old(self),
            },
    {
        match &mut self.inputs {
            Inputs::ImageSave(v) => Ok(v),
            _ => Err(AppError::ShapeMismatch(self.meta.title.clone())),
        }
    }

    pub fn crop_image(&self) -> (r: Result<&CropImage, AppError>)
        ensures
            match r {
                Ok(v) => self.inputs == Inputs::CropImage(*v),
                Err(e) => !(self.inputs is CropImage) && e.is_shape_mismatch(self.meta.title@),
            },
    {
        match &self.inputs {
            Inputs::CropImage(v) => Ok(v),
            _ => Err(AppError::ShapeMismatch(self.meta.title.clone())),
        }
    }

    pub fn crop_image_mut(&mut self) -> (r: Result<&mut CropImage, AppError>)
        ensures
            match r {
                Ok(v) => old(self).inputs == Inputs::CropImage(*v) && *final(self) == (Node {
                    inputs: Inputs::CropImage(*final(v)),
                    ..*old(self)
                }),
                Err(e) => !(old(self).inputs is CropImage) && e.is_shape_mismatch(
                    old(self).meta.title@,
                ) && *final(self) == *old(self),
            },
    {
        match &mut self.inputs {
            Inputs::CropImage(v) => Ok(v),
            _ => Err(AppError::ShapeMismatch(self.meta.title.clone())),
        }
    }

    pub fn save_image(&self) -> (r: Result<&SaveImage, AppError>)
        ensures
            match r {
                Ok(v) => self.inputs == Inputs::SaveImage(*v),
                Err(e) => !(self.inputs is SaveImage) && e.is_shape_mismatch(self.meta.title@),
            },
    {
        match &self.inputs {
            Inputs::SaveImage(v) => Ok(v),
            _ => Err(AppError::ShapeMismatch(self.meta.title.clone())),
        }
    }

    pub fn save_image_mut(&mut self) -> (r: Result<&mut SaveImage, AppError>)
        ensures
            match r {
                Ok(v) => old(self).inputs == Inputs::SaveImage(*v) && *final(self) == (Node {
                    inputs: Inputs::SaveImage(*final(v)),
                    ..*old(self)
                }),
                Err(e) => !(old(self).inputs is SaveImage) && e.is_shape_mismatch(
                    old(self).meta.title@,
                ) && *final(self) == *old(self),
            },
    {
        match &mut self.inputs {
            Inputs::SaveImage(v) => Ok(v),
            _ => Err(AppError::ShapeMismatch(self.meta.title.clone())),
        }
    }

    pub fn repeat_latent(&self) -> (r: Result<&RepeatLatent, AppError>)
        ensures
            match r {
                Ok(v) => self.inputs == Inputs::RepeatLatent(*v),
                Err(e) => !(self.inputs is RepeatLatent) && e.is_shape_mismatch(self.meta.title@),
            },
    {
        match &self.inputs {
            Inputs::RepeatLatent(v) => Ok(v),
            _ => Err(AppError::ShapeMismatch(self.meta.title.clone())),
        }
    }

    pub fn repeat_latent_mut(&mut self) -> (r: Result<&mut RepeatLatent, AppError>)
        ensures
            match r {
                Ok(v) => old(self).inputs == Inputs::RepeatLatent(*v) && *final(self) == (Node {
                    inputs: Inputs::RepeatLatent(*final(v)),
                    ..*old(self)
                }),
                Err(e) => !(old(self).inputs is RepeatLatent) && e.is_shape_mismatch(
                    old(self).meta.title@,
                ) && *final(self) == *old(self),
            },
    {
        match &mut self.inputs {
            Inputs::RepeatLatent(v) => Ok(v),
            _ => Err(AppError::ShapeMismatch(self.meta.title.clone())),
        }
    }

    pub fn empty_latent(&self) -> (r: Result<&EmptyLatent, AppError>)
        ensures
            match r {
                Ok(v) => self.inputs == Inputs::EmptyLatent(*v),
                Err(e) => !(self.inputs is EmptyLatent) && e.is_shape_mismatch(self.meta.title@),
            },
    {
        match &self.inputs {
            Inputs::EmptyLatent(v) => Ok(v),
            _ => Err(AppError::ShapeMismatch(self.meta.title.clone())),
        }
    }

    pub fn empty_latent_mut(&mut self) -> (r: Result<&mut EmptyLatent, AppError>)
        ensures
            match r {
                Ok(v) => old(self).inputs == Inputs::EmptyLatent(*v) && *final(self) == (Node {
                    inputs: Inputs::EmptyLatent(*final(v)),
                    ..*old(self)
                }),
                Err(e) => !(old(self).inputs is EmptyLatent) && e.is_shape_mismatch(
                    old(self).meta.title@,
                ) && *final(self) == *old(self),
            },
    {
        match &mut self.inputs {
            Inputs::EmptyLatent(v) => Ok(v),
            _ => Err(AppError::ShapeMismatch(self.meta.title.clone())),
        }
    }

    pub fn load_image(&self) -> (r: Result<&LoadImage, AppError>)
        ensures
            match r {
                Ok(v) => self.inputs == Inputs::LoadImage(*v),
                Err(e) => !(self.inputs is LoadImage) && e.is_shape_mismatch(self.meta.title@),
            },
    {
        match &self.inputs {
            Inputs::LoadImage(v) => Ok(v),
            _ => Err(AppError::ShapeMismatch(self.meta.title.clone())),
        }
    }

    pub fn load_image_mut(&mut self) -> (r: Result<&mut LoadImage, AppError>)
        ensures
            match r {
                Ok(v) => old(self).inputs == Inputs::LoadImage(*v) && *final(self) == (Node {
                    inputs: Inputs::LoadImage(*final(v)),
                    ..*old(self)
                }),
                Err(e) => !(old(self).inputs is LoadImage) && e.is_shape_mismatch(
                    old(self).meta.title@,
                ) && *final(self) == *old(self),
            },
    {
        match &mut self.inputs {
            Inputs::LoadImage(v) => Ok(v),
            _ => Err(AppError::ShapeMismatch(self.meta.title.clone())),
        }
    }

    pub fn image_filter(&self) -> (r: Result<&ImageFilter, AppError>)
        ensures
            match r {
                Ok(v) => self.inputs == Inputs::ImageFilter(*v),
                Err(e) => !(self.inputs is ImageFilter) && e.is_shape_mismatch(self.meta.title@),
            },
    {
        match &self.inputs {
            Inputs::ImageFilter(v) => Ok(v),
            _ => Err(AppError::ShapeMismatch(self.meta.title.clone())),
        }
    }

    pub fn image_filter_mut(&mut self) -> (r: Result<&mut ImageFilter, AppError>)
        ensures
            match r {
                Ok(v) => old(self).inputs == Inputs::ImageFilter(*v) && *final(self) == (Node {
                    inputs: Inputs::ImageFilter(*final(v)),
                    ..*old(self)
                }),
                Err(e) => !(old(self).inputs is ImageFilter) && e.is_shape_mismatch(
                    old(self).meta.title@,
                ) && *final(self) == *old(self),
            },
    {
        match &mut self.inputs {
            Inputs::ImageFilter(v) => Ok(v),
            _ => Err(AppError::ShapeMismatch(self.meta.title.clone())),
        }
    }

    pub fn empty_image(&self) -> (r: Result<&EmptyImage, AppError>)
        ensures
            match r {
                Ok(v) => self.inputs == Inputs::EmptyImage(*v),
                Err(e) => !(self.inputs is EmptyImage) && e.is_shape_mismatch(self.meta.title@),
            },
    {
        match &self.inputs {
            Inputs::EmptyImage(v) => Ok(v),
            _ => Err(AppError::ShapeMismatch(self.meta.title.clone())),
        }
    }

    pub fn empty_image_mut(&mut self) -> (r: Result<&mut EmptyImage, AppError>)
        ensures
            match r {
                Ok(v) => old(self).inputs == Inputs::EmptyImage(*v) && *final(self) == (Node {
                    inputs: Inputs::EmptyImage(*final(v)),
                    ..*old(self)
                }),
                Err(e) => !(old(self).inputs is EmptyImage) && e.is_shape_mismatch(
                    old(self).meta.title@,
                ) && *final(self) == *old(self),
            },
    {
        match &mut self.inputs {
            Inputs::EmptyImage(v) => Ok(v),
            _ => Err(AppError::ShapeMismatch(self.meta.title.clone())),
        }
    }

    pub fn image_rembg(&self) -> (r: Result<&ImageRembg, AppError>)
        ensures
            match r {
                Ok(v) => self.inputs == Inputs::ImageRembg(*v),
                Err(e) => !(self.inputs is ImageRembg) && e.is_shape_mismatch(self.meta.title@),
            },
    {
        match &self.inputs {
            Inputs::ImageRembg(v) => Ok(v),
            _ => Err(AppError::ShapeMismatch(self.meta.title.clone())),
        }
    }

    pub fn image_rembg_mut(&mut self) -> (r: Result<&mut ImageRembg, AppError>)
        ensures
            match r {
                Ok(v) => old(self).inputs == Inputs::ImageRembg(*v) && *final(self) == (Node {
                    inputs: Inputs::ImageRembg(*final(v)),
                    ..*old(self)
                }),
                Err(e) => !(old(self).inputs is ImageRembg) && e.is_shape_mismatch(
                    old(self).meta.title@,
                ) && *final(self) == *old(self),
            },
    {
        match &mut self.inputs {
            Inputs::ImageRembg(v) => Ok(v),
            _ => Err(AppError::ShapeMismatch(self.meta.title.clone())),
        }
    }

    pub fn image_scale_side(&self) -> (r: Result<&ImageScaleSide, AppError>)
        ensures
            match r {
                Ok(v) => self.inputs == Inputs::ImageScaleSide(*v),
                Err(e) => !(self.inputs is ImageScaleSide) && e.is_shape_mismatch(self.meta.title@),
            },
    {
        match &self.inputs {
            Inputs::ImageScaleSide(v) => Ok(v),
            _ => Err(AppError::ShapeMismatch(self.meta.title.clone())),
        }
    }

    pub fn image_scale_side_mut(&mut self) -> (r: Result<&mut ImageScaleSide, AppError>)
        ensures
            match r {
                Ok(v) => old(self).inputs == Inputs::ImageScaleSide(*v) && *final(self) == (Node {
                    inputs: Inputs::ImageScaleSide(*final(v)),
                    ..*old(self)
                }),
                Err(e) => !(old(self).inputs is ImageScaleSide) && e.is_shape_mismatch(
                    old(self).meta.title@,
                ) && *final(self) == *old(self),
            },
    {
        match &mut self.inputs {
            Inputs::ImageScaleSide(v) => Ok(v),
            _ => Err(AppError::ShapeMismatch(self.meta.title.clone())),
        }
    }

    pub fn lora_stack(&self) -> (r: Result<&LoraStack, AppError>)
        ensures
            match r {
                Ok(v) => self.inputs == Inputs::LoraStack(*v),
                Err(e) => !(self.inputs is LoraStack) && e.is_shape_mismatch(self.meta.title@),
            },
    {
        match &self.inputs {
            Inputs::LoraStack(v) => Ok(v),
            _ => Err(AppError::ShapeMismatch(self.meta.title.clone())),
        }
    }

    pub fn lora_stack_mut(&mut self) -> (r: Result<&mut LoraStack, AppError>)
        ensures
            match r {
                Ok(v) => old(self).inputs == Inputs::LoraStack(*v) && *final(self) == (Node {
                    inputs: Inputs::LoraStack(*final(v)),
                    ..*old(self)
                }),
                Err(e) => !(old(self).inputs is LoraStack) && e.is_shape_mismatch(
                    old(self).meta.title@,
                ) && *final(self) == *old(self),
            },
    {
        match &mut self.inputs {
            Inputs::LoraStack(v) => Ok(v),
            _ => Err(AppError::ShapeMismatch(self.meta.title.clone())),
        }
    }

    pub fn lora_stacker(&self) -> (r: Result<&LoraStacker, AppError>)
        ensures
            match r {
                Ok(v) => self.inputs == Inputs::LoraStacker(*v),
                Err(e) => !(self.inputs is LoraStacker) && e.is_shape_mismatch(self.meta.title@),
            },
    {
        match &self.inputs {
            Inputs::LoraStacker(v) => Ok(v),
            _ => Err(AppError::ShapeMismatch(self.meta.title.clone())),
        }
    }

    pub fn lora_stacker_mut(&mut self) -> (r: Result<&mut LoraStacker, AppError>)
        ensures
            match r {
                Ok(v) => old(self).inputs == Inputs::LoraStacker(*v) && *final(self) == (Node {
                    inputs: Inputs::LoraStacker(*final(v)),
                    ..*old(self)
                }),
                Err(e) => !(old(self).inputs is LoraStacker) && e.is_shape_mismatch(
                    old(self).meta.title@,
                ) && *final(self) == *old(self),
            },
    {
        match &mut self.inputs {
            Inputs::LoraStacker(v) => Ok(v),
            _ => Err(AppError::ShapeMismatch(self.meta.title.clone())),
        }
    }

    pub fn k_sampler(&self) -> (r: Result<&KSampler, AppError>)
        ensures
            match r {
                Ok(v) => self.inputs == Inputs::KSampler(*v),
                Err(e) => !(self.inputs is KSampler) && e.is_shape_mismatch(self.meta.title@),
            },
    {
        match &self.inputs {
            Inputs::KSampler(v) => Ok(v),
            _ => Err(AppError::ShapeMismatch(self.meta.title.clone())),
        }
    }

    pub fn k_sampler_mut(&mut self) -> (r: Result<&mut KSampler, AppError>)
        ensures
            match r {
                Ok(v) => old(self).inputs == Inputs::KSampler(*v) && *final(self) == (Node {
                    inputs: Inputs::KSampler(*final(v)),
                    ..*old(self)
                }),
                Err(e) => !(old(self).inputs is KSampler) && e.is_shape_mismatch(
                    old(self).meta.title@,
                ) && *final(self) == *old(self),
            },
    {
        match &mut self.inputs {
            Inputs::KSampler(v) => Ok(v),
            _ => Err(AppError::ShapeMismatch(self.meta.title.clone())),
        }
    }

    pub fn vae_decode(&self) -> (r: Result<&VaeDecode, AppError>)
        ensures
            match r {
                Ok(v) => self.inputs == Inputs::VaeDecode(*v),
                Err(e) => !(self.inputs is VaeDecode) && e.is_shape_mismatch(self.meta.title@),
            },
    {
        match &self.inputs {
            Inputs::VaeDecode(v) => Ok(v),
            _ => Err(AppError::ShapeMismatch(self.meta.title.clone())),
        }
    }

    pub fn vae_decode_mut(&mut self) -> (r: Result<&mut VaeDecode, AppError>)
        ensures
            match r {
                Ok(v) => old(self).inputs == Inputs::VaeDecode(*v) && *final(self) == (Node {
                    inputs: Inputs::VaeDecode(*final(v)),
                    ..*old(self)
                }),
                Err(e) => !(old(self).inputs is VaeDecode) && e.is_shape_mismatch(
                    old(self).meta.title@,
                ) && *final(self) == *old(self),
            },
    {
        match &mut self.inputs {
            Inputs::VaeDecode(v) => Ok(v),
            _ => Err(AppError::ShapeMismatch(self.meta.title.clone())),
        }
    }

    pub fn line_art_preprocessor(&self) -> (r: Result<&LineArtPreprocessor, AppError>)
        ensures
            match r {
                Ok(v) => self.inputs == Inputs::LineArtPreprocessor(*v),
                Err(e) => !(self.inputs is LineArtPreprocessor) && e.is_shape_mismatch(self.meta.title@),
            },
    {
        match &self.inputs {
            Inputs::LineArtPreprocessor(v) => Ok(v),
            _ => Err(AppError::ShapeMismatch(self.meta.title.clone())),
        }
    }

    pub fn line_art_preprocessor_mut(&mut self) -> (r: Result<&mut LineArtPreprocessor, AppError>)
        ensures
            match r {
                Ok(v) => old(self).inputs == Inputs::LineArtPreprocessor(*v) && *final(self) == (Node {
                    inputs: Inputs::LineArtPreprocessor(*final(v)),
                    ..*old(self)
                }),
                Err(e) => !(old(self).inputs is LineArtPreprocessor) && e.is_shape_mismatch(
                    old(self).meta.title@,
                ) && *final(self) == *old(self),
            },
    {
        match &mut self.inputs {
            Inputs::LineArtPreprocessor(v) => Ok(v),
            _ => Err(AppError::ShapeMismatch(self.meta.title.clone())),
        }
    }

    pub fn lineart_standard_preprocessor(&self) -> (r: Result<&LineartStandardPreprocessor, AppError>)
        ensures
            match r {
                Ok(v) => self.inputs == Inputs::LineartStandardPreprocessor(*v),
                Err(e) => !(self.inputs is LineartStandardPreprocessor) && e.is_shape_mismatch(self.meta.title@),
            },
    {
        match &self.inputs {
            Inputs::LineartStandardPreprocessor(v) => Ok(v),
            _ => Err(AppError::ShapeMismatch(self.meta.title.clone())),
        }
    }

    pub fn lineart_standard_preprocessor_mut(&mut self) -> (r: Result<&mut LineartStandardPreprocessor, AppError>)
        ensures
            match r {
                Ok(v) => old(self).inputs == Inputs::LineartStandardPreprocessor(*v) && *final(self) == (Node {
                    inputs: Inputs::LineartStandardPreprocessor(*final(v)),
                    ..*old(self)
                }),
                Err(e) => !(old(self).inputs is LineartStandardPreprocessor) && e.is_shape_mismatch(
                    old(self).meta.title@,
                ) && *final(self) == *old(self),
            },
    {
        match &mut self.inputs {
            Inputs::LineartStandardPreprocessor(v) => Ok(v),
            _ => Err(AppError::ShapeMismatch(self.meta.title.clone())),
        }
    }

    pub fn tile_preprocessor(&self) -> (r: Result<&TilePreprocessor, AppError>)
        ensures
            match r {
                Ok(v) => self.inputs == Inputs::TilePreprocessor(*v),
                Err(e) => !(self.inputs is TilePreprocessor) && e.is_shape_mismatch(self.meta.title@),
            },
    {
        match &self.inputs {
            Inputs::TilePreprocessor(v) => Ok(v),
            _ => Err(AppError::ShapeMismatch(self.meta.title.clone())),
        }
    }

    pub fn tile_preprocessor_mut(&mut self) -> (r: Result<&mut TilePreprocessor, AppError>)
        ensures
            match r {
                Ok(v) => old(self).inputs == Inputs::TilePreprocessor(*v) && *final(self) == (Node {
                    inputs: Inputs::TilePreprocessor(*final(v)),
                    ..*old(self)
                }),
                Err(e) => !(old(self).inputs is TilePreprocessor) && e.is_shape_mismatch(
                    old(self).meta.title@,
                ) && *final(self) == *old(self),
            },
    {
        match &mut self.inputs {
            Inputs::TilePreprocessor(v) => Ok(v),
            _ => Err(AppError::ShapeMismatch(self.meta.title.clone())),
        }
    }

    pub fn canny_edge_preprocessor(&self) -> (r: Result<&CannyEdgePreprocessor, AppError>)
        ensures
            match r {
                Ok(v) => self.inputs == Inputs::CannyEdgePreprocessor(*v),
                Err(e) => !(self.inputs is CannyEdgePreprocessor) && e.is_shape_mismatch(self.meta.title@),
            },
    {
        match &self.inputs {
            Inputs::CannyEdgePreprocessor(v) => Ok(v),
            _ => Err(AppError::ShapeMismatch(self.meta.title.clone())),
        }
    }

    pub fn canny_edge_preprocessor_mut(&mut self) -> (r: Result<&mut CannyEdgePreprocessor, AppError>)
        ensures
            match r {
                Ok(v) => old(self).inputs == Inputs::CannyEdgePreprocessor(*v) && *final(self) == (Node {
                    inputs: Inputs::CannyEdgePreprocessor(*final(v)),
                    ..*old(self)
                }),
                Err(e) => !(old(self).inputs is CannyEdgePreprocessor) && e.is_shape_mismatch(
                    old(self).meta.title@,
                ) && *final(self) == *old(self),
            },
    {
        match &mut self.inputs {
            Inputs::CannyEdgePreprocessor(v) => Ok(v),
            _ => Err(AppError::ShapeMismatch(self.meta.title.clone())),
        }
    }

    pub fn i_p_adapter_apply(&self) -> (r: Result<&IPAdapterApply, AppError>)
        ensures
            match r {
                Ok(v) => self.inputs == Inputs::IPAdapterApply(*v),
                Err(e) => !(self.inputs is IPAdapterApply) && e.is_shape_mismatch(self.meta.title@),
            },
    {
        match &self.inputs {
            Inputs::IPAdapterApply(v) => Ok(v),
            _ => Err(AppError::ShapeMismatch(self.meta.title.clone())),
        }
    }

    pub fn i_p_adapter_apply_mut(&mut self) -> (r: Result<&mut IPAdapterApply, AppError>)
        ensures
            match r {
                Ok(v) => old(self).inputs == Inputs::IPAdapterApply(*v) && *final(self) == (Node {
                    inputs: Inputs::IPAdapterApply(*final(v)),
                    ..*old(self)
                }),
                Err(e) => !(old(self).inputs is IPAdapterApply) && e.is_shape_mismatch(
                    old(self).meta.title@,
                ) && *final(self) == *old(self),
            },
    {
        match &mut self.inputs {
            Inputs::IPAdapterApply(v) => Ok(v),
            _ => Err(AppError::ShapeMismatch(self.meta.title.clone())),
        }
    }

    pub fn i_p_adapter_model_loader(&self) -> (r: Result<&IPAdapterModelLoader, AppError>)
        ensures
            match r {
                Ok(v) => self.inputs == Inputs::IPAdapterModelLoader(*v),
                Err(e) => !(self.inputs is IPAdapterModelLoader) && e.is_shape_mismatch(self.meta.title@),
            },
    {
        match &self.inputs {
            Inputs::IPAdapterModelLoader(v) => Ok(v),
            _ => Err(AppError::ShapeMismatch(self.meta.title.clone())),
        }
    }

    pub fn i_p_adapter_model_loader_mut(&mut self) -> (r: Result<&mut IPAdapterModelLoader, AppError>)
        ensures
            match r {
                Ok(v) => old(self).inputs == Inputs::IPAdapterModelLoader(*v) && *final(self) == (Node {
                    inputs: Inputs::IPAdapterModelLoader(*final(v)),
                    ..*old(self)
                }),
                Err(e) => !(old(self).inputs is IPAdapterModelLoader) && e.is_shape_mismatch(
                    old(self).meta.title@,
                ) && *final(self) == *old(self),
            },
    {
        match &mut self.inputs {
            Inputs::IPAdapterModelLoader(v) => Ok(v),
            _ => Err(AppError::ShapeMismatch(self.meta.title.clone())),
        }
    }

    pub fn c_l_i_p_vision_loader(&self) -> (r: Result<&CLIPVisionLoader, AppError>)
        ensures
            match r {
                Ok(v) => self.inputs == Inputs::CLIPVisionLoader(*v),
                Err(e) => !(self.inputs is CLIPVisionLoader) && e.is_shape_mismatch(self.meta.title@),
            },
    {
        match &self.inputs {
            Inputs::CLIPVisionLoader(v) => Ok(v),
            _ => Err(AppError::ShapeMismatch(self.meta.title.clone())),
        }
    }

    pub fn c_l_i_p_vision_loader_mut(&mut self) -> (r: Result<&mut CLIPVisionLoader, AppError>)
        ensures
            match r {
                Ok(v) => old(self).inputs == Inputs::CLIPVisionLoader(*v) && *final(self) == (Node {
                    inputs: Inputs::CLIPVisionLoader(*final(v)),
                    ..*old(self)
                }),
                Err(e) => !(old(self).inputs is CLIPVisionLoader) && e.is_shape_mismatch(
                    old(self).meta.title@,
                ) && *final(self) == *old(self),
            },
    {
        match &mut self.inputs {
            Inputs::CLIPVisionLoader(v) => Ok(v),
            _ => Err(AppError::ShapeMismatch(self.meta.title.clone())),
        }
    }

    pub fn text_string(&self) -> (r: Result<&TextString, AppError>)
        ensures
            match r {
                Ok(v) => self.inputs == Inputs::TextString(*v),
                Err(e) => !(self.inputs is TextString) && e.is_shape_mismatch(self.meta.title@),
            },
    {
        match &self.inputs {
            Inputs::TextString(v) => Ok(v),
            _ => Err(AppError::ShapeMismatch(self.meta.title.clone())),
        }
    }

    pub fn text_string_mut(&mut self) -> (r: Result<&mut TextString, AppError>)
        ensures
            match r {
                Ok(v) => old(self).inputs == Inputs::TextString(*v) && *final(self) == (Node {
                    inputs: Inputs::TextString(*final(v)),
                    ..*old(self)
                }),
                Err(e) => !(old(self).inputs is TextString) && e.is_shape_mismatch(
                    old(self).meta.title@,
                ) && *final(self) == *old(self),
            },
    {
        match &mut self.inputs {
            Inputs::TextString(v) => Ok(v),
            _ => Err(AppError::ShapeMismatch(self.meta.title.clone())),
        }
    }

    pub fn text_concat(&self) -> (r: Result<&TextConcat, AppError>)
        ensures
            match r {
                Ok(v) => self.inputs == Inputs::TextConcat(*v),
                Err(e) => !(self.inputs is TextConcat) && e.is_shape_mismatch(self.meta.title@),
            },
    {
        match &self.inputs {
            Inputs::TextConcat(v) => Ok(v),
            _ => Err(AppError::ShapeMismatch(self.meta.title.clone())),
        }
    }

    pub fn text_concat_mut(&mut self) -> (r: Result<&mut TextConcat, AppError>)
        ensures
            match r {
                Ok(v) => old(self).inputs == Inputs::TextConcat(*v) && *final(self) == (Node {
                    inputs: Inputs::TextConcat(*final(v)),
                    ..*old(self)
                }),
                Err(e) => !(old(self).inputs is TextConcat) && e.is_shape_mismatch(
                    old(self).meta.title@,
                ) && *final(self) == *old(self),
            },
    {
        match &mut self.inputs {
            Inputs::TextConcat(v) => Ok(v),
            _ => Err(AppError::ShapeMismatch(self.meta.title.clone())),
        }
    }

    pub fn tagger(&self) -> (r: Result<&Tagger, AppError>)
        ensures
            match r {
                Ok(v) => self.inputs == Inputs::Tagger(*v),
                Err(e) => !(self.inputs is Tagger) && e.is_shape_mismatch(self.meta.title@),
            },
    {
        match &self.inputs {
            Inputs::Tagger(v) => Ok(v),
            _ => Err(AppError::ShapeMismatch(self.meta.title.clone())),
        }
    }

    pub fn tagger_mut(&mut self) -> (r: Result<&mut Tagger, AppError>)
        ensures
            match r {
                Ok(v) => old(self).inputs == Inputs::Tagger(*v) && *final(self) == (Node {
                    inputs: Inputs::Tagger(*final(v)),
                    ..*old(self)
                }),
                Err(e) => !(old(self).inputs is Tagger) && e.is_shape_mismatch(
                    old(self).meta.title@,
                ) && *final(self) == *old(self),
            },
    {
        match &mut self.inputs {
            Inputs::Tagger(v) => Ok(v),
            _ => Err(AppError::ShapeMismatch(self.meta.title.clone())),
        }
    }
}

} // verus!
