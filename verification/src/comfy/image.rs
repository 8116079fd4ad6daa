use vstd::prelude::*;
use crate::comfy::{edge_view, EdgeRef};
use crate::fixed::Fixed;

verus! {

/// A preprocessor chosen by name.
#[derive(Debug)]
pub struct ImagePreprocessor {
    /// The backend's name of the preprocessor.
    pub preprocessor: String,
    pub resolution: u16,
    pub image: Option<EdgeRef>,
}

/// The plain image saver.
#[derive(Debug)]
pub struct SaveImage {
    pub filename_prefix: String,
    pub images: Option<EdgeRef>,
}

/// The image saver with a path and naming options.
#[derive(Debug)]
pub struct ImageSave {
    pub output_path: String,
    pub filename_prefix: String,
    pub filename_delimiter: String,
    pub filename_number_padding: u8,
    pub filename_number_start: String,
    pub extension: String,
    pub quality: u8,
    pub lossless_webp: String,
    pub overwrite_mode: String,
    pub show_history: String,
    pub show_history_by_prefix: String,
    pub embed_workflow: String,
    pub show_previews: String,
    pub images: Option<EdgeRef>,
}

/// The saver of an upscaled image.
#[derive(Debug)]
pub struct UpscaleSaveImage {
    pub filename_prefix: String,
    pub images: Option<EdgeRef>,
}

/// The image loader.
#[derive(Debug)]
pub struct LoadImage {
    /// The file's name in the backend's input directory.
    pub image: String,
    pub upload: String,
}

/// Scales an image so that one side has a given length.
#[derive(Debug)]
pub struct ImageScaleSide {
    pub side_length: u16,
    /// `Longest`, `Width` or `Height`.
    pub side: String,
    pub upscale_method: String,
    pub crop: String,
    pub image: Option<EdgeRef>,
}

/// Upscales an image with a model.
#[derive(Debug)]
pub struct UpscaleImage {
    pub upscale_model: String,
    /// `rescale` or `resize`.
    pub mode: String,
    pub rescale_factor: Fixed,
    pub resize_width: u16,
    pub resampling_method: String,
    pub supersample: String,
    pub rounding_modulus: u16,
    pub image: Option<EdgeRef>,
}

/// Crops an image to a target size.
#[derive(Debug)]
pub struct CropImage {
    pub target_w: u16,
    pub target_h: u16,
    pub crop_position: String,
    pub offset: i32,
    pub interpolation: String,
    pub sharpening: Fixed,
    pub image: Option<EdgeRef>,
}

/// Adjusts brightness, contrast and the like.
#[derive(Debug)]
pub struct ImageFilter {
    pub brightness: Fixed,
    pub contrast: Fixed,
    pub saturation: Fixed,
    pub sharpness: Fixed,
    /// From 0 to 16.
    pub blur: u8,
    pub gaussian_blur: Fixed,
    pub edge_enhance: Fixed,
    pub detail_enhance: String,
    pub image: Option<EdgeRef>,
}

/// An image of one colour.
#[derive(Debug)]
pub struct EmptyImage {
    pub width: u16,
    pub height: u16,
    pub batch_size: u8,
    pub color: u32,
}

/// Removes the background of an image.
#[derive(Debug)]
pub struct ImageRembg {
    pub model_name: String,
    pub image: Option<EdgeRef>,
}

/// Describes an image by tags.
#[derive(Debug)]
pub struct Tagger {
    pub model: String,
    pub threshold: Fixed,
    pub character_threshold: Fixed,
    pub replace_underscore: bool,
    pub trailing_comma: bool,
    pub exclude_tags: String,
    pub image: Option<EdgeRef>,
}

impl LoadImage {
    /// Whether `self` is `before` with the file `name` to load.
    pub open spec fn loading(&self, before: &LoadImage, name: Seq<char>) -> bool {
        self.image@ == name && self.upload == before.upload
    }

    /// Sets the file to load.
    pub fn set_image(&mut self, name: &str)
        ensures
            final(self).loading(old(self), name@),
    {
        self.image = name.to_owned();
    }
}

impl ImageSave {
    /// Whether `self` is `before` with the files' prefix and the output
    /// path set, all else kept.
    pub open spec fn saving(&self, before: &ImageSave, prefix: Seq<char>, path: Seq<char>) -> bool {
        &&& self.filename_prefix@ == prefix
        &&& self.output_path@ == path
        &&& *self == (ImageSave {
            filename_prefix: self.filename_prefix,
            output_path: self.output_path,
            ..*before
        })
    }

    /// Sets the files' prefix and the output path.
    pub fn set_target(&mut self, prefix: String, path: &str)
        ensures
            final(self).saving(old(self), prefix@, path@),
    {
        self.filename_prefix = prefix;
        self.output_path = path.to_owned();
    }
}

impl ImageScaleSide {
    /// Sets the length that the side is scaled to.
    pub fn set_side_length(&mut self, side_length: u16)
        ensures
            *final(self) == (ImageScaleSide { side_length, ..*old(self) }),
    {
        self.side_length = side_length;
    }
}

impl CropImage {
    /// Sets the size that the image is cropped to.
    pub fn set_target(&mut self, w: u16, h: u16)
        ensures
            *final(self) == (CropImage { target_w: w, target_h: h, ..*old(self) }),
    {
        self.target_w = w;
        self.target_h = h;
    }
}

impl EmptyImage {
    /// Sets the size, the batch size and the colour.
    pub fn fill(&mut self, w: u16, h: u16, batch_size: u8, color: u32)
        ensures
            *final(self) == (EmptyImage { width: w, height: h, batch_size, color }),
    {
        self.width = w;
        self.height = h;
        self.batch_size = batch_size;
        self.color = color;
    }
}

impl Tagger {
    /// Whether `self` is `before` with the model set and the image wired to
    /// output `slot` of the node `id`, all else kept.
    pub open spec fn attached_of(
        &self,
        before: &Tagger,
        model: Seq<char>,
        id: Seq<char>,
        slot: usize,
    ) -> bool {
        &&& self.model@ == model
        &&& edge_view(self.image) == Some((id, slot))
        &&& *self == (Tagger { model: self.model, image: self.image, ..*before })
    }

    /// Sets the model and wires the image.
    pub fn attach(&mut self, model: &str, image: EdgeRef)
        ensures
            final(self).attached_of(old(self), model@, image.id@, image.slot),
    {
        self.model = model.to_owned();
        self.image = Some(image);
    }
}

impl ImageRembg {
    /// Whether `self` is `before` with the model set, its image kept.
    pub open spec fn modelled_of(&self, before: &ImageRembg, model_name: Seq<char>) -> bool {
        self.model_name@ == model_name && self.image == before.image
    }

    /// Sets the model.
    pub fn set_model(&mut self, model_name: &str)
        ensures
            final(self).modelled_of(old(self), model_name@),
    {
        self.model_name = model_name.to_owned();
    }
}

impl ImagePreprocessor {
    /// Whether `self` is `before` with the preprocessor and the resolution
    /// set, its image kept.
    pub open spec fn chosen_of(
        &self,
        before: &ImagePreprocessor,
        preprocessor: Seq<char>,
        resolution: u16,
    ) -> bool {
        &&& self.preprocessor@ == preprocessor
        &&& self.resolution == resolution
        &&& self.image == before.image
    }

    /// Sets the preprocessor and the resolution.
    pub fn select(&mut self, preprocessor: &str, resolution: u16)
        ensures
            final(self).chosen_of(old(self), preprocessor@, resolution),
    {
        self.preprocessor = preprocessor.to_owned();
        self.resolution = resolution;
    }
}

impl ImageFilter {
    /// Whether `self` is `before` with the image wired to output `slot` of
    /// the node `id`, the adjustments kept.
    pub open spec fn fed_of(&self, before: &ImageFilter, id: Seq<char>, slot: usize) -> bool {
        &&& edge_view(self.image) == Some((id, slot))
        &&& *self == (ImageFilter { image: self.image, ..*before })
    }

    /// Wires the image.
    pub fn set_image(&mut self, image: EdgeRef)
        ensures
            final(self).fed_of(old(self), image.id@, image.slot),
    {
        self.image = Some(image);
    }
}

} // verus!
