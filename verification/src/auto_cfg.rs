use vstd::prelude::*;
use crate::comfy::control_net::IdxControlNet;
use crate::comfy::lora::IdxLoRA;
use crate::error::AppError;
use crate::fixed::Fixed;

verus! {

/// How far the driver has come: which catalog is active, and which
/// repetition of it.
#[derive(Debug)]
pub struct AppState {
    /// The file that the state is kept in.
    pub db_file: String,
    /// The number of the active catalog, counted from 0.
    pub cfg_idx: usize,
    /// The number of the active repetition of that catalog, counted from 0.
    pub total_idx: usize,
}

impl AppState {
    /// The state at the start: the first repetition of the first catalog.
    pub fn new(db_file: String) -> (r: AppState)
        ensures
            r.db_file == db_file,
            r.cfg_idx == 0,
            r.total_idx == 0,
    {
        AppState { db_file, cfg_idx: 0, total_idx: 0 }
    }

    /// Goes back to the start.
    pub fn clean(&mut self)
        ensures
            final(self).cfg_idx == 0,
            final(self).total_idx == 0,
            final(self).db_file == old(self).db_file,
    {
        self.cfg_idx = 0;
        self.total_idx = 0;
    }

    /// Sets both counters.
    pub fn update(&mut self, cfg_idx: usize, total_idx: usize)
        ensures
            final(self).cfg_idx == cfg_idx,
            final(self).total_idx == total_idx,
            final(self).db_file == old(self).db_file,
    {
        self.cfg_idx = cfg_idx;
        self.total_idx = total_idx;
    }
}

/// What the driver is configured with: the backend's address and the
/// catalog files, in the order in which they are worked through.
#[derive(Debug)]
pub struct AppCfg {
    pub comfy_api: String,
    pub auto_cfgs: Vec<String>,
}

/// A parameter catalog: which roles of a graph to randomize, and within what
/// bounds.
#[derive(Debug)]
pub struct AutoCfg {
    /// The template graphs.
    pub workflows: Vec<String>,
    /// How many repetitions the catalog is run for.
    pub total: usize,
    /// How many graphs are submitted for each set of parameters; they differ
    /// in their seed only.
    pub ct_per_params: usize,
    pub efficient: AEfficient,
    pub sampler: ASampler,
    pub save_image: ASaveImage,
    pub load_image: Option<ALoadImage>,
    pub image_filter: Option<AImageFilter>,
    pub ctrlnet_stack: Option<ACtrlnetStack>,
    pub lora_stack: Option<ALoraStack>,
    pub lora_stacker: Option<ALoraStacker>,
    /// An image of one colour as the input of image-to-image generation.
    pub empty_image: Option<AEmptyImage>,
    pub image_rembg: Option<AImageRembg>,
    pub ip_adapter: Option<AIPAdapter>,
    pub tagger: Option<ATagger>,
}

/// The entry of the image of one colour: whether it is sized, and its colour.
#[derive(Debug)]
pub struct AEmptyImage {
    pub title: String,
    pub switch: bool,
    pub color: u32,
}

/// The entry of background removal: the node, and the model that it uses.
#[derive(Debug)]
pub struct AImageRembg {
    pub title: String,
    pub switch: bool,
    pub model_name: String,
}

/// The entry of the image loader.
#[derive(Debug)]
pub struct ALoadImage {
    pub title: String,
    /// The pool of input images, which is gone through in turn.
    pub images: Vec<String>,
}

/// The filter's adjustments; one that is absent leaves the graph's value.
#[derive(Debug)]
pub struct AImageFilter {
    pub title: String,
    pub switch: bool,
    pub brightness: Option<Fixed>,
    pub contrast: Option<Fixed>,
    pub saturation: Option<Fixed>,
    pub sharpness: Option<Fixed>,
    /// From 0 to 16.
    pub blur: Option<u8>,
    pub gaussian_blur: Option<Fixed>,
    pub edge_enhance: Option<Fixed>,
    pub detail_enhance: Option<String>,
}

/// The entry of the image saver: the node, the output path, and the prefix of
/// the files where the catalog has no pool of images.
#[derive(Debug)]
pub struct ASaveImage {
    pub title: String,
    pub output_path: String,
    pub filename_prefix: String,
}

/// The entry of the tagger: the node, and the model that it uses.
#[derive(Debug)]
pub struct ATagger {
    pub title: String,
    pub switch: bool,
    pub model: String,
}

impl Default for ATagger {
    fn default() -> (r: Self)
        ensures
            !r.switch,
            r.title@ == Seq::<char>::empty(),
            r.model@ == Seq::<char>::empty(),
    {
        ATagger { title: String::new(), switch: false, model: String::new() }
    }
}

/// The entry of the adapter: the node, the ranges of weight, noise and bounds,
/// and the candidate reference images.
#[derive(Debug)]
pub struct AIPAdapter {
    pub title: String,
    pub switch: bool,
    pub weight_min: Fixed,
    pub weight_max: Fixed,
    pub noise_min: Fixed,
    pub noise_max: Fixed,
    pub start_min: Fixed,
    pub start_max: Fixed,
    pub end_min: Fixed,
    pub end_max: Fixed,
    /// The candidate reference images.
    pub image: Vec<String>,
}

/// The entry of a LoRA stack: for each of its three slots a switch, the
/// candidate models and the range of the strength.
#[derive(Debug)]
pub struct ALoraStack {
    pub title: String,
    pub switch_1: bool,
    pub model_name_1: Vec<String>,
    pub strength_min_1: Fixed,
    pub strength_max_1: Fixed,
    pub switch_2: bool,
    pub model_name_2: Vec<String>,
    pub strength_min_2: Fixed,
    pub strength_max_2: Fixed,
    pub switch_3: bool,
    pub model_name_3: Vec<String>,
    pub strength_min_3: Fixed,
    pub strength_max_3: Fixed,
}

impl ALoraStack {
    /// Whether slot `idx` is switched on. A stack has three slots.
    pub open spec fn enabled(&self, idx: IdxLoRA) -> bool {
        match idx {
            IdxLoRA::LoRA1 => self.switch_1,
            IdxLoRA::LoRA2 => self.switch_2,
            IdxLoRA::LoRA3 => self.switch_3,
            IdxLoRA::LoRA4 => false,
        }
    }

    /// The candidate models of slot `idx`.
    pub open spec fn names(&self, idx: IdxLoRA) -> Seq<String> {
        match idx {
            IdxLoRA::LoRA1 => self.model_name_1@,
            IdxLoRA::LoRA2 => self.model_name_2@,
            _ => self.model_name_3@,
        }
    }

    /// The least strength of slot `idx`.
    pub open spec fn strength_min(&self, idx: IdxLoRA) -> Fixed {
        match idx {
            IdxLoRA::LoRA1 => self.strength_min_1,
            IdxLoRA::LoRA2 => self.strength_min_2,
            _ => self.strength_min_3,
        }
    }

    /// The greatest strength of slot `idx`.
    pub open spec fn strength_max(&self, idx: IdxLoRA) -> Fixed {
        match idx {
            IdxLoRA::LoRA1 => self.strength_max_1,
            IdxLoRA::LoRA2 => self.strength_max_2,
            _ => self.strength_max_3,
        }
    }

    /// Whether any slot is switched on.
    pub open spec fn spec_switch(&self) -> bool {
        self.switch_1 || self.switch_2 || self.switch_3
    }

    /// Whether any slot is switched on.
    #[verifier::when_used_as_spec(spec_switch)]
    pub fn switch(&self) -> (r: bool)
        ensures
            r == self.spec_switch(),
    {
        self.switch_1 || self.switch_2 || self.switch_3
    }
}

/// The entry of a LoRA stacker: how many slots are in use, and for each of its
/// four slots the candidate models and the range of the strength.
#[derive(Debug)]
pub struct ALoraStacker {
    pub title: String,
    /// How many slots are in use, counted from the first.
    pub lora_count: u8,
    pub model_name_1: Vec<String>,
    pub strength_min_1: Fixed,
    pub strength_max_1: Fixed,
    pub model_name_2: Vec<String>,
    pub strength_min_2: Fixed,
    pub strength_max_2: Fixed,
    pub model_name_3: Vec<String>,
    pub strength_min_3: Fixed,
    pub strength_max_3: Fixed,
    pub model_name_4: Vec<String>,
    pub strength_min_4: Fixed,
    pub strength_max_4: Fixed,
}

impl ALoraStacker {
    /// Whether slot `idx` is in use: the slots are used from the first up
    /// to the count.
    pub open spec fn enabled(&self, idx: IdxLoRA) -> bool {
        match idx {
            IdxLoRA::LoRA1 => self.lora_count >= 1,
            IdxLoRA::LoRA2 => self.lora_count >= 2,
            IdxLoRA::LoRA3 => self.lora_count >= 3,
            IdxLoRA::LoRA4 => self.lora_count >= 4,
        }
    }

    /// The candidate models of slot `idx`.
    pub open spec fn names(&self, idx: IdxLoRA) -> Seq<String> {
        match idx {
            IdxLoRA::LoRA1 => self.model_name_1@,
            IdxLoRA::LoRA2 => self.model_name_2@,
            IdxLoRA::LoRA3 => self.model_name_3@,
            IdxLoRA::LoRA4 => self.model_name_4@,
        }
    }

    /// The least strength of slot `idx`.
    pub open spec fn strength_min(&self, idx: IdxLoRA) -> Fixed {
        match idx {
            IdxLoRA::LoRA1 => self.strength_min_1,
            IdxLoRA::LoRA2 => self.strength_min_2,
            IdxLoRA::LoRA3 => self.strength_min_3,
            IdxLoRA::LoRA4 => self.strength_min_4,
        }
    }

    /// The greatest strength of slot `idx`.
    pub open spec fn strength_max(&self, idx: IdxLoRA) -> Fixed {
        match idx {
            IdxLoRA::LoRA1 => self.strength_max_1,
            IdxLoRA::LoRA2 => self.strength_max_2,
            IdxLoRA::LoRA3 => self.strength_max_3,
            IdxLoRA::LoRA4 => self.strength_max_4,
        }
    }
}

/// The entry of the sampler: the ranges of iteration count, guidance strength
/// and denoise strength, and the candidate samplers and schedulers.
#[derive(Debug)]
pub struct ASampler {
    pub title: String,
    pub steps_min: u8,
    pub steps_max: u8,
    pub cfg_min: Fixed,
    pub cfg_max: Fixed,
    pub denoise_min: Fixed,
    pub denoise_max: Fixed,
    pub sampler_name: Vec<String>,
    pub scheduler: Vec<String>,
}

/// The entry of the control-net stack: the settings of the preprocessors, and
/// for each of its three slots a switch, the candidate types, preprocessors
/// and resolutions, and the ranges of bounds and strength.
#[derive(Debug)]
pub struct ACtrlnetStack {
    pub title: String,
    /// The thresholds of the Canny preprocessor; a low threshold of 0 has
    /// them drawn at random.
    pub canny_low_threshold: u8,
    pub canny_high_threshold: u8,
    /// The iterations of the tile preprocessor; 0 has them drawn at random.
    pub tile_pyrup_iters: u8,
    pub switch_1: bool,
    pub ctrl_type_1: Vec<String>,
    pub processor_1: Vec<String>,
    pub start_min_1: Fixed,
    pub start_max_1: Fixed,
    pub end_min_1: Fixed,
    pub end_max_1: Fixed,
    pub strength_min_1: Fixed,
    pub strength_max_1: Fixed,
    pub resolution_1: Vec<u16>,
    pub switch_2: bool,
    pub ctrl_type_2: Vec<String>,
    pub processor_2: Vec<String>,
    pub start_min_2: Fixed,
    pub start_max_2: Fixed,
    pub end_min_2: Fixed,
    pub end_max_2: Fixed,
    pub strength_min_2: Fixed,
    pub strength_max_2: Fixed,
    pub resolution_2: Vec<u16>,
    pub switch_3: bool,
    pub ctrl_type_3: Vec<String>,
    pub processor_3: Vec<String>,
    pub start_min_3: Fixed,
    pub start_max_3: Fixed,
    pub end_min_3: Fixed,
    pub end_max_3: Fixed,
    pub strength_min_3: Fixed,
    pub strength_max_3: Fixed,
    pub resolution_3: Vec<u16>,
}

/// The catalog entry of one control-net slot.
#[derive(Debug)]
pub struct ACtrlnet<'a> {
    pub ctrl_type: &'a Vec<String>,
    /// Readable preprocessor names; where there are none, every
    /// preprocessor of the chosen type is a candidate.
    pub preprocessor: &'a Vec<String>,
    pub start_min: Fixed,
    pub start_max: Fixed,
    pub end_min: Fixed,
    pub end_max: Fixed,
    pub strength_min: Fixed,
    pub strength_max: Fixed,
    /// Candidate resolutions; 0 stands for the width of the image.
    pub resolution: &'a Vec<u16>,
}

impl ACtrlnetStack {
    /// Whether any slot is switched on.
    pub open spec fn spec_switch(&self) -> bool {
        self.switch_1 || self.switch_2 || self.switch_3
    }

    /// Whether any slot is switched on.
    #[verifier::when_used_as_spec(spec_switch)]
    pub fn switch(&self) -> (r: bool)
        ensures
            r == self.spec_switch(),
    {
        self.switch_1 || self.switch_2 || self.switch_3
    }

    /// Whether slot `idx` is switched on.
    pub open spec fn enabled(&self, idx: IdxControlNet) -> bool {
        match idx {
            IdxControlNet::ControlNet1 => self.switch_1,
            IdxControlNet::ControlNet2 => self.switch_2,
            IdxControlNet::ControlNet3 => self.switch_3,
        }
    }

    /// The catalog entry of slot `idx`, whether switched on or not.
    pub open spec fn entry(&self, idx: IdxControlNet) -> ACtrlnet<'_> {
        match idx {
            IdxControlNet::ControlNet1 => ACtrlnet {
                ctrl_type: &self.ctrl_type_1,
                preprocessor: &self.processor_1,
                start_min: self.start_min_1,
                start_max: self.start_max_1,
                end_min: self.end_min_1,
                end_max: self.end_max_1,
                strength_min: self.strength_min_1,
                strength_max: self.strength_max_1,
                resolution: &self.resolution_1,
            },
            IdxControlNet::ControlNet2 => ACtrlnet {
                ctrl_type: &self.ctrl_type_2,
                preprocessor: &self.processor_2,
                start_min: self.start_min_2,
                start_max: self.start_max_2,
                end_min: self.end_min_2,
                end_max: self.end_max_2,
                strength_min: self.strength_min_2,
                strength_max: self.strength_max_2,
                resolution: &self.resolution_2,
            },
            IdxControlNet::ControlNet3 => ACtrlnet {
                ctrl_type: &self.ctrl_type_3,
                preprocessor: &self.processor_3,
                start_min: self.start_min_3,
                start_max: self.start_max_3,
                end_min: self.end_min_3,
                end_max: self.end_max_3,
                strength_min: self.strength_min_3,
                strength_max: self.strength_max_3,
                resolution: &self.resolution_3,
            },
        }
    }

    /// The catalog entry of slot `idx`, if the slot is switched on.
    pub fn cfg(&self, idx: &IdxControlNet) -> (r: Option<ACtrlnet<'_>>)
        ensures
            r == if self.enabled(*idx) {
                Some(self.entry(*idx))
            } else {
                None
            },
    {
        match idx {
            IdxControlNet::ControlNet1 => {
                if self.switch_1 {
                    Some(
                        ACtrlnet {
                            ctrl_type: &self.ctrl_type_1,
                            preprocessor: &self.processor_1,
                            start_min: self.start_min_1,
                            start_max: self.start_max_1,
                            end_min: self.end_min_1,
                            end_max: self.end_max_1,
                            strength_min: self.strength_min_1,
                            strength_max: self.strength_max_1,
                            resolution: &self.resolution_1,
                        },
                    )
                } else {
                    None
                }
            },
            IdxControlNet::ControlNet2 => {
                if self.switch_2 {
                    Some(
                        ACtrlnet {
                            ctrl_type: &self.ctrl_type_2,
                            preprocessor: &self.processor_2,
                            start_min: self.start_min_2,
                            start_max: self.start_max_2,
                            end_min: self.end_min_2,
                            end_max: self.end_max_2,
                            strength_min: self.strength_min_2,
                            strength_max: self.strength_max_2,
                            resolution: &self.resolution_2,
                        },
                    )
                } else {
                    None
                }
            },
            IdxControlNet::ControlNet3 => {
                if self.switch_3 {
                    Some(
                        ACtrlnet {
                            ctrl_type: &self.ctrl_type_3,
                            preprocessor: &self.processor_3,
                            start_min: self.start_min_3,
                            start_max: self.start_max_3,
                            end_min: self.end_min_3,
                            end_max: self.end_max_3,
                            strength_min: self.strength_min_3,
                            strength_max: self.strength_max_3,
                            resolution: &self.resolution_3,
                        },
                    )
                } else {
                    None
                }
            },
        }
    }
}

/// The entry of the loader: the candidate prompts, VAEs and numbers of skipped
/// layers, the size, the batch size, the checkpoint and the reading of
/// weights.
#[derive(Debug)]
pub struct AEfficient {
    pub title: String,
    pub positive: Vec<String>,
    pub negative: Vec<String>,
    pub width: u16,
    pub height: u16,
    pub batch_size: u8,
    pub vae_name: Vec<String>,
    pub clip_skip: Vec<i8>,
    pub ckpt_name: String,
    pub weight_interpretation: String,
}

impl ASampler {
    /// Whether the entry gives a sampler and a scheduler to draw from.
    pub open spec fn complete(&self) -> bool {
        self.sampler_name@.len() > 0 && self.scheduler@.len() > 0
    }
}

impl AEfficient {
    /// Whether the entry gives prompts, a VAE and a number of skipped
    /// layers to draw from.
    pub open spec fn complete(&self) -> bool {
        &&& self.positive@.len() > 0
        &&& self.negative@.len() > 0
        &&& self.vae_name@.len() > 0
        &&& self.clip_skip@.len() > 0
    }
}

impl ALoadImage {
    /// Whether the pool holds an image.
    pub open spec fn complete(&self) -> bool {
        self.images@.len() > 0
    }
}

impl ALoraStack {
    /// Whether each slot that is switched on has a model to draw from.
    pub open spec fn complete(&self) -> bool {
        forall|idx: IdxLoRA| self.enabled(idx) ==> (#[trigger] self.names(idx)).len() > 0
    }

    fn check(&self) -> (r: bool)
        ensures
            r == self.complete(),
    {
        let r = (!self.switch_1 || self.model_name_1.len() > 0) && (!self.switch_2
            || self.model_name_2.len() > 0) && (!self.switch_3 || self.model_name_3.len() > 0);
        proof {
            if r {
                assert forall|idx: IdxLoRA| self.enabled(idx) implies (#[trigger] self.names(
                    idx,
                )).len() > 0 by {
                    match idx {
                        IdxLoRA::LoRA1 => {},
                        IdxLoRA::LoRA2 => {},
                        IdxLoRA::LoRA3 => {},
                        IdxLoRA::LoRA4 => {},
                    }
                }
            } else {
                if self.switch_1 && self.model_name_1@.len() == 0 {
                    assert(self.enabled(IdxLoRA::LoRA1) && self.names(IdxLoRA::LoRA1).len() == 0);
                } else if self.switch_2 && self.model_name_2@.len() == 0 {
                    assert(self.enabled(IdxLoRA::LoRA2) && self.names(IdxLoRA::LoRA2).len() == 0);
                } else {
                    assert(self.enabled(IdxLoRA::LoRA3) && self.names(IdxLoRA::LoRA3).len() == 0);
                }
            }
        }
        r
    }
}

impl ALoraStacker {
    /// Whether each slot that is in use has a model to draw from.
    pub open spec fn complete(&self) -> bool {
        forall|idx: IdxLoRA| self.enabled(idx) ==> (#[trigger] self.names(idx)).len() > 0
    }

    fn check(&self) -> (r: bool)
        ensures
            r == self.complete(),
    {
        let n = self.lora_count;
        let r = (n < 1 || self.model_name_1.len() > 0) && (n < 2 || self.model_name_2.len() > 0)
            && (n < 3 || self.model_name_3.len() > 0) && (n < 4 || self.model_name_4.len() > 0);
        proof {
            if r {
                assert forall|idx: IdxLoRA| self.enabled(idx) implies (#[trigger] self.names(
                    idx,
                )).len() > 0 by {
                    match idx {
                        IdxLoRA::LoRA1 => {},
                        IdxLoRA::LoRA2 => {},
                        IdxLoRA::LoRA3 => {},
                        IdxLoRA::LoRA4 => {},
                    }
                }
            } else {
                if n >= 1 && self.model_name_1@.len() == 0 {
                    assert(self.enabled(IdxLoRA::LoRA1) && self.names(IdxLoRA::LoRA1).len() == 0);
                } else if n >= 2 && self.model_name_2@.len() == 0 {
                    assert(self.enabled(IdxLoRA::LoRA2) && self.names(IdxLoRA::LoRA2).len() == 0);
                } else if n >= 3 && self.model_name_3@.len() == 0 {
                    assert(self.enabled(IdxLoRA::LoRA3) && self.names(IdxLoRA::LoRA3).len() == 0);
                } else {
                    assert(self.enabled(IdxLoRA::LoRA4) && self.names(IdxLoRA::LoRA4).len() == 0);
                }
            }
        }
        r
    }
}

impl ACtrlnetStack {
    /// Whether each slot that is switched on has a control-net type and a
    /// resolution to draw from.
    pub open spec fn complete(&self) -> bool {
        forall|idx: IdxControlNet|
            self.enabled(idx) ==> (#[trigger] self.entry(idx)).ctrl_type@.len() > 0 && self.entry(
                idx,
            ).resolution@.len() > 0
    }

    fn check(&self) -> (r: bool)
        ensures
            r == self.complete(),
    {
        let r = (!self.switch_1 || (self.ctrl_type_1.len() > 0 && self.resolution_1.len() > 0))
            && (!self.switch_2 || (self.ctrl_type_2.len() > 0 && self.resolution_2.len() > 0))
            && (!self.switch_3 || (self.ctrl_type_3.len() > 0 && self.resolution_3.len() > 0));
        proof {
            let one = IdxControlNet::ControlNet1;
            let two = IdxControlNet::ControlNet2;
            let three = IdxControlNet::ControlNet3;
            assert(self.entry(one).ctrl_type@ == self.ctrl_type_1@);
            assert(self.entry(two).ctrl_type@ == self.ctrl_type_2@);
            assert(self.entry(three).ctrl_type@ == self.ctrl_type_3@);
            assert(self.entry(one).resolution@ == self.resolution_1@);
            assert(self.entry(two).resolution@ == self.resolution_2@);
            assert(self.entry(three).resolution@ == self.resolution_3@);
            if r {
                assert forall|idx: IdxControlNet| self.enabled(idx) implies (#[trigger] self.entry(
                    idx,
                )).ctrl_type@.len() > 0 && self.entry(idx).resolution@.len() > 0 by {
                    match idx {
                        IdxControlNet::ControlNet1 => {},
                        IdxControlNet::ControlNet2 => {},
                        IdxControlNet::ControlNet3 => {},
                    }
                }
            }
        }
        r
    }
}

impl AIPAdapter {
    /// Whether the entry, where it is switched on, has a reference image to
    /// draw from.
    pub open spec fn complete(&self) -> bool {
        self.switch ==> self.image@.len() > 0
    }
}

impl AutoCfg {
    /// The title of the first section of the catalog that lacks a candidate
    /// for something that it has switched on, in the order sampler, loader,
    /// image pool, LoRA stack, LoRA stacker, control-net stack, adapter.
    pub open spec fn missing(&self) -> Option<Seq<char>> {
        if !self.sampler.complete() {
            Some(self.sampler.title@)
        } else if !self.efficient.complete() {
            Some(self.efficient.title@)
        } else if self.load_image matches Some(a) && !a.complete() {
            Some(self.load_image->Some_0.title@)
        } else if self.lora_stack matches Some(a) && !a.complete() {
            Some(self.lora_stack->Some_0.title@)
        } else if self.lora_stacker matches Some(a) && !a.complete() {
            Some(self.lora_stacker->Some_0.title@)
        } else if self.ctrlnet_stack matches Some(a) && !a.complete() {
            Some(self.ctrlnet_stack->Some_0.title@)
        } else if self.ip_adapter matches Some(a) && !a.complete() {
            Some(self.ip_adapter->Some_0.title@)
        } else {
            None
        }
    }

    /// Whether every section of the catalog has a candidate for each thing
    /// that it has switched on.
    pub open spec fn valid(&self) -> bool {
        self.missing() is None
    }

    /// Checks that the catalog has a candidate for each thing that it has
    /// switched on. The error is the missing configuration of the first
    /// section that lacks one.
    pub fn check(&self) -> (r: Result<(), AppError>)
        ensures
            match r {
                Ok(_) => self.valid(),
                Err(e) => self.missing() matches Some(title) && e.is_missing_config(title),
            },
    {
        if self.sampler.sampler_name.len() == 0 || self.sampler.scheduler.len() == 0 {
            return Err(AppError::MissingConfig(self.sampler.title.clone()));
        }
        let ec = &self.efficient;
        if ec.positive.len() == 0 || ec.negative.len() == 0 || ec.vae_name.len() == 0
            || ec.clip_skip.len() == 0 {
            return Err(AppError::MissingConfig(ec.title.clone()));
        }
        if let Some(a) = &self.load_image {
            if a.images.len() == 0 {
                return Err(AppError::MissingConfig(a.title.clone()));
            }
        }
        if let Some(a) = &self.lora_stack {
            if !a.check() {
                return Err(AppError::MissingConfig(a.title.clone()));
            }
        }
        if let Some(a) = &self.lora_stacker {
            if !a.check() {
                return Err(AppError::MissingConfig(a.title.clone()));
            }
        }
        if let Some(a) = &self.ctrlnet_stack {
            if !a.check() {
                return Err(AppError::MissingConfig(a.title.clone()));
            }
        }
        if let Some(a) = &self.ip_adapter {
            if a.switch && a.image.len() == 0 {
                return Err(AppError::MissingConfig(a.title.clone()));
            }
        }
        Ok(())
    }
}

} // verus!
