//! Unattended batch generation of images through a node-graph backend: a
//! typed model of the backend's graph, and the engine that derives the graph
//! of each repetition from a template and a parameter catalog.

pub mod auto_cfg;
pub mod comfy;
pub mod driver;
pub mod engine;
pub mod error;
pub mod fixed;
pub mod generator;
pub mod lookup;
pub mod post;
pub mod rng;
pub mod style;
pub mod wiring;

pub use auto_cfg::{
    ACtrlnet, ACtrlnetStack, AEfficient, AEmptyImage, AIPAdapter, AImageFilter, AImageRembg,
    ALoadImage, ALoraStack, ALoraStacker, ASampler, ASaveImage, ATagger, AppCfg, AppState, AutoCfg,
};
pub use comfy::api::{ExecInfo, Status, StatusMsg};
pub use comfy::control_net::{
    CnCfg, Ctrlnet, CtrlnetStack, IdxControlNet, CNT_ANIME_LINEART, CNT_CANNY, CNT_DEPTH,
    CNT_LINEART, CNT_NORMAL_MAP, CNT_OPENPOSE, CNT_SEGMENTATION, CNT_SOFT_EDGE, CNT_TILE,
};
pub use comfy::efficient::{EfficientLoader, LoaderCfg, Prompt};
pub use comfy::image::{
    CropImage, EmptyImage, ImageFilter, ImagePreprocessor, ImageRembg, ImageSave, ImageScaleSide,
    LoadImage, SaveImage, Tagger, UpscaleImage, UpscaleSaveImage,
};
pub use comfy::inputs::{Inputs, Shape};
pub use comfy::ip_adapter::{CLIPVisionLoader, IPAdapterApply, IPAdapterModelLoader};
pub use comfy::latent::{EmptyLatent, RepeatLatent};
pub use comfy::lora::{IdxLoRA, LoraCfg, LoraStack, LoraStacker};
pub use comfy::node::{Meta, Node};
pub use comfy::preprocessor::{
    CannyEdgePreprocessor, HEDPreprocessor, LeReSDepthMapPreprocessor, LineArtPreprocessor,
    LineartStandardPreprocessor, MLSDPreprocessor, MiDaSDepthMapPreprocessor, OpenposePreprocessor,
    TilePreprocessor, ZoeDepthMapPreprocessor,
};
pub use comfy::registry::{
    comfy_class_map, comfy_preprocessor, my_class_map, preprocessor_map, Registry,
};
pub use comfy::sampler::KSampler;
pub use comfy::switch::{PreprocessorSwitchAfter, PreprocessorSwitchPre, TxtimgSwitch};
pub use comfy::text::{TextConcat, TextString};
pub use comfy::vae::{VAEEncode, VaeDecode};
pub use comfy::workflow::{RoleKeyPolicy, Workflow};
pub use comfy::{
    create_input_id, starts_with, stem, str_eq, EdgeRef, NODE_CANNY_PREPROCESSOR, NODE_CROP_IMAGE,
    NODE_CTRLNET_STACK, NODE_EFFICIENT_LOADER, NODE_EMPTY_IMAGE, NODE_EMPTY_LATENT,
    NODE_IMAGE_FILTER, NODE_IMAGE_PREPROCESSOR, NODE_IMAGE_SCALESIDE, NODE_IMAGE_TAGGER,
    NODE_KSAMPLER, NODE_LINEARTSTANDARD_PREPROCESSOR, NODE_LINEART_PREPROCESSOR, NODE_LOAD_IMAGE,
    NODE_LOAD_IMAGE_IPA, NODE_LORA_STACK, NODE_LORA_STACKER, NODE_REPEAT_LATENT, NODE_SAVE_IMAGE,
    NODE_TEXT_CONCAT, NODE_TEXT_STRING, NODE_TILE_PREPROCESSOR,
};
pub use driver::{on_event, Event, Next, Resume, State, Step};
pub use error::{AppError, AppResult};
pub use fixed::{quantized_pick, Fixed, STEP, UNIT};
pub use generator::Generator;
pub use rng::{element_at, rand_element, rand_fixed, rand_num};
pub use style::rand_lora_cfg;
