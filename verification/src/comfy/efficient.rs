use vstd::prelude::*;
use crate::comfy::EdgeRef;
use crate::fixed::Fixed;

verus! {

/// Where a prompt comes from: written out, or the output of a text node.
#[derive(Debug)]
pub enum Prompt {
    Text(String),
    Edge(EdgeRef),
}

/// What a prompt holds.
pub ghost enum PromptView {
    Text(Seq<char>),
    Edge(Seq<char>, usize),
}

impl View for Prompt {
    type V = PromptView;

    open spec fn view(&self) -> PromptView {
        match self {
            Prompt::Text(s) => PromptView::Text(s@),
            Prompt::Edge(e) => PromptView::Edge(e.id@, e.slot),
        }
    }
}

/// The loader of the checkpoint, the prompts and the latent size.
#[derive(Debug)]
pub struct EfficientLoader {
    pub ckpt_name: String,
    pub vae_name: String,
    pub lora_name: String,
    pub positive: Prompt,
    pub negative: String,
    pub token_normalization: String,
    /// How prompt weights are read: `A1111`, `comfy`, `compel`, ...
    pub weight_interpretation: String,
    pub lora_stack: Option<EdgeRef>,
    pub cnet_stack: Option<EdgeRef>,
    pub lora_model_strength: Fixed,
    pub lora_clip_strength: Fixed,
    pub empty_latent_width: u16,
    pub empty_latent_height: u16,
    pub clip_skip: i8,
    pub batch_size: u8,
}

/// The values that the loader is configured with.
pub struct LoaderCfg<'a> {
    pub positive: &'a str,
    pub negative: &'a str,
    pub batch_size: u8,
    pub width: u16,
    pub height: u16,
    pub vae_name: &'a str,
    pub ckpt_name: &'a str,
    pub clip_skip: i8,
    pub weight_interpretation: &'a str,
}

impl EfficientLoader {
    /// Whether `self` is `before` configured with `cfg`: the prompts, the
    /// models, the latent size and the batch size are those of `cfg`, the
    /// positive prompt written out; all else is kept.
    pub open spec fn configured_of(&self, before: &EfficientLoader, cfg: &LoaderCfg<'_>) -> bool {
        &&& self.positive@ == PromptView::Text(cfg.positive@)
        &&& self.negative@ == cfg.negative@
        &&& self.batch_size == cfg.batch_size
        &&& self.empty_latent_width == cfg.width
        &&& self.empty_latent_height == cfg.height
        &&& self.vae_name@ == cfg.vae_name@
        &&& self.ckpt_name@ == cfg.ckpt_name@
        &&& self.clip_skip == cfg.clip_skip
        &&& self.weight_interpretation@ == cfg.weight_interpretation@
        &&& self.lora_name == before.lora_name
        &&& self.token_normalization == before.token_normalization
        &&& self.lora_stack == before.lora_stack
        &&& self.cnet_stack == before.cnet_stack
        &&& self.lora_model_strength == before.lora_model_strength
        &&& self.lora_clip_strength == before.lora_clip_strength
    }

    /// Whether `self` is `before` with the positive prompt taken from output
    /// `slot` of the node `id`.
    pub open spec fn prompted_of(&self, before: &EfficientLoader, id: Seq<char>, slot: usize) -> bool {
        &&& self.positive@ == PromptView::Edge(id, slot)
        &&& *self == (EfficientLoader { positive: self.positive, ..*before })
    }

    /// Configures the loader.
    pub fn configure(&mut self, cfg: &LoaderCfg<'_>)
        ensures
            final(self).configured_of(old(self), cfg),
    {
        self.negative = cfg.negative.to_owned();
        self.batch_size = cfg.batch_size;
        self.empty_latent_width = cfg.width;
        self.empty_latent_height = cfg.height;
        self.vae_name = cfg.vae_name.to_owned();
        self.ckpt_name = cfg.ckpt_name.to_owned();
        self.clip_skip = cfg.clip_skip;
        self.weight_interpretation = cfg.weight_interpretation.to_owned();
        self.positive = Prompt::Text(cfg.positive.to_owned());
    }

    /// Takes the positive prompt from an output of a node.
    pub fn set_positive(&mut self, edge: EdgeRef)
        ensures
            final(self).prompted_of(old(self), edge.id@, edge.slot),
    {
        self.positive = Prompt::Edge(edge);
    }
}

} // verus!
