use vstd::prelude::*;
use crate::comfy::{edge_view, EdgeRef};
use crate::fixed::Fixed;

verus! {

/// The sampler: the node that controls the generation.
#[derive(Debug)]
pub struct KSampler {
    pub seed: i64,
    pub sampler_name: String,
    pub scheduler: String,
    pub model: Option<EdgeRef>,
    pub positive: Option<EdgeRef>,
    pub negative: Option<EdgeRef>,
    pub latent_image: Option<EdgeRef>,
    /// The guidance strength, from 1 to 30.
    pub cfg: Fixed,
    /// From 0 to 1.
    pub denoise: Fixed,
    /// The iteration count, from 1 to 30.
    pub steps: u8,
}

impl KSampler {
    /// Whether `self` is `before` with the seed, the iteration count, the
    /// guidance strength, the denoise strength, the sampler and the
    /// scheduler set to the given values, its edges kept.
    pub open spec fn tuned_of(
        &self,
        before: &KSampler,
        seed: i64,
        steps: u8,
        cfg: Fixed,
        denoise: Fixed,
        sampler_name: Seq<char>,
        scheduler: Seq<char>,
    ) -> bool {
        &&& self.seed == seed
        &&& self.steps == steps
        &&& self.cfg == cfg
        &&& self.denoise == denoise
        &&& self.sampler_name@ == sampler_name
        &&& self.scheduler@ == scheduler
        &&& self.model == before.model
        &&& self.positive == before.positive
        &&& self.negative == before.negative
        &&& self.latent_image == before.latent_image
    }

    /// Sets what controls the generation.
    pub fn tune(
        &mut self,
        seed: i64,
        steps: u8,
        cfg: Fixed,
        denoise: Fixed,
        sampler_name: &str,
        scheduler: &str,
    )
        ensures
            final(self).tuned_of(old(self), seed, steps, cfg, denoise, sampler_name@, scheduler@),
    {
        self.seed = seed;
        self.steps = steps;
        self.cfg = cfg;
        self.denoise = denoise;
        self.sampler_name = sampler_name.to_owned();
        self.scheduler = scheduler.to_owned();
    }
}

impl KSampler {
    /// Whether `self` is `before` with the model taken from output `slot`
    /// of the node `id`, all else kept.
    pub open spec fn modelled_of(&self, before: &KSampler, id: Seq<char>, slot: usize) -> bool {
        &&& edge_view(self.model) == Some((id, slot))
        &&& *self == (KSampler { model: self.model, ..*before })
    }

    /// Takes the model from an output of a node.
    pub fn set_model(&mut self, model: EdgeRef)
        ensures
            final(self).modelled_of(old(self), model.id@, model.slot),
    {
        self.model = Some(model);
    }
}

} // verus!
