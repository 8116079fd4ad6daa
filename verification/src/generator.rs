use vstd::prelude::*;
use crate::auto_cfg::{AEfficient, AEmptyImage, ASampler, ATagger, AutoCfg};
use crate::comfy::control_net::Ctrlnet;
use crate::comfy::efficient::{EfficientLoader, LoaderCfg, PromptView};
use crate::comfy::image::{CropImage, EmptyImage, ImageScaleSide};
use crate::comfy::inputs::{Inputs, Shape};
use crate::comfy::latent::{EmptyLatent, RepeatLatent};
use crate::comfy::registry::Registry;
use crate::comfy::sampler::KSampler;
use crate::comfy::workflow::{
    lemma_evolved_shapes, lemma_evolved_trans, lemma_in_place, lemma_kept_but,
    lemma_kept_but_trans, lemma_same_as, lemma_same_names, lemma_touch, Workflow,
};
use crate::comfy::{
    create_input_id, has_prefix, starts_with, stem, stem_of, str_eq, NODE_CROP_IMAGE,
    NODE_EMPTY_IMAGE, NODE_EMPTY_LATENT, NODE_IMAGE_FILTER, NODE_IMAGE_SCALESIDE,
    NODE_IMAGE_TAGGER, NODE_KSAMPLER, NODE_LOAD_IMAGE, NODE_REPEAT_LATENT, NODE_TEXT_CONCAT,
    NODE_TEXT_STRING,
};
use crate::error::AppError;
use crate::fixed::Fixed;
use crate::lookup::lemma_position;
use crate::rng::{is_sample, rand_element, rand_fixed, rand_num, random_u32};

verus! {

/// The mutation engine. It holds what it reads and nothing of what it did:
/// every mutation is derived from the graph, the catalog and the repetition
/// number alone, with fresh random numbers.
#[derive(Debug)]
pub struct Generator {
    pub registry: Registry,
    /// For each type of control net, by its name, the models and the
    /// preprocessors that it can use. The first entry of a name counts.
    pub cns: Vec<(String, Ctrlnet)>,
}

/// Whether the text `s` is one of `names`.
pub open spec fn listed(names: Seq<String>, s: Seq<char>) -> bool {
    exists|i: int| 0 <= i < names.len() && (#[trigger] names[i])@ == s
}

/// Whether the sampler `k` holds values drawn from the catalog entry `a`: a
/// seed from the whole seed space, an iteration count between the bounds,
/// guidance and denoise strengths by quantized range sampling, a sampler
/// and a scheduler from their candidate sets.
pub open spec fn sampler_values(k: KSampler, a: ASampler) -> bool {
    &&& 0 <= k.seed <= u32::MAX
    &&& a.steps_max > a.steps_min ==> a.steps_min <= k.steps <= a.steps_max
    &&& a.steps_max <= a.steps_min ==> k.steps == a.steps_max
    &&& is_sample(a.cfg_min, a.cfg_max, k.cfg)
    &&& is_sample(a.denoise_min, a.denoise_max, k.denoise)
    &&& listed(a.sampler_name@, k.sampler_name@)
    &&& listed(a.scheduler@, k.scheduler@)
}

/// Whether the sampler `after` is `before` with values drawn from the
/// catalog entry `a`, its edges kept.
pub open spec fn sampler_drawn(after: KSampler, before: KSampler, a: ASampler) -> bool {
    &&& sampler_values(after, a)
    &&& after.model == before.model
    &&& after.positive == before.positive
    &&& after.negative == before.negative
    &&& after.latent_image == before.latent_image
}

/// The name of the image that repetition `idx` works on: the images of the
/// pool take turns; without a pool, the prefix of the saved files stands in.
pub open spec fn chosen_image(ac: &AutoCfg, idx: usize) -> Seq<char> {
    match ac.load_image {
        Some(l) => l.images@[idx as int % l.images@.len() as int]@,
        None => ac.save_image.filename_prefix@,
    }
}

/// Whether the image of repetition `idx` is marked as lying on its side: it
/// comes from the pool and its name begins with `land_`.
pub open spec fn chosen_land(ac: &AutoCfg, idx: usize) -> bool {
    ac.load_image is Some && has_prefix(chosen_image(ac, idx), "land_"@)
}

/// Whether the image step finds the graph as it needs it: the saver that
/// the catalog names, and the loader where the catalog has a pool.
pub open spec fn images_ready(wf: &Workflow, ac: &AutoCfg) -> bool {
    &&& ac.load_image is Some ==> wf.shape_at(NODE_LOAD_IMAGE@) == Some(Shape::LoadImage)
    &&& wf.shape_at(ac.save_image.title@) == Some(Shape::ImageSave)
}

/// Whether `e` is the error of the image step on a graph that it does not
/// find as it needs it: that of the loader, else that of the saver.
pub open spec fn images_fault(wf: &Workflow, ac: &AutoCfg, e: AppError) -> bool {
    if ac.load_image is Some && wf.shape_at(NODE_LOAD_IMAGE@) != Some(Shape::LoadImage) {
        wf.refused(NODE_LOAD_IMAGE@, Shape::LoadImage, e)
    } else {
        &&& wf.shape_at(ac.save_image.title@) != Some(Shape::ImageSave)
        &&& wf.refused(ac.save_image.title@, Shape::ImageSave, e)
    }
}

/// The size that a graph is generated at: the catalog's width and height,
/// swapped for an image that lies on its side.
pub open spec fn resolved_size(ac: &AutoCfg, land: bool) -> (u16, u16) {
    if land {
        (ac.efficient.height, ac.efficient.width)
    } else {
        (ac.efficient.width, ac.efficient.height)
    }
}

/// The longer of two sides.
pub open spec fn longer(w: u16, h: u16) -> u16 {
    if w > h {
        w
    } else {
        h
    }
}

/// Whether a step that works on the node with the role key `key` only where
/// the graph has one finds it as it needs it: absent, or in the shape
/// `shape`.
pub open spec fn optional_ready(wf: &Workflow, key: Seq<char>, shape: Shape) -> bool {
    wf.shape_at(key) is None || wf.shape_at(key) == Some(shape)
}

/// Whether the loader `after` is `before` with values drawn from the catalog
/// entry `ec` for the size `(w, h)`: the positive prompt `positive` written
/// out, a negative prompt and a VAE from their candidate sets, a number of
/// skipped layers from its candidates, and the catalog's checkpoint, batch
/// size and reading of weights.
pub open spec fn loader_drawn(
    after: EfficientLoader,
    before: EfficientLoader,
    ec: AEfficient,
    w: u16,
    h: u16,
    positive: Seq<char>,
) -> bool {
    &&& after.positive@ == PromptView::Text(positive)
    &&& listed(ec.positive@, positive)
    &&& listed(ec.negative@, after.negative@)
    &&& listed(ec.vae_name@, after.vae_name@)
    &&& ec.clip_skip@.contains(after.clip_skip)
    &&& after.batch_size == ec.batch_size
    &&& after.empty_latent_width == w
    &&& after.empty_latent_height == h
    &&& after.ckpt_name@ == ec.ckpt_name@
    &&& after.weight_interpretation@ == ec.weight_interpretation@
    &&& after.lora_name == before.lora_name
    &&& after.token_normalization == before.token_normalization
    &&& after.lora_stack == before.lora_stack
    &&& after.cnet_stack == before.cnet_stack
    &&& after.lora_model_strength == before.lora_model_strength
    &&& after.lora_clip_strength == before.lora_clip_strength
}

/// Whether the catalog has images tagged.
pub open spec fn tagging(ac: &AutoCfg) -> bool {
    ac.tagger matches Some(t) && t.switch
}

/// The role key of the tagger that the catalog names.
pub open spec fn tagger_key(ac: &AutoCfg) -> Seq<char> {
    match ac.tagger {
        Some(t) => t.title@,
        None => NODE_IMAGE_TAGGER@,
    }
}

/// Whether the prompt step finds the graph as it needs it. A graph without
/// a text node needs nothing. With one, and with tagging, the graph holds a
/// filter, the tagger that the catalog names, a node that joins texts, and
/// the loader. Without tagging, it holds the loader, under another role
/// key than the tagger that is removed.
pub open spec fn prompt_ready(wf: &Workflow, ac: &AutoCfg) -> bool {
    wf.shape_at(NODE_TEXT_STRING@) is Some ==> {
        &&& wf.shape_at(NODE_TEXT_STRING@) == Some(Shape::TextString)
        &&& wf.shape_at(ac.efficient.title@) == Some(Shape::EfficientLoader)
        &&& if tagging(ac) {
            &&& wf.has(NODE_IMAGE_FILTER@)
            &&& wf.shape_at(tagger_key(ac)) == Some(Shape::Tagger)
            &&& wf.shape_at(NODE_TEXT_CONCAT@) == Some(Shape::TextConcat)
        } else {
            ac.efficient.title@ != NODE_IMAGE_TAGGER@
        }
    }
}

/// Whether `e` is the error of the prompt step on a graph that it does not
/// find as it needs it: that of the first need that is not met, in the
/// order text node, filter, tagger, joining node, loader.
pub open spec fn prompt_fault(wf: &Workflow, ac: &AutoCfg, e: AppError) -> bool {
    if wf.shape_at(NODE_TEXT_STRING@) != Some(Shape::TextString) {
        wf.refused(NODE_TEXT_STRING@, Shape::TextString, e)
    } else if tagging(ac) && !wf.has(NODE_IMAGE_FILTER@) {
        e.is_not_found(NODE_IMAGE_FILTER@)
    } else if tagging(ac) && wf.shape_at(tagger_key(ac)) != Some(Shape::Tagger) {
        wf.refused(tagger_key(ac), Shape::Tagger, e)
    } else if tagging(ac) && wf.shape_at(NODE_TEXT_CONCAT@) != Some(Shape::TextConcat) {
        wf.refused(NODE_TEXT_CONCAT@, Shape::TextConcat, e)
    } else if !tagging(ac) && ac.efficient.title@ == NODE_IMAGE_TAGGER@ {
        e.is_not_found(ac.efficient.title@)
    } else {
        wf.refused(ac.efficient.title@, Shape::EfficientLoader, e)
    }
}

/// The role keys whose nodes the prompt step may touch.
pub open spec fn prompt_keys(ac: &AutoCfg) -> Set<Seq<char>> {
    if tagging(ac) {
        set![NODE_TEXT_STRING@, NODE_TEXT_CONCAT@, ac.efficient.title@, tagger_key(ac)]
    } else {
        set![NODE_TEXT_STRING@, ac.efficient.title@]
    }
}

/// The id of the node that the loader takes its positive prompt from, in a
/// graph with a text node: with tagging the node that joins the texts,
/// without the text node.
pub open spec fn prompt_source(wf: &Workflow, ac: &AutoCfg) -> Seq<char> {
    if tagging(ac) {
        wf.node(NODE_TEXT_CONCAT@).id@
    } else {
        wf.node(NODE_TEXT_STRING@).id@
    }
}

/// Whether the text nodes of `after` are those of `before` with the prompt
/// `positive` set up: the text node holds it. With tagging, the tagger
/// reads output 0 of the filter and the joining node takes output 0 of the
/// tagger as its second text. Without, the graph has no node with the role
/// key `Tagger`.
pub open spec fn prompt_nodes(
    after: &Workflow,
    before: &Workflow,
    ac: &AutoCfg,
    positive: Seq<char>,
) -> bool {
    let text = NODE_TEXT_STRING@;
    let join = NODE_TEXT_CONCAT@;
    &&& after.has(text)
    &&& after.payload(text)->TextString_0.texted_of(&before.payload(text)->TextString_0, positive)
    &&& if tagging(ac) {
        let tagger = tagger_key(ac);
        &&& after.has(tagger)
        &&& after.has(join)
        &&& after.payload(tagger)->Tagger_0.attached_of(
            &before.payload(tagger)->Tagger_0,
            ac.tagger->Some_0.model@,
            before.node(NODE_IMAGE_FILTER@).id@,
            0,
        )
        &&& after.payload(join)->TextConcat_0.joined_of(
            &before.payload(join)->TextConcat_0,
            before.node(tagger).id@,
            0,
        )
    } else {
        !after.has(NODE_IMAGE_TAGGER@)
    }
}

/// Whether `after` is `before` with the prompt `positive` wired in: the
/// text nodes are set up, and the loader takes its positive prompt from
/// output 0 of the node that feeds it, all else kept.
pub open spec fn prompt_wired(
    after: &Workflow,
    before: &Workflow,
    ac: &AutoCfg,
    positive: Seq<char>,
) -> bool {
    let loader = ac.efficient.title@;
    &&& prompt_nodes(after, before, ac, positive)
    &&& after.payload(loader)->EfficientLoader_0.prompted_of(
        &before.payload(loader)->EfficientLoader_0,
        prompt_source(before, ac),
        0,
    )
}

/// The role keys whose nodes the size step may touch.
pub open spec fn efficient_keys(ac: &AutoCfg) -> Set<Seq<char>> {
    prompt_keys(ac).union(
        set![
            NODE_IMAGE_SCALESIDE@,
            NODE_CROP_IMAGE@,
            NODE_REPEAT_LATENT@,
            NODE_EMPTY_LATENT@,
            NODE_EMPTY_IMAGE@,
        ],
    )
}

/// Whether the catalog has an image of one colour sized.
pub open spec fn filling(ac: &AutoCfg) -> bool {
    ac.empty_image matches Some(a) && a.switch
}

/// Whether the size step finds the graph as it needs it: the loader is
/// there, the prompt step is ready, and each node that consumes the size is
/// absent or has the shape that goes with its role key.
pub open spec fn efficient_ready(wf: &Workflow, ac: &AutoCfg) -> bool {
    &&& optional_ready(wf, NODE_IMAGE_SCALESIDE@, Shape::ImageScaleSide)
    &&& wf.shape_at(ac.efficient.title@) == Some(Shape::EfficientLoader)
    &&& prompt_ready(wf, ac)
    &&& optional_ready(wf, NODE_CROP_IMAGE@, Shape::CropImage)
    &&& optional_ready(wf, NODE_REPEAT_LATENT@, Shape::RepeatLatent)
    &&& optional_ready(wf, NODE_EMPTY_LATENT@, Shape::EmptyLatent)
    &&& filling(ac) ==> optional_ready(wf, NODE_EMPTY_IMAGE@, Shape::EmptyImage)
}

/// Whether `e` is the error of the size step on a graph that it does not
/// find as it needs it: that of the first need that is not met, in the
/// order scaling node, loader, prompt step, cropping node, repeating node,
/// latent image, image of one colour.
pub open spec fn efficient_fault(wf: &Workflow, ac: &AutoCfg, e: AppError) -> bool {
    if !optional_ready(wf, NODE_IMAGE_SCALESIDE@, Shape::ImageScaleSide) {
        wf.refused(NODE_IMAGE_SCALESIDE@, Shape::ImageScaleSide, e)
    } else if wf.shape_at(ac.efficient.title@) != Some(Shape::EfficientLoader) {
        wf.refused(ac.efficient.title@, Shape::EfficientLoader, e)
    } else if !prompt_ready(wf, ac) {
        prompt_fault(wf, ac, e)
    } else if !optional_ready(wf, NODE_CROP_IMAGE@, Shape::CropImage) {
        wf.refused(NODE_CROP_IMAGE@, Shape::CropImage, e)
    } else if !optional_ready(wf, NODE_REPEAT_LATENT@, Shape::RepeatLatent) {
        wf.refused(NODE_REPEAT_LATENT@, Shape::RepeatLatent, e)
    } else if !optional_ready(wf, NODE_EMPTY_LATENT@, Shape::EmptyLatent) {
        wf.refused(NODE_EMPTY_LATENT@, Shape::EmptyLatent, e)
    } else {
        wf.refused(NODE_EMPTY_IMAGE@, Shape::EmptyImage, e)
    }
}

/// The shapes of the nodes that the size step may touch.
pub open spec fn size_shapes() -> Set<Shape> {
    set![
        Shape::ImageScaleSide,
        Shape::EfficientLoader,
        Shape::TextString,
        Shape::Tagger,
        Shape::TextConcat,
        Shape::CropImage,
        Shape::RepeatLatent,
        Shape::EmptyLatent,
        Shape::EmptyImage,
    ]
}

/// Whether every node of the graph that consumes the size reflects the
/// size `(w, h)` and the catalog's batch size: the scaling node has the
/// longer side as its side length, the cropping node the size as its
/// target, the repeating node the batch size as its amount, the latent
/// image and the loader the size and the batch size, and the image of one
/// colour, where the catalog has it sized, the size, the batch size and the
/// catalog's colour.
pub open spec fn sized(wf: &Workflow, ac: &AutoCfg, w: u16, h: u16) -> bool {
    let bs = ac.efficient.batch_size;
    &&& wf.has(NODE_IMAGE_SCALESIDE@) ==> {
        &&& wf.payload(NODE_IMAGE_SCALESIDE@) is ImageScaleSide
        &&& wf.payload(NODE_IMAGE_SCALESIDE@)->ImageScaleSide_0.side_length == longer(w, h)
    }
    &&& wf.has(NODE_CROP_IMAGE@) ==> {
        &&& wf.payload(NODE_CROP_IMAGE@) is CropImage
        &&& wf.payload(NODE_CROP_IMAGE@)->CropImage_0.target_w == w
        &&& wf.payload(NODE_CROP_IMAGE@)->CropImage_0.target_h == h
    }
    &&& wf.has(NODE_REPEAT_LATENT@) ==> {
        &&& wf.payload(NODE_REPEAT_LATENT@) is RepeatLatent
        &&& wf.payload(NODE_REPEAT_LATENT@)->RepeatLatent_0.amount == bs
    }
    &&& wf.has(NODE_EMPTY_LATENT@) ==> wf.payload(NODE_EMPTY_LATENT@) == Inputs::EmptyLatent(
        EmptyLatent { width: w, height: h, batch_size: bs },
    )
    &&& wf.has(ac.efficient.title@) ==> {
        &&& wf.payload(ac.efficient.title@) is EfficientLoader
        &&& wf.payload(ac.efficient.title@)->EfficientLoader_0.empty_latent_width == w
        &&& wf.payload(ac.efficient.title@)->EfficientLoader_0.empty_latent_height == h
        &&& wf.payload(ac.efficient.title@)->EfficientLoader_0.batch_size == bs
    }
    &&& filling(ac) && wf.has(NODE_EMPTY_IMAGE@) ==> wf.payload(NODE_EMPTY_IMAGE@)
        == Inputs::EmptyImage(
        EmptyImage { width: w, height: h, batch_size: bs, color: ac.empty_image->Some_0.color },
    )
}

/// Whether the scaling, cropping and repeating nodes of `after` are those of
/// `before` with the size `(w, h)` and the catalog's batch size set, and
/// nothing else: the scaling node has the longer side as its side length,
/// the cropping node the size as its target, the repeating node the batch
/// size as its amount.
pub open spec fn size_set(after: &Workflow, before: &Workflow, ac: &AutoCfg, w: u16, h: u16) -> bool {
    &&& before.has(NODE_IMAGE_SCALESIDE@) ==> {
        &&& after.has(NODE_IMAGE_SCALESIDE@)
        &&& after.payload(NODE_IMAGE_SCALESIDE@) == Inputs::ImageScaleSide(
            ImageScaleSide {
                side_length: longer(w, h),
                ..before.payload(NODE_IMAGE_SCALESIDE@)->ImageScaleSide_0
            },
        )
    }
    &&& before.has(NODE_CROP_IMAGE@) ==> {
        &&& after.has(NODE_CROP_IMAGE@)
        &&& after.payload(NODE_CROP_IMAGE@) == Inputs::CropImage(
            CropImage { target_w: w, target_h: h, ..before.payload(NODE_CROP_IMAGE@)->CropImage_0 },
        )
    }
    &&& before.has(NODE_REPEAT_LATENT@) ==> {
        &&& after.has(NODE_REPEAT_LATENT@)
        &&& after.payload(NODE_REPEAT_LATENT@) == Inputs::RepeatLatent(
            RepeatLatent {
                amount: ac.efficient.batch_size,
                ..before.payload(NODE_REPEAT_LATENT@)->RepeatLatent_0
            },
        )
    }
}

/// The shapes of the nodes that the prompt step may touch.
pub open spec fn prompt_shapes() -> Set<Shape> {
    set![Shape::TextString, Shape::Tagger, Shape::TextConcat, Shape::EfficientLoader]
}

/// Whether the size step removes no node: it has images tagged, or the
/// graph has no text node.
pub open spec fn keeping(wf: &Workflow, ac: &AutoCfg) -> bool {
    tagging(ac) || !wf.has(NODE_TEXT_STRING@)
}

/// Whether the loader `after` is `before` with what the size step draws for
/// it, but for the positive prompt: a negative prompt and a VAE from their
/// candidate sets, a number of skipped layers from its candidates, and the
/// catalog's checkpoint and reading of weights.
pub open spec fn loader_set(after: EfficientLoader, before: EfficientLoader, ec: AEfficient) -> bool {
    &&& listed(ec.negative@, after.negative@)
    &&& listed(ec.vae_name@, after.vae_name@)
    &&& ec.clip_skip@.contains(after.clip_skip)
    &&& after.ckpt_name@ == ec.ckpt_name@
    &&& after.weight_interpretation@ == ec.weight_interpretation@
    &&& after.lora_name == before.lora_name
    &&& after.token_normalization == before.token_normalization
    &&& after.lora_stack == before.lora_stack
    &&& after.cnet_stack == before.cnet_stack
    &&& after.lora_model_strength == before.lora_model_strength
    &&& after.lora_clip_strength == before.lora_clip_strength
}

/// Whether `after` is `before` with a positive prompt of the catalog set
/// up. In a graph with a text node, the text nodes are set up with it and
/// the loader takes it from output 0 of the node that feeds it; in one
/// without, the loader holds it written out.
pub open spec fn prompt_set(after: &Workflow, before: &Workflow, ac: &AutoCfg) -> bool {
    exists|positive: Seq<char>|
        {
            &&& #[trigger] listed(ac.efficient.positive@, positive)
            &&& if before.has(NODE_TEXT_STRING@) {
                &&& prompt_nodes(after, before, ac, positive)
                &&& after.payload(ac.efficient.title@)->EfficientLoader_0.positive@
                    == PromptView::Edge(prompt_source(before, ac), 0)
            } else {
                after.payload(ac.efficient.title@)->EfficientLoader_0.positive@ == PromptView::Text(
                    positive,
                )
            }
        }
}

/// The role key of the tagger differs from those of the nodes that consume
/// the size.
pub proof fn lemma_size_keys()
    ensures
        NODE_IMAGE_TAGGER@ != NODE_CROP_IMAGE@,
        NODE_IMAGE_TAGGER@ != NODE_REPEAT_LATENT@,
        NODE_IMAGE_TAGGER@ != NODE_EMPTY_LATENT@,
        NODE_IMAGE_TAGGER@ != NODE_EMPTY_IMAGE@,
        NODE_IMAGE_TAGGER@ != NODE_IMAGE_SCALESIDE@,
{
    reveal_strlit("Tagger");
    reveal_strlit("CropImage");
    reveal_strlit("RepeatLatent");
    reveal_strlit("EmptyLatent");
    reveal_strlit("EmptyImage");
    reveal_strlit("ImageScaleSide");
    assert(NODE_IMAGE_TAGGER@.len() == 6);
    assert(NODE_CROP_IMAGE@.len() == 9);
    assert(NODE_REPEAT_LATENT@.len() == 12);
    assert(NODE_EMPTY_LATENT@.len() == 11);
    assert(NODE_EMPTY_IMAGE@.len() == 10);
    assert(NODE_IMAGE_SCALESIDE@.len() == 14);
}

/// The role key of the tagger differs from that of the text node.
pub proof fn lemma_tagger_key()
    ensures
        NODE_IMAGE_TAGGER@ != NODE_TEXT_STRING@,
{
    reveal_strlit("Tagger");
    reveal_strlit("TextString");
    assert(NODE_IMAGE_TAGGER@.len() == 6);
    assert(NODE_TEXT_STRING@.len() == 10);
}

impl Generator {
    /// The engine over a registry and a table of control-net types.
    pub fn new(registry: Registry, cns: Vec<(String, Ctrlnet)>) -> (r: Generator)
        ensures
            r.registry == registry,
            r.cns == cns,
    {
        Generator { registry, cns }
    }

    /// The sampler step: a fresh seed, and an iteration count, strengths, a
    /// sampler and a scheduler from the catalog, written to the node with
    /// the role key `KSampler`.
    pub fn rand_sampler(&self, wf: &mut Workflow, ac: &AutoCfg) -> (r: Result<(), AppError>)
        requires
            old(wf).inv(),
            ac.sampler.sampler_name@.len() > 0,
            ac.sampler.scheduler@.len() > 0,
        ensures
            final(wf).inv(),
            final(wf).same_names(old(wf)),
            final(wf).evolved_from(old(wf), set![NODE_KSAMPLER@]),
            final(wf).kept_but(old(wf), set![Shape::KSampler]),
            match r {
                Ok(_) => {
                    &&& old(wf).shape_at(NODE_KSAMPLER@) == Some(Shape::KSampler)
                    &&& sampler_drawn(
                        final(wf).payload(NODE_KSAMPLER@)->KSampler_0,
                        old(wf).payload(NODE_KSAMPLER@)->KSampler_0,
                        ac.sampler,
                    )
                },
                Err(e) => {
                    &&& old(wf).shape_at(NODE_KSAMPLER@) != Some(Shape::KSampler)
                    &&& old(wf).refused(NODE_KSAMPLER@, Shape::KSampler, e)
                    &&& final(wf).same_as(old(wf))
                },
            },
    {
        let i = match wf.locate(NODE_KSAMPLER, Shape::KSampler) {
            Ok(i) => i,
            Err(e) => {
                proof {
                    lemma_same_as(wf, old(wf), set![NODE_KSAMPLER@]);
                }
                return Err(e);
            },
        };
        let asampler = &ac.sampler;
        let seed: i64 = random_u32() as i64;
        let steps: u8 = rand_num(asampler.steps_min, asampler.steps_max);
        let cfg: Fixed = rand_fixed(asampler.cfg_min, asampler.cfg_max);
        let denoise: Fixed = rand_fixed(asampler.denoise_min, asampler.denoise_max);
        let sampler_name = rand_element(asampler.sampler_name.as_slice());
        let scheduler = rand_element(asampler.scheduler.as_slice());
        match &mut wf.nodes[i].inputs {
            Inputs::KSampler(sampler) => {
                sampler.tune(seed, steps, cfg, denoise, sampler_name.as_str(), scheduler.as_str());
            },
            _ => {},
        }
        proof {
            lemma_touch(wf, old(wf), i as int, NODE_KSAMPLER@);
            lemma_kept_but(wf, old(wf), set![NODE_KSAMPLER@], Set::empty(), set![Shape::KSampler]);
        }
        Ok(())
    }

    /// The image step: the image of repetition `idx` is written to the
    /// loader, the node with the role key `LoadImage`, and the saver named
    /// by the catalog gets the stem of the image's name as its prefix, and
    /// the catalog's output path. The result says whether the image is
    /// marked as lying on its side. A graph that lacks one of the nodes is
    /// left as it is.
    pub fn rand_images(&self, wf: &mut Workflow, ac: &AutoCfg, idx: usize) -> (r: Result<
        bool,
        AppError,
    >)
        requires
            old(wf).inv(),
            ac.load_image matches Some(l) ==> l.images@.len() > 0,
        ensures
            final(wf).inv(),
            final(wf).same_names(old(wf)),
            final(wf).evolved_from(old(wf), set![NODE_LOAD_IMAGE@, ac.save_image.title@]),
            final(wf).kept_but(old(wf), set![Shape::LoadImage, Shape::ImageSave]),
            ac.load_image is None ==> final(wf).evolved_from(old(wf), set![ac.save_image.title@]),
            match r {
                Ok(land) => {
                    &&& land == chosen_land(ac, idx)
                    &&& old(wf).shape_at(ac.save_image.title@) == Some(Shape::ImageSave)
                    &&& final(wf).payload(ac.save_image.title@)->ImageSave_0.saving(
                        &old(wf).payload(ac.save_image.title@)->ImageSave_0,
                        stem_of(chosen_image(ac, idx)),
                        ac.save_image.output_path@,
                    )
                    &&& ac.load_image is Some ==> {
                        &&& old(wf).shape_at(NODE_LOAD_IMAGE@) == Some(Shape::LoadImage)
                        &&& final(wf).payload(NODE_LOAD_IMAGE@)->LoadImage_0.loading(
                            &old(wf).payload(NODE_LOAD_IMAGE@)->LoadImage_0,
                            chosen_image(ac, idx),
                        )
                    }
                },
                Err(e) => {
                    &&& final(wf).same_as(old(wf))
                    &&& !images_ready(old(wf), ac)
                    &&& images_fault(old(wf), ac, e)
                },
            },
    {
        let save = &ac.save_image;
        let ghost both = set![NODE_LOAD_IMAGE@, save.title@];
        let mut land = false;
        let img_name: &String;
        match &ac.load_image {
            Some(cfg) => {
                let imgs = &cfg.images;
                let name: &String = &imgs[idx % imgs.len()];
                let li = match wf.locate(NODE_LOAD_IMAGE, Shape::LoadImage) {
                    Ok(i) => i,
                    Err(e) => {
                        proof {
                            lemma_same_as(wf, old(wf), both);
                        }
                        return Err(e);
                    },
                };
                match wf.locate(save.title.as_str(), Shape::ImageSave) {
                    Ok(_) => {},
                    Err(e) => {
                        proof {
                            lemma_same_as(wf, old(wf), both);
                        }
                        return Err(e);
                    },
                }
                land = starts_with(name.as_str(), "land_");
                match &mut wf.nodes[li].inputs {
                    Inputs::LoadImage(loader) => {
                        loader.set_image(name.as_str());
                    },
                    _ => {},
                }
                proof {
                    lemma_touch(wf, old(wf), li as int, NODE_LOAD_IMAGE@);
                }
                img_name = name;
            },
            None => {
                img_name = &save.filename_prefix;
            },
        }
        let ghost mid = *wf;
        let si = match wf.locate(save.title.as_str(), Shape::ImageSave) {
            Ok(i) => i,
            Err(e) => {
                proof {
                    lemma_same_as(wf, old(wf), both);
                    lemma_same_as(wf, old(wf), set![save.title@]);
                }
                return Err(e);
            },
        };
        match &mut wf.nodes[si].inputs {
            Inputs::ImageSave(saver) => {
                saver.set_target(stem(img_name.as_str()), save.output_path.as_str());
            },
            _ => {},
        }
        proof {
            let none = Set::<Seq<char>>::empty();
            lemma_touch(wf, &mid, si as int, save.title@);
            if ac.load_image is None {
                lemma_same_as(&mid, old(wf), none);
            }
            lemma_evolved_trans(
                wf,
                &mid,
                old(wf),
                set![save.title@],
                none,
                set![NODE_LOAD_IMAGE@],
                none,
                both,
                none,
            );
            if ac.load_image is None {
                lemma_evolved_trans(
                    wf,
                    &mid,
                    old(wf),
                    set![save.title@],
                    none,
                    none,
                    none,
                    set![save.title@],
                    none,
                );
                lemma_kept_but(
                    wf,
                    old(wf),
                    set![save.title@],
                    none,
                    set![Shape::LoadImage, Shape::ImageSave],
                );
            } else {
                lemma_kept_but(wf, old(wf), both, none, set![Shape::LoadImage, Shape::ImageSave]);
            }
        }
        Ok(land)
    }

    /// Scales the input to the size: the node with the role key `ImageScaleSide`,
    /// where the graph has one, gets the longer side as its side length.
    pub fn scale_to(&self, wf: &mut Workflow, w: u16, h: u16) -> (r: Result<(), AppError>)
        requires
            old(wf).inv(),
        ensures
            final(wf).inv(),
            final(wf).evolved_from(old(wf), set![NODE_IMAGE_SCALESIDE@]),
            match r {
                Ok(_) => {
                    &&& optional_ready(old(wf), NODE_IMAGE_SCALESIDE@, Shape::ImageScaleSide)
                    &&& !old(wf).has(NODE_IMAGE_SCALESIDE@) ==> final(wf).same_as(old(wf))
                    &&& old(wf).has(NODE_IMAGE_SCALESIDE@) ==> {
                        let before = old(wf).payload(NODE_IMAGE_SCALESIDE@)->ImageScaleSide_0;
                        final(wf).payload(NODE_IMAGE_SCALESIDE@) == Inputs::ImageScaleSide(
                            ImageScaleSide { side_length: longer(w, h), ..before },
                        )
                    }
                },
                Err(e) => {
                    &&& !optional_ready(old(wf), NODE_IMAGE_SCALESIDE@, Shape::ImageScaleSide)
                    &&& old(wf).refused(NODE_IMAGE_SCALESIDE@, Shape::ImageScaleSide, e)
                    &&& final(wf).same_as(old(wf))
                },
            },
    {
        match wf.locate_opt(NODE_IMAGE_SCALESIDE, Shape::ImageScaleSide) {
            Ok(Some(i)) => {
                match &mut wf.nodes[i].inputs {
                    Inputs::ImageScaleSide(node) => {
                        node.set_side_length(if w > h { w } else { h });
                    },
                    _ => {},
                }
                proof {
                    lemma_touch(wf, old(wf), i as int, NODE_IMAGE_SCALESIDE@);
                }
                Ok(())
            },
            Ok(None) => {
                proof {
                    lemma_same_as(wf, old(wf), set![NODE_IMAGE_SCALESIDE@]);
                }
                Ok(())
            },
            Err(e) => {
                proof {
                    lemma_same_as(wf, old(wf), set![NODE_IMAGE_SCALESIDE@]);
                }
                Err(e)
            },
        }
    }

    /// Crops to the size: the node with the role key `CropImage`, where the
    /// graph has one, gets the size as its target.
    pub fn crop_to(&self, wf: &mut Workflow, w: u16, h: u16) -> (r: Result<(), AppError>)
        requires
            old(wf).inv(),
        ensures
            final(wf).inv(),
            final(wf).evolved_from(old(wf), set![NODE_CROP_IMAGE@]),
            match r {
                Ok(_) => {
                    &&& optional_ready(old(wf), NODE_CROP_IMAGE@, Shape::CropImage)
                    &&& !old(wf).has(NODE_CROP_IMAGE@) ==> final(wf).same_as(old(wf))
                    &&& old(wf).has(NODE_CROP_IMAGE@) ==> {
                        let before = old(wf).payload(NODE_CROP_IMAGE@)->CropImage_0;
                        final(wf).payload(NODE_CROP_IMAGE@) == Inputs::CropImage(
                            CropImage { target_w: w, target_h: h, ..before },
                        )
                    }
                },
                Err(e) => {
                    &&& !optional_ready(old(wf), NODE_CROP_IMAGE@, Shape::CropImage)
                    &&& old(wf).refused(NODE_CROP_IMAGE@, Shape::CropImage, e)
                    &&& final(wf).same_as(old(wf))
                },
            },
    {
        match wf.locate_opt(NODE_CROP_IMAGE, Shape::CropImage) {
            Ok(Some(i)) => {
                match &mut wf.nodes[i].inputs {
                    Inputs::CropImage(node) => {
                        node.set_target(w, h);
                    },
                    _ => {},
                }
                proof {
                    lemma_touch(wf, old(wf), i as int, NODE_CROP_IMAGE@);
                }
                Ok(())
            },
            Ok(None) => {
                proof {
                    lemma_same_as(wf, old(wf), set![NODE_CROP_IMAGE@]);
                }
                Ok(())
            },
            Err(e) => {
                proof {
                    lemma_same_as(wf, old(wf), set![NODE_CROP_IMAGE@]);
                }
                Err(e)
            },
        }
    }

    /// Sets the batch of image-to-image generation: the node with the role key
    /// `RepeatLatent`, where the graph has one, repeats the latent image
    /// `batch_size` times.
    pub fn repeat_by(&self, wf: &mut Workflow, batch_size: u8) -> (r: Result<(), AppError>)
        requires
            old(wf).inv(),
        ensures
            final(wf).inv(),
            final(wf).evolved_from(old(wf), set![NODE_REPEAT_LATENT@]),
            match r {
                Ok(_) => {
                    &&& optional_ready(old(wf), NODE_REPEAT_LATENT@, Shape::RepeatLatent)
                    &&& !old(wf).has(NODE_REPEAT_LATENT@) ==> final(wf).same_as(old(wf))
                    &&& old(wf).has(NODE_REPEAT_LATENT@) ==> {
                        let before = old(wf).payload(NODE_REPEAT_LATENT@)->RepeatLatent_0;
                        final(wf).payload(NODE_REPEAT_LATENT@) == Inputs::RepeatLatent(
                            RepeatLatent { amount: batch_size, ..before },
                        )
                    }
                },
                Err(e) => {
                    &&& !optional_ready(old(wf), NODE_REPEAT_LATENT@, Shape::RepeatLatent)
                    &&& old(wf).refused(NODE_REPEAT_LATENT@, Shape::RepeatLatent, e)
                    &&& final(wf).same_as(old(wf))
                },
            },
    {
        match wf.locate_opt(NODE_REPEAT_LATENT, Shape::RepeatLatent) {
            Ok(Some(i)) => {
                match &mut wf.nodes[i].inputs {
                    Inputs::RepeatLatent(node) => {
                        node.set_amount(batch_size);
                    },
                    _ => {},
                }
                proof {
                    lemma_touch(wf, old(wf), i as int, NODE_REPEAT_LATENT@);
                }
                Ok(())
            },
            Ok(None) => {
                proof {
                    lemma_same_as(wf, old(wf), set![NODE_REPEAT_LATENT@]);
                }
                Ok(())
            },
            Err(e) => {
                proof {
                    lemma_same_as(wf, old(wf), set![NODE_REPEAT_LATENT@]);
                }
                Err(e)
            },
        }
    }

    /// Sizes text-to-image generation: the node with the role key
    /// `EmptyLatent`, where the graph has one, gets the size and the batch
    /// size.
    pub fn latent_to(&self, wf: &mut Workflow, w: u16, h: u16, batch_size: u8) -> (r: Result<(), AppError>)
        requires
            old(wf).inv(),
        ensures
            final(wf).inv(),
            final(wf).evolved_from(old(wf), set![NODE_EMPTY_LATENT@]),
            match r {
                Ok(_) => {
                    &&& optional_ready(old(wf), NODE_EMPTY_LATENT@, Shape::EmptyLatent)
                    &&& !old(wf).has(NODE_EMPTY_LATENT@) ==> final(wf).same_as(old(wf))
                    &&& old(wf).has(NODE_EMPTY_LATENT@) ==> {
                        let before = old(wf).payload(NODE_EMPTY_LATENT@)->EmptyLatent_0;
                        final(wf).payload(NODE_EMPTY_LATENT@) == Inputs::EmptyLatent(
                            EmptyLatent { width: w, height: h, batch_size },
                        )
                    }
                },
                Err(e) => {
                    &&& !optional_ready(old(wf), NODE_EMPTY_LATENT@, Shape::EmptyLatent)
                    &&& old(wf).refused(NODE_EMPTY_LATENT@, Shape::EmptyLatent, e)
                    &&& final(wf).same_as(old(wf))
                },
            },
    {
        match wf.locate_opt(NODE_EMPTY_LATENT, Shape::EmptyLatent) {
            Ok(Some(i)) => {
                match &mut wf.nodes[i].inputs {
                    Inputs::EmptyLatent(node) => {
                        node.resize(w, h, batch_size);
                    },
                    _ => {},
                }
                proof {
                    lemma_touch(wf, old(wf), i as int, NODE_EMPTY_LATENT@);
                }
                Ok(())
            },
            Ok(None) => {
                proof {
                    lemma_same_as(wf, old(wf), set![NODE_EMPTY_LATENT@]);
                }
                Ok(())
            },
            Err(e) => {
                proof {
                    lemma_same_as(wf, old(wf), set![NODE_EMPTY_LATENT@]);
                }
                Err(e)
            },
        }
    }

    /// Sizes the image of one colour that image-to-image generation starts
    /// from: where the catalog entry is switched on, the node with the role
    /// key `EmptyImage`, where the graph has one, gets the size, the batch
    /// size and the catalog's colour.
    pub fn apply_empty(
        &self,
        aemc: &AEmptyImage,
        size: (u16, u16),
        bs: u8,
        wf: &mut Workflow,
    ) -> (r: Result<(), AppError>)
        requires
            old(wf).inv(),
        ensures
            final(wf).inv(),
            final(wf).evolved_from(old(wf), set![NODE_EMPTY_IMAGE@]),
            match r {
                Ok(_) => {
                    &&& !aemc.switch || optional_ready(old(wf), NODE_EMPTY_IMAGE@, Shape::EmptyImage)
                    &&& !aemc.switch || !old(wf).has(NODE_EMPTY_IMAGE@) ==> final(wf).same_as(
                        old(wf),
                    )
                    &&& aemc.switch && old(wf).has(NODE_EMPTY_IMAGE@) ==> final(wf).payload(
                        NODE_EMPTY_IMAGE@,
                    ) == Inputs::EmptyImage(
                        EmptyImage {
                            width: size.0,
                            height: size.1,
                            batch_size: bs,
                            color: aemc.color,
                        },
                    )
                },
                Err(e) => {
                    &&& aemc.switch
                    &&& !optional_ready(old(wf), NODE_EMPTY_IMAGE@, Shape::EmptyImage)
                    &&& old(wf).refused(NODE_EMPTY_IMAGE@, Shape::EmptyImage, e)
                    &&& final(wf).same_as(old(wf))
                },
            },
    {
        if !aemc.switch {
            proof {
                lemma_same_as(wf, old(wf), set![NODE_EMPTY_IMAGE@]);
            }
            return Ok(());
        }
        match wf.locate_opt(NODE_EMPTY_IMAGE, Shape::EmptyImage) {
            Ok(Some(i)) => {
                match &mut wf.nodes[i].inputs {
                    Inputs::EmptyImage(node) => {
                        node.fill(size.0, size.1, bs, aemc.color);
                    },
                    _ => {},
                }
                proof {
                    lemma_touch(wf, old(wf), i as int, NODE_EMPTY_IMAGE@);
                }
                Ok(())
            },
            Ok(None) => {
                proof {
                    lemma_same_as(wf, old(wf), set![NODE_EMPTY_IMAGE@]);
                }
                Ok(())
            },
            Err(e) => {
                proof {
                    lemma_same_as(wf, old(wf), set![NODE_EMPTY_IMAGE@]);
                }
                Err(e)
            },
        }
    }

    /// Configures the loader, the node that the catalog's entry names, for
    /// the size `(w, h)`, with prompts, a VAE and a number of skipped layers
    /// drawn from the catalog. The result is the positive prompt.
    pub fn rand_loader(&self, wf: &mut Workflow, ac: &AutoCfg, w: u16, h: u16) -> (r: Result<
        String,
        AppError,
    >)
        requires
            old(wf).inv(),
            ac.efficient.positive@.len() > 0,
            ac.efficient.negative@.len() > 0,
            ac.efficient.vae_name@.len() > 0,
            ac.efficient.clip_skip@.len() > 0,
        ensures
            final(wf).inv(),
            final(wf).evolved_from(old(wf), set![ac.efficient.title@]),
            match r {
                Ok(positive) => {
                    &&& old(wf).shape_at(ac.efficient.title@) == Some(Shape::EfficientLoader)
                    &&& loader_drawn(
                        final(wf).payload(ac.efficient.title@)->EfficientLoader_0,
                        old(wf).payload(ac.efficient.title@)->EfficientLoader_0,
                        ac.efficient,
                        w,
                        h,
                        positive@,
                    )
                },
                Err(e) => {
                    &&& old(wf).shape_at(ac.efficient.title@) != Some(Shape::EfficientLoader)
                    &&& old(wf).refused(ac.efficient.title@, Shape::EfficientLoader, e)
                    &&& final(wf).same_as(old(wf))
                },
            },
    {
        let ec = &ac.efficient;
        let i = match wf.locate(ec.title.as_str(), Shape::EfficientLoader) {
            Ok(i) => i,
            Err(e) => {
                proof {
                    lemma_same_as(wf, old(wf), set![ec.title@]);
                }
                return Err(e);
            },
        };
        let negative = rand_element(ec.negative.as_slice());
        let vae_name = rand_element(ec.vae_name.as_slice());
        let clip_skip: i8 = *rand_element(ec.clip_skip.as_slice());
        let positive = rand_element(ec.positive.as_slice());
        let cfg = LoaderCfg {
            positive: positive.as_str(),
            negative: negative.as_str(),
            batch_size: ec.batch_size,
            width: w,
            height: h,
            vae_name: vae_name.as_str(),
            ckpt_name: ec.ckpt_name.as_str(),
            clip_skip,
            weight_interpretation: ec.weight_interpretation.as_str(),
        };
        match &mut wf.nodes[i].inputs {
            Inputs::EfficientLoader(loader) => {
                loader.configure(&cfg);
            },
            _ => {},
        }
        proof {
            lemma_touch(wf, old(wf), i as int, ec.title@);
        }
        Ok(positive.clone())
    }

    /// The prompt step, for a graph with a text node (one with the role key
    /// `TextString`; a graph without one is left as it is). The text node
    /// gets the positive prompt. With tagging, the tagger that the catalog
    /// names is set up and chained between the filter and the node that
    /// joins the texts, and the loader reads its prompt from that node.
    /// Without tagging, the node with the role key `Tagger` is removed and
    /// the loader reads its prompt from the text node. A graph that lacks
    /// something is left as it is.
    pub fn rand_prompt(&self, wf: &mut Workflow, ac: &AutoCfg, positive: &str) -> (r: Result<
        (),
        AppError,
    >)
        requires
            old(wf).inv(),
        ensures
            final(wf).inv(),
            final(wf).evolved(old(wf), prompt_keys(ac), set![NODE_IMAGE_TAGGER@]),
            tagging(ac) ==> final(wf).evolved_from(old(wf), prompt_keys(ac)),
            match r {
                Ok(_) => {
                    &&& prompt_ready(old(wf), ac)
                    &&& !old(wf).has(NODE_TEXT_STRING@) ==> final(wf).same_as(old(wf))
                    &&& old(wf).has(NODE_TEXT_STRING@) ==> prompt_wired(final(wf), old(wf), ac, positive@)
                },
                Err(e) => {
                    &&& !prompt_ready(old(wf), ac)
                    &&& prompt_fault(old(wf), ac, e)
                    &&& final(wf).same_as(old(wf))
                },
            },
    {
        let ec = &ac.efficient;
        let ghost keys = prompt_keys(ac);
        let ghost gone = set![NODE_IMAGE_TAGGER@];
        proof {
            lemma_same_as(wf, old(wf), keys);
            lemma_tagger_key();
        }
        let ti = match wf.locate_opt(NODE_TEXT_STRING, Shape::TextString) {
            Ok(Some(i)) => i,
            Ok(None) => {
                return Ok(());
            },
            Err(e) => {
                return Err(e);
            },
        };
        let tagger: Option<&ATagger> = match &ac.tagger {
            Some(t) => if t.switch {
                Some(t)
            } else {
                None
            },
            None => None,
        };
        match tagger {
            Some(atagger) => {
                let fi = match wf.find(NODE_IMAGE_FILTER) {
                    Some(i) => i,
                    None => {
                        return Err(AppError::NotFound(NODE_IMAGE_FILTER.to_owned()));
                    },
                };
                let gi = wf.locate(atagger.title.as_str(), Shape::Tagger)?;
                let ci = wf.locate(NODE_TEXT_CONCAT, Shape::TextConcat)?;
                let li = wf.locate(ec.title.as_str(), Shape::EfficientLoader)?;
                let filter_out = create_input_id(wf.nodes[fi].id.as_str(), 0);
                let tagger_out = create_input_id(wf.nodes[gi].id.as_str(), 0);
                let join_out = create_input_id(wf.nodes[ci].id.as_str(), 0);
                match &mut wf.nodes[ti].inputs {
                    Inputs::TextString(node) => {
                        node.set_text(positive);
                    },
                    _ => {},
                }
                match &mut wf.nodes[gi].inputs {
                    Inputs::Tagger(node) => {
                        node.attach(atagger.model.as_str(), filter_out);
                    },
                    _ => {},
                }
                match &mut wf.nodes[ci].inputs {
                    Inputs::TextConcat(node) => {
                        node.set_text2(tagger_out);
                    },
                    _ => {},
                }
                match &mut wf.nodes[li].inputs {
                    Inputs::EfficientLoader(node) => {
                        node.set_positive(join_out);
                    },
                    _ => {},
                }
                proof {
                    let places = set![ti as int, gi as int, ci as int, li as int];
                    lemma_position(old(wf).keys(), NODE_TEXT_STRING@);
                    lemma_position(old(wf).keys(), atagger.title@);
                    lemma_position(old(wf).keys(), NODE_TEXT_CONCAT@);
                    lemma_position(old(wf).keys(), ec.title@);
                    lemma_position(old(wf).keys(), NODE_IMAGE_FILTER@);
                    assert(wf.same_except(old(wf), places));
                    lemma_in_place(wf, old(wf), places, keys);
                    lemma_same_names(wf, old(wf));
                }
                Ok(())
            },
            None => {
                if str_eq(ec.title.as_str(), NODE_IMAGE_TAGGER) {
                    return Err(AppError::NotFound(ec.title.clone()));
                }
                let li = wf.locate(ec.title.as_str(), Shape::EfficientLoader)?;
                let text_out = create_input_id(wf.nodes[ti].id.as_str(), 0);
                match &mut wf.nodes[ti].inputs {
                    Inputs::TextString(node) => {
                        node.set_text(positive);
                    },
                    _ => {},
                }
                match &mut wf.nodes[li].inputs {
                    Inputs::EfficientLoader(node) => {
                        node.set_positive(text_out);
                    },
                    _ => {},
                }
                let ghost mid = *wf;
                proof {
                    let places = set![ti as int, li as int];
                    lemma_position(old(wf).keys(), NODE_TEXT_STRING@);
                    lemma_position(old(wf).keys(), ec.title@);
                    assert(wf.same_except(old(wf), places));
                    lemma_in_place(wf, old(wf), places, keys);
                    lemma_same_names(wf, old(wf));
                }
                wf.rem_node(NODE_IMAGE_TAGGER);
                proof {
                    let none = Set::<Seq<char>>::empty();
                    lemma_evolved_trans(wf, &mid, old(wf), none, gone, keys, none, keys, gone);
                    assert(mid.has(NODE_TEXT_STRING@));
                    assert(mid.has(ec.title@));
                    assert(wf.has(NODE_TEXT_STRING@));
                    assert(wf.has(ec.title@));
                    assert(wf.node(NODE_TEXT_STRING@) == mid.node(NODE_TEXT_STRING@));
                    assert(wf.node(ec.title@) == mid.node(ec.title@));
                }
                Ok(())
            },
        }
    }

    /// The size step. The size is the catalog's, with width and height
    /// swapped where `land` says that the image lies on its side. The
    /// loader is configured from the catalog, the prompt is wired in, and
    /// every node that consumes the size gets it: the scaling node, the
    /// cropping node, the repeating node, the latent image and the image of
    /// one colour, whichever the graph has. The result is the size.
    #[verifier::rlimit(60)]
    pub fn rand_efficient(&self, wf: &mut Workflow, ac: &AutoCfg, land: bool) -> (r: Result<
        (u16, u16),
        AppError,
    >)
        requires
            old(wf).inv(),
            ac.efficient.positive@.len() > 0,
            ac.efficient.negative@.len() > 0,
            ac.efficient.vae_name@.len() > 0,
            ac.efficient.clip_skip@.len() > 0,
        ensures
            final(wf).inv(),
            final(wf).evolved(old(wf), efficient_keys(ac), set![NODE_IMAGE_TAGGER@]),
            keeping(old(wf), ac) ==> final(wf).evolved_from(old(wf), efficient_keys(ac)),
            r is Ok ==> final(wf).kept_but(old(wf), size_shapes()),
            match r {
                Ok(size) => {
                    &&& size == resolved_size(ac, land)
                    &&& efficient_ready(old(wf), ac)
                    &&& final(wf).has(ac.efficient.title@)
                    &&& sized(final(wf), ac, size.0, size.1)
                    &&& size_set(final(wf), old(wf), ac, size.0, size.1)
                    &&& loader_set(
                        final(wf).payload(ac.efficient.title@)->EfficientLoader_0,
                        old(wf).payload(ac.efficient.title@)->EfficientLoader_0,
                        ac.efficient,
                    )
                    &&& prompt_set(final(wf), old(wf), ac)
                },
                Err(e) => !efficient_ready(old(wf), ac) && efficient_fault(old(wf), ac, e),
            },
    {
        let ec = &ac.efficient;
        let (w, h) = if land {
            (ec.height, ec.width)
        } else {
            (ec.width, ec.height)
        };
        let ghost keys = efficient_keys(ac);
        let ghost gone = set![NODE_IMAGE_TAGGER@];
        let ghost none = Set::<Seq<char>>::empty();
        let ghost calm = keeping(old(wf), ac);
        proof {
            lemma_size_keys();
            lemma_tagger_key();
        }
        // The scaling node.
        match self.scale_to(wf, w, h) {
            Ok(_) => {},
            Err(e) => {
                proof {
                    lemma_same_as(wf, old(wf), keys);
                }
                return Err(e);
            },
        }
        let ghost m1 = *wf;
        proof {
            lemma_evolved_shapes(&m1, old(wf), set![NODE_IMAGE_SCALESIDE@], none);
            lemma_kept_but(
                &m1,
                old(wf),
                set![NODE_IMAGE_SCALESIDE@],
                none,
                set![Shape::ImageScaleSide],
            );
            lemma_kept_but_trans(
                &m1,
                old(wf),
                old(wf),
                set![Shape::ImageScaleSide],
                Set::empty(),
                size_shapes(),
                set![NODE_IMAGE_SCALESIDE@],
                none,
            );
            lemma_evolved_trans(
                &m1,
                old(wf),
                old(wf),
                set![NODE_IMAGE_SCALESIDE@],
                none,
                none,
                none,
                keys,
                none,
            );
        }
        // The loader.
        let positive = match self.rand_loader(wf, ac, w, h) {
            Ok(p) => p,
            Err(e) => {
                proof {
                    lemma_evolved_trans(
                        wf,
                        &m1,
                        old(wf),
                        none,
                        none,
                        set![NODE_IMAGE_SCALESIDE@],
                        none,
                        keys,
                        none,
                    );
                }
                return Err(e);
            },
        };
        let ghost m2 = *wf;
        proof {
            lemma_evolved_trans(
                &m2,
                &m1,
                old(wf),
                set![ec.title@],
                none,
                set![NODE_IMAGE_SCALESIDE@],
                none,
                keys,
                none,
            );
            lemma_evolved_shapes(&m2, old(wf), keys, none);
            lemma_kept_but(&m2, &m1, set![ec.title@], none, set![Shape::EfficientLoader]);
            lemma_kept_but_trans(
                &m2,
                &m1,
                old(wf),
                set![Shape::EfficientLoader],
                size_shapes(),
                size_shapes(),
                set![ec.title@],
                none,
            );
        }
        // The prompt.
        match self.rand_prompt(wf, ac, positive.as_str()) {
            Ok(_) => {},
            Err(e) => {
                proof {
                    lemma_evolved_trans(wf, &m2, old(wf), none, none, keys, none, keys, gone);
                    lemma_evolved_trans(wf, &m2, old(wf), none, none, keys, none, keys, none);
                }
                return Err(e);
            },
        }
        let ghost m3 = *wf;
        proof {
            lemma_evolved_trans(&m3, &m2, old(wf), prompt_keys(ac), gone, keys, none, keys, gone);
            lemma_evolved_shapes(&m3, old(wf), keys, gone);
            lemma_evolved_shapes(&m3, &m2, prompt_keys(ac), gone);
            if m2.has(NODE_TEXT_STRING@) {
                lemma_kept_but(&m3, &m2, prompt_keys(ac), gone, prompt_shapes());
            } else {
                lemma_same_as(&m3, &m2, none);
                lemma_kept_but(&m3, &m2, none, none, prompt_shapes());
            }
            lemma_kept_but_trans(
                &m3,
                &m2,
                old(wf),
                prompt_shapes(),
                size_shapes(),
                size_shapes(),
                prompt_keys(ac),
                gone,
            );
            if calm {
                if !tagging(ac) {
                    lemma_same_as(&m3, &m2, prompt_keys(ac));
                }
                lemma_evolved_trans(
                    &m3,
                    &m2,
                    old(wf),
                    prompt_keys(ac),
                    none,
                    keys,
                    none,
                    keys,
                    none,
                );
            }
        }
        // The nodes that consume the size.
        match self.crop_to(wf, w, h) {
            Ok(_) => {},
            Err(e) => {
                proof {
                    lemma_evolved_trans(wf, &m3, old(wf), none, none, keys, gone, keys, gone);
                    if calm {
                        lemma_evolved_trans(wf, &m3, old(wf), none, none, keys, none, keys, none);
                    }
                }
                return Err(e);
            },
        }
        let ghost m4 = *wf;
        proof {
            lemma_evolved_trans(
                &m4,
                &m3,
                old(wf),
                set![NODE_CROP_IMAGE@],
                none,
                keys,
                gone,
                keys,
                gone,
            );
            lemma_evolved_shapes(&m4, old(wf), keys, gone);
            lemma_evolved_shapes(&m4, &m3, set![NODE_CROP_IMAGE@], none);
            lemma_kept_but(&m4, &m3, set![NODE_CROP_IMAGE@], none, set![Shape::CropImage]);
            lemma_kept_but_trans(
                &m4,
                &m3,
                old(wf),
                set![Shape::CropImage],
                size_shapes(),
                size_shapes(),
                set![NODE_CROP_IMAGE@],
                none,
            );
            if calm {
                lemma_evolved_trans(
                    &m4,
                    &m3,
                    old(wf),
                    set![NODE_CROP_IMAGE@],
                    none,
                    keys,
                    none,
                    keys,
                    none,
                );
            }
        }
        match self.repeat_by(wf, ec.batch_size) {
            Ok(_) => {},
            Err(e) => {
                proof {
                    lemma_evolved_trans(wf, &m4, old(wf), none, none, keys, gone, keys, gone);
                    if calm {
                        lemma_evolved_trans(wf, &m4, old(wf), none, none, keys, none, keys, none);
                    }
                }
                return Err(e);
            },
        }
        let ghost m5 = *wf;
        proof {
            lemma_evolved_trans(
                &m5,
                &m4,
                old(wf),
                set![NODE_REPEAT_LATENT@],
                none,
                keys,
                gone,
                keys,
                gone,
            );
            lemma_evolved_shapes(&m5, old(wf), keys, gone);
            lemma_evolved_shapes(&m5, &m4, set![NODE_REPEAT_LATENT@], none);
            lemma_kept_but(&m5, &m4, set![NODE_REPEAT_LATENT@], none, set![Shape::RepeatLatent]);
            lemma_kept_but_trans(
                &m5,
                &m4,
                old(wf),
                set![Shape::RepeatLatent],
                size_shapes(),
                size_shapes(),
                set![NODE_REPEAT_LATENT@],
                none,
            );
            if calm {
                lemma_evolved_trans(
                    &m5,
                    &m4,
                    old(wf),
                    set![NODE_REPEAT_LATENT@],
                    none,
                    keys,
                    none,
                    keys,
                    none,
                );
            }
        }
        match self.latent_to(wf, w, h, ec.batch_size) {
            Ok(_) => {},
            Err(e) => {
                proof {
                    lemma_evolved_trans(wf, &m5, old(wf), none, none, keys, gone, keys, gone);
                    if calm {
                        lemma_evolved_trans(wf, &m5, old(wf), none, none, keys, none, keys, none);
                    }
                }
                return Err(e);
            },
        }
        let ghost m6 = *wf;
        proof {
            lemma_evolved_trans(
                &m6,
                &m5,
                old(wf),
                set![NODE_EMPTY_LATENT@],
                none,
                keys,
                gone,
                keys,
                gone,
            );
            lemma_evolved_shapes(&m6, old(wf), keys, gone);
            lemma_evolved_shapes(&m6, &m5, set![NODE_EMPTY_LATENT@], none);
            lemma_kept_but(&m6, &m5, set![NODE_EMPTY_LATENT@], none, set![Shape::EmptyLatent]);
            lemma_kept_but_trans(
                &m6,
                &m5,
                old(wf),
                set![Shape::EmptyLatent],
                size_shapes(),
                size_shapes(),
                set![NODE_EMPTY_LATENT@],
                none,
            );
            if calm {
                lemma_evolved_trans(
                    &m6,
                    &m5,
                    old(wf),
                    set![NODE_EMPTY_LATENT@],
                    none,
                    keys,
                    none,
                    keys,
                    none,
                );
            }
        }
        match &ac.empty_image {
            Some(aemc) => {
                match self.apply_empty(aemc, (w, h), ec.batch_size, wf) {
                    Ok(_) => {},
                    Err(e) => {
                        proof {
                            lemma_evolved_trans(
                                wf,
                                &m6,
                                old(wf),
                                none,
                                none,
                                keys,
                                gone,
                                keys,
                                gone,
                            );
                            if calm {
                                lemma_evolved_trans(
                                    wf,
                                    &m6,
                                    old(wf),
                                    none,
                                    none,
                                    keys,
                                    none,
                                    keys,
                                    none,
                                );
                            }
                        }
                        return Err(e);
                    },
                }
            },
            None => {
                proof {
                    lemma_same_as(wf, &m6, set![NODE_EMPTY_IMAGE@]);
                }
            },
        }
        proof {
            lemma_evolved_trans(
                wf,
                &m6,
                old(wf),
                set![NODE_EMPTY_IMAGE@],
                none,
                keys,
                gone,
                keys,
                gone,
            );
            lemma_evolved_shapes(wf, &m6, set![NODE_EMPTY_IMAGE@], none);
            if filling(ac) {
                lemma_kept_but(wf, &m6, set![NODE_EMPTY_IMAGE@], none, set![Shape::EmptyImage]);
            } else {
                lemma_same_as(wf, &m6, none);
                lemma_kept_but(wf, &m6, none, none, set![Shape::EmptyImage]);
            }
            lemma_kept_but_trans(
                wf,
                &m6,
                old(wf),
                set![Shape::EmptyImage],
                size_shapes(),
                size_shapes(),
                set![NODE_EMPTY_IMAGE@],
                none,
            );
            if calm {
                lemma_evolved_trans(
                    wf,
                    &m6,
                    old(wf),
                    set![NODE_EMPTY_IMAGE@],
                    none,
                    keys,
                    none,
                    keys,
                    none,
                );
            }
            assert(listed(ec.positive@, positive@));
            // The scaling node was set first and is kept by what follows.
            let scale = NODE_IMAGE_SCALESIDE@;
            if old(wf).has(scale) {
                assert(m1.has(scale) && m2.has(scale) && m3.has(scale) && m4.has(scale));
                assert(m5.has(scale) && m6.has(scale) && wf.has(scale));
                assert(m2.node(scale) == m1.node(scale));
                assert(m3.node(scale) == m2.node(scale));
                assert(m4.node(scale) == m3.node(scale));
                assert(m5.node(scale) == m4.node(scale));
                assert(m6.node(scale) == m5.node(scale));
                assert(wf.node(scale) == m6.node(scale));
            }
            // The cropping node is kept until it is set, and afterwards.
            let crop = NODE_CROP_IMAGE@;
            if old(wf).has(crop) {
                assert(m1.has(crop) && m2.has(crop) && m3.has(crop) && m4.has(crop));
                assert(m5.has(crop) && m6.has(crop) && wf.has(crop));
                assert(m3.node(crop).inputs.spec_shape() == old(wf).node(crop).inputs.spec_shape());
                assert(m1.node(crop) == old(wf).node(crop));
                assert(m2.node(crop) == m1.node(crop));
                assert(m3.node(crop) == m2.node(crop));
                assert(m5.node(crop) == m4.node(crop));
                assert(m6.node(crop) == m5.node(crop));
                assert(wf.node(crop) == m6.node(crop));
            }
            // So is the repeating node.
            let repeat = NODE_REPEAT_LATENT@;
            if old(wf).has(repeat) {
                assert(m1.has(repeat) && m2.has(repeat) && m3.has(repeat) && m4.has(repeat));
                assert(m5.has(repeat) && m6.has(repeat) && wf.has(repeat));
                assert(m4.node(repeat).inputs.spec_shape() == old(wf).node(
                    repeat,
                ).inputs.spec_shape());
                assert(m1.node(repeat) == old(wf).node(repeat));
                assert(m2.node(repeat) == m1.node(repeat));
                assert(m3.node(repeat) == m2.node(repeat));
                assert(m4.node(repeat) == m3.node(repeat));
                assert(m6.node(repeat) == m5.node(repeat));
                assert(wf.node(repeat) == m6.node(repeat));
            }
        }
        Ok((w, h))
    }
}

} // verus!
