use vstd::prelude::*;
use crate::auto_cfg::{ACtrlnetStack, AIPAdapter, AutoCfg};
use crate::comfy::control_net::{CnCfg, CtrlnetSlot, IdxControlNet};
use crate::comfy::efficient::PromptView;
use crate::comfy::inputs::{Inputs, Shape};
use crate::comfy::sampler::KSampler;
use crate::comfy::workflow::{
    lemma_evolved_shapes, lemma_evolved_trans, lemma_kept_but, lemma_kept_but_trans,
    lemma_kept_but_widen, lemma_same_as, lemma_same_names, lemma_same_names_trans, role_keys,
    Workflow,
};
use crate::lookup::lemma_position;
use crate::comfy::{
    edge_view, stem_of, NODE_CROP_IMAGE, NODE_IMAGE_FILTER, NODE_IMAGE_SCALESIDE,
    NODE_REPEAT_LATENT, NODE_IMAGE_TAGGER, NODE_KSAMPLER, NODE_LOAD_IMAGE, NODE_TEXT_CONCAT,
    NODE_TEXT_STRING,
};
use crate::error::AppError;
use crate::generator::{
    chosen_image, chosen_land, efficient_fault, efficient_keys, efficient_ready, images_fault,
    images_ready, keeping, listed, loader_set, prompt_fault, prompt_nodes, prompt_ready,
    prompt_set, prompt_source, resolved_size, sampler_drawn, sampler_values, size_set,
    size_shapes, sized, tagger_key, tagging, Generator,
};
use crate::post::{
    adapter_drawn, adapter_fault, adapter_image, adapter_ready, adapter_shapes, clearing,
    filter_adjusted, filter_left, filtering, rembg_keys,
};
use crate::rng::random_u32;
use crate::style::{lora_fault, lora_keys, lora_ready, stack_done, stacker_done};
use crate::wiring::preprocessor_ready;

verus! {

/// Whether the catalog has a control-net entry.
pub open spec fn wiring(ac: &AutoCfg) -> bool {
    ac.ctrlnet_stack is Some
}

/// The size that repetition `idx` of the catalog is generated at.
pub open spec fn target_size(ac: &AutoCfg, idx: usize) -> (u16, u16) {
    resolved_size(ac, chosen_land(ac, idx))
}

/// Whether `wf` has come from `before` by steps of a mutation: the nodes
/// are those of `before`, but for the node with the role key `Tagger`,
/// which may be gone; payloads may differ.
#[verifier::opaque]
pub open spec fn under_way(wf: &Workflow, before: &Workflow) -> bool {
    wf.evolved(before, Set::full(), set![NODE_IMAGE_TAGGER@])
}

/// A graph has come from itself.
pub proof fn lemma_under_way_start(wf: &Workflow)
    ensures
        under_way(wf, wf),
{
    reveal(under_way);
    lemma_same_as(wf, wf, Set::full());
}

/// A step that removes at most the node with the role key `Tagger` leads
/// from a graph that is under way to one that is.
pub proof fn lemma_under_way_step(
    a: &Workflow,
    b: &Workflow,
    c: &Workflow,
    touched: Set<Seq<char>>,
    gone: Set<Seq<char>>,
)
    requires
        a.evolved(b, touched, gone),
        gone.subset_of(set![NODE_IMAGE_TAGGER@]),
        under_way(b, c),
    ensures
        under_way(a, c),
{
    reveal(under_way);
    lemma_evolved_trans(
        a,
        b,
        c,
        touched,
        gone,
        Set::full(),
        set![NODE_IMAGE_TAGGER@],
        Set::full(),
        set![NODE_IMAGE_TAGGER@],
    );
}

/// The shapes of the nodes that the steps before the size step may touch.
pub open spec fn early_shapes() -> Set<Shape> {
    set![Shape::KSampler, Shape::LoraStack, Shape::LoraStacker, Shape::LoadImage, Shape::ImageSave]
}

/// The shapes of the nodes that the steps up to the size step may touch.
pub open spec fn pre_shapes() -> Set<Shape> {
    size_shapes().union(early_shapes())
}

/// The shapes of the nodes that the steps after the size step may touch.
pub open spec fn post_shapes() -> Set<Shape> {
    Generator::cn_shapes().union(adapter_shapes()).union(
        set![Shape::ImageFilter, Shape::ImageRembg],
    )
}

/// Whether the catalog has an adapter set up.
pub open spec fn adapting(ac: &AutoCfg) -> bool {
    ac.ip_adapter matches Some(a) && a.switch
}

/// The shapes of the nodes that the steps after the size step may touch
/// where the catalog has no adapter set up.
pub open spec fn calm_shapes() -> Set<Shape> {
    Generator::cn_shapes().union(set![Shape::ImageFilter, Shape::ImageRembg])
}

/// The shapes of all nodes but adapters.
pub open spec fn but_adapter() -> Set<Shape> {
    Set::new(|shape: Shape| shape != Shape::IPAdapterApply)
}

/// Whether the steps up to the size step find the graph as they need it.
pub open spec fn early_ready(wf: &Workflow, ac: &AutoCfg) -> bool {
    &&& wf.shape_at(NODE_KSAMPLER@) == Some(Shape::KSampler)
    &&& lora_ready(wf, ac)
    &&& images_ready(wf, ac)
    &&& efficient_ready(wf, ac)
}

/// Whether `e` is the error of the steps up to the size step on a graph
/// that they do not find as they need it: that of the first step that lacks
/// something, in the order sampler step, LoRA step, image step, size step.
pub open spec fn early_fault(wf: &Workflow, ac: &AutoCfg, e: AppError) -> bool {
    if wf.shape_at(NODE_KSAMPLER@) != Some(Shape::KSampler) {
        wf.refused(NODE_KSAMPLER@, Shape::KSampler, e)
    } else if !lora_ready(wf, ac) {
        lora_fault(wf, ac, e)
    } else if !images_ready(wf, ac) {
        images_fault(wf, ac, e)
    } else {
        efficient_fault(wf, ac, e)
    }
}

/// Whether `wf` is a graph that steps of a mutation have left of `before`
/// which removed no node and touched no adapter.
pub open spec fn settled(wf: &Workflow, before: &Workflow) -> bool {
    &&& wf.inv()
    &&& wf.evolved_from(before, Set::full())
    &&& wf.kept_but(before, but_adapter())
}

/// Whether `wf` is a graph that the steps after the size step work on, in a
/// mutation of `before`: the nodes are those of `before`, each with its id,
/// class, title and shape, and the adapters as they were. The node with the
/// role key `Tagger` is gone where the size step removes it, and there
/// only.
pub open spec fn late(wf: &Workflow, before: &Workflow, ac: &AutoCfg) -> bool {
    &&& wf.inv()
    &&& wf.evolved(
        before,
        Set::full(),
        if keeping(before, ac) {
            Set::empty()
        } else {
            set![NODE_IMAGE_TAGGER@]
        },
    )
    &&& !keeping(before, ac) ==> !wf.has(NODE_IMAGE_TAGGER@)
    &&& wf.kept_but(before, but_adapter())
}

/// What the steps up to the size step need of a graph, they need of the
/// graph that it has evolved from, and their errors are the same on both.
pub proof fn lemma_early_kept(
    a: &Workflow,
    b: &Workflow,
    ac: &AutoCfg,
    e: AppError,
    touched: Set<Seq<char>>,
)
    requires
        a.evolved_from(b, touched),
    ensures
        a.shape_at(NODE_KSAMPLER@) == b.shape_at(NODE_KSAMPLER@),
        a.refused(NODE_KSAMPLER@, Shape::KSampler, e) == b.refused(
            NODE_KSAMPLER@,
            Shape::KSampler,
            e,
        ),
        lora_ready(a, ac) == lora_ready(b, ac),
        lora_fault(a, ac, e) == lora_fault(b, ac, e),
        images_ready(a, ac) == images_ready(b, ac),
        images_fault(a, ac, e) == images_fault(b, ac, e),
        efficient_ready(a, ac) == efficient_ready(b, ac),
        efficient_fault(a, ac, e) == efficient_fault(b, ac, e),
        keeping(a, ac) == keeping(b, ac),
{
    lemma_evolved_shapes(a, b, touched, Set::empty());
    assert(a.has(NODE_IMAGE_FILTER@) == b.has(NODE_IMAGE_FILTER@));
    assert(a.has(NODE_TEXT_STRING@) == b.has(NODE_TEXT_STRING@));
    assert(a.shape_at(NODE_TEXT_STRING@) == b.shape_at(NODE_TEXT_STRING@));
    assert(prompt_ready(a, ac) == prompt_ready(b, ac));
    assert(prompt_fault(a, ac, e) == prompt_fault(b, ac, e));
}

/// A graph that the steps after the size step have left of the graph that
/// the size step has left is one that they work on in the whole mutation.
pub proof fn lemma_late(mid: &Workflow, m4: &Workflow, m3: &Workflow, m0: &Workflow, ac: &AutoCfg)
    requires
        settled(mid, m4),
        m3.evolved_from(m0, Set::full()),
        m3.kept_but(m0, early_shapes()),
        m4.evolved(m3, efficient_keys(ac), set![NODE_IMAGE_TAGGER@]),
        keeping(m3, ac) ==> m4.evolved_from(m3, efficient_keys(ac)),
        m4.kept_but(m3, size_shapes()),
        efficient_ready(m3, ac),
        prompt_set(m4, m3, ac),
    ensures
        late(mid, m0, ac),
{
    let none = Set::<Seq<char>>::empty();
    let gone = set![NODE_IMAGE_TAGGER@];
    let all = Set::<Seq<char>>::full();
    assert(keeping(m3, ac) == keeping(m0, ac));
    if keeping(m0, ac) {
        lemma_evolved_trans(m4, m3, m0, efficient_keys(ac), none, all, none, all, none);
        lemma_evolved_trans(mid, m4, m0, all, none, all, none, all, none);
    } else {
        lemma_evolved_trans(m4, m3, m0, efficient_keys(ac), gone, all, none, all, gone);
        lemma_evolved_trans(mid, m4, m0, all, none, all, gone, all, gone);
        assert(m3.has(NODE_TEXT_STRING@));
        assert(!m4.has(NODE_IMAGE_TAGGER@));
        assert(!mid.has(NODE_IMAGE_TAGGER@));
    }
    lemma_kept_but_trans(
        m4,
        m3,
        m0,
        size_shapes(),
        early_shapes(),
        but_adapter(),
        efficient_keys(ac),
        gone,
    );
    lemma_kept_but_trans(mid, m4, m0, but_adapter(), but_adapter(), but_adapter(), all, none);
}

/// Whether the steps that the catalog has switched on of filter, background
/// removal and adapter find the graph as they need it.
pub open spec fn post_ready(wf: &Workflow, ac: &AutoCfg) -> bool {
    &&& filtering(ac) ==> wf.shape_at(ac.image_filter->Some_0.title@) == Some(Shape::ImageFilter)
    &&& clearing(ac) ==> {
        &&& wf.shape_at(ac.image_rembg->Some_0.title@) == Some(Shape::ImageRembg)
        &&& wf.shape_at(NODE_IMAGE_FILTER@) == Some(Shape::ImageFilter)
    }
    &&& adapting(ac) ==> adapter_ready(wf, &ac.ip_adapter->Some_0)
}

/// Whether `after` is as the steps of filter, background removal and
/// adapter leave `before`, each where the catalog has it switched on. The
/// filter that the catalog names has the adjustments that it gives. The
/// background remover has the catalog's model, and the filter with the role
/// key `ImageFilter` takes its image from output 0 of the remover. The
/// adapter has weight, noise and bounds drawn from the catalog; the sampler
/// takes its model from output 0 of the adapter; and the loader that the
/// adapter's image edge names has one of the catalog's reference images.
pub open spec fn post_done(after: &Workflow, before: &Workflow, ac: &AutoCfg) -> bool {
    &&& filtering(ac) ==> filter_left(after, before, ac, ac.image_filter->Some_0.title@)
    &&& clearing(ac) ==> {
        let remover = ac.image_rembg->Some_0.title@;
        &&& filter_left(after, before, ac, NODE_IMAGE_FILTER@)
        &&& after.has(remover)
        &&& after.payload(remover) is ImageRembg
        &&& after.payload(remover)->ImageRembg_0.modelled_of(
            &before.payload(remover)->ImageRembg_0,
            ac.image_rembg->Some_0.model_name@,
        )
    }
    &&& adapting(ac) ==> {
        let a = ac.ip_adapter->Some_0;
        let at = after.index_of_id(adapter_image(before, &a));
        &&& after.has(a.title@)
        &&& after.payload(a.title@) is IPAdapterApply
        &&& adapter_drawn(
            after.payload(a.title@)->IPAdapterApply_0,
            before.payload(a.title@)->IPAdapterApply_0,
            &a,
        )
        &&& after.payload(NODE_KSAMPLER@) matches Inputs::KSampler(k)
        &&& edge_view(k.model) == Some((after.node(a.title@).id@, 0usize))
        &&& after.has_id(adapter_image(before, &a))
        &&& after.nodes@[at].inputs matches Inputs::LoadImage(loader)
        &&& listed(a.image@, loader.image@)
    }
}

/// Whether `a` is `b` after the filter step.
#[verifier::opaque]
pub open spec fn filter_stepped(a: &Workflow, b: &Workflow, ac: &AutoCfg) -> bool {
    &&& a.evolved_from(b, Set::full())
    &&& a.kept_but(b, set![Shape::ImageFilter])
    &&& if filtering(ac) {
        let aif = ac.image_filter->Some_0;
        &&& b.shape_at(aif.title@) == Some(Shape::ImageFilter)
        &&& a.evolved_from(b, set![aif.title@])
        &&& filter_adjusted(
            a.payload(aif.title@)->ImageFilter_0,
            b.payload(aif.title@)->ImageFilter_0,
            &aif,
        )
    } else {
        a.same_as(b)
    }
}

/// Whether `a` is `b` after the background step.
#[verifier::opaque]
pub open spec fn rembg_stepped(a: &Workflow, b: &Workflow, ac: &AutoCfg) -> bool {
    &&& a.evolved_from(b, Set::full())
    &&& a.kept_but(b, set![Shape::ImageRembg, Shape::ImageFilter])
    &&& if clearing(ac) {
        let arembg = ac.image_rembg->Some_0;
        &&& b.shape_at(arembg.title@) == Some(Shape::ImageRembg)
        &&& b.shape_at(NODE_IMAGE_FILTER@) == Some(Shape::ImageFilter)
        &&& a.evolved_from(b, rembg_keys(&arembg))
        &&& a.payload(arembg.title@)->ImageRembg_0.modelled_of(
            &b.payload(arembg.title@)->ImageRembg_0,
            arembg.model_name@,
        )
        &&& a.payload(NODE_IMAGE_FILTER@)->ImageFilter_0.fed_of(
            &b.payload(NODE_IMAGE_FILTER@)->ImageFilter_0,
            a.node(arembg.title@).id@,
            0,
        )
    } else {
        a.same_as(b)
    }
}

/// Whether `a` is `b` after the adapter step.
#[verifier::opaque]
pub open spec fn adapter_stepped(a: &Workflow, b: &Workflow, ac: &AutoCfg) -> bool {
    &&& a.evolved_from(b, Set::full())
    &&& a.kept_but(b, adapter_shapes())
    &&& a.same_names(b)
    &&& if adapting(ac) {
        let aipa = ac.ip_adapter->Some_0;
        let at = b.index_of_id(adapter_image(b, &aipa));
        &&& adapter_ready(b, &aipa)
        &&& adapter_drawn(
            a.payload(aipa.title@)->IPAdapterApply_0,
            b.payload(aipa.title@)->IPAdapterApply_0,
            &aipa,
        )
        &&& a.payload(NODE_KSAMPLER@)->KSampler_0.modelled_of(
            &b.payload(NODE_KSAMPLER@)->KSampler_0,
            a.node(aipa.title@).id@,
            0,
        )
        &&& a.nodes@[at].inputs matches Inputs::LoadImage(loader)
        &&& listed(aipa.image@, loader.image@)
    } else {
        a.same_as(b)
    }
}

/// The steps of filter, background removal and adapter, one after the
/// other behind the control-net step, leave the graph as promised.
pub proof fn lemma_post_done(
    m8: &Workflow,
    m7: &Workflow,
    m6: &Workflow,
    m5: &Workflow,
    m4: &Workflow,
    ac: &AutoCfg,
)
    requires
        m5.evolved_from(m4, Set::full()),
        m5.kept_but(m4, Generator::cn_shapes()),
        m7.same_names(m4),
        filter_stepped(m6, m5, ac),
        rembg_stepped(m7, m6, ac),
        adapter_stepped(m8, m7, ac),
    ensures
        post_ready(m4, ac),
        post_done(m8, m4, ac),
{
    reveal(filter_stepped);
    reveal(rembg_stepped);
    reveal(adapter_stepped);
    let none = Set::<Seq<char>>::empty();
    let all = Set::<Seq<char>>::full();
    lemma_evolved_shapes(m5, m4, all, none);
    lemma_evolved_shapes(m6, m5, all, none);
    lemma_evolved_shapes(m7, m6, all, none);
    lemma_evolved_shapes(m8, m7, all, none);
    if filtering(ac) {
        let t = ac.image_filter->Some_0.title@;
        assert(m4.has(t) && m5.has(t) && m6.has(t) && m7.has(t) && m8.has(t));
        assert(m5.node(t) == m4.node(t));
        if clearing(ac) {
            if t != NODE_IMAGE_FILTER@ {
                assert(m7.shape_at(ac.image_rembg->Some_0.title@) == Some(Shape::ImageRembg));
                assert(m7.node(t) == m6.node(t));
            }
        } else {
            assert(m7.node(t) == m6.node(t));
        }
        assert(m8.node(t) == m7.node(t));
        assert(filter_left(m8, m4, ac, t));
    }
    if clearing(ac) {
        let rt = ac.image_rembg->Some_0.title@;
        let f = NODE_IMAGE_FILTER@;
        assert(m4.has(rt) && m5.has(rt) && m6.has(rt) && m7.has(rt) && m8.has(rt));
        assert(m4.has(f) && m5.has(f) && m6.has(f) && m7.has(f) && m8.has(f));
        assert(m5.node(rt) == m4.node(rt));
        assert(m6.node(rt) == m5.node(rt));
        assert(m8.node(rt) == m7.node(rt));
        assert(m5.node(f) == m4.node(f));
        if !(filtering(ac) && f == ac.image_filter->Some_0.title@) {
            assert(m6.node(f) == m5.node(f));
        }
        assert(m8.node(f) == m7.node(f));
        assert(m8.node(rt).id == m7.node(rt).id);
        assert(filter_left(m8, m4, ac, f));
    }
    if adapting(ac) {
        let a = ac.ip_adapter->Some_0;
        let t = a.title@;
        assert(m4.has(t) && m5.has(t) && m6.has(t) && m7.has(t) && m8.has(t));
        assert(m5.node(t) == m4.node(t));
        assert(m6.node(t) == m5.node(t));
        assert(m7.node(t) == m6.node(t));
        assert(adapter_image(m7, &a) == adapter_image(m4, &a));
        lemma_same_names(m8, m7);
        lemma_adapter_ready(m7, m4, &a);
    }
}

/// What the late steps have left of the graph that the earlier steps have
/// left, they have left of the graph that the mutation began with: the
/// earlier steps touch no filter, no background remover and no adapter.
pub proof fn lemma_post_rebased(a: &Workflow, b: &Workflow, c: &Workflow, ac: &AutoCfg)
    requires
        post_ready(b, ac),
        post_done(a, b, ac),
        under_way(b, c),
        b.kept_but(c, pre_shapes()),
    ensures
        post_done(a, c, ac),
{
    reveal(under_way);
    if filtering(ac) {
        let t = ac.image_filter->Some_0.title@;
        assert(b.has(t) && c.has(t));
        assert(b.node(t).inputs.spec_shape() == c.node(t).inputs.spec_shape());
        assert(b.node(t) == c.node(t));
    }
    if clearing(ac) {
        let rt = ac.image_rembg->Some_0.title@;
        let f = NODE_IMAGE_FILTER@;
        assert(b.has(rt) && c.has(rt) && b.has(f) && c.has(f));
        assert(b.node(rt).inputs.spec_shape() == c.node(rt).inputs.spec_shape());
        assert(b.node(f).inputs.spec_shape() == c.node(f).inputs.spec_shape());
        assert(b.node(rt) == c.node(rt));
        assert(b.node(f) == c.node(f));
    }
    if adapting(ac) {
        let t = ac.ip_adapter->Some_0.title@;
        assert(b.has(t) && c.has(t));
        assert(b.node(t).inputs.spec_shape() == c.node(t).inputs.spec_shape());
        assert(b.node(t) == c.node(t));
    }
}

/// An adapter step that is ready on a graph is ready on the graph that this
/// one has settled from.
pub proof fn lemma_adapter_ready(a: &Workflow, b: &Workflow, aipa: &AIPAdapter)
    requires
        adapter_ready(a, aipa),
        a.same_names(b),
        a.node(aipa.title@) == b.node(aipa.title@),
    ensures
        adapter_ready(b, aipa),
{
    lemma_same_names(a, b);
    let id = adapter_image(a, aipa);
    lemma_position(a.ids(), id);
    let at = a.index_of_id(id);
    assert(a.nodes@[at].inputs.spec_shape() == b.nodes@[at].inputs.spec_shape());
}

/// Whether the payload `after` is the sampler `before`, but for the model
/// that it takes.
pub open spec fn modelled(after: Inputs, before: Inputs) -> bool {
    &&& after matches Inputs::KSampler(a)
    &&& before matches Inputs::KSampler(b)
    &&& a == (KSampler { model: a.model, ..b })
}

/// What the size step has set of the scaling, cropping and repeating nodes
/// is what the whole mutation has set of them: no other step touches them.
pub proof fn lemma_size_set_kept(
    m5: &Workflow,
    m4: &Workflow,
    m3: &Workflow,
    m0: &Workflow,
    ac: &AutoCfg,
    w: u16,
    h: u16,
)
    requires
        efficient_ready(m3, ac),
        size_set(m4, m3, ac, w, h),
        m3.evolved_from(m0, Set::full()),
        m3.kept_but(m0, early_shapes()),
        m5.evolved_from(m4, Set::full()),
        m5.kept_but(m4, post_shapes()),
    ensures
        size_set(m5, m0, ac, w, h),
{
    lemma_evolved_shapes(m3, m0, Set::full(), Set::empty());
    let scale = NODE_IMAGE_SCALESIDE@;
    if m0.has(scale) {
        assert(m3.has(scale) && m4.has(scale) && m5.has(scale));
        assert(m3.shape_at(scale) == m0.shape_at(scale));
        assert(m3.node(scale) == m0.node(scale));
        assert(m5.node(scale) == m4.node(scale));
    }
    let crop = NODE_CROP_IMAGE@;
    if m0.has(crop) {
        assert(m3.has(crop) && m4.has(crop) && m5.has(crop));
        assert(m3.shape_at(crop) == m0.shape_at(crop));
        assert(m3.node(crop) == m0.node(crop));
        assert(m5.node(crop) == m4.node(crop));
    }
    let repeat = NODE_REPEAT_LATENT@;
    if m0.has(repeat) {
        assert(m3.has(repeat) && m4.has(repeat) && m5.has(repeat));
        assert(m3.shape_at(repeat) == m0.shape_at(repeat));
        assert(m3.node(repeat) == m0.node(repeat));
        assert(m5.node(repeat) == m4.node(repeat));
    }
}

/// Steps that keep the nodes which consume the size keep them consistent.
pub proof fn lemma_sized_kept(
    a: &Workflow,
    b: &Workflow,
    ac: &AutoCfg,
    w: u16,
    h: u16,
    touched: Set<Seq<char>>,
)
    requires
        sized(b, ac, w, h),
        a.evolved_from(b, touched),
        a.kept_but(b, post_shapes()),
    ensures
        sized(a, ac, w, h),
{
    assert forall|key: Seq<char>|
        a.has(key) && size_shapes().contains(b.node(key).inputs.spec_shape()) implies a.node(key)
        == b.node(key) by {
        assert(b.has(key));
        assert(!post_shapes().contains(b.node(key).inputs.spec_shape()));
    }
}

/// A node that is there while a mutation is under way was there at its
/// start, in the same shape.
pub proof fn lemma_under_way_shape(a: &Workflow, b: &Workflow, key: Seq<char>)
    requires
        under_way(a, b),
        a.has(key),
    ensures
        b.has(key),
        b.node(key).inputs.spec_shape() == a.node(key).inputs.spec_shape(),
{
    reveal(under_way);
}

/// The role key of the sampler differs from that of the tagger.
pub proof fn lemma_sampler_key()
    ensures
        NODE_KSAMPLER@ != NODE_IMAGE_TAGGER@,
{
    reveal_strlit("KSampler");
    reveal_strlit("Tagger");
    assert(NODE_KSAMPLER@.len() == 8);
    assert(NODE_IMAGE_TAGGER@.len() == 6);
}

impl Generator {
    /// What the first steps of a mutation have set is there at its end: the
    /// sampler's values, the LoRA nodes and the saver.
    pub proof fn lemma_outcome(
        &self,
        m5: &Workflow,
        m4: &Workflow,
        m3: &Workflow,
        m2: &Workflow,
        m1: &Workflow,
        m0: &Workflow,
        ac: &AutoCfg,
        idx: usize,
    )
        requires
            NODE_KSAMPLER@ != NODE_IMAGE_TAGGER@,
            m1.evolved_from(m0, set![NODE_KSAMPLER@]),
            m1.kept_but(m0, set![Shape::KSampler]),
            m0.shape_at(NODE_KSAMPLER@) == Some(Shape::KSampler),
            sampler_drawn(
                m1.payload(NODE_KSAMPLER@)->KSampler_0,
                m0.payload(NODE_KSAMPLER@)->KSampler_0,
                ac.sampler,
            ),
            m2.evolved_from(m1, lora_keys(ac)),
            m2.kept_but(m1, set![Shape::LoraStack, Shape::LoraStacker]),
            lora_ready(m1, ac),
            ac.lora_stack matches Some(a) ==> stack_done(
                &m2.payload(a.title@)->LoraStack_0,
                &a,
            ),
            ac.lora_stacker matches Some(a) ==> stacker_done(
                &m2.payload(a.title@)->LoraStacker_0,
                &m1.payload(a.title@)->LoraStacker_0,
                &a,
            ),
            m3.evolved_from(m2, set![NODE_LOAD_IMAGE@, ac.save_image.title@]),
            m3.kept_but(m2, set![Shape::LoadImage, Shape::ImageSave]),
            m2.shape_at(ac.save_image.title@) == Some(Shape::ImageSave),
            m3.payload(ac.save_image.title@)->ImageSave_0.saving(
                &m2.payload(ac.save_image.title@)->ImageSave_0,
                stem_of(chosen_image(ac, idx)),
                ac.save_image.output_path@,
            ),
            ac.load_image is Some ==> {
                &&& m2.shape_at(NODE_LOAD_IMAGE@) == Some(Shape::LoadImage)
                &&& m3.payload(NODE_LOAD_IMAGE@)->LoadImage_0.loading(
                    &m2.payload(NODE_LOAD_IMAGE@)->LoadImage_0,
                    chosen_image(ac, idx),
                )
            },
            m4.evolved(m3, efficient_keys(ac), set![NODE_IMAGE_TAGGER@]),
            m4.kept_but(m3, size_shapes()),
            m5.evolved_from(m4, Set::full()),
            m5.kept_but(m4, post_shapes()),
            !adapting(ac) ==> m5.kept_but(m4, calm_shapes()),
            m4.shape_at(NODE_KSAMPLER@) == Some(Shape::KSampler) ==> modelled(
                m5.payload(NODE_KSAMPLER@),
                m4.payload(NODE_KSAMPLER@),
            ),
        ensures
            m5.payload(NODE_KSAMPLER@) matches Inputs::KSampler(k) && sampler_values(k, ac.sampler),
            ac.lora_stack matches Some(a) ==> (m5.has(a.title@) ==> stack_done(
                &m5.payload(a.title@)->LoraStack_0,
                &a,
            )),
            ac.lora_stacker matches Some(a) ==> (m5.has(a.title@) ==> stacker_done(
                &m5.payload(a.title@)->LoraStacker_0,
                &m0.payload(a.title@)->LoraStacker_0,
                &a,
            )),
            m5.has(ac.save_image.title@) ==> m5.payload(ac.save_image.title@)->ImageSave_0.saving(
                &m0.payload(ac.save_image.title@)->ImageSave_0,
                stem_of(chosen_image(ac, idx)),
                ac.save_image.output_path@,
            ),
            ac.load_image is Some && !adapting(ac) && m5.has(NODE_LOAD_IMAGE@) ==> m5.payload(
                NODE_LOAD_IMAGE@,
            )->LoadImage_0.loading(
                &m0.payload(NODE_LOAD_IMAGE@)->LoadImage_0,
                chosen_image(ac, idx),
            ),
    {
        let none = Set::<Seq<char>>::empty();
        let gone = set![NODE_IMAGE_TAGGER@];
        lemma_evolved_shapes(m1, m0, set![NODE_KSAMPLER@], none);
        lemma_evolved_shapes(m2, m1, lora_keys(ac), none);
        lemma_evolved_shapes(m3, m2, set![NODE_LOAD_IMAGE@, ac.save_image.title@], none);
        lemma_evolved_shapes(m4, m3, efficient_keys(ac), gone);
        lemma_evolved_shapes(m5, m4, Set::full(), none);
        // The sampler.
        let k = NODE_KSAMPLER@;
        assert(m1.has(k) && m2.has(k) && m3.has(k) && m4.has(k) && m5.has(k));
        assert(m2.node(k) == m1.node(k));
        assert(m3.node(k) == m2.node(k));
        assert(m4.node(k) == m3.node(k));
        // The LoRA nodes.
        if ac.lora_stack matches Some(a) && m5.has(a.title@) {
            let t = ac.lora_stack->Some_0.title@;
            assert(m4.has(t) && m3.has(t) && m2.has(t) && m1.has(t) && m0.has(t));
            assert(m1.node(t) == m0.node(t));
            assert(m3.node(t) == m2.node(t));
            assert(m4.node(t) == m3.node(t));
            assert(m5.node(t) == m4.node(t));
        }
        if ac.lora_stacker matches Some(a) && m5.has(a.title@) {
            let t = ac.lora_stacker->Some_0.title@;
            assert(m4.has(t) && m3.has(t) && m2.has(t) && m1.has(t) && m0.has(t));
            assert(m1.node(t) == m0.node(t));
            assert(m3.node(t) == m2.node(t));
            assert(m4.node(t) == m3.node(t));
            assert(m5.node(t) == m4.node(t));
        }
        // The saver.
        if m5.has(ac.save_image.title@) {
            let t = ac.save_image.title@;
            assert(m4.has(t) && m3.has(t) && m2.has(t) && m1.has(t) && m0.has(t));
            assert(m1.node(t) == m0.node(t));
            assert(m2.node(t) == m1.node(t));
            assert(m4.node(t) == m3.node(t));
            assert(m5.node(t) == m4.node(t));
        }
        // The loader of the image.
        if ac.load_image is Some && !adapting(ac) && m5.has(NODE_LOAD_IMAGE@) {
            let t = NODE_LOAD_IMAGE@;
            assert(m4.has(t) && m3.has(t) && m2.has(t) && m1.has(t) && m0.has(t));
            assert(m1.node(t) == m0.node(t));
            assert(m2.node(t) == m1.node(t));
            assert(m4.node(t) == m3.node(t));
            assert(m5.node(t) == m4.node(t));
        }
    }

    /// What the size step has set of the loader and of the prompt is there
    /// at the end of the mutation.
    pub proof fn lemma_outcome_prompt(
        &self,
        m5: &Workflow,
        m4: &Workflow,
        m3: &Workflow,
        m0: &Workflow,
        ac: &AutoCfg,
    )
        requires
            m3.evolved_from(m0, Set::full()),
            m3.kept_but(m0, early_shapes()),
            efficient_ready(m3, ac),
            loader_set(
                m4.payload(ac.efficient.title@)->EfficientLoader_0,
                m3.payload(ac.efficient.title@)->EfficientLoader_0,
                ac.efficient,
            ),
            prompt_set(m4, m3, ac),
            m4.evolved(m3, efficient_keys(ac), set![NODE_IMAGE_TAGGER@]),
            m5.evolved_from(m4, Set::full()),
            m5.kept_but(m4, post_shapes()),
            m5.has(ac.efficient.title@),
        ensures
            loader_set(
                m5.payload(ac.efficient.title@)->EfficientLoader_0,
                m0.payload(ac.efficient.title@)->EfficientLoader_0,
                ac.efficient,
            ),
            prompt_set(m5, m0, ac),
    {
        let none = Set::<Seq<char>>::empty();
        let gone = set![NODE_IMAGE_TAGGER@];
        lemma_evolved_shapes(m3, m0, Set::full(), none);
        lemma_evolved_shapes(m4, m3, efficient_keys(ac), gone);
        lemma_evolved_shapes(m5, m4, Set::full(), none);
        let loader = ac.efficient.title@;
        let text = NODE_TEXT_STRING@;
        let join = NODE_TEXT_CONCAT@;
        let tagger = tagger_key(ac);
        assert(m4.has(loader) && m3.has(loader) && m0.has(loader));
        assert(m5.node(loader) == m4.node(loader));
        assert(m3.node(loader) == m0.node(loader));
        let positive = choose|positive: Seq<char>|
            {
                &&& #[trigger] listed(ac.efficient.positive@, positive)
                &&& if m3.has(NODE_TEXT_STRING@) {
                    &&& prompt_nodes(m4, m3, ac, positive)
                    &&& m4.payload(ac.efficient.title@)->EfficientLoader_0.positive@
                        == PromptView::Edge(prompt_source(m3, ac), 0)
                } else {
                    m4.payload(ac.efficient.title@)->EfficientLoader_0.positive@
                        == PromptView::Text(positive)
                }
            };
        assert(m3.has(text) == m0.has(text));
        if m0.has(text) {
            assert(m3.node(text) == m0.node(text));
            assert(m5.has(text));
            assert(m5.node(text) == m4.node(text));
            if tagging(ac) {
                assert(m3.has(join) && m0.has(join));
                assert(m3.has(tagger) && m0.has(tagger));
                assert(m3.has(NODE_IMAGE_FILTER@) && m0.has(NODE_IMAGE_FILTER@));
                assert(m3.node(join) == m0.node(join));
                assert(m3.node(tagger) == m0.node(tagger));
                assert(m3.node(NODE_IMAGE_FILTER@).id == m0.node(NODE_IMAGE_FILTER@).id);
                assert(m5.has(join) && m5.has(tagger));
                assert(m5.node(join) == m4.node(join));
                assert(m5.node(tagger) == m4.node(tagger));
            } else {
                assert(!m5.has(NODE_IMAGE_TAGGER@));
            }
            assert(prompt_nodes(m5, m0, ac, positive));
        }
        assert(listed(ac.efficient.positive@, positive));
    }

    /// Control-net slots that are done stay done through steps that keep
    /// the stack.
    pub proof fn lemma_slots_kept(
        &self,
        a: &Workflow,
        b: &Workflow,
        before: &Workflow,
        touched: Set<Seq<char>>,
        shapes: Set<Shape>,
        acn: &ACtrlnetStack,
        size: (u16, u16),
    )
        requires
            forall|idx: IdxControlNet| #[trigger] self.slot_done(b, before, acn, size, idx),
            b.shape_at(acn.title@) == Some(Shape::CtrlnetStack),
            a.evolved_from(b, touched),
            a.kept_but(b, shapes),
            !shapes.contains(Shape::CtrlnetStack),
        ensures
            forall|idx: IdxControlNet| #[trigger] self.slot_done(a, before, acn, size, idx),
            a.shape_at(acn.title@) == Some(Shape::CtrlnetStack),
    {
        lemma_evolved_shapes(a, b, touched, Set::empty());
        assert(a.shape_at(acn.title@) == b.shape_at(acn.title@));
        assert(a.node(acn.title@) == b.node(acn.title@));
        assert forall|idx: IdxControlNet| #[trigger] self.slot_done(a, before, acn, size, idx) by {
            assert(self.slot_done(b, before, acn, size, idx));
            if acn.enabled(idx) {
                let cfg = choose|cfg: CnCfg|
                    {
                        let role = self.preprocessor_role(cfg.preprocessor@);
                        &&& #[trigger] self.cn_drawn(&acn.entry(idx), size, &cfg)
                        &&& preprocessor_ready(b, role)
                        &&& b.payload(acn.title@)->CtrlnetStack_0.slot(idx) == (CtrlnetSlot {
                            switch: "On"@,
                            model: cfg.model@,
                            strength: cfg.weight,
                            start: cfg.start,
                            end: cfg.end,
                            image: Some((b.node(role).id@, 0usize)),
                        })
                    };
                let role = self.preprocessor_role(cfg.preprocessor@);
                assert(a.shape_at(role) == b.shape_at(role));
                assert(a.has(role));
                assert(a.node(role).id == b.node(role).id);
                assert(preprocessor_ready(a, role));
            }
        }
    }

    /// What is done of a slot depends on the graph before the step only
    /// through its stack.
    pub proof fn lemma_slots_rebased(
        &self,
        a: &Workflow,
        b: &Workflow,
        c: &Workflow,
        acn: &ACtrlnetStack,
        size: (u16, u16),
    )
        requires
            forall|idx: IdxControlNet| #[trigger] self.slot_done(a, b, acn, size, idx),
            b.payload(acn.title@) == c.payload(acn.title@),
        ensures
            forall|idx: IdxControlNet| #[trigger] self.slot_done(a, c, acn, size, idx),
    {
        assert forall|idx: IdxControlNet| #[trigger] self.slot_done(a, c, acn, size, idx) by {
            assert(self.slot_done(a, b, acn, size, idx));
        }
    }

    /// Whether `e` is the error that one of the steps after the size step
    /// meets on the graph `wf`: the control-net stack or a preprocessor, the
    /// filter, the background remover or a node of the adapter step is not
    /// found or has another shape; or the table lacks what a control-net
    /// type needs.
    #[verifier::opaque]
    pub open spec fn late_fault(&self, wf: &Workflow, ac: &AutoCfg, idx: usize, e: AppError) -> bool {
        ||| wiring(ac) && self.cn_fault(wf, &ac.ctrlnet_stack->Some_0, target_size(ac, idx), e)
        ||| {
            &&& ac.image_filter matches Some(aif)
            &&& aif.switch
            &&& wf.shape_at(aif.title@) != Some(Shape::ImageFilter)
            &&& wf.refused(aif.title@, Shape::ImageFilter, e)
        }
        ||| {
            &&& ac.image_rembg matches Some(arembg)
            &&& arembg.switch
            &&& {
                ||| {
                    &&& wf.shape_at(arembg.title@) != Some(Shape::ImageRembg)
                    &&& wf.refused(arembg.title@, Shape::ImageRembg, e)
                }
                ||| {
                    &&& wf.shape_at(NODE_IMAGE_FILTER@) != Some(Shape::ImageFilter)
                    &&& wf.refused(NODE_IMAGE_FILTER@, Shape::ImageFilter, e)
                }
            }
        }
        ||| {
            &&& ac.ip_adapter matches Some(aipa)
            &&& aipa.switch
            &&& !adapter_ready(wf, &aipa)
            &&& adapter_fault(wf, &aipa, e)
        }
    }

    /// Whether `e` is an error that the steps after the size step can end
    /// with on the graph `before`: the error that one of them meets on the
    /// graph that the steps before it have left of `before`.
    pub open spec fn rand_fault(&self, before: &Workflow, ac: &AutoCfg, idx: usize, e: AppError) -> bool {
        exists|wf: Workflow| #[trigger] late(&wf, before, ac) && self.late_fault(&wf, ac, idx, e)
    }

    /// One mutation of the graph, for repetition `idx` of the catalog: the
    /// sampler step, the LoRA step, the image step, the size step, the
    /// control-net step and the steps that the catalog has switched on of
    /// filter, background removal and adapter, in this order.
    ///
    /// A catalog that lacks a candidate for something that it has switched
    /// on is refused before anything is changed. A graph that lacks what a
    /// step needs ends the mutation with that step's error; such a graph is
    /// to be discarded. Of the steps up to the size step, the first that
    /// lacks something decides the error; where none of them does, the
    /// error is that of a later step, on the graph as the steps before it
    /// have left it.
    pub fn rand(&self, wf: &mut Workflow, ac: &AutoCfg, idx: usize) -> (r: Result<(), AppError>)
        requires
            old(wf).inv(),
        ensures
            final(wf).inv(),
            under_way(final(wf), old(wf)),
            match r {
                Ok(_) => {
                    let size = target_size(ac, idx);
                    &&& ac.valid()
                    &&& sized(final(wf), ac, size.0, size.1)
                    &&& size_set(final(wf), old(wf), ac, size.0, size.1)
                    &&& wiring(ac) ==> forall|slot: IdxControlNet| #[trigger]
                        self.slot_done(final(wf), old(wf), &ac.ctrlnet_stack->Some_0, size, slot)
                    &&& final(wf).payload(NODE_KSAMPLER@) matches Inputs::KSampler(k)
                    &&& sampler_values(k, ac.sampler)
                    &&& ac.lora_stack matches Some(a) ==> (final(wf).has(a.title@) ==> stack_done(
                        &final(wf).payload(a.title@)->LoraStack_0,
                        &a,
                    ))
                    &&& ac.lora_stacker matches Some(a) ==> (final(wf).has(a.title@) ==> stacker_done(
                        &final(wf).payload(a.title@)->LoraStacker_0,
                        &old(wf).payload(a.title@)->LoraStacker_0,
                        &a,
                    ))
                    &&& final(wf).has(ac.save_image.title@) ==> final(wf).payload(
                        ac.save_image.title@,
                    )->ImageSave_0.saving(
                        &old(wf).payload(ac.save_image.title@)->ImageSave_0,
                        stem_of(chosen_image(ac, idx)),
                        ac.save_image.output_path@,
                    )
                    &&& ac.load_image is Some && !adapting(ac) && final(wf).has(NODE_LOAD_IMAGE@)
                        ==> final(wf).payload(NODE_LOAD_IMAGE@)->LoadImage_0.loading(
                        &old(wf).payload(NODE_LOAD_IMAGE@)->LoadImage_0,
                        chosen_image(ac, idx),
                    )
                    &&& post_done(final(wf), old(wf), ac)
                    &&& final(wf).kept_but(old(wf), pre_shapes().union(post_shapes()))
                    &&& final(wf).has(ac.efficient.title@) ==> {
                        &&& loader_set(
                            final(wf).payload(ac.efficient.title@)->EfficientLoader_0,
                            old(wf).payload(ac.efficient.title@)->EfficientLoader_0,
                            ac.efficient,
                        )
                        &&& prompt_set(final(wf), old(wf), ac)
                    }
                },
                Err(e) => match ac.missing() {
                    Some(title) => e.is_missing_config(title) && final(wf).same_as(old(wf)),
                    None => if early_ready(old(wf), ac) {
                        self.rand_fault(old(wf), ac, idx, e)
                    } else {
                        early_fault(old(wf), ac, e)
                    },
                },
            },
    {
        let ghost none = Set::<Seq<char>>::empty();
        let ghost all = Set::<Seq<char>>::full();
        let ghost gone = set![NODE_IMAGE_TAGGER@];
        proof {
            lemma_under_way_start(old(wf));
        }
        match ac.check() {
            Ok(_) => {},
            Err(e) => {
                return Err(e);
            },
        }
        match self.rand_sampler(wf, ac) {
            Ok(_) => {},
            Err(e) => {
                proof {
                    lemma_same_as(wf, old(wf), none);
                    lemma_under_way_step(wf, old(wf), old(wf), none, none);
                }
                return Err(e);
            },
        }
        let ghost m1 = *wf;
        proof {
            lemma_under_way_step(&m1, old(wf), old(wf), set![NODE_KSAMPLER@], none);
            lemma_kept_but_trans(
                &m1,
                old(wf),
                old(wf),
                set![Shape::KSampler],
                Set::empty(),
                pre_shapes(),
                set![NODE_KSAMPLER@],
                none,
            );
        }
        match self.rand_lora(wf, ac) {
            Ok(_) => {},
            Err(e) => {
                proof {
                    lemma_early_kept(&m1, old(wf), ac, e, set![NODE_KSAMPLER@]);
                    lemma_same_as(wf, &m1, none);
                    lemma_under_way_step(wf, &m1, old(wf), none, none);
                }
                return Err(e);
            },
        }
        let ghost m2 = *wf;
        proof {
            lemma_evolved_trans(
                &m2,
                &m1,
                old(wf),
                lora_keys(ac),
                none,
                set![NODE_KSAMPLER@],
                none,
                all,
                none,
            );
            lemma_under_way_step(&m2, &m1, old(wf), lora_keys(ac), none);
            lemma_kept_but_trans(
                &m2,
                &m1,
                old(wf),
                set![Shape::LoraStack, Shape::LoraStacker],
                pre_shapes(),
                pre_shapes(),
                lora_keys(ac),
                none,
            );
        }
        let land = match self.rand_images(wf, ac, idx) {
            Ok(land) => land,
            Err(e) => {
                proof {
                    lemma_early_kept(&m1, old(wf), ac, e, set![NODE_KSAMPLER@]);
                    lemma_early_kept(&m2, old(wf), ac, e, all);
                    lemma_same_as(wf, &m2, none);
                    lemma_under_way_step(wf, &m2, old(wf), none, none);
                }
                return Err(e);
            },
        };
        let ghost m3 = *wf;
        proof {
            lemma_evolved_trans(
                &m3,
                &m2,
                old(wf),
                set![NODE_LOAD_IMAGE@, ac.save_image.title@],
                none,
                all,
                none,
                all,
                none,
            );
            lemma_kept_but_trans(
                &m1,
                old(wf),
                old(wf),
                set![Shape::KSampler],
                Set::empty(),
                early_shapes(),
                set![NODE_KSAMPLER@],
                none,
            );
            lemma_kept_but_trans(
                &m2,
                &m1,
                old(wf),
                set![Shape::LoraStack, Shape::LoraStacker],
                early_shapes(),
                early_shapes(),
                lora_keys(ac),
                none,
            );
            lemma_kept_but_trans(
                &m3,
                &m2,
                old(wf),
                set![Shape::LoadImage, Shape::ImageSave],
                early_shapes(),
                early_shapes(),
                set![NODE_LOAD_IMAGE@, ac.save_image.title@],
                none,
            );
            lemma_under_way_step(
                &m3,
                &m2,
                old(wf),
                set![NODE_LOAD_IMAGE@, ac.save_image.title@],
                none,
            );
            lemma_kept_but_trans(
                &m3,
                &m2,
                old(wf),
                set![Shape::LoadImage, Shape::ImageSave],
                pre_shapes(),
                pre_shapes(),
                set![NODE_LOAD_IMAGE@, ac.save_image.title@],
                none,
            );
        }
        let size = match self.rand_efficient(wf, ac, land) {
            Ok(size) => size,
            Err(e) => {
                proof {
                    lemma_under_way_step(wf, &m3, old(wf), efficient_keys(ac), gone);
                    lemma_early_kept(&m1, old(wf), ac, e, set![NODE_KSAMPLER@]);
                    lemma_early_kept(&m2, old(wf), ac, e, all);
                    lemma_early_kept(&m3, old(wf), ac, e, all);
                }
                return Err(e);
            },
        };
        let ghost m4 = *wf;
        proof {
            lemma_under_way_step(&m4, &m3, old(wf), efficient_keys(ac), gone);
            lemma_kept_but_trans(
                &m4,
                &m3,
                old(wf),
                size_shapes(),
                pre_shapes(),
                pre_shapes(),
                efficient_keys(ac),
                gone,
            );
        }
        match self.rand_post(wf, ac, idx, size) {
            Ok(_) => {
                proof {
                    lemma_under_way_step(wf, &m4, old(wf), Set::full(), none);
                    lemma_sized_kept(wf, &m4, ac, size.0, size.1, Set::full());
                    lemma_size_set_kept(wf, &m4, &m3, old(wf), ac, size.0, size.1);
                    lemma_post_rebased(wf, &m4, old(wf), ac);
                    lemma_kept_but_trans(
                        wf,
                        &m4,
                        old(wf),
                        post_shapes(),
                        pre_shapes(),
                        pre_shapes().union(post_shapes()),
                        all,
                        none,
                    );
                    lemma_sampler_key();
                    self.lemma_outcome(wf, &m4, &m3, &m2, &m1, old(wf), ac, idx);
                    if wf.has(ac.efficient.title@) {
                        lemma_evolved_trans(
                            &m2,
                            &m1,
                            old(wf),
                            lora_keys(ac),
                            none,
                            set![NODE_KSAMPLER@],
                            none,
                            Set::full(),
                            none,
                        );
                        lemma_evolved_trans(
                            &m3,
                            &m2,
                            old(wf),
                            set![NODE_LOAD_IMAGE@, ac.save_image.title@],
                            none,
                            Set::full(),
                            none,
                            Set::full(),
                            none,
                        );
                        lemma_kept_but_trans(
                            &m1,
                            old(wf),
                            old(wf),
                            set![Shape::KSampler],
                            Set::empty(),
                            early_shapes(),
                            set![NODE_KSAMPLER@],
                            none,
                        );
                        lemma_kept_but_trans(
                            &m2,
                            &m1,
                            old(wf),
                            set![Shape::LoraStack, Shape::LoraStacker],
                            early_shapes(),
                            early_shapes(),
                            lora_keys(ac),
                            none,
                        );
                        lemma_kept_but_trans(
                            &m3,
                            &m2,
                            old(wf),
                            set![Shape::LoadImage, Shape::ImageSave],
                            early_shapes(),
                            early_shapes(),
                            set![NODE_LOAD_IMAGE@, ac.save_image.title@],
                            none,
                        );
                        self.lemma_outcome_prompt(wf, &m4, &m3, old(wf), ac);
                    }
                    if wiring(ac) {
                        let acn = &ac.ctrlnet_stack->Some_0;
                        lemma_under_way_shape(&m4, old(wf), acn.title@);
                        assert(m4.node(acn.title@) == old(wf).node(acn.title@));
                        self.lemma_slots_rebased(wf, &m4, old(wf), acn, size);
                    }
                }
                Ok(())
            },
            Err(e) => {
                proof {
                    lemma_under_way_step(wf, &m4, old(wf), Set::full(), none);
                    lemma_early_kept(&m1, old(wf), ac, e, set![NODE_KSAMPLER@]);
                    lemma_early_kept(&m2, old(wf), ac, e, all);
                    lemma_early_kept(&m3, old(wf), ac, e, all);
                    let mid = choose|mid: Workflow| #[trigger]
                        settled(&mid, &m4) && self.late_fault(&mid, ac, idx, e);
                    lemma_late(&mid, &m4, &m3, old(wf), ac);
                    assert(late(&mid, old(wf), ac) && self.late_fault(&mid, ac, idx, e));
                }
                Err(e)
            },
        }
    }

    /// The steps of a mutation that follow the size step: the control-net
    /// step for the size `size`, and the steps that the catalog has switched
    /// on of filter, background removal and adapter. No node is removed. An
    /// error is that of the step that met it, on the graph as that step
    /// found it.
    #[verifier::rlimit(60)]
    pub fn rand_post(&self, wf: &mut Workflow, ac: &AutoCfg, idx: usize, size: (u16, u16)) -> (r:
        Result<(), AppError>)
        requires
            old(wf).inv(),
            ac.valid(),
            size == target_size(ac, idx),
        ensures
            final(wf).inv(),
            final(wf).evolved_from(old(wf), Set::full()),
            final(wf).same_names(old(wf)),
            r is Ok ==> final(wf).kept_but(old(wf), post_shapes()),
            r is Ok && !adapting(ac) ==> final(wf).kept_but(old(wf), calm_shapes()),
            r is Ok ==> post_ready(old(wf), ac) && post_done(final(wf), old(wf), ac),
            r is Ok && old(wf).shape_at(NODE_KSAMPLER@) == Some(Shape::KSampler) ==> modelled(
                final(wf).payload(NODE_KSAMPLER@),
                old(wf).payload(NODE_KSAMPLER@),
            ),
            r is Ok && wiring(ac) ==> {
                &&& old(wf).shape_at(ac.ctrlnet_stack->Some_0.title@) == Some(Shape::CtrlnetStack)
                &&& forall|slot: IdxControlNet| #[trigger]
                    self.slot_done(final(wf), old(wf), &ac.ctrlnet_stack->Some_0, size, slot)
            },
            r matches Err(e) ==> exists|mid: Workflow| #[trigger]
                settled(&mid, old(wf)) && self.late_fault(&mid, ac, idx, e),
    {
        let ghost all = Set::<Seq<char>>::full();
        let ghost none = Set::<Seq<char>>::empty();
        let ghost sampled = old(wf).shape_at(NODE_KSAMPLER@) == Some(Shape::KSampler);
        proof {
            lemma_same_as(wf, old(wf), all);
        }
        match self.rand_cn(wf, ac, size) {
            Ok(_) => {},
            Err(e) => {
                proof {
                    if ac.ctrlnet_stack is Some {
                        lemma_evolved_trans(
                            wf,
                            old(wf),
                            old(wf),
                            self.cn_keys(&ac.ctrlnet_stack->Some_0),
                            none,
                            all,
                            none,
                            all,
                            none,
                        );
                    }
                    reveal(Generator::late_fault);
                    assert(settled(old(wf), old(wf)) && self.late_fault(old(wf), ac, idx, e));
                }
                return Err(e);
            },
        }
        let ghost m5 = *wf;
        proof {
            if ac.ctrlnet_stack is Some {
                lemma_evolved_trans(
                    &m5,
                    old(wf),
                    old(wf),
                    self.cn_keys(&ac.ctrlnet_stack->Some_0),
                    none,
                    all,
                    none,
                    all,
                    none,
                );
            }
            lemma_kept_but_trans(
                &m5,
                old(wf),
                old(wf),
                Self::cn_shapes(),
                Set::empty(),
                post_shapes(),
                all,
                none,
            );
            lemma_kept_but_trans(
                &m5,
                old(wf),
                old(wf),
                Self::cn_shapes(),
                Set::empty(),
                calm_shapes(),
                all,
                none,
            );
            if sampled {
                assert(m5.node(NODE_KSAMPLER@) == old(wf).node(NODE_KSAMPLER@));
            }
            lemma_same_as(&m5, &m5, all);
        }
        if let Some(aif) = &ac.image_filter {
            match self.apply_filter(wf, aif) {
                Ok(_) => {},
                Err(e) => {
                    proof {
                        reveal(Generator::late_fault);
                        lemma_same_as(wf, &m5, all);
                        lemma_evolved_trans(wf, &m5, old(wf), all, none, all, none, all, none);
                        lemma_kept_but_widen(&m5, old(wf), calm_shapes(), but_adapter());
                        assert(settled(&m5, old(wf)) && self.late_fault(&m5, ac, idx, e));
                    }
                    return Err(e);
                },
            }
        }
        let ghost m6 = *wf;
        proof {
            if ac.image_filter is Some {
                let touched = set![ac.image_filter->Some_0.title@];
                lemma_evolved_trans(&m6, &m5, old(wf), touched, none, all, none, all, none);
                lemma_kept_but_trans(
                    &m6,
                    &m5,
                    old(wf),
                    set![Shape::ImageFilter],
                    post_shapes(),
                    post_shapes(),
                    touched,
                    none,
                );
                lemma_kept_but_trans(
                    &m6,
                    &m5,
                    old(wf),
                    set![Shape::ImageFilter],
                    calm_shapes(),
                    calm_shapes(),
                    touched,
                    none,
                );
                if wiring(ac) {
                    self.lemma_slots_kept(
                        &m6,
                        &m5,
                        old(wf),
                        touched,
                        set![Shape::ImageFilter],
                        &ac.ctrlnet_stack->Some_0,
                        size,
                    );
                }
            }
            if sampled {
                assert(m6.node(NODE_KSAMPLER@) == m5.node(NODE_KSAMPLER@));
            }
            if ac.image_filter is None {
                lemma_same_as(&m6, &m5, all);
                lemma_same_as(&m6, &m5, none);
                lemma_kept_but(&m6, &m5, none, none, set![Shape::ImageFilter]);
            } else {
                lemma_evolved_trans(
                    &m6,
                    &m5,
                    &m5,
                    set![ac.image_filter->Some_0.title@],
                    none,
                    all,
                    none,
                    all,
                    none,
                );
            }
            lemma_same_names_trans(&m6, &m5, old(wf));
            reveal(filter_stepped);
            assert(filter_stepped(&m6, &m5, ac));
        }
        if let Some(arembg) = &ac.image_rembg {
            match self.apply_rembg(wf, arembg) {
                Ok(_) => {},
                Err(e) => {
                    proof {
                        reveal(Generator::late_fault);
                        lemma_same_as(wf, &m6, all);
                        lemma_evolved_trans(wf, &m6, old(wf), all, none, all, none, all, none);
                        lemma_kept_but_widen(&m6, old(wf), calm_shapes(), but_adapter());
                        assert(settled(&m6, old(wf)) && self.late_fault(&m6, ac, idx, e));
                    }
                    return Err(e);
                },
            }
        }
        let ghost m7 = *wf;
        proof {
            if ac.image_rembg is Some {
                let touched = rembg_keys(&ac.image_rembg->Some_0);
                let shapes = set![Shape::ImageRembg, Shape::ImageFilter];
                lemma_evolved_trans(&m7, &m6, old(wf), touched, none, all, none, all, none);
                lemma_kept_but_trans(
                    &m7,
                    &m6,
                    old(wf),
                    shapes,
                    post_shapes(),
                    post_shapes(),
                    touched,
                    none,
                );
                lemma_kept_but_trans(
                    &m7,
                    &m6,
                    old(wf),
                    shapes,
                    calm_shapes(),
                    calm_shapes(),
                    touched,
                    none,
                );
                if wiring(ac) {
                    self.lemma_slots_kept(
                        &m7,
                        &m6,
                        old(wf),
                        touched,
                        shapes,
                        &ac.ctrlnet_stack->Some_0,
                        size,
                    );
                }
            }
            if sampled {
                assert(m7.node(NODE_KSAMPLER@) == m6.node(NODE_KSAMPLER@));
            }
            lemma_same_as(&m6, &m6, all);
            if ac.image_rembg is None {
                lemma_same_as(&m7, &m6, all);
                lemma_same_as(&m7, &m6, none);
                lemma_kept_but(
                    &m7,
                    &m6,
                    none,
                    none,
                    set![Shape::ImageRembg, Shape::ImageFilter],
                );
            } else {
                lemma_evolved_trans(
                    &m7,
                    &m6,
                    &m6,
                    rembg_keys(&ac.image_rembg->Some_0),
                    none,
                    all,
                    none,
                    all,
                    none,
                );
            }
            lemma_same_names_trans(&m7, &m6, old(wf));
            reveal(rembg_stepped);
            assert(rembg_stepped(&m7, &m6, ac));
        }
        if let Some(aipa) = &ac.ip_adapter {
            match self.apply_ip_adapter(wf, aipa) {
                Ok(_) => {},
                Err(e) => {
                    proof {
                        reveal(Generator::late_fault);
                        lemma_same_as(wf, &m7, all);
                        lemma_evolved_trans(wf, &m7, old(wf), all, none, all, none, all, none);
                        lemma_kept_but_widen(&m7, old(wf), calm_shapes(), but_adapter());
                        assert(settled(&m7, old(wf)) && self.late_fault(&m7, ac, idx, e));
                    }
                    return Err(e);
                },
            }
            proof {
                let at = m7.index_of_id(adapter_image(&m7, aipa));
                let touched = if aipa.switch {
                    set![aipa.title@, NODE_KSAMPLER@, role_keys(m7.nodes@, m7.policy)[at]]
                } else {
                    all
                };
                if !aipa.switch {
                    lemma_same_as(wf, &m7, all);
                }
                lemma_evolved_trans(wf, &m7, old(wf), touched, none, all, none, all, none);
                lemma_kept_but_trans(
                    wf,
                    &m7,
                    old(wf),
                    adapter_shapes(),
                    post_shapes(),
                    post_shapes(),
                    touched,
                    none,
                );
                if !aipa.switch {
                    lemma_kept_but(wf, &m7, none, none, Set::empty());
                    lemma_kept_but_trans(
                        wf,
                        &m7,
                        old(wf),
                        Set::empty(),
                        calm_shapes(),
                        calm_shapes(),
                        touched,
                        none,
                    );
                }
                if wiring(ac) {
                    self.lemma_slots_kept(
                        wf,
                        &m7,
                        old(wf),
                        touched,
                        adapter_shapes(),
                        &ac.ctrlnet_stack->Some_0,
                        size,
                    );
                }
                if sampled {
                    assert(modelled(wf.payload(NODE_KSAMPLER@), m7.payload(NODE_KSAMPLER@)));
                }
            }
        }
        proof {
            lemma_same_as(&m7, &m7, all);
            if ac.ip_adapter is None {
                lemma_same_as(wf, &m7, all);
                lemma_same_as(wf, &m7, none);
                lemma_kept_but(wf, &m7, none, none, adapter_shapes());
            } else if adapting(ac) {
                let aipa = &ac.ip_adapter->Some_0;
                let at = m7.index_of_id(adapter_image(&m7, aipa));
                lemma_evolved_trans(
                    wf,
                    &m7,
                    &m7,
                    set![aipa.title@, NODE_KSAMPLER@, role_keys(m7.nodes@, m7.policy)[at]],
                    none,
                    all,
                    none,
                    all,
                    none,
                );
            } else {
                lemma_same_as(wf, &m7, all);
            }
            lemma_same_names_trans(wf, &m7, old(wf));
            reveal(adapter_stepped);
            assert(adapter_stepped(wf, &m7, ac));
            lemma_post_done(wf, &m7, &m6, &m5, old(wf), ac);
        }
        Ok(())
    }

    /// Gives the sampler a fresh seed, drawn from the whole seed space: the
    /// graphs of one batch differ in their seed only.
    pub fn reseed(&self, wf: &mut Workflow) -> (r: Result<(), AppError>)
        ensures
            final(wf).same_but_payload(old(wf), old(wf).index_of(NODE_KSAMPLER@)),
            match r {
                Ok(_) => {
                    &&& old(wf).shape_at(NODE_KSAMPLER@) == Some(Shape::KSampler)
                    &&& final(wf).payload(NODE_KSAMPLER@) matches Inputs::KSampler(k1)
                    &&& 0 <= k1.seed <= u32::MAX
                    &&& k1 == (KSampler { seed: k1.seed, ..old(wf).payload(NODE_KSAMPLER@)->KSampler_0 })
                },
                Err(e) => {
                    &&& old(wf).shape_at(NODE_KSAMPLER@) != Some(Shape::KSampler)
                    &&& old(wf).refused(NODE_KSAMPLER@, Shape::KSampler, e)
                    &&& final(wf).same_as(old(wf))
                },
            },
    {
        let seed: i64 = random_u32() as i64;
        wf.set_seed(seed)
    }
}

} // verus!
