use vstd::prelude::*;
use crate::auto_cfg::{AIPAdapter, AImageFilter, AImageRembg, AutoCfg};
use crate::comfy::image::ImageFilter;
use crate::comfy::inputs::{Inputs, Shape};
use crate::comfy::ip_adapter::IPAdapterApply;
use crate::comfy::workflow::{
    lemma_in_place, lemma_kept_but, lemma_same_as, lemma_same_names, lemma_touch, Workflow,
};
use crate::comfy::{create_input_id, edge_view, NODE_IMAGE_FILTER, NODE_KSAMPLER};
use crate::error::AppError;
use crate::fixed::Fixed;
use crate::generator::{listed, Generator};
use crate::lookup::{lemma_position, lemma_position_distinct};
use crate::rng::{is_sample, rand_element, rand_fixed};

verus! {

/// What an optional adjustment comes to: the catalog's value where it gives
/// one, else the value that the graph has.
pub open spec fn or_kept<T>(given: Option<T>, kept: T) -> T {
    match given {
        Some(v) => v,
        None => kept,
    }
}

/// Whether the catalog has the filter set up.
pub open spec fn filtering(ac: &AutoCfg) -> bool {
    ac.image_filter matches Some(aif) && aif.switch
}

/// Whether the catalog has background removal set up.
pub open spec fn clearing(ac: &AutoCfg) -> bool {
    ac.image_rembg matches Some(arembg) && arembg.switch
}

/// Whether the filter `after` is `before` with the adjustments of the
/// catalog entry `aif`: each one that the catalog gives is set, each other
/// one and the image are kept.
pub open spec fn filter_adjusted(after: ImageFilter, before: ImageFilter, aif: &AImageFilter) -> bool {
    &&& values_adjusted(after, before, aif)
    &&& after.image == before.image
}

/// Whether the filter `after` has the adjustments of `before`.
pub open spec fn values_kept(after: ImageFilter, before: ImageFilter) -> bool {
    after == (ImageFilter { image: after.image, ..before })
}

/// Whether the filter of `after` with the role key `key` is as the filter
/// step and the background step leave that of `before`. Its adjustments are
/// those that the catalog gives, where the filter step works on it, else
/// those that it had. Its image is output 0 of the background remover,
/// where the background step feeds it, else the image that it had.
pub open spec fn filter_left(
    after: &Workflow,
    before: &Workflow,
    ac: &AutoCfg,
    key: Seq<char>,
) -> bool {
    let now = after.payload(key)->ImageFilter_0;
    let was = before.payload(key)->ImageFilter_0;
    &&& after.has(key)
    &&& after.payload(key) is ImageFilter
    &&& if filtering(ac) && key == ac.image_filter->Some_0.title@ {
        values_adjusted(now, was, &ac.image_filter->Some_0)
    } else {
        values_kept(now, was)
    }
    &&& if clearing(ac) && key == NODE_IMAGE_FILTER@ {
        edge_view(now.image) == Some((after.node(ac.image_rembg->Some_0.title@).id@, 0usize))
    } else {
        now.image == was.image
    }
}

/// Whether the filter `after` has the adjustments that the catalog entry
/// `aif` gives, and those of `before` where it gives none.
pub open spec fn values_adjusted(after: ImageFilter, before: ImageFilter, aif: &AImageFilter) -> bool {
    &&& after.brightness == or_kept(aif.brightness, before.brightness)
    &&& after.contrast == or_kept(aif.contrast, before.contrast)
    &&& after.saturation == or_kept(aif.saturation, before.saturation)
    &&& after.sharpness == or_kept(aif.sharpness, before.sharpness)
    &&& after.blur == or_kept(aif.blur, before.blur)
    &&& after.gaussian_blur == or_kept(aif.gaussian_blur, before.gaussian_blur)
    &&& after.edge_enhance == or_kept(aif.edge_enhance, before.edge_enhance)
    &&& after.detail_enhance@ == match aif.detail_enhance {
        Some(s) => s@,
        None => before.detail_enhance@,
    }
}

/// Sets the adjustments that the catalog gives.
pub fn adjust_filter(filter: &mut ImageFilter, aif: &AImageFilter)
    ensures
        filter_adjusted(*final(filter), *old(filter), aif),
{
    if let Some(brightness) = aif.brightness {
        filter.brightness = brightness;
    }
    if let Some(contrast) = aif.contrast {
        filter.contrast = contrast;
    }
    if let Some(saturation) = aif.saturation {
        filter.saturation = saturation;
    }
    if let Some(sharpness) = aif.sharpness {
        filter.sharpness = sharpness;
    }
    if let Some(blur) = aif.blur {
        filter.blur = blur;
    }
    if let Some(gaussian_blur) = aif.gaussian_blur {
        filter.gaussian_blur = gaussian_blur;
    }
    if let Some(edge_enhance) = aif.edge_enhance {
        filter.edge_enhance = edge_enhance;
    }
    if let Some(detail_enhance) = &aif.detail_enhance {
        filter.detail_enhance = detail_enhance.clone();
    }
}

/// Whether the adapter `after` is `before` with values drawn from the
/// catalog entry `aipa`: weight, noise and bounds by quantized range
/// sampling, all else kept.
pub open spec fn adapter_drawn(after: IPAdapterApply, before: IPAdapterApply, aipa: &AIPAdapter) -> bool {
    &&& is_sample(aipa.weight_min, aipa.weight_max, after.weight)
    &&& is_sample(aipa.noise_min, aipa.noise_max, after.noise)
    &&& is_sample(aipa.start_min, aipa.start_max, after.start_at)
    &&& is_sample(aipa.end_min, aipa.end_max, after.end_at)
    &&& after == (IPAdapterApply {
        weight: after.weight,
        noise: after.noise,
        start_at: after.start_at,
        end_at: after.end_at,
        ..before
    })
}

/// The shapes of the nodes that the adapter step may touch.
pub open spec fn adapter_shapes() -> Set<Shape> {
    set![Shape::IPAdapterApply, Shape::KSampler, Shape::LoadImage]
}

/// The role keys whose nodes the background step may touch.
pub open spec fn rembg_keys(arembg: &AImageRembg) -> Set<Seq<char>> {
    set![arembg.title@, NODE_IMAGE_FILTER@]
}

/// Whether the adapter step finds the graph as it needs it: the adapter
/// that the catalog names, the sampler, and the loader of the reference
/// image, which the adapter's image edge names by its id.
pub open spec fn adapter_ready(wf: &Workflow, aipa: &AIPAdapter) -> bool {
    &&& wf.shape_at(aipa.title@) == Some(Shape::IPAdapterApply)
    &&& wf.shape_at(NODE_KSAMPLER@) == Some(Shape::KSampler)
    &&& wf.has_id(adapter_image(wf, aipa))
    &&& wf.nodes@[wf.index_of_id(adapter_image(wf, aipa))].inputs is LoadImage
}

/// The id of the node that the adapter takes its reference image from.
pub open spec fn adapter_image(wf: &Workflow, aipa: &AIPAdapter) -> Seq<char> {
    wf.payload(aipa.title@)->IPAdapterApply_0.image.id@
}

/// Whether `e` is the error of the adapter step on a graph that it does not
/// find as it needs it: that of the first need that is not met, in the
/// order adapter, sampler, loader of the reference image.
pub open spec fn adapter_fault(wf: &Workflow, aipa: &AIPAdapter, e: AppError) -> bool {
    if wf.shape_at(aipa.title@) != Some(Shape::IPAdapterApply) {
        wf.refused(aipa.title@, Shape::IPAdapterApply, e)
    } else if wf.shape_at(NODE_KSAMPLER@) != Some(Shape::KSampler) {
        wf.refused(NODE_KSAMPLER@, Shape::KSampler, e)
    } else if !wf.has_id(adapter_image(wf, aipa)) {
        e.is_not_found(adapter_image(wf, aipa))
    } else {
        e.is_shape_mismatch(wf.nodes@[wf.index_of_id(adapter_image(wf, aipa))].meta.title@)
    }
}

impl Generator {
    /// The filter step: where the catalog entry is switched on, the filter
    /// that it names gets the adjustments that it gives.
    pub fn apply_filter(&self, wf: &mut Workflow, aif: &AImageFilter) -> (r: Result<(), AppError>)
        requires
            old(wf).inv(),
        ensures
            final(wf).inv(),
            final(wf).same_names(old(wf)),
            final(wf).evolved_from(old(wf), set![aif.title@]),
            final(wf).kept_but(old(wf), set![Shape::ImageFilter]),
            match r {
                Ok(_) => if aif.switch {
                    &&& old(wf).shape_at(aif.title@) == Some(Shape::ImageFilter)
                    &&& filter_adjusted(
                        final(wf).payload(aif.title@)->ImageFilter_0,
                        old(wf).payload(aif.title@)->ImageFilter_0,
                        aif,
                    )
                } else {
                    final(wf).same_as(old(wf))
                },
                Err(e) => {
                    &&& aif.switch
                    &&& old(wf).shape_at(aif.title@) != Some(Shape::ImageFilter)
                    &&& old(wf).refused(aif.title@, Shape::ImageFilter, e)
                    &&& final(wf).same_as(old(wf))
                },
            },
    {
        proof {
            lemma_same_as(wf, old(wf), set![aif.title@]);
        }
        if !aif.switch {
            return Ok(());
        }
        let i = wf.locate(aif.title.as_str(), Shape::ImageFilter)?;
        match &mut wf.nodes[i].inputs {
            Inputs::ImageFilter(filter) => {
                adjust_filter(filter, aif);
            },
            _ => {},
        }
        proof {
            lemma_touch(wf, old(wf), i as int, aif.title@);
            lemma_kept_but(wf, old(wf), set![aif.title@], Set::empty(), set![Shape::ImageFilter]);
        }
        Ok(())
    }

    /// The background step: where the catalog entry is switched on, the
    /// node that it names gets the catalog's model, and the filter, the
    /// node with the role key `ImageFilter`, takes its image from output 0
    /// of that node. A graph that lacks one of the two is left as it is.
    pub fn apply_rembg(&self, wf: &mut Workflow, arembg: &AImageRembg) -> (r: Result<(), AppError>)
        requires
            old(wf).inv(),
        ensures
            final(wf).inv(),
            final(wf).same_names(old(wf)),
            final(wf).evolved_from(old(wf), rembg_keys(arembg)),
            final(wf).kept_but(old(wf), set![Shape::ImageRembg, Shape::ImageFilter]),
            match r {
                Ok(_) => if arembg.switch {
                    &&& old(wf).shape_at(arembg.title@) == Some(Shape::ImageRembg)
                    &&& old(wf).shape_at(NODE_IMAGE_FILTER@) == Some(Shape::ImageFilter)
                    &&& final(wf).payload(arembg.title@)->ImageRembg_0.modelled_of(
                        &old(wf).payload(arembg.title@)->ImageRembg_0,
                        arembg.model_name@,
                    )
                    &&& final(wf).payload(NODE_IMAGE_FILTER@)->ImageFilter_0.fed_of(
                        &old(wf).payload(NODE_IMAGE_FILTER@)->ImageFilter_0,
                        final(wf).node(arembg.title@).id@,
                        0,
                    )
                } else {
                    final(wf).same_as(old(wf))
                },
                Err(e) => {
                    &&& arembg.switch
                    &&& final(wf).same_as(old(wf))
                    &&& if old(wf).shape_at(arembg.title@) != Some(Shape::ImageRembg) {
                        old(wf).refused(arembg.title@, Shape::ImageRembg, e)
                    } else {
                        &&& old(wf).shape_at(NODE_IMAGE_FILTER@) != Some(Shape::ImageFilter)
                        &&& old(wf).refused(NODE_IMAGE_FILTER@, Shape::ImageFilter, e)
                    }
                },
            },
    {
        let ghost keys = rembg_keys(arembg);
        proof {
            lemma_same_as(wf, old(wf), keys);
        }
        if !arembg.switch {
            return Ok(());
        }
        let ri = wf.locate(arembg.title.as_str(), Shape::ImageRembg)?;
        let fi = wf.locate(NODE_IMAGE_FILTER, Shape::ImageFilter)?;
        let out = create_input_id(wf.nodes[ri].id.as_str(), 0);
        match &mut wf.nodes[ri].inputs {
            Inputs::ImageRembg(rembg) => {
                rembg.set_model(arembg.model_name.as_str());
            },
            _ => {},
        }
        match &mut wf.nodes[fi].inputs {
            Inputs::ImageFilter(filter) => {
                filter.set_image(out);
            },
            _ => {},
        }
        proof {
            let places = set![ri as int, fi as int];
            lemma_position(old(wf).keys(), arembg.title@);
            lemma_position(old(wf).keys(), NODE_IMAGE_FILTER@);
            assert(wf.same_except(old(wf), places));
            lemma_in_place(wf, old(wf), places, keys);
            lemma_same_names(wf, old(wf));
            lemma_kept_but(
                wf,
                old(wf),
                keys,
                Set::empty(),
                set![Shape::ImageRembg, Shape::ImageFilter],
            );
        }
        Ok(())
    }

    /// The adapter step: where the catalog entry is switched on, the
    /// adapter that it names gets weight, noise and bounds drawn from the
    /// catalog; the sampler takes its model from output 0 of the adapter;
    /// and the loader of the adapter's reference image gets one of the
    /// catalog's images. A graph that lacks one of the three is left as it
    /// is.
    pub fn apply_ip_adapter(&self, wf: &mut Workflow, aipa: &AIPAdapter) -> (r: Result<
        (),
        AppError,
    >)
        requires
            old(wf).inv(),
            aipa.switch ==> aipa.image@.len() > 0,
        ensures
            final(wf).inv(),
            final(wf).same_names(old(wf)),
            final(wf).kept_but(old(wf), adapter_shapes()),
            match r {
                Ok(_) => if aipa.switch {
                    let at = old(wf).index_of_id(adapter_image(old(wf), aipa));
                    &&& adapter_ready(old(wf), aipa)
                    &&& final(wf).evolved_from(
                        old(wf),
                        set![aipa.title@, NODE_KSAMPLER@, old(wf).keys()[at]],
                    )
                    &&& adapter_drawn(
                        final(wf).payload(aipa.title@)->IPAdapterApply_0,
                        old(wf).payload(aipa.title@)->IPAdapterApply_0,
                        aipa,
                    )
                    &&& final(wf).payload(NODE_KSAMPLER@)->KSampler_0.modelled_of(
                        &old(wf).payload(NODE_KSAMPLER@)->KSampler_0,
                        final(wf).node(aipa.title@).id@,
                        0,
                    )
                    &&& final(wf).nodes@[at].inputs matches Inputs::LoadImage(loader)
                    &&& listed(aipa.image@, loader.image@)
                    &&& loader.upload == old(wf).nodes@[at].inputs->LoadImage_0.upload
                } else {
                    final(wf).same_as(old(wf))
                },
                Err(e) => {
                    &&& aipa.switch
                    &&& !adapter_ready(old(wf), aipa)
                    &&& adapter_fault(old(wf), aipa, e)
                    &&& final(wf).same_as(old(wf))
                },
            },
    {
        if !aipa.switch {
            return Ok(());
        }
        let ai = wf.locate(aipa.title.as_str(), Shape::IPAdapterApply)?;
        let ki = wf.locate(NODE_KSAMPLER, Shape::KSampler)?;
        let li = match &wf.nodes[ai].inputs {
            Inputs::IPAdapterApply(ipa) => {
                match wf.find_by_id(ipa.image.id.as_str()) {
                    Some(i) => i,
                    None => {
                        return Err(AppError::NotFound(ipa.image.id.clone()));
                    },
                }
            },
            _ => ai,
        };
        proof {
            lemma_position(old(wf).ids(), adapter_image(old(wf), aipa));
        }
        if wf.nodes[li].inputs.shape() != Shape::LoadImage {
            return Err(AppError::ShapeMismatch(wf.nodes[li].meta.title.clone()));
        }
        let weight = rand_fixed(aipa.weight_min, aipa.weight_max);
        let noise = rand_fixed(aipa.noise_min, aipa.noise_max);
        let start = rand_fixed(aipa.start_min, aipa.start_max);
        let end = rand_fixed(aipa.end_min, aipa.end_max);
        let image = rand_element(aipa.image.as_slice());
        let out = create_input_id(wf.nodes[ai].id.as_str(), 0);
        match &mut wf.nodes[ai].inputs {
            Inputs::IPAdapterApply(ipa) => {
                ipa.set(weight, noise, start, end);
            },
            _ => {},
        }
        match &mut wf.nodes[ki].inputs {
            Inputs::KSampler(sampler) => {
                sampler.set_model(out);
            },
            _ => {},
        }
        match &mut wf.nodes[li].inputs {
            Inputs::LoadImage(loader) => {
                loader.set_image(image.as_str());
            },
            _ => {},
        }
        proof {
            let places = set![ai as int, ki as int, li as int];
            let keys = set![aipa.title@, NODE_KSAMPLER@, old(wf).keys()[li as int]];
            lemma_position(old(wf).keys(), aipa.title@);
            lemma_position(old(wf).keys(), NODE_KSAMPLER@);
            assert(wf.same_except(old(wf), places));
            lemma_in_place(wf, old(wf), places, keys);
            lemma_same_names(wf, old(wf));
            lemma_position_distinct(old(wf).keys(), li as int);
            lemma_kept_but(wf, old(wf), keys, Set::empty(), adapter_shapes());
        }
        Ok(())
    }
}

} // verus!
