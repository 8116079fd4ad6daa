use vstd::prelude::*;
use crate::auto_cfg::{ALoraStack, ALoraStacker, AutoCfg};
use crate::comfy::inputs::{Inputs, Shape};
use crate::comfy::lora::{
    inert_slot, inert_stacker_slot, IdxLoRA, LoraCfg, LoraStack, LoraStacker,
};
use crate::comfy::workflow::{
    lemma_evolved_trans, lemma_kept_but, lemma_same_as, lemma_same_names, lemma_same_names_trans,
    lemma_touch, Workflow,
};
use crate::error::AppError;
use crate::fixed::Fixed;
use crate::generator::{listed, Generator};
use crate::rng::{is_sample, rand_element, rand_fixed};

verus! {

/// Whether `cfg` holds values drawn for a LoRA slot: one of the candidate
/// models, and a weight by quantized range sampling that is both the
/// model's and the clip's.
pub open spec fn lora_cfg_drawn(cfg: &LoraCfg, names: Seq<String>, min: Fixed, max: Fixed) -> bool {
    &&& listed(names, cfg.lora_name@)
    &&& is_sample(min, max, cfg.model_weight)
    &&& cfg.clip_weight == cfg.model_weight
}

/// Draws the values of one LoRA slot.
pub fn rand_lora_cfg(names: &[String], wmodel_min: Fixed, wmodel_max: Fixed) -> (r: LoraCfg)
    requires
        names@.len() > 0,
    ensures
        lora_cfg_drawn(&r, names@, wmodel_min, wmodel_max),
{
    let model_weight = rand_fixed(wmodel_min, wmodel_max);
    LoraCfg { lora_name: rand_element(names).clone(), model_weight, clip_weight: model_weight }
}

/// Whether slot `idx` of the stack `after` is switched on with values drawn
/// from the catalog entry `a`, the other slots as in `before`.
pub open spec fn stack_drawn(after: &LoraStack, before: &LoraStack, a: &ALoraStack, idx: IdxLoRA) -> bool {
    &&& after.slot(idx).switch == "On"@
    &&& listed(a.names(idx), after.slot(idx).name)
    &&& is_sample(a.strength_min(idx), a.strength_max(idx), after.slot(idx).model_weight)
    &&& after.slot(idx).clip_weight == after.slot(idx).model_weight
    &&& forall|other: IdxLoRA|
        other != idx && other != IdxLoRA::LoRA4 ==> #[trigger] after.slot(other) == before.slot(
            other,
        )
}

/// Whether the stack `after` is as the LoRA step leaves a stack: each slot
/// that the catalog has switched on is switched on with values
/// drawn from the catalog, each other slot is inert.
pub open spec fn stack_done(after: &LoraStack, a: &ALoraStack) -> bool {
    forall|idx: IdxLoRA|
        idx != IdxLoRA::LoRA4 ==> if a.enabled(idx) {
            &&& (#[trigger] after.slot(idx)).switch == "On"@
            &&& listed(a.names(idx), after.slot(idx).name)
            &&& is_sample(a.strength_min(idx), a.strength_max(idx), after.slot(idx).model_weight)
            &&& after.slot(idx).clip_weight == after.slot(idx).model_weight
        } else {
            after.slot(idx) == inert_slot()
        }
}

/// Whether slot `idx` of the stacker `after` holds values drawn from the
/// catalog entry `a`: one of the candidate models, and a weight by quantized
/// range sampling that is the slot's weight and both its strengths.
pub open spec fn stacker_slot_drawn(after: &LoraStacker, a: &ALoraStacker, idx: IdxLoRA) -> bool {
    &&& listed(a.names(idx), after.slot(idx).name)
    &&& is_sample(a.strength_min(idx), a.strength_max(idx), after.slot(idx).lora_wt)
    &&& after.slot(idx).model_str == after.slot(idx).lora_wt
    &&& after.slot(idx).clip_str == after.slot(idx).lora_wt
}

/// Whether the stacker `after` is `before` with slot `idx` drawn from the
/// catalog entry `a`, all else kept.
pub open spec fn stacker_drawn(
    after: &LoraStacker,
    before: &LoraStacker,
    a: &ALoraStacker,
    idx: IdxLoRA,
) -> bool {
    &&& after.input_mode@ == before.input_mode@
    &&& after.lora_count == before.lora_count
    &&& stacker_slot_drawn(after, a, idx)
    &&& forall|other: IdxLoRA| other != idx ==> #[trigger] after.slot(other) == before.slot(other)
}

/// Whether the stacker `after` is as the LoRA step leaves the stacker
/// `before`: it uses as many slots as the catalog says; each slot in use
/// holds values drawn from the catalog; each other slot is inert.
pub open spec fn stacker_done(after: &LoraStacker, before: &LoraStacker, a: &ALoraStacker) -> bool {
    &&& after.input_mode@ == before.input_mode@
    &&& after.lora_count == a.lora_count
    &&& forall|idx: IdxLoRA|
        if a.enabled(idx) {
            stacker_slot_drawn(after, a, idx)
        } else {
            (#[trigger] after.slot(idx)) == inert_stacker_slot()
        }
}

/// The slot of a stacker with the number `i`, from 1 to 4.
pub open spec fn slot_number(i: u8) -> IdxLoRA {
    if i == 1 {
        IdxLoRA::LoRA1
    } else if i == 2 {
        IdxLoRA::LoRA2
    } else if i == 3 {
        IdxLoRA::LoRA3
    } else {
        IdxLoRA::LoRA4
    }
}

/// The role keys whose nodes the LoRA step may touch.
pub open spec fn lora_keys(ac: &AutoCfg) -> Set<Seq<char>> {
    Set::new(
        |key: Seq<char>|
            (ac.lora_stack matches Some(a) && key == a.title@) || (ac.lora_stacker matches Some(a)
                && key == a.title@),
    )
}

/// Whether the LoRA step finds the graph as it needs it: the nodes that the
/// catalog names are there, a stack as a stack and a stacker as a stacker.
pub open spec fn lora_ready(wf: &Workflow, ac: &AutoCfg) -> bool {
    &&& ac.lora_stack matches Some(a) ==> wf.shape_at(a.title@) == Some(Shape::LoraStack)
    &&& ac.lora_stacker matches Some(a) ==> wf.shape_at(a.title@) == Some(Shape::LoraStacker)
}

/// Whether `e` is the error of the LoRA step on a graph that it does not
/// find as it needs it: that of the stack, else that of the stacker.
pub open spec fn lora_fault(wf: &Workflow, ac: &AutoCfg, e: AppError) -> bool {
    if ac.lora_stack matches Some(a) && wf.shape_at(a.title@) != Some(Shape::LoraStack) {
        wf.refused(ac.lora_stack->Some_0.title@, Shape::LoraStack, e)
    } else {
        &&& ac.lora_stacker matches Some(a)
        &&& wf.refused(a.title@, Shape::LoraStacker, e)
    }
}

impl Generator {
    /// The step of the first slot of a LoRA stack: where the catalog has it
    /// switched on, it is switched on with values drawn from the catalog.
    pub fn rand_lora1(&self, lora_stack: &mut LoraStack, alora: &ALoraStack)
        requires
            alora.switch_1 ==> alora.model_name_1@.len() > 0,
        ensures
            alora.switch_1 ==> stack_drawn(final(lora_stack), old(lora_stack), alora, IdxLoRA::LoRA1),
            !alora.switch_1 ==> *final(lora_stack) == *old(lora_stack),
    {
        if !alora.switch_1 {
            return ;
        }
        let cfg = rand_lora_cfg(
            alora.model_name_1.as_slice(),
            alora.strength_min_1,
            alora.strength_max_1,
        );
        lora_stack.enable(IdxLoRA::LoRA1, &cfg);
    }

    /// The step of the second slot of a LoRA stack.
    pub fn rand_lora2(&self, lora_stack: &mut LoraStack, alora: &ALoraStack)
        requires
            alora.switch_2 ==> alora.model_name_2@.len() > 0,
        ensures
            alora.switch_2 ==> stack_drawn(final(lora_stack), old(lora_stack), alora, IdxLoRA::LoRA2),
            !alora.switch_2 ==> *final(lora_stack) == *old(lora_stack),
    {
        if !alora.switch_2 {
            return ;
        }
        let cfg = rand_lora_cfg(
            alora.model_name_2.as_slice(),
            alora.strength_min_2,
            alora.strength_max_2,
        );
        lora_stack.enable(IdxLoRA::LoRA2, &cfg);
    }

    /// The step of the third slot of a LoRA stack.
    pub fn rand_lora3(&self, lora_stack: &mut LoraStack, alora: &ALoraStack)
        requires
            alora.switch_3 ==> alora.model_name_3@.len() > 0,
        ensures
            alora.switch_3 ==> stack_drawn(final(lora_stack), old(lora_stack), alora, IdxLoRA::LoRA3),
            !alora.switch_3 ==> *final(lora_stack) == *old(lora_stack),
    {
        if !alora.switch_3 {
            return ;
        }
        let cfg = rand_lora_cfg(
            alora.model_name_3.as_slice(),
            alora.strength_min_3,
            alora.strength_max_3,
        );
        lora_stack.enable(IdxLoRA::LoRA3, &cfg);
    }

    /// The step of slot `i` of a LoRA stacker, with `i` from 1 to 4: the
    /// slot gets values drawn from the catalog. Any other number leaves the
    /// stacker as it is.
    pub fn rand_loran(&self, i: u8, alora: &ALoraStacker, stacker: &mut LoraStacker)
        requires
            1 <= i <= 4 ==> alora.names(slot_number(i)).len() > 0,
        ensures
            1 <= i <= 4 ==> stacker_drawn(final(stacker), old(stacker), alora, slot_number(i)),
            !(1 <= i <= 4) ==> *final(stacker) == *old(stacker),
    {
        if i == 1 {
            let cfg = rand_lora_cfg(
                alora.model_name_1.as_slice(),
                alora.strength_min_1,
                alora.strength_max_1,
            );
            stacker.enable(IdxLoRA::LoRA1, &cfg);
        } else if i == 2 {
            let cfg = rand_lora_cfg(
                alora.model_name_2.as_slice(),
                alora.strength_min_2,
                alora.strength_max_2,
            );
            stacker.enable(IdxLoRA::LoRA2, &cfg);
        } else if i == 3 {
            let cfg = rand_lora_cfg(
                alora.model_name_3.as_slice(),
                alora.strength_min_3,
                alora.strength_max_3,
            );
            stacker.enable(IdxLoRA::LoRA3, &cfg);
        } else if i == 4 {
            let cfg = rand_lora_cfg(
                alora.model_name_4.as_slice(),
                alora.strength_min_4,
                alora.strength_max_4,
            );
            stacker.enable(IdxLoRA::LoRA4, &cfg);
        }
    }

    /// The step of a LoRA stack: every slot is reset to its inert state,
    /// then each slot that the catalog has switched on is switched on with
    /// values drawn from the catalog.
    pub fn rand_stack(&self, lora_stack: &mut LoraStack, alora: &ALoraStack)
        requires
            forall|idx: IdxLoRA| alora.enabled(idx) ==> (#[trigger] alora.names(idx)).len() > 0,
        ensures
            stack_done(final(lora_stack), alora),
    {
        proof {
            assert(alora.names(IdxLoRA::LoRA1) == alora.model_name_1@);
            assert(alora.names(IdxLoRA::LoRA2) == alora.model_name_2@);
            assert(alora.names(IdxLoRA::LoRA3) == alora.model_name_3@);
        }
        lora_stack.disable_all();
        if alora.switch() {
            self.rand_lora1(lora_stack, alora);
            self.rand_lora2(lora_stack, alora);
            self.rand_lora3(lora_stack, alora);
        }
    }

    /// The step of a LoRA stacker: every slot is reset to its inert state,
    /// the stacker is told how many slots are in use, and each of these
    /// gets values drawn from the catalog.
    pub fn rand_stacker(&self, stacker: &mut LoraStacker, astacker: &ALoraStacker)
        requires
            forall|idx: IdxLoRA| astacker.enabled(idx) ==> (#[trigger] astacker.names(idx)).len() > 0,
        ensures
            stacker_done(final(stacker), old(stacker), astacker),
    {
        stacker.disable_all();
        let ghost off = *stacker;
        stacker.lora_count = astacker.lora_count;
        let ghost reset = *stacker;
        let mut i: u8 = 0;
        while i < astacker.lora_count
            invariant
                i <= astacker.lora_count,
                forall|idx: IdxLoRA| astacker.enabled(idx) ==> (#[trigger] astacker.names(idx)).len() > 0,
                stacker.input_mode@ == reset.input_mode@,
                stacker.lora_count == astacker.lora_count,
                forall|k: u8|
                    1 <= k <= 4 ==> if k <= i {
                        stacker_slot_drawn(stacker, astacker, #[trigger] slot_number(k))
                    } else {
                        stacker.slot(slot_number(k)) == reset.slot(slot_number(k))
                    },
            decreases astacker.lora_count - i,
        {
            i += 1;
            let ghost prev = *stacker;
            proof {
                if i <= 4 {
                    assert(astacker.enabled(slot_number(i)));
                }
            }
            self.rand_loran(i, astacker, stacker);
            proof {
                assert forall|k: u8| 1 <= k <= 4 implies if k <= i {
                    stacker_slot_drawn(stacker, astacker, #[trigger] slot_number(k))
                } else {
                    stacker.slot(slot_number(k)) == reset.slot(slot_number(k))
                } by {
                    if i <= 4 {
                        if k != i {
                            assert(slot_number(k) != slot_number(i));
                            assert(stacker.slot(slot_number(k)) == prev.slot(slot_number(k)));
                            if k < i {
                                assert(stacker_slot_drawn(&prev, astacker, slot_number(k)));
                            }
                        }
                    } else {
                        assert(stacker_slot_drawn(&prev, astacker, slot_number(k)));
                    }
                }
            }
        }
        proof {
            assert forall|idx: IdxLoRA|
                if astacker.enabled(idx) {
                    stacker_slot_drawn(stacker, astacker, idx)
                } else {
                    (#[trigger] stacker.slot(idx)) == inert_stacker_slot()
                } by {
                let k: u8 = match idx {
                    IdxLoRA::LoRA1 => 1,
                    IdxLoRA::LoRA2 => 2,
                    IdxLoRA::LoRA3 => 3,
                    IdxLoRA::LoRA4 => 4,
                };
                assert(slot_number(k) == idx);
                assert(reset.slot(idx) == off.slot(idx));
            }
        }
    }

    /// The LoRA step. The stack that the catalog names, if it names one, has
    /// every slot reset and each slot that is switched on set to values
    /// drawn from the catalog. The stacker that the catalog names, if it
    /// names one, has every slot reset and the slots in use set to values
    /// drawn from the catalog. A graph that lacks one of the nodes is left
    /// as it is.
    pub fn rand_lora(&self, wf: &mut Workflow, ac: &AutoCfg) -> (r: Result<(), AppError>)
        requires
            old(wf).inv(),
            ac.lora_stack matches Some(a) ==> forall|idx: IdxLoRA|
                a.enabled(idx) ==> (#[trigger] a.names(idx)).len() > 0,
            ac.lora_stacker matches Some(a) ==> forall|idx: IdxLoRA|
                a.enabled(idx) ==> (#[trigger] a.names(idx)).len() > 0,
        ensures
            final(wf).inv(),
            final(wf).same_names(old(wf)),
            final(wf).evolved_from(old(wf), lora_keys(ac)),
            final(wf).kept_but(old(wf), set![Shape::LoraStack, Shape::LoraStacker]),
            match r {
                Ok(_) => {
                    &&& lora_ready(old(wf), ac)
                    &&& ac.lora_stack matches Some(a) ==> stack_done(
                        &final(wf).payload(a.title@)->LoraStack_0,
                        &a,
                    )
                    &&& ac.lora_stacker matches Some(a) ==> stacker_done(
                        &final(wf).payload(a.title@)->LoraStacker_0,
                        &old(wf).payload(a.title@)->LoraStacker_0,
                        &a,
                    )
                },
                Err(e) => {
                    &&& !lora_ready(old(wf), ac)
                    &&& lora_fault(old(wf), ac, e)
                    &&& final(wf).same_as(old(wf))
                },
            },
    {
        let ghost keys = lora_keys(ac);
        let ghost none = Set::<Seq<char>>::empty();
        proof {
            lemma_same_as(wf, old(wf), keys);
        }
        let stack_at: Option<usize> = match &ac.lora_stack {
            Some(alora) => Some(wf.locate(alora.title.as_str(), Shape::LoraStack)?),
            None => None,
        };
        let stacker_at: Option<usize> = match &ac.lora_stacker {
            Some(astacker) => Some(wf.locate(astacker.title.as_str(), Shape::LoraStacker)?),
            None => None,
        };
        match &ac.lora_stack {
            Some(alora) => {
                let i = stack_at.unwrap();
                match &mut wf.nodes[i].inputs {
                    Inputs::LoraStack(lora_stack) => {
                        self.rand_stack(lora_stack, alora);
                    },
                    _ => {},
                }
                proof {
                    lemma_touch(wf, old(wf), i as int, alora.title@);
                }
            },
            None => {},
        }
        let ghost mid = *wf;
        proof {
            lemma_evolved_trans(&mid, old(wf), old(wf), keys, none, none, none, keys, none);
            lemma_same_names(&mid, old(wf));
        }
        match &ac.lora_stacker {
            Some(astacker) => {
                let i = stacker_at.unwrap();
                match &mut wf.nodes[i].inputs {
                    Inputs::LoraStacker(stacker) => {
                        self.rand_stacker(stacker, astacker);
                    },
                    _ => {},
                }
                proof {
                    lemma_touch(wf, &mid, i as int, astacker.title@);
                    lemma_same_names_trans(wf, &mid, old(wf));
                    lemma_evolved_trans(
                        wf,
                        &mid,
                        old(wf),
                        set![astacker.title@],
                        none,
                        keys,
                        none,
                        keys,
                        none,
                    );
                }
            },
            None => {},
        }
        proof {
            lemma_kept_but(wf, old(wf), keys, none, set![Shape::LoraStack, Shape::LoraStacker]);
        }
        Ok(())
    }
}

} // verus!
