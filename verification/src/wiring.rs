use vstd::prelude::*;
use crate::auto_cfg::{ACtrlnet, ACtrlnetStack, AutoCfg};
use crate::comfy::control_net::{inert_slot, CnCfg, Ctrlnet, CtrlnetSlot, IdxControlNet};
use crate::comfy::inputs::{Inputs, Shape};
use crate::comfy::preprocessor::{
    CannyEdgePreprocessor, LineartStandardPreprocessor, TilePreprocessor,
};
use crate::comfy::registry::{comfy_class_map, comfy_preprocessor};
use crate::comfy::workflow::{
    lemma_evolved_shapes, lemma_evolved_trans, lemma_kept_but, lemma_kept_but_trans,
    lemma_same_as, lemma_same_names, lemma_same_names_trans, lemma_touch, Workflow,
};
use crate::comfy::{
    create_input_id, str_eq, NODE_CANNY_PREPROCESSOR, NODE_IMAGE_PREPROCESSOR,
    NODE_LINEARTSTANDARD_PREPROCESSOR, NODE_LINEART_PREPROCESSOR, NODE_TILE_PREPROCESSOR,
};
use crate::error::AppError;
use crate::generator::{listed, Generator};
use crate::lookup::{lemma_position, lemma_position_absent, lemma_position_at, position};
use crate::rng::{is_sample, rand_element, rand_fixed, random_bool, random_u8};

verus! {

/// The names of the control-net types of a table.
pub open spec fn cn_names(cns: Seq<(String, Ctrlnet)>) -> Seq<Seq<char>> {
    Seq::new(cns.len(), |i: int| cns[i].0@)
}

/// The shape that the preprocessor with the role `role` must have: each of
/// the five preprocessors that the engine configures has its own; of any
/// other nothing is asked.
pub open spec fn preprocessor_shape(role: Seq<char>) -> Option<Shape> {
    if role == NODE_LINEART_PREPROCESSOR@ {
        Some(Shape::LineArtPreprocessor)
    } else if role == NODE_LINEARTSTANDARD_PREPROCESSOR@ {
        Some(Shape::LineartStandardPreprocessor)
    } else if role == NODE_TILE_PREPROCESSOR@ {
        Some(Shape::TilePreprocessor)
    } else if role == NODE_IMAGE_PREPROCESSOR@ {
        Some(Shape::ImagePreprocessor)
    } else if role == NODE_CANNY_PREPROCESSOR@ {
        Some(Shape::CannyEdgePreprocessor)
    } else {
        None
    }
}

/// Whether the payload `after` is `before` configured as the preprocessor
/// with the role `role`, for the slot values `cfg` and the catalog entry
/// `acn`. Each of the five preprocessors that the engine configures gets
/// the resolution. Line art has coarse lines enabled or disabled. The tile
/// preprocessor gets the catalog's iterations, or from 1 to 3 where the
/// catalog gives 0. The preprocessor chosen by name gets the backend's
/// name. The Canny preprocessor gets the catalog's thresholds, or, where
/// the catalog's low threshold is 0, a low threshold of 40, 60, 80 or 100
/// and twice that as the high one. Any other is left as it is.
pub open spec fn preprocessor_set(
    after: Inputs,
    before: Inputs,
    role: Seq<char>,
    cfg: &CnCfg,
    acn: &ACtrlnetStack,
) -> bool {
    match preprocessor_shape(role) {
        None => after == before,
        Some(_) => match before {
            Inputs::LineArtPreprocessor(b) => {
                &&& after matches Inputs::LineArtPreprocessor(a)
                &&& a.set_of(&b, cfg.resolution, true) || a.set_of(&b, cfg.resolution, false)
            },
            Inputs::LineartStandardPreprocessor(b) => after == Inputs::LineartStandardPreprocessor(
                LineartStandardPreprocessor { resolution: cfg.resolution, ..b },
            ),
            Inputs::TilePreprocessor(b) => {
                &&& after matches Inputs::TilePreprocessor(a)
                &&& a == (TilePreprocessor {
                    resolution: cfg.resolution,
                    pyrup_iters: a.pyrup_iters,
                    ..b
                })
                &&& if acn.tile_pyrup_iters > 0 {
                    a.pyrup_iters == acn.tile_pyrup_iters
                } else {
                    1 <= a.pyrup_iters <= 3
                }
            },
            Inputs::ImagePreprocessor(b) => {
                &&& after matches Inputs::ImagePreprocessor(a)
                &&& a.chosen_of(&b, cfg.preprocessor@, cfg.resolution)
            },
            Inputs::CannyEdgePreprocessor(b) => {
                &&& after matches Inputs::CannyEdgePreprocessor(a)
                &&& a == (CannyEdgePreprocessor {
                    resolution: cfg.resolution,
                    low_threshold: a.low_threshold,
                    high_threshold: a.high_threshold,
                    ..b
                })
                &&& if acn.canny_low_threshold > 0 {
                    &&& a.low_threshold == acn.canny_low_threshold
                    &&& a.high_threshold == acn.canny_high_threshold
                } else {
                    &&& a.low_threshold == 40 || a.low_threshold == 60 || a.low_threshold == 80
                        || a.low_threshold == 100
                    &&& a.high_threshold == 2 * a.low_threshold
                }
            },
            _ => after == before,
        },
    }
}

/// The role keys whose nodes the preprocessor step for the role `role` may
/// touch: the role itself, where it is one of the five that the engine
/// configures.
pub open spec fn preprocessor_keys(role: Seq<char>) -> Set<Seq<char>> {
    if preprocessor_shape(role) is Some {
        set![role]
    } else {
        Set::empty()
    }
}

/// Whether `e` is the error of the preprocessor step for the role `role` on
/// a graph that lacks the node or holds it in another shape than the role
/// asks for.
pub open spec fn preprocessor_fault(wf: &Workflow, role: Seq<char>, e: AppError) -> bool {
    if !wf.has(role) {
        e.is_not_found(role)
    } else {
        &&& preprocessor_shape(role) matches Some(shape)
        &&& wf.shape_at(role) != Some(shape)
        &&& wf.refused(role, shape, e)
    }
}

/// Whether the preprocessor step finds the node with the role `role` as it
/// needs it.
pub open spec fn preprocessor_ready(wf: &Workflow, role: Seq<char>) -> bool {
    &&& wf.has(role)
    &&& preprocessor_shape(role) matches Some(shape) ==> wf.shape_at(role) == Some(shape)
}

fn shape_of_role(role: &str) -> (r: Option<Shape>)
    ensures
        r == preprocessor_shape(role@),
{
    if str_eq(role, NODE_LINEART_PREPROCESSOR) {
        Some(Shape::LineArtPreprocessor)
    } else if str_eq(role, NODE_LINEARTSTANDARD_PREPROCESSOR) {
        Some(Shape::LineartStandardPreprocessor)
    } else if str_eq(role, NODE_TILE_PREPROCESSOR) {
        Some(Shape::TilePreprocessor)
    } else if str_eq(role, NODE_IMAGE_PREPROCESSOR) {
        Some(Shape::ImagePreprocessor)
    } else if str_eq(role, NODE_CANNY_PREPROCESSOR) {
        Some(Shape::CannyEdgePreprocessor)
    } else {
        None
    }
}

/// One of the low thresholds that the Canny preprocessor is tried with.
fn rand_canny_low() -> (r: u8)
    ensures
        r == 40 || r == 60 || r == 80 || r == 100,
{
    let lows: Vec<u8> = vec![40, 60, 80, 100];
    let low: u8 = *rand_element(lows.as_slice());
    proof {
        let i = choose|i: int| 0 <= i < lows@.len() && lows@[i] == low;
        assert(lows@[i] == low);
    }
    low
}

impl Generator {
    /// Whether the table knows the control-net type `name`.
    pub open spec fn cn_known(&self, name: Seq<char>) -> bool {
        position(cn_names(self.cns@), name) < self.cns@.len()
    }

    /// What the table holds for the control-net type `name`.
    pub open spec fn cn_of(&self, name: Seq<char>) -> Ctrlnet
        recommends
            self.cn_known(name),
    {
        self.cns@[position(cn_names(self.cns@), name)].1
    }

    /// Whether the table holds what the catalog entry `acfg` needs of the
    /// control-net type `name`: the type, a model for it, and a
    /// preprocessor where the entry names none.
    pub open spec fn cn_usable(&self, acfg: &ACtrlnet<'_>, name: Seq<char>) -> bool {
        &&& self.cn_known(name)
        &&& self.cn_of(name).model@.len() > 0
        &&& acfg.preprocessor@.len() == 0 ==> self.cn_of(name).preprocessor@.len() > 0
    }

    /// The preprocessors that are candidates for the type `name`: those that
    /// the catalog entry names, or all of the type where it names none.
    pub open spec fn cn_preprocessors(&self, acfg: &ACtrlnet<'_>, name: Seq<char>) -> Seq<String> {
        if acfg.preprocessor@.len() == 0 {
            self.cn_of(name).preprocessor@
        } else {
            acfg.preprocessor@
        }
    }

    /// Whether `cfg` holds values drawn for the control-net type `name` from
    /// the catalog entry `acfg`: a model of the type, a preprocessor of the
    /// candidates and the backend's name of it, strength and bounds by
    /// quantized range sampling, and one of the entry's resolutions, where
    /// 0 stands for the width of the size.
    pub open spec fn cn_drawn_of(
        &self,
        acfg: &ACtrlnet<'_>,
        size: (u16, u16),
        cfg: &CnCfg,
        name: Seq<char>,
    ) -> bool {
        &&& self.cn_usable(acfg, name)
        &&& listed(self.cn_of(name).model@, cfg.model@)
        &&& listed(self.cn_preprocessors(acfg, name), cfg.my_name@)
        &&& cfg.preprocessor@ == self.registry.preprocessor_of(cfg.my_name@)
        &&& is_sample(acfg.strength_min, acfg.strength_max, cfg.weight)
        &&& is_sample(acfg.start_min, acfg.start_max, cfg.start)
        &&& is_sample(acfg.end_min, acfg.end_max, cfg.end)
        &&& exists|j: int|
            0 <= j < acfg.resolution@.len() && cfg.resolution == if (#[trigger] acfg.resolution@[j])
                > 0 {
                acfg.resolution@[j]
            } else {
                size.0
            }
    }

    /// Whether `cfg` holds values drawn from the catalog entry `acfg`, for
    /// one of the control-net types that the entry lists.
    pub open spec fn cn_drawn(&self, acfg: &ACtrlnet<'_>, size: (u16, u16), cfg: &CnCfg) -> bool {
        exists|i: int|
            0 <= i < acfg.ctrl_type@.len() && self.cn_drawn_of(
                acfg,
                size,
                cfg,
                (#[trigger] acfg.ctrl_type@[i])@,
            )
    }

    /// Whether the catalog entry `acfg` lists a control-net type of which
    /// the table does not hold what the entry needs, and `e` is the missing
    /// configuration of that type.
    pub open spec fn cn_missing(&self, acfg: &ACtrlnet<'_>, e: AppError) -> bool {
        exists|i: int|
            0 <= i < acfg.ctrl_type@.len() && !self.cn_usable(acfg, (#[trigger] acfg.ctrl_type@[i])@)
                && e.is_missing_config(acfg.ctrl_type@[i]@)
    }

    /// The role of the preprocessor with the backend's name `backend`: the
    /// role that the registry gives the name as a class, else that of the
    /// preprocessor chosen by name.
    pub open spec fn preprocessor_role(&self, backend: Seq<char>) -> Seq<char> {
        match self.registry.role_of(backend) {
            Some(role) => role,
            None => NODE_IMAGE_PREPROCESSOR@,
        }
    }

    /// What the table holds for the control-net type `name`.
    pub fn find_cn(&self, name: &str) -> (r: Option<&Ctrlnet>)
        ensures
            match r {
                Some(c) => self.cn_known(name@) && *c == self.cn_of(name@),
                None => !self.cn_known(name@),
            },
    {
        let mut i: usize = 0;
        while i < self.cns.len()
            invariant
                i <= self.cns.len(),
                forall|j: int| 0 <= j < i ==> cn_names(self.cns@)[j] != name@,
            decreases self.cns.len() - i,
        {
            if str_eq(self.cns[i].0.as_str(), name) {
                proof {
                    lemma_position_at(cn_names(self.cns@), name@, i as int);
                }
                return Some(&self.cns[i].1);
            }
            i += 1;
        }
        proof {
            lemma_position_absent(cn_names(self.cns@), name@);
        }
        None
    }

    /// Draws the values of one control-net slot from its catalog entry: a
    /// type, and for it a model, a preprocessor, strength, bounds and a
    /// resolution. The catalog entry must list a type and a resolution. A
    /// type of which the table does not hold what is needed is a missing
    /// configuration.
    pub fn rand_cn_cfg(&self, acfg: &ACtrlnet<'_>, size: (u16, u16)) -> (r: Result<CnCfg, AppError>)
        requires
            acfg.ctrl_type@.len() > 0,
            acfg.resolution@.len() > 0,
        ensures
            match r {
                Ok(cfg) => self.cn_drawn(acfg, size, &cfg),
                Err(e) => self.cn_missing(acfg, e),
            },
    {
        let ctrl_type = rand_element(acfg.ctrl_type.as_slice());
        let ghost i = choose|i: int| 0 <= i < acfg.ctrl_type@.len() && acfg.ctrl_type@[i] == *ctrl_type;
        let cn = match self.find_cn(ctrl_type.as_str()) {
            Some(cn) => cn,
            None => {
                let e = AppError::MissingConfig(ctrl_type.clone());
                assert(!self.cn_usable(acfg, acfg.ctrl_type@[i]@));
                return Err(e);
            },
        };
        let preprocessors = if acfg.preprocessor.len() == 0 {
            &cn.preprocessor
        } else {
            acfg.preprocessor
        };
        if cn.model.len() == 0 || preprocessors.len() == 0 {
            let e = AppError::MissingConfig(ctrl_type.clone());
            assert(!self.cn_usable(acfg, acfg.ctrl_type@[i]@));
            return Err(e);
        }
        let weight = rand_fixed(acfg.strength_min, acfg.strength_max);
        let start = rand_fixed(acfg.start_min, acfg.start_max);
        let end = rand_fixed(acfg.end_min, acfg.end_max);
        let my_name = rand_element(preprocessors.as_slice());
        let preprocessor = comfy_preprocessor(&self.registry, my_name.as_str()).to_owned();
        let drawn: u16 = *rand_element(acfg.resolution.as_slice());
        let ghost j = choose|j: int| 0 <= j < acfg.resolution@.len() && acfg.resolution@[j] == drawn;
        let resolution = if drawn > 0 {
            drawn
        } else {
            size.0
        };
        let model = rand_element(cn.model.as_slice());
        let cfg = CnCfg {
            model: model.clone(),
            preprocessor,
            weight,
            start,
            end,
            resolution,
            my_name: my_name.clone(),
        };
        proof {
            assert(acfg.resolution@[j] == drawn);
            assert(self.cn_drawn_of(acfg, size, &cfg, acfg.ctrl_type@[i]@));
        }
        Ok(cfg)
    }

    /// The preprocessor step of one control-net slot: the node that the
    /// chosen preprocessor needs is found by its role and configured. The
    /// result is the node's id. A graph that lacks the node, or holds it in
    /// another shape than the role asks for, is left as it is.
    pub fn rand_preprocessor(&self, wf: &mut Workflow, cfg: &CnCfg, acn_stack: &ACtrlnetStack) -> (r:
        Result<String, AppError>)
        requires
            old(wf).inv(),
        ensures
            final(wf).inv(),
            final(wf).evolved_from(
                old(wf),
                preprocessor_keys(self.preprocessor_role(cfg.preprocessor@)),
            ),
            final(wf).same_names(old(wf)),
            match r {
                Ok(id) => {
                    let role = self.preprocessor_role(cfg.preprocessor@);
                    &&& preprocessor_ready(old(wf), role)
                    &&& id@ == old(wf).node(role).id@
                    &&& preprocessor_set(
                        final(wf).payload(role),
                        old(wf).payload(role),
                        role,
                        cfg,
                        acn_stack,
                    )
                },
                Err(e) => {
                    let role = self.preprocessor_role(cfg.preprocessor@);
                    &&& !preprocessor_ready(old(wf), role)
                    &&& preprocessor_fault(old(wf), role, e)
                    &&& final(wf).same_as(old(wf))
                },
            },
    {
        let role: &str = match comfy_class_map(&self.registry, cfg.preprocessor.as_str()) {
            Some(role) => role,
            None => NODE_IMAGE_PREPROCESSOR,
        };
        proof {
            lemma_same_as(wf, old(wf), preprocessor_keys(role@));
            lemma_position(old(wf).keys(), role@);
        }
        let i = match wf.find(role) {
            Some(i) => i,
            None => {
                return Err(AppError::NotFound(role.to_owned()));
            },
        };
        match shape_of_role(role) {
            Some(shape) => {
                if wf.nodes[i].inputs.shape() != shape {
                    return Err(AppError::ShapeMismatch(wf.nodes[i].meta.title.clone()));
                }
            },
            None => {
                return Ok(wf.nodes[i].id.clone());
            },
        }
        let coarse: bool = random_bool();
        let iters: u8 = if acn_stack.tile_pyrup_iters > 0 {
            acn_stack.tile_pyrup_iters
        } else {
            random_u8() % 3 + 1
        };
        let low: u8 = if acn_stack.canny_low_threshold > 0 {
            acn_stack.canny_low_threshold
        } else {
            rand_canny_low()
        };
        let high: u8 = if acn_stack.canny_low_threshold > 0 {
            acn_stack.canny_high_threshold
        } else {
            low * 2
        };
        match &mut wf.nodes[i].inputs {
            Inputs::LineArtPreprocessor(node) => {
                node.set(cfg.resolution, coarse);
            },
            Inputs::LineartStandardPreprocessor(node) => {
                node.set_resolution(cfg.resolution);
            },
            Inputs::TilePreprocessor(node) => {
                node.set(cfg.resolution, iters);
            },
            Inputs::ImagePreprocessor(node) => {
                node.select(cfg.preprocessor.as_str(), cfg.resolution);
            },
            Inputs::CannyEdgePreprocessor(node) => {
                node.set(cfg.resolution, low, high);
            },
            _ => {},
        }
        proof {
            lemma_touch(wf, old(wf), i as int, role@);
        }
        Ok(wf.nodes[i].id.clone())
    }

    /// The role keys whose nodes the control-net step may touch: that of
    /// the stack, and those of the five preprocessors that the engine
    /// configures.
    pub open spec fn cn_keys(&self, acn: &ACtrlnetStack) -> Set<Seq<char>> {
        set![
            acn.title@,
            NODE_LINEART_PREPROCESSOR@,
            NODE_LINEARTSTANDARD_PREPROCESSOR@,
            NODE_TILE_PREPROCESSOR@,
            NODE_IMAGE_PREPROCESSOR@,
            NODE_CANNY_PREPROCESSOR@,
        ]
    }

    /// The shapes of the nodes that the control-net step may touch: the
    /// stack and the five preprocessors that the engine configures.
    pub open spec fn cn_shapes() -> Set<Shape> {
        set![
            Shape::CtrlnetStack,
            Shape::LineArtPreprocessor,
            Shape::LineartStandardPreprocessor,
            Shape::TilePreprocessor,
            Shape::ImagePreprocessor,
            Shape::CannyEdgePreprocessor,
        ]
    }

    /// Whether `after` is `before` with slot `idx` of the stack engaged with
    /// the values `cfg`, which were drawn from the slot's catalog entry: the
    /// slot is switched on and set to `cfg`; its image is output 0 of the
    /// node whose role the chosen preprocessor resolves to; and that node is
    /// configured.
    pub open spec fn slot_wired(
        &self,
        after: &Workflow,
        before: &Workflow,
        acn: &ACtrlnetStack,
        size: (u16, u16),
        idx: IdxControlNet,
        cfg: &CnCfg,
    ) -> bool {
        let role = self.preprocessor_role(cfg.preprocessor@);
        &&& self.cn_drawn(&acn.entry(idx), size, cfg)
        &&& before.shape_at(acn.title@) == Some(Shape::CtrlnetStack)
        &&& preprocessor_ready(before, role)
        &&& after.evolved_from(before, preprocessor_keys(role).insert(acn.title@))
        &&& after.payload(acn.title@)->CtrlnetStack_0.engaged_of(
            &before.payload(acn.title@)->CtrlnetStack_0,
            idx,
            cfg,
            after.node(role).id@,
            0,
        )
        &&& role != acn.title@ ==> preprocessor_set(
            after.payload(role),
            before.payload(role),
            role,
            cfg,
            acn,
        )
    }

    /// Whether `e` is an error that the step of slot `idx` can meet on the
    /// graph `wf`: a missing configuration of a listed control-net type; the
    /// stack not found or of another shape; or, for values that can be
    /// drawn, the preprocessor's node not found or of another shape.
    pub open spec fn slot_fault(
        &self,
        wf: &Workflow,
        acn: &ACtrlnetStack,
        size: (u16, u16),
        idx: IdxControlNet,
        e: AppError,
    ) -> bool {
        ||| self.cn_missing(&acn.entry(idx), e)
        ||| {
            &&& wf.shape_at(acn.title@) != Some(Shape::CtrlnetStack)
            &&& wf.refused(acn.title@, Shape::CtrlnetStack, e)
        }
        ||| exists|cfg: CnCfg|
            {
                &&& #[trigger] self.cn_drawn(&acn.entry(idx), size, &cfg)
                &&& preprocessor_fault(wf, self.preprocessor_role(cfg.preprocessor@), e)
            }
    }

    /// The step of one control-net slot. A slot that the catalog has
    /// switched off is left alone. For one switched on, values are drawn
    /// from its catalog entry, the node of the chosen preprocessor is
    /// configured, and the slot is switched on, set to the values and wired
    /// to output 0 of that node. On an error the graph is left as it is.
    pub fn rand_cn_slot(
        &self,
        wf: &mut Workflow,
        acn: &ACtrlnetStack,
        size: (u16, u16),
        idx: IdxControlNet,
    ) -> (r: Result<(), AppError>)
        requires
            old(wf).inv(),
            acn.enabled(idx) ==> acn.entry(idx).ctrl_type@.len() > 0,
            acn.enabled(idx) ==> acn.entry(idx).resolution@.len() > 0,
        ensures
            final(wf).inv(),
            final(wf).evolved_from(old(wf), self.cn_keys(acn)),
            final(wf).same_names(old(wf)),
            final(wf).kept_but(old(wf), Self::cn_shapes()),
            match r {
                Ok(_) => if acn.enabled(idx) {
                    exists|cfg: CnCfg| #[trigger] self.slot_wired(final(wf), old(wf), acn, size, idx, &cfg)
                } else {
                    final(wf).same_as(old(wf))
                },
                Err(e) => {
                    &&& acn.enabled(idx)
                    &&& self.slot_fault(old(wf), acn, size, idx, e)
                    &&& final(wf).same_as(old(wf))
                },
            },
    {
        let ghost none = Set::<Seq<char>>::empty();
        proof {
            lemma_same_as(wf, old(wf), self.cn_keys(acn));
        }
        let acfg = match acn.cfg(&idx) {
            Some(acfg) => acfg,
            None => {
                return Ok(());
            },
        };
        let cfg = match self.rand_cn_cfg(&acfg, size) {
            Ok(cfg) => cfg,
            Err(e) => {
                return Err(e);
            },
        };
        let ghost role = self.preprocessor_role(cfg.preprocessor@);
        let si = match wf.locate(acn.title.as_str(), Shape::CtrlnetStack) {
            Ok(i) => i,
            Err(e) => {
                return Err(e);
            },
        };
        let id = match self.rand_preprocessor(wf, &cfg, acn) {
            Ok(id) => id,
            Err(e) => {
                return Err(e);
            },
        };
        let ghost mid = *wf;
        proof {
            lemma_evolved_shapes(&mid, old(wf), preprocessor_keys(role), none);
            assert(mid.has(acn.title@));
            assert(mid.node(acn.title@).id == old(wf).node(acn.title@).id);
            lemma_position(mid.keys(), acn.title@);
            lemma_position(old(wf).keys(), acn.title@);
            lemma_same_names(&mid, old(wf));
        }
        match &mut wf.nodes[si].inputs {
            Inputs::CtrlnetStack(stack) => {
                stack.engage(idx, &cfg, create_input_id(id.as_str(), 0));
            },
            _ => {},
        }
        proof {
            lemma_touch(wf, &mid, si as int, acn.title@);
            lemma_same_names_trans(wf, &mid, old(wf));
            lemma_evolved_trans(
                wf,
                &mid,
                old(wf),
                set![acn.title@],
                none,
                preprocessor_keys(role),
                none,
                preprocessor_keys(role).insert(acn.title@),
                none,
            );
            lemma_evolved_trans(
                wf,
                &mid,
                old(wf),
                set![acn.title@],
                none,
                preprocessor_keys(role),
                none,
                self.cn_keys(acn),
                none,
            );
            lemma_kept_but(
                wf,
                old(wf),
                preprocessor_keys(role).insert(acn.title@),
                none,
                Self::cn_shapes(),
            );
            assert(self.slot_wired(wf, old(wf), acn, size, idx, &cfg));
        }
        Ok(())
    }

    /// The step of the first control-net slot.
    pub fn rand_cn1(&self, wf: &mut Workflow, acn: &ACtrlnetStack, size: (u16, u16)) -> (r: Result<
        (),
        AppError,
    >)
        requires
            old(wf).inv(),
            acn.switch_1 ==> acn.ctrl_type_1@.len() > 0 && acn.resolution_1@.len() > 0,
        ensures
            final(wf).inv(),
            final(wf).evolved_from(old(wf), self.cn_keys(acn)),
            final(wf).same_names(old(wf)),
            final(wf).kept_but(old(wf), Self::cn_shapes()),
            match r {
                Ok(_) => if acn.switch_1 {
                    exists|cfg: CnCfg| #[trigger]
                        self.slot_wired(
                            final(wf),
                            old(wf),
                            acn,
                            size,
                            IdxControlNet::ControlNet1,
                            &cfg,
                        )
                } else {
                    final(wf).same_as(old(wf))
                },
                Err(e) => {
                    &&& acn.switch_1
                    &&& self.slot_fault(old(wf), acn, size, IdxControlNet::ControlNet1, e)
                    &&& final(wf).same_as(old(wf))
                },
            },
    {
        self.rand_cn_slot(wf, acn, size, IdxControlNet::ControlNet1)
    }

    /// The step of the second control-net slot.
    pub fn rand_cn2(&self, wf: &mut Workflow, acn: &ACtrlnetStack, size: (u16, u16)) -> (r: Result<
        (),
        AppError,
    >)
        requires
            old(wf).inv(),
            acn.switch_2 ==> acn.ctrl_type_2@.len() > 0 && acn.resolution_2@.len() > 0,
        ensures
            final(wf).inv(),
            final(wf).evolved_from(old(wf), self.cn_keys(acn)),
            final(wf).same_names(old(wf)),
            final(wf).kept_but(old(wf), Self::cn_shapes()),
            match r {
                Ok(_) => if acn.switch_2 {
                    exists|cfg: CnCfg| #[trigger]
                        self.slot_wired(
                            final(wf),
                            old(wf),
                            acn,
                            size,
                            IdxControlNet::ControlNet2,
                            &cfg,
                        )
                } else {
                    final(wf).same_as(old(wf))
                },
                Err(e) => {
                    &&& acn.switch_2
                    &&& self.slot_fault(old(wf), acn, size, IdxControlNet::ControlNet2, e)
                    &&& final(wf).same_as(old(wf))
                },
            },
    {
        self.rand_cn_slot(wf, acn, size, IdxControlNet::ControlNet2)
    }

    /// The step of the third control-net slot.
    pub fn rand_cn3(&self, wf: &mut Workflow, acn: &ACtrlnetStack, size: (u16, u16)) -> (r: Result<
        (),
        AppError,
    >)
        requires
            old(wf).inv(),
            acn.switch_3 ==> acn.ctrl_type_3@.len() > 0 && acn.resolution_3@.len() > 0,
        ensures
            final(wf).inv(),
            final(wf).evolved_from(old(wf), self.cn_keys(acn)),
            final(wf).same_names(old(wf)),
            final(wf).kept_but(old(wf), Self::cn_shapes()),
            match r {
                Ok(_) => if acn.switch_3 {
                    exists|cfg: CnCfg| #[trigger]
                        self.slot_wired(
                            final(wf),
                            old(wf),
                            acn,
                            size,
                            IdxControlNet::ControlNet3,
                            &cfg,
                        )
                } else {
                    final(wf).same_as(old(wf))
                },
                Err(e) => {
                    &&& acn.switch_3
                    &&& self.slot_fault(old(wf), acn, size, IdxControlNet::ControlNet3, e)
                    &&& final(wf).same_as(old(wf))
                },
            },
    {
        self.rand_cn_slot(wf, acn, size, IdxControlNet::ControlNet3)
    }

    /// Whether slot `idx` of the stack of `wf` is switched on, holds values
    /// drawn from its catalog entry, and is wired to output 0 of the node
    /// whose role the chosen preprocessor resolves to.
    pub open spec fn slot_on(
        &self,
        wf: &Workflow,
        acn: &ACtrlnetStack,
        size: (u16, u16),
        idx: IdxControlNet,
    ) -> bool {
        exists|cfg: CnCfg|
            {
                let role = self.preprocessor_role(cfg.preprocessor@);
                &&& #[trigger] self.cn_drawn(&acn.entry(idx), size, &cfg)
                &&& preprocessor_ready(wf, role)
                &&& wf.payload(acn.title@)->CtrlnetStack_0.slot(idx) == (CtrlnetSlot {
                    switch: "On"@,
                    model: cfg.model@,
                    strength: cfg.weight,
                    start: cfg.start,
                    end: cfg.end,
                    image: Some((wf.node(role).id@, 0usize)),
                })
            }
    }

    /// Whether slot `idx` of the stack of `after` is as the control-net step
    /// leaves it. A slot that the catalog has switched on is switched on,
    /// holds values drawn from its catalog entry, and is wired to output 0
    /// of the node whose role the chosen preprocessor resolves to. A slot
    /// that the catalog has switched off is inert, guided by the image that
    /// it had in `before`.
    pub open spec fn slot_done(
        &self,
        after: &Workflow,
        before: &Workflow,
        acn: &ACtrlnetStack,
        size: (u16, u16),
        idx: IdxControlNet,
    ) -> bool {
        if acn.enabled(idx) {
            self.slot_on(after, acn, size, idx)
        } else {
            after.payload(acn.title@)->CtrlnetStack_0.slot(idx) == inert_slot(
                before.payload(acn.title@)->CtrlnetStack_0.slot(idx).image,
            )
        }
    }

    /// Whether `after` is `before` after the step of slot `idx`.
    pub open spec fn stepped(
        &self,
        after: &Workflow,
        before: &Workflow,
        acn: &ACtrlnetStack,
        size: (u16, u16),
        idx: IdxControlNet,
    ) -> bool {
        &&& before.shape_at(acn.title@) == Some(Shape::CtrlnetStack)
        &&& after.evolved_from(before, self.cn_keys(acn))
        &&& if acn.enabled(idx) {
            exists|cfg: CnCfg| #[trigger] self.slot_wired(after, before, acn, size, idx, &cfg)
        } else {
            after.same_as(before)
        }
    }

    /// The step of a slot that is switched on leaves that slot switched on,
    /// drawn and wired.
    pub proof fn lemma_own(
        &self,
        a: &Workflow,
        b: &Workflow,
        acn: &ACtrlnetStack,
        size: (u16, u16),
        idx: IdxControlNet,
    )
        requires
            self.stepped(a, b, acn, size, idx),
            acn.enabled(idx),
        ensures
            self.slot_on(a, acn, size, idx),
    {
        let cfg = choose|cfg: CnCfg| #[trigger] self.slot_wired(a, b, acn, size, idx, &cfg);
        let role = self.preprocessor_role(cfg.preprocessor@);
        lemma_evolved_shapes(a, b, preprocessor_keys(role).insert(acn.title@), Set::empty());
        assert(a.shape_at(role) == b.shape_at(role));
        assert(self.cn_drawn(&acn.entry(idx), size, &cfg));
    }

    /// The step of a slot keeps the other slots, and what is wired stays
    /// wired.
    pub proof fn lemma_other(
        &self,
        a: &Workflow,
        b: &Workflow,
        acn: &ACtrlnetStack,
        size: (u16, u16),
        idx: IdxControlNet,
        other: IdxControlNet,
    )
        requires
            self.stepped(a, b, acn, size, idx),
            idx != other || !acn.enabled(idx),
        ensures
            a.shape_at(acn.title@) == Some(Shape::CtrlnetStack),
            a.payload(acn.title@)->CtrlnetStack_0.slot(other) == b.payload(
                acn.title@,
            )->CtrlnetStack_0.slot(other),
            self.slot_on(b, acn, size, other) ==> self.slot_on(a, acn, size, other),
    {
        lemma_evolved_shapes(a, b, self.cn_keys(acn), Set::empty());
        assert(a.shape_at(acn.title@) == b.shape_at(acn.title@));
        if acn.enabled(idx) {
            let cfg = choose|cfg: CnCfg| #[trigger] self.slot_wired(a, b, acn, size, idx, &cfg);
            assert(a.payload(acn.title@)->CtrlnetStack_0.slot(other) == b.payload(
                acn.title@,
            )->CtrlnetStack_0.slot(other));
        } else {
            assert(a.keys() =~= b.keys());
        }
        if self.slot_on(b, acn, size, other) {
            let cfg = choose|cfg: CnCfg|
                {
                    let role = self.preprocessor_role(cfg.preprocessor@);
                    &&& #[trigger] self.cn_drawn(&acn.entry(other), size, &cfg)
                    &&& preprocessor_ready(b, role)
                    &&& b.payload(acn.title@)->CtrlnetStack_0.slot(other) == (CtrlnetSlot {
                        switch: "On"@,
                        model: cfg.model@,
                        strength: cfg.weight,
                        start: cfg.start,
                        end: cfg.end,
                        image: Some((b.node(role).id@, 0usize)),
                    })
                };
            let role = self.preprocessor_role(cfg.preprocessor@);
            assert(a.shape_at(role) == b.shape_at(role));
            assert(a.has(role));
            assert(a.node(role).id == b.node(role).id);
            assert(preprocessor_ready(a, role));
        }
    }

    /// Whether `e` is an error that the control-net step can meet on the
    /// graph `wf`: the stack not found or of another shape, or an error of
    /// the step of a slot that is switched on.
    pub open spec fn cn_fault(
        &self,
        wf: &Workflow,
        acn: &ACtrlnetStack,
        size: (u16, u16),
        e: AppError,
    ) -> bool {
        ||| {
            &&& wf.shape_at(acn.title@) != Some(Shape::CtrlnetStack)
            &&& wf.refused(acn.title@, Shape::CtrlnetStack, e)
        }
        ||| exists|idx: IdxControlNet| acn.enabled(idx) && #[trigger] self.slot_fault(wf, acn, size, idx, e)
    }

    /// An error that the step of a slot can meet on a graph is one that it
    /// can meet on the graph that this one evolved from.
    pub proof fn lemma_slot_fault(
        &self,
        a: &Workflow,
        b: &Workflow,
        touched: Set<Seq<char>>,
        acn: &ACtrlnetStack,
        size: (u16, u16),
        idx: IdxControlNet,
        e: AppError,
    )
        requires
            a.evolved_from(b, touched),
            self.slot_fault(a, acn, size, idx, e),
        ensures
            self.slot_fault(b, acn, size, idx, e),
    {
        lemma_evolved_shapes(a, b, touched, Set::empty());
        if self.cn_missing(&acn.entry(idx), e) {
        } else if a.shape_at(acn.title@) != Some(Shape::CtrlnetStack) && a.refused(
            acn.title@,
            Shape::CtrlnetStack,
            e,
        ) {
            assert(b.refused(acn.title@, Shape::CtrlnetStack, e));
        } else {
            let cfg = choose|cfg: CnCfg|
                {
                    &&& #[trigger] self.cn_drawn(&acn.entry(idx), size, &cfg)
                    &&& preprocessor_fault(a, self.preprocessor_role(cfg.preprocessor@), e)
                };
            let role = self.preprocessor_role(cfg.preprocessor@);
            assert(a.shape_at(role) == b.shape_at(role));
            if a.has(role) {
                let shape = preprocessor_shape(role)->Some_0;
                assert(a.refused(role, shape, e) == b.refused(role, shape, e));
            }
            assert(preprocessor_fault(b, role, e));
        }
    }

    /// The control-net step, for a catalog with a control-net entry; a
    /// catalog without one leaves the graph as it is. Every slot of the
    /// stack is reset to its inert state, whatever the catalog has switched
    /// on. Then each slot that is switched on gets values drawn from its
    /// catalog entry and is wired to the node of its preprocessor, which is
    /// configured.
    pub fn rand_cn(&self, wf: &mut Workflow, ac: &AutoCfg, size: (u16, u16)) -> (r: Result<
        (),
        AppError,
    >)
        requires
            old(wf).inv(),
            ac.ctrlnet_stack matches Some(acn) ==> forall|idx: IdxControlNet|
                acn.enabled(idx) ==> (#[trigger] acn.entry(idx)).ctrl_type@.len() > 0
                    && acn.entry(idx).resolution@.len() > 0,
        ensures
            final(wf).inv(),
            final(wf).same_names(old(wf)),
            final(wf).kept_but(old(wf), Self::cn_shapes()),
            match ac.ctrlnet_stack {
                Some(acn) => final(wf).evolved_from(old(wf), self.cn_keys(&acn)),
                None => final(wf).same_as(old(wf)),
            },
            match r {
                Ok(_) => ac.ctrlnet_stack matches Some(acn) ==> {
                    &&& old(wf).shape_at(acn.title@) == Some(Shape::CtrlnetStack)
                    &&& forall|idx: IdxControlNet| #[trigger]
                        self.slot_done(final(wf), old(wf), &acn, size, idx)
                },
                Err(e) => {
                    &&& ac.ctrlnet_stack matches Some(acn)
                    &&& self.cn_fault(old(wf), &acn, size, e)
                },
            },
    {
        let ghost none = Set::<Seq<char>>::empty();
        let acn = match &ac.ctrlnet_stack {
            Some(acn) => acn,
            None => {
                proof {
                    lemma_same_as(wf, old(wf), none);
                }
                return Ok(());
            },
        };
        let ghost keys = self.cn_keys(acn);
        proof {
            lemma_same_as(wf, old(wf), keys);
            assert(acn.entry(IdxControlNet::ControlNet1).ctrl_type == &acn.ctrl_type_1);
            assert(acn.entry(IdxControlNet::ControlNet2).ctrl_type == &acn.ctrl_type_2);
            assert(acn.entry(IdxControlNet::ControlNet3).ctrl_type == &acn.ctrl_type_3);
        }
        let si = match wf.locate(acn.title.as_str(), Shape::CtrlnetStack) {
            Ok(i) => i,
            Err(e) => {
                return Err(e);
            },
        };
        match &mut wf.nodes[si].inputs {
            Inputs::CtrlnetStack(stack) => {
                stack.disable_all();
            },
            _ => {},
        }
        let ghost m0 = *wf;
        proof {
            lemma_touch(&m0, old(wf), si as int, acn.title@);
            lemma_evolved_trans(
                &m0,
                old(wf),
                old(wf),
                set![acn.title@],
                none,
                none,
                none,
                keys,
                none,
            );
            lemma_kept_but(&m0, old(wf), set![acn.title@], none, Self::cn_shapes());
        }
        match self.rand_cn1(wf, acn, size) {
            Ok(_) => {},
            Err(e) => {
                proof {
                    self.lemma_slot_fault(
                        &m0,
                        old(wf),
                        keys,
                        acn,
                        size,
                        IdxControlNet::ControlNet1,
                        e,
                    );
                    lemma_same_names_trans(wf, &m0, old(wf));
                    lemma_evolved_trans(wf, &m0, old(wf), keys, none, keys, none, keys, none);
                    lemma_kept_but_trans(
                        wf,
                        &m0,
                        old(wf),
                        Self::cn_shapes(),
                        Self::cn_shapes(),
                        Self::cn_shapes(),
                        keys,
                        none,
                    );
                }
                return Err(e);
            },
        }
        let ghost m1 = *wf;
        proof {
            lemma_same_names_trans(&m1, &m0, old(wf));
            lemma_evolved_trans(&m1, &m0, old(wf), keys, none, keys, none, keys, none);
            lemma_kept_but_trans(
                &m1,
                &m0,
                old(wf),
                Self::cn_shapes(),
                Self::cn_shapes(),
                Self::cn_shapes(),
                keys,
                none,
            );
        }
        match self.rand_cn2(wf, acn, size) {
            Ok(_) => {},
            Err(e) => {
                proof {
                    self.lemma_slot_fault(
                        &m1,
                        old(wf),
                        keys,
                        acn,
                        size,
                        IdxControlNet::ControlNet2,
                        e,
                    );
                    lemma_same_names_trans(wf, &m1, old(wf));
                    lemma_evolved_trans(wf, &m1, old(wf), keys, none, keys, none, keys, none);
                    lemma_kept_but_trans(
                        wf,
                        &m1,
                        old(wf),
                        Self::cn_shapes(),
                        Self::cn_shapes(),
                        Self::cn_shapes(),
                        keys,
                        none,
                    );
                }
                return Err(e);
            },
        }
        let ghost m2 = *wf;
        proof {
            lemma_same_names_trans(&m2, &m1, old(wf));
            lemma_evolved_trans(&m2, &m1, old(wf), keys, none, keys, none, keys, none);
            lemma_kept_but_trans(
                &m2,
                &m1,
                old(wf),
                Self::cn_shapes(),
                Self::cn_shapes(),
                Self::cn_shapes(),
                keys,
                none,
            );
        }
        match self.rand_cn3(wf, acn, size) {
            Ok(_) => {},
            Err(e) => {
                proof {
                    self.lemma_slot_fault(
                        &m2,
                        old(wf),
                        keys,
                        acn,
                        size,
                        IdxControlNet::ControlNet3,
                        e,
                    );
                    lemma_same_names_trans(wf, &m2, old(wf));
                    lemma_evolved_trans(wf, &m2, old(wf), keys, none, keys, none, keys, none);
                    lemma_kept_but_trans(
                        wf,
                        &m2,
                        old(wf),
                        Self::cn_shapes(),
                        Self::cn_shapes(),
                        Self::cn_shapes(),
                        keys,
                        none,
                    );
                }
                return Err(e);
            },
        }
        proof {
            lemma_same_names_trans(wf, &m2, old(wf));
            lemma_evolved_trans(wf, &m2, old(wf), keys, none, keys, none, keys, none);
            lemma_kept_but_trans(
                wf,
                &m2,
                old(wf),
                Self::cn_shapes(),
                Self::cn_shapes(),
                Self::cn_shapes(),
                keys,
                none,
            );
            self.lemma_slots_done(wf, &m2, &m1, &m0, old(wf), acn, size);
        }
        Ok(())
    }

    /// The three slot steps, one after the other on a stack that was reset,
    /// leave every slot as the control-net step promises.
    pub proof fn lemma_slots_done(
        &self,
        m3: &Workflow,
        m2: &Workflow,
        m1: &Workflow,
        m0: &Workflow,
        before: &Workflow,
        acn: &ACtrlnetStack,
        size: (u16, u16),
    )
        requires
            m0.payload(acn.title@)->CtrlnetStack_0.inert_of(&before.payload(acn.title@)->CtrlnetStack_0),
            self.stepped(m1, m0, acn, size, IdxControlNet::ControlNet1),
            self.stepped(m2, m1, acn, size, IdxControlNet::ControlNet2),
            self.stepped(m3, m2, acn, size, IdxControlNet::ControlNet3),
        ensures
            forall|idx: IdxControlNet| #[trigger] self.slot_done(m3, before, acn, size, idx),
    {
        let one = IdxControlNet::ControlNet1;
        let two = IdxControlNet::ControlNet2;
        let three = IdxControlNet::ControlNet3;
        if acn.enabled(one) {
            self.lemma_own(m1, m0, acn, size, one);
        } else {
            self.lemma_other(m1, m0, acn, size, one, one);
        }
        self.lemma_other(m2, m1, acn, size, two, one);
        self.lemma_other(m3, m2, acn, size, three, one);
        self.lemma_other(m1, m0, acn, size, one, two);
        if acn.enabled(two) {
            self.lemma_own(m2, m1, acn, size, two);
        } else {
            self.lemma_other(m2, m1, acn, size, two, two);
        }
        self.lemma_other(m3, m2, acn, size, three, two);
        self.lemma_other(m1, m0, acn, size, one, three);
        self.lemma_other(m2, m1, acn, size, two, three);
        if acn.enabled(three) {
            self.lemma_own(m3, m2, acn, size, three);
        } else {
            self.lemma_other(m3, m2, acn, size, three, three);
        }
        assert(self.slot_done(m3, before, acn, size, one));
        assert(self.slot_done(m3, before, acn, size, two));
        assert(self.slot_done(m3, before, acn, size, three));
        assert forall|idx: IdxControlNet| #[trigger] self.slot_done(m3, before, acn, size, idx) by {
            match idx {
                IdxControlNet::ControlNet1 => {},
                IdxControlNet::ControlNet2 => {},
                IdxControlNet::ControlNet3 => {},
            }
        }
    }
}

} // verus!
