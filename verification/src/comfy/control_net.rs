use vstd::prelude::*;
use crate::comfy::{clone_edge, edge_view, EdgeRef};
use crate::fixed::{Fixed, UNIT};

verus! {

pub const CNT_CANNY: &'static str = "Canny";

pub const CNT_DEPTH: &'static str = "Depth";

pub const CNT_NORMAL_MAP: &'static str = "NormalMap";

pub const CNT_OPENPOSE: &'static str = "OpenPose";

pub const CNT_LINEART: &'static str = "Lineart";

pub const CNT_ANIME_LINEART: &'static str = "AnimeLineart";

pub const CNT_SOFT_EDGE: &'static str = "SoftEdge";

pub const CNT_SEGMENTATION: &'static str = "Segmentation";

pub const CNT_TILE: &'static str = "Tile";

/// The slots of a control-net stack, by number.
#[derive(Clone, Copy, Debug, PartialEq, Eq, Structural)]
pub enum IdxControlNet {
    ControlNet1,
    ControlNet2,
    ControlNet3,
}

/// The inert state of a slot that is guided by `image`: switched off, naming
/// no model, of full strength from the start to the end.
pub open spec fn inert_slot(image: Option<(Seq<char>, usize)>) -> CtrlnetSlot {
    CtrlnetSlot {
        switch: "Off"@,
        model: "None"@,
        strength: Fixed { micros: UNIT },
        start: Fixed { micros: 0 },
        end: Fixed { micros: UNIT },
        image,
    }
}

/// What one slot of a control-net stack holds.
pub ghost struct CtrlnetSlot {
    pub switch: Seq<char>,
    pub model: Seq<char>,
    pub strength: Fixed,
    pub start: Fixed,
    pub end: Fixed,
    pub image: Option<(Seq<char>, usize)>,
}

/// A stack of three switchable control-net slots.
#[derive(Debug)]
pub struct CtrlnetStack {
    /// `On` or `Off`.
    pub switch_1: String,
    pub controlnet_1: String,
    pub controlnet_strength_1: Fixed,
    pub start_percent_1: Fixed,
    pub end_percent_1: Fixed,
    pub switch_2: String,
    pub controlnet_2: String,
    pub controlnet_strength_2: Fixed,
    pub start_percent_2: Fixed,
    pub end_percent_2: Fixed,
    pub switch_3: String,
    pub controlnet_3: String,
    pub controlnet_strength_3: Fixed,
    pub start_percent_3: Fixed,
    pub end_percent_3: Fixed,
    /// The image that slot 1 is guided by.
    pub image_1: Option<EdgeRef>,
    pub image_2: Option<EdgeRef>,
    pub image_3: Option<EdgeRef>,
}

/// The values chosen for one control-net slot, and for the preprocessor that
/// feeds it.
#[derive(Debug)]
pub struct CnCfg {
    pub model: String,
    /// The backend's name of the preprocessor.
    pub preprocessor: String,
    pub weight: Fixed,
    pub start: Fixed,
    pub end: Fixed,
    pub resolution: u16,
    /// The readable name of the preprocessor.
    pub my_name: String,
}

impl Clone for CtrlnetStack {
    fn clone(&self) -> (r: Self)
        ensures
            forall|idx: IdxControlNet| #[trigger] r.slot(idx) == self.slot(idx),
    {
        CtrlnetStack {
            switch_1: self.switch_1.clone(),
            controlnet_1: self.controlnet_1.clone(),
            controlnet_strength_1: self.controlnet_strength_1,
            start_percent_1: self.start_percent_1,
            end_percent_1: self.end_percent_1,
            switch_2: self.switch_2.clone(),
            controlnet_2: self.controlnet_2.clone(),
            controlnet_strength_2: self.controlnet_strength_2,
            start_percent_2: self.start_percent_2,
            end_percent_2: self.end_percent_2,
            switch_3: self.switch_3.clone(),
            controlnet_3: self.controlnet_3.clone(),
            controlnet_strength_3: self.controlnet_strength_3,
            start_percent_3: self.start_percent_3,
            end_percent_3: self.end_percent_3,
            image_1: clone_edge(&self.image_1),
            image_2: clone_edge(&self.image_2),
            image_3: clone_edge(&self.image_3),
        }
    }
}

impl Default for CnCfg {
    fn default() -> (r: Self)
        ensures
            r.model@ == "None"@,
            r.preprocessor@ == "None"@,
            r.weight@ == UNIT,
            r.start@ == 0,
            r.end@ == UNIT,
            r.resolution == 0,
            r.my_name@ == "None"@,
    {
        CnCfg {
            model: "None".to_owned(),
            preprocessor: "None".to_owned(),
            weight: Fixed::one(),
            start: Fixed::zero(),
            end: Fixed::one(),
            resolution: 0,
            my_name: "None".to_owned(),
        }
    }
}

impl CtrlnetStack {
    /// The slot with number `idx`.
    pub open spec fn slot(&self, idx: IdxControlNet) -> CtrlnetSlot {
        match idx {
            IdxControlNet::ControlNet1 => CtrlnetSlot {
                switch: self.switch_1@,
                model: self.controlnet_1@,
                strength: self.controlnet_strength_1,
                start: self.start_percent_1,
                end: self.end_percent_1,
                image: edge_view(self.image_1),
            },
            IdxControlNet::ControlNet2 => CtrlnetSlot {
                switch: self.switch_2@,
                model: self.controlnet_2@,
                strength: self.controlnet_strength_2,
                start: self.start_percent_2,
                end: self.end_percent_2,
                image: edge_view(self.image_2),
            },
            IdxControlNet::ControlNet3 => CtrlnetSlot {
                switch: self.switch_3@,
                model: self.controlnet_3@,
                strength: self.controlnet_strength_3,
                start: self.start_percent_3,
                end: self.end_percent_3,
                image: edge_view(self.image_3),
            },
        }
    }

    /// Whether `self` is `before` with every slot reset to its inert state,
    /// the image of each kept.
    pub open spec fn inert_of(&self, before: &CtrlnetStack) -> bool {
        forall|idx: IdxControlNet| #[trigger] self.slot(idx) == inert_slot(before.slot(idx).image)
    }

    /// Whether `self` is `before` with slot `idx` switched on and set to
    /// `cfg`, its image and the other slots kept.
    pub open spec fn enabled_of(
        &self,
        before: &CtrlnetStack,
        idx: IdxControlNet,
        cfg: &CnCfg,
    ) -> bool {
        &&& self.slot(idx) == (CtrlnetSlot {
            switch: "On"@,
            model: cfg.model@,
            strength: cfg.weight,
            start: cfg.start,
            end: cfg.end,
            image: before.slot(idx).image,
        })
        &&& forall|other: IdxControlNet|
            other != idx ==> #[trigger] self.slot(other) == before.slot(other)
    }

    /// Whether `self` is `before` with the image of slot `idx` wired to
    /// output `slot` of the node `id`, all else kept.
    pub open spec fn wired_of(
        &self,
        before: &CtrlnetStack,
        idx: IdxControlNet,
        id: Seq<char>,
        slot: usize,
    ) -> bool {
        &&& self.slot(idx) == (CtrlnetSlot { image: Some((id, slot)), ..before.slot(idx) })
        &&& forall|other: IdxControlNet|
            other != idx ==> #[trigger] self.slot(other) == before.slot(other)
    }

    /// Resets every slot to its inert state, so that nothing of an earlier
    /// mutation is left in it. The wiring of the images stays.
    pub fn disable_all(&mut self)
        ensures
            final(self).inert_of(old(self)),
    {
        self.switch_1 = "Off".to_owned();
        self.controlnet_1 = "None".to_owned();
        self.controlnet_strength_1 = Fixed::one();
        self.start_percent_1 = Fixed::zero();
        self.end_percent_1 = Fixed::one();
        self.switch_2 = "Off".to_owned();
        self.controlnet_2 = "None".to_owned();
        self.controlnet_strength_2 = Fixed::one();
        self.start_percent_2 = Fixed::zero();
        self.end_percent_2 = Fixed::one();
        self.switch_3 = "Off".to_owned();
        self.controlnet_3 = "None".to_owned();
        self.controlnet_strength_3 = Fixed::one();
        self.start_percent_3 = Fixed::zero();
        self.end_percent_3 = Fixed::one();
    }

    /// Switches slot `idx` on and sets it to `cfg`.
    pub fn enable(&mut self, idx: IdxControlNet, cfg: &CnCfg)
        ensures
            final(self).enabled_of(old(self), idx, cfg),
    {
        match idx {
            IdxControlNet::ControlNet1 => {
                self.switch_1 = "On".to_owned();
                self.controlnet_1 = cfg.model.clone();
                self.controlnet_strength_1 = cfg.weight;
                self.start_percent_1 = cfg.start;
                self.end_percent_1 = cfg.end;
            },
            IdxControlNet::ControlNet2 => {
                self.switch_2 = "On".to_owned();
                self.controlnet_2 = cfg.model.clone();
                self.controlnet_strength_2 = cfg.weight;
                self.start_percent_2 = cfg.start;
                self.end_percent_2 = cfg.end;
            },
            IdxControlNet::ControlNet3 => {
                self.switch_3 = "On".to_owned();
                self.controlnet_3 = cfg.model.clone();
                self.controlnet_strength_3 = cfg.weight;
                self.start_percent_3 = cfg.start;
                self.end_percent_3 = cfg.end;
            },
        }
    }

    /// Wires the image of slot `idx` to the reference `image`.
    pub fn set_image(&mut self, idx: IdxControlNet, image: EdgeRef)
        ensures
            final(self).wired_of(old(self), idx, image.id@, image.slot),
    {
        match idx {
            IdxControlNet::ControlNet1 => {
                self.image_1 = Some(image);
            },
            IdxControlNet::ControlNet2 => {
                self.image_2 = Some(image);
            },
            IdxControlNet::ControlNet3 => {
                self.image_3 = Some(image);
            },
        }
    }
}

impl Default for CtrlnetStack {
    fn default() -> (r: Self)
        ensures
            forall|idx: IdxControlNet| #[trigger] r.slot(idx) == inert_slot(None),
    {
        CtrlnetStack {
            switch_1: "Off".to_owned(),
            controlnet_1: "None".to_owned(),
            controlnet_strength_1: Fixed::one(),
            start_percent_1: Fixed::zero(),
            end_percent_1: Fixed::one(),
            switch_2: "Off".to_owned(),
            controlnet_2: "None".to_owned(),
            controlnet_strength_2: Fixed::one(),
            start_percent_2: Fixed::zero(),
            end_percent_2: Fixed::one(),
            switch_3: "Off".to_owned(),
            controlnet_3: "None".to_owned(),
            controlnet_strength_3: Fixed::one(),
            start_percent_3: Fixed::zero(),
            end_percent_3: Fixed::one(),
            image_1: None,
            image_2: None,
            image_3: None,
        }
    }
}

/// The models and the preprocessors that one type of control net can use.
#[derive(Debug)]
pub struct Ctrlnet {
    pub model: Vec<String>,
    pub preprocessor: Vec<String>,
}

/// Resetting a stack that was just reset changes no slot.
pub proof fn lemma_ctrlnet_stack_disable_idempotent(a: CtrlnetStack, b: CtrlnetStack, c: CtrlnetStack)
    requires
        b.inert_of(&a),
        c.inert_of(&b),
    ensures
        forall|idx: IdxControlNet| c.slot(idx) == b.slot(idx),
{
    assert forall|idx: IdxControlNet| c.slot(idx) == b.slot(idx) by {
        assert(b.slot(idx) == inert_slot(a.slot(idx).image));
    }
}

impl CtrlnetStack {
    /// Whether `self` is `before` with slot `idx` switched on, set to `cfg`
    /// and guided by output `slot` of the node `id`, the other slots kept.
    pub open spec fn engaged_of(
        &self,
        before: &CtrlnetStack,
        idx: IdxControlNet,
        cfg: &CnCfg,
        id: Seq<char>,
        slot: usize,
    ) -> bool {
        &&& self.slot(idx) == (CtrlnetSlot {
            switch: "On"@,
            model: cfg.model@,
            strength: cfg.weight,
            start: cfg.start,
            end: cfg.end,
            image: Some((id, slot)),
        })
        &&& forall|other: IdxControlNet|
            other != idx ==> #[trigger] self.slot(other) == before.slot(other)
    }

    /// Switches slot `idx` on, sets it to `cfg` and wires its image.
    pub fn engage(&mut self, idx: IdxControlNet, cfg: &CnCfg, image: EdgeRef)
        ensures
            final(self).engaged_of(old(self), idx, cfg, image.id@, image.slot),
    {
        self.enable(idx, cfg);
        self.set_image(idx, image);
    }
}

} // verus!
