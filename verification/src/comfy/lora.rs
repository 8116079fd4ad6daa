use vstd::prelude::*;
use crate::fixed::{Fixed, UNIT};

verus! {

/// The slots of a LoRA node, by number.
#[derive(Clone, Copy, Debug, PartialEq, Eq, Structural)]
pub enum IdxLoRA {
    LoRA1,
    LoRA2,
    LoRA3,
    LoRA4,
}

/// The inert state of a slot of a LoRA stack: switched off, naming no model,
/// of full weight.
pub open spec fn inert_slot() -> LoraSlot {
    LoraSlot {
        switch: "Off"@,
        name: "None"@,
        model_weight: Fixed { micros: UNIT },
        clip_weight: Fixed { micros: UNIT },
    }
}

/// The inert state of a slot of a LoRA stacker: naming no model, of full
/// weight and strength.
pub open spec fn inert_stacker_slot() -> StackerSlot {
    StackerSlot {
        name: "None"@,
        lora_wt: Fixed { micros: UNIT },
        model_str: Fixed { micros: UNIT },
        clip_str: Fixed { micros: UNIT },
    }
}

/// What one slot of a LoRA stack holds.
pub ghost struct LoraSlot {
    pub switch: Seq<char>,
    pub name: Seq<char>,
    pub model_weight: Fixed,
    pub clip_weight: Fixed,
}

/// A stack of three switchable LoRA slots.
#[derive(Debug)]
pub struct LoraStack {
    /// `On` or `Off`.
    pub switch_1: String,
    pub lora_name_1: String,
    pub model_weight_1: Fixed,
    pub clip_weight_1: Fixed,
    pub switch_2: String,
    pub lora_name_2: String,
    pub model_weight_2: Fixed,
    pub clip_weight_2: Fixed,
    pub switch_3: String,
    pub lora_name_3: String,
    pub model_weight_3: Fixed,
    pub clip_weight_3: Fixed,
}

/// The values chosen for one LoRA slot.
#[derive(Debug)]
pub struct LoraCfg {
    pub lora_name: String,
    pub model_weight: Fixed,
    pub clip_weight: Fixed,
}

impl Default for LoraCfg {
    fn default() -> (r: Self)
        ensures
            r.lora_name@ == "None"@,
            r.model_weight@ == UNIT,
            r.clip_weight@ == UNIT,
    {
        LoraCfg { lora_name: "None".to_owned(), model_weight: Fixed::one(), clip_weight: Fixed::one() }
    }
}

impl Clone for LoraStack {
    fn clone(&self) -> (r: Self)
        ensures
            r@ == self@,
    {
        LoraStack {
            switch_1: self.switch_1.clone(),
            lora_name_1: self.lora_name_1.clone(),
            model_weight_1: self.model_weight_1,
            clip_weight_1: self.clip_weight_1,
            switch_2: self.switch_2.clone(),
            lora_name_2: self.lora_name_2.clone(),
            model_weight_2: self.model_weight_2,
            clip_weight_2: self.clip_weight_2,
            switch_3: self.switch_3.clone(),
            lora_name_3: self.lora_name_3.clone(),
            model_weight_3: self.model_weight_3,
            clip_weight_3: self.clip_weight_3,
        }
    }
}

impl View for LoraStack {
    type V = Seq<LoraSlot>;

    /// The three slots, in order.
    open spec fn view(&self) -> Seq<LoraSlot> {
        seq![self.slot(IdxLoRA::LoRA1), self.slot(IdxLoRA::LoRA2), self.slot(IdxLoRA::LoRA3)]
    }
}

impl LoraStack {
    /// The slot with number `idx`. A stack has no fourth slot: the third
    /// answers for it.
    pub open spec fn slot(&self, idx: IdxLoRA) -> LoraSlot {
        match idx {
            IdxLoRA::LoRA1 => LoraSlot {
                switch: self.switch_1@,
                name: self.lora_name_1@,
                model_weight: self.model_weight_1,
                clip_weight: self.clip_weight_1,
            },
            IdxLoRA::LoRA2 => LoraSlot {
                switch: self.switch_2@,
                name: self.lora_name_2@,
                model_weight: self.model_weight_2,
                clip_weight: self.clip_weight_2,
            },
            _ => LoraSlot {
                switch: self.switch_3@,
                name: self.lora_name_3@,
                model_weight: self.model_weight_3,
                clip_weight: self.clip_weight_3,
            },
        }
    }

    /// Whether every slot is in its inert state.
    pub open spec fn inert(&self) -> bool {
        forall|idx: IdxLoRA| #[trigger] self.slot(idx) == inert_slot()
    }

    /// Whether `self` is `before` with slot `idx` switched on and set to
    /// `cfg`, the other slots kept.
    pub open spec fn enabled_of(&self, before: &LoraStack, idx: IdxLoRA, cfg: &LoraCfg) -> bool {
        &&& self.slot(idx) == (LoraSlot {
            switch: "On"@,
            name: cfg.lora_name@,
            model_weight: cfg.model_weight,
            clip_weight: cfg.clip_weight,
        })
        &&& forall|other: IdxLoRA|
            other != idx && other != IdxLoRA::LoRA4 ==> #[trigger] self.slot(other)
                == before.slot(other)
    }

    /// Resets every slot to its inert state, so that nothing of an earlier
    /// mutation is left in it.
    pub fn disable_all(&mut self)
        ensures
            final(self).inert(),
    {
        self.switch_1 = "Off".to_owned();
        self.lora_name_1 = "None".to_owned();
        self.model_weight_1 = Fixed::one();
        self.clip_weight_1 = Fixed::one();
        self.switch_2 = "Off".to_owned();
        self.lora_name_2 = "None".to_owned();
        self.model_weight_2 = Fixed::one();
        self.clip_weight_2 = Fixed::one();
        self.switch_3 = "Off".to_owned();
        self.lora_name_3 = "None".to_owned();
        self.model_weight_3 = Fixed::one();
        self.clip_weight_3 = Fixed::one();
    }

    /// Switches slot `idx` on and sets it to `cfg`.
    pub fn enable(&mut self, idx: IdxLoRA, cfg: &LoraCfg)
        requires
            idx != IdxLoRA::LoRA4,
        ensures
            final(self).enabled_of(old(self), idx, cfg),
    {
        match idx {
            IdxLoRA::LoRA1 => {
                self.switch_1 = "On".to_owned();
                self.lora_name_1 = cfg.lora_name.clone();
                self.model_weight_1 = cfg.model_weight;
                self.clip_weight_1 = cfg.clip_weight;
            },
            IdxLoRA::LoRA2 => {
                self.switch_2 = "On".to_owned();
                self.lora_name_2 = cfg.lora_name.clone();
                self.model_weight_2 = cfg.model_weight;
                self.clip_weight_2 = cfg.clip_weight;
            },
            _ => {
                self.switch_3 = "On".to_owned();
                self.lora_name_3 = cfg.lora_name.clone();
                self.model_weight_3 = cfg.model_weight;
                self.clip_weight_3 = cfg.clip_weight;
            },
        }
    }
}

impl Default for LoraStack {
    fn default() -> (r: Self)
        ensures
            r.inert(),
    {
        LoraStack {
            switch_1: "Off".to_owned(),
            lora_name_1: "None".to_owned(),
            model_weight_1: Fixed::one(),
            clip_weight_1: Fixed::one(),
            switch_2: "Off".to_owned(),
            lora_name_2: "None".to_owned(),
            model_weight_2: Fixed::one(),
            clip_weight_2: Fixed::one(),
            switch_3: "Off".to_owned(),
            lora_name_3: "None".to_owned(),
            model_weight_3: Fixed::one(),
            clip_weight_3: Fixed::one(),
        }
    }
}

/// Resetting a stack that was just reset changes nothing: what a reset
/// leaves is the same whatever it was applied to.
pub proof fn lemma_lora_stack_disable_idempotent(b: LoraStack, c: LoraStack)
    requires
        b.inert(),
        c.inert(),
    ensures
        c@ == b@,
{
    assert(c.slot(IdxLoRA::LoRA1) == b.slot(IdxLoRA::LoRA1));
    assert(c.slot(IdxLoRA::LoRA2) == b.slot(IdxLoRA::LoRA2));
    assert(c.slot(IdxLoRA::LoRA3) == b.slot(IdxLoRA::LoRA3));
}

/// What one slot of a LoRA stacker holds.
pub ghost struct StackerSlot {
    pub name: Seq<char>,
    pub lora_wt: Fixed,
    pub model_str: Fixed,
    pub clip_str: Fixed,
}

/// A LoRA stacker: up to four slots, of which the first `lora_count` are in
/// use.
#[derive(Debug)]
pub struct LoraStacker {
    pub input_mode: String,
    pub lora_count: u8,
    pub lora_name_1: String,
    pub lora_wt_1: Fixed,
    pub model_str_1: Fixed,
    pub clip_str_1: Fixed,
    pub lora_name_2: String,
    pub lora_wt_2: Fixed,
    pub model_str_2: Fixed,
    pub clip_str_2: Fixed,
    pub lora_name_3: String,
    pub lora_wt_3: Fixed,
    pub model_str_3: Fixed,
    pub clip_str_3: Fixed,
    pub lora_name_4: String,
    pub lora_wt_4: Fixed,
    pub model_str_4: Fixed,
    pub clip_str_4: Fixed,
}

impl LoraStacker {
    /// The slot with number `idx`.
    pub open spec fn slot(&self, idx: IdxLoRA) -> StackerSlot {
        match idx {
            IdxLoRA::LoRA1 => StackerSlot {
                name: self.lora_name_1@,
                lora_wt: self.lora_wt_1,
                model_str: self.model_str_1,
                clip_str: self.clip_str_1,
            },
            IdxLoRA::LoRA2 => StackerSlot {
                name: self.lora_name_2@,
                lora_wt: self.lora_wt_2,
                model_str: self.model_str_2,
                clip_str: self.clip_str_2,
            },
            IdxLoRA::LoRA3 => StackerSlot {
                name: self.lora_name_3@,
                lora_wt: self.lora_wt_3,
                model_str: self.model_str_3,
                clip_str: self.clip_str_3,
            },
            IdxLoRA::LoRA4 => StackerSlot {
                name: self.lora_name_4@,
                lora_wt: self.lora_wt_4,
                model_str: self.model_str_4,
                clip_str: self.clip_str_4,
            },
        }
    }

    /// Whether `self` is `before` with every slot reset to its inert state
    /// and none in use; the input mode is kept.
    pub open spec fn inert_of(&self, before: &LoraStacker) -> bool {
        &&& self.input_mode@ == before.input_mode@
        &&& self.lora_count == 0
        &&& forall|idx: IdxLoRA| #[trigger] self.slot(idx) == inert_stacker_slot()
    }

    /// Whether `self` is `before` with slot `idx` set to `cfg`, all else kept.
    pub open spec fn enabled_of(&self, before: &LoraStacker, idx: IdxLoRA, cfg: &LoraCfg) -> bool {
        &&& self.input_mode@ == before.input_mode@
        &&& self.lora_count == before.lora_count
        &&& self.slot(idx) == (StackerSlot {
            name: cfg.lora_name@,
            lora_wt: cfg.model_weight,
            model_str: cfg.model_weight,
            clip_str: cfg.clip_weight,
        })
        &&& forall|other: IdxLoRA| other != idx ==> #[trigger] self.slot(other) == before.slot(other)
    }

    /// Resets every slot to its inert state, so that nothing of an earlier
    /// mutation is left in it, and takes every slot out of use.
    pub fn disable_all(&mut self)
        ensures
            final(self).inert_of(old(self)),
    {
        self.lora_count = 0;
        self.lora_name_1 = "None".to_owned();
        self.lora_wt_1 = Fixed::one();
        self.model_str_1 = Fixed::one();
        self.clip_str_1 = Fixed::one();
        self.lora_name_2 = "None".to_owned();
        self.lora_wt_2 = Fixed::one();
        self.model_str_2 = Fixed::one();
        self.clip_str_2 = Fixed::one();
        self.lora_name_3 = "None".to_owned();
        self.lora_wt_3 = Fixed::one();
        self.model_str_3 = Fixed::one();
        self.clip_str_3 = Fixed::one();
        self.lora_name_4 = "None".to_owned();
        self.lora_wt_4 = Fixed::one();
        self.model_str_4 = Fixed::one();
        self.clip_str_4 = Fixed::one();
    }

    /// Sets slot `idx` to `cfg`: the model's weight is both the slot's weight
    /// and its model strength.
    pub fn enable(&mut self, idx: IdxLoRA, cfg: &LoraCfg)
        ensures
            final(self).enabled_of(old(self), idx, cfg),
    {
        match idx {
            IdxLoRA::LoRA1 => {
                self.lora_name_1 = cfg.lora_name.clone();
                self.lora_wt_1 = cfg.model_weight;
                self.model_str_1 = cfg.model_weight;
                self.clip_str_1 = cfg.clip_weight;
            },
            IdxLoRA::LoRA2 => {
                self.lora_name_2 = cfg.lora_name.clone();
                self.lora_wt_2 = cfg.model_weight;
                self.model_str_2 = cfg.model_weight;
                self.clip_str_2 = cfg.clip_weight;
            },
            IdxLoRA::LoRA3 => {
                self.lora_name_3 = cfg.lora_name.clone();
                self.lora_wt_3 = cfg.model_weight;
                self.model_str_3 = cfg.model_weight;
                self.clip_str_3 = cfg.clip_weight;
            },
            IdxLoRA::LoRA4 => {
                self.lora_name_4 = cfg.lora_name.clone();
                self.lora_wt_4 = cfg.model_weight;
                self.model_str_4 = cfg.model_weight;
                self.clip_str_4 = cfg.clip_weight;
            },
        }
    }
}

impl Default for LoraStacker {
    fn default() -> (r: Self)
        ensures
            r.input_mode@ == "simple"@,
            r.lora_count == 0,
            forall|idx: IdxLoRA| #[trigger] r.slot(idx) == inert_stacker_slot(),
    {
        LoraStacker {
            input_mode: "simple".to_owned(),
            lora_count: 0,
            lora_name_1: "None".to_owned(),
            lora_wt_1: Fixed::one(),
            model_str_1: Fixed::one(),
            clip_str_1: Fixed::one(),
            lora_name_2: "None".to_owned(),
            lora_wt_2: Fixed::one(),
            model_str_2: Fixed::one(),
            clip_str_2: Fixed::one(),
            lora_name_3: "None".to_owned(),
            lora_wt_3: Fixed::one(),
            model_str_3: Fixed::one(),
            clip_str_3: Fixed::one(),
            lora_name_4: "None".to_owned(),
            lora_wt_4: Fixed::one(),
            model_str_4: Fixed::one(),
            clip_str_4: Fixed::one(),
        }
    }
}

/// Resetting a stacker that was just reset changes no slot.
pub proof fn lemma_lora_stacker_disable_idempotent(a: LoraStacker, b: LoraStacker, c: LoraStacker)
    requires
        b.inert_of(&a),
        c.inert_of(&b),
    ensures
        c.input_mode@ == b.input_mode@,
        c.lora_count == b.lora_count,
        forall|idx: IdxLoRA| c.slot(idx) == b.slot(idx),
{
    assert forall|idx: IdxLoRA| c.slot(idx) == b.slot(idx) by {
        assert(b.slot(idx) == inert_stacker_slot());
    }
}

} // verus!
