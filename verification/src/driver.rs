use vstd::prelude::*;
use crate::auto_cfg::{AppCfg, AppState};
use crate::comfy::api::StatusMsg;

verus! {

/// What the driver keeps between the events of the backend: how far it has
/// come, and what it is configured with.
#[derive(Debug)]
pub struct State {
    pub db: AppState,
    pub cfg: AppCfg,
}

/// What the backend's connection brings.
#[derive(Debug)]
pub enum Event {
    /// A status event.
    Status(StatusMsg),
    /// The connection was closed.
    Closed,
    /// Anything else.
    Other,
}

/// What the driver does on an event.
#[derive(Clone, Copy, Debug, PartialEq, Eq, Structural)]
pub enum Step {
    /// Mutate and submit a batch of graphs, for the repetition with this
    /// number.
    Generate(usize),
    /// Wait for the next event.
    Wait,
    /// Stop.
    Stop,
}

/// How the driver goes on after a batch.
#[derive(Clone, Copy, Debug, PartialEq, Eq, Structural)]
pub enum Next {
    /// With the next repetition of the active catalog.
    Repeat,
    /// With the first repetition of the catalog with this number.
    Load(usize),
    /// Not at all: every catalog has been worked through.
    Finished,
}

/// Where the driver takes up its work.
#[derive(Debug)]
pub struct Resume<'a> {
    /// The number of the active catalog.
    pub cfg_idx: usize,
    /// The file of the active catalog.
    pub auto_cfg: &'a str,
    /// The number of the repetition to go on with.
    pub total_idx: usize,
}

/// What the driver does on an event: a batch of the active repetition is
/// due when the backend reports an empty queue; a closed connection ends
/// the work; on anything else the driver waits.
pub fn on_event(state: &State, event: &Event) -> (r: Step)
    ensures
        r == match event {
            Event::Status(msg) => if msg.spec_idle() {
                Step::Generate(state.db.total_idx)
            } else {
                Step::Wait
            },
            Event::Closed => Step::Stop,
            Event::Other => Step::Wait,
        },
{
    match event {
        Event::Status(msg) => {
            if msg.idle() {
                Step::Generate(state.get_total_idx())
            } else {
                Step::Wait
            }
        },
        Event::Closed => Step::Stop,
        Event::Other => Step::Wait,
    }
}

impl State {
    /// The file of the catalog with the number `cfg_idx`.
    pub fn get_auto_cfg(&self, cfg_idx: usize) -> (r: Option<&str>)
        ensures
            match r {
                Some(s) => cfg_idx < self.cfg.auto_cfgs@.len() && s@ == self.cfg.auto_cfgs@[cfg_idx as int]@,
                None => cfg_idx >= self.cfg.auto_cfgs@.len(),
            },
    {
        if cfg_idx < self.cfg.auto_cfgs.len() {
            Some(self.cfg.auto_cfgs[cfg_idx].as_str())
        } else {
            None
        }
    }

    /// The number of the active repetition.
    pub fn get_total_idx(&self) -> (r: usize)
        ensures
            r == self.db.total_idx,
    {
        self.db.total_idx
    }

    /// The number of the active catalog.
    pub fn get_cfg_idx(&self) -> (r: usize)
        ensures
            r == self.db.cfg_idx,
    {
        self.db.cfg_idx
    }

    /// Goes on to the next repetition, and gives its number.
    pub fn incr_total_idx(&mut self) -> (r: usize)
        requires
            old(self).db.total_idx < usize::MAX,
        ensures
            r == old(self).db.total_idx + 1,
            *final(self) == (State {
                db: AppState { total_idx: r, ..old(self).db },
                ..*old(self)
            }),
    {
        self.db.total_idx = self.db.total_idx + 1;
        self.db.total_idx
    }

    /// Goes on to the next catalog, and gives its number.
    pub fn incr_cfg_idx(&mut self) -> (r: usize)
        requires
            old(self).db.cfg_idx < usize::MAX,
        ensures
            r == old(self).db.cfg_idx + 1,
            *final(self) == (State { db: AppState { cfg_idx: r, ..old(self).db }, ..*old(self) }),
    {
        self.db.cfg_idx = self.db.cfg_idx + 1;
        self.db.cfg_idx
    }

    /// Goes back to the first repetition.
    pub fn reset_total_idx(&mut self)
        ensures
            *final(self) == (State {
                db: AppState { total_idx: 0, ..old(self).db },
                ..*old(self)
            }),
    {
        self.db.total_idx = 0;
    }

    /// Goes back to the first catalog.
    pub fn reset_cfg_idx(&mut self)
        ensures
            *final(self) == (State { db: AppState { cfg_idx: 0, ..old(self).db }, ..*old(self) }),
    {
        self.db.cfg_idx = 0;
    }

    /// Where the driver takes up its work: at the repetition and the
    /// catalog that the state names, not at the start. There is nothing to
    /// take up where the state names a catalog that the configuration does
    /// not have.
    pub fn resume(&self) -> (r: Option<Resume<'_>>)
        ensures
            match r {
                Some(at) => {
                    &&& self.db.cfg_idx < self.cfg.auto_cfgs@.len()
                    &&& at.cfg_idx == self.db.cfg_idx
                    &&& at.total_idx == self.db.total_idx
                    &&& at.auto_cfg@ == self.cfg.auto_cfgs@[self.db.cfg_idx as int]@
                },
                None => self.db.cfg_idx >= self.cfg.auto_cfgs@.len(),
            },
    {
        let cfg_idx = self.get_cfg_idx();
        match self.get_auto_cfg(cfg_idx) {
            Some(auto_cfg) => Some(Resume { cfg_idx, auto_cfg, total_idx: self.get_total_idx() }),
            None => None,
        }
    }

    /// How the driver goes on after a batch of a catalog that runs for
    /// `total` repetitions. The repetition is counted. While repetitions
    /// are left, the catalog stays. Else the count starts over and the next
    /// catalog is due, if there is one.
    pub fn advance(&mut self, total: usize) -> (r: Next)
        requires
            old(self).db.total_idx < usize::MAX,
            old(self).db.cfg_idx < usize::MAX,
        ensures
            final(self).cfg == old(self).cfg,
            final(self).db.db_file == old(self).db.db_file,
            old(self).db.total_idx + 1 < total ==> {
                &&& r == Next::Repeat
                &&& final(self).db.total_idx == old(self).db.total_idx + 1
                &&& final(self).db.cfg_idx == old(self).db.cfg_idx
            },
            old(self).db.total_idx + 1 >= total ==> {
                &&& final(self).db.total_idx == 0
                &&& final(self).db.cfg_idx == old(self).db.cfg_idx + 1
                &&& r == if final(self).db.cfg_idx < old(self).cfg.auto_cfgs@.len() {
                    Next::Load(final(self).db.cfg_idx)
                } else {
                    Next::Finished
                }
            },
    {
        let total_idx = self.incr_total_idx();
        if total_idx >= total {
            self.reset_total_idx();
            let cfg_idx = self.incr_cfg_idx();
            match self.get_auto_cfg(cfg_idx) {
                Some(_) => Next::Load(cfg_idx),
                None => Next::Finished,
            }
        } else {
            Next::Repeat
        }
    }
}

} // verus!
