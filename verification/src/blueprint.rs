use vstd::prelude::*;

use crate::compat::{allowed, shield_allowed};
use crate::error::BuildError;
use crate::module::bridge::{Bridge, BRIDGE_SLOT_COST};
use crate::module::engine::{Engine, ENGINE_SLOT_COST};
use crate::module::frame::Frame;
use crate::module::life_support::{LifeSupport, LIFE_SUPPORT_SLOT_COST};
use crate::module::reactor::{
    count_antimatter, count_fusion, lemma_reactor_push, lemma_reactor_sums, Reactor,
    REACTOR_SLOT_COST,
};
use crate::module::sensors::{Sensors, SENSORS_SLOT_COST};
use crate::module::shield::{Shield, SHIELD_SLOT_COST};
use crate::slot::{Ledger, TOTAL_SLOTS};
use crate::stage::{stage_index, Stage};

verus! {

/// The accumulating assembly: the staged state machine that governs which
/// installation is legal when, books consumed slots against the budget, and
/// applies the compatibility rules. Every mutating operation either succeeds
/// and debits the ledger, or fails with a typed [`BuildError`] and leaves the
/// blueprint exactly as it was.
pub struct Blueprint {
    /// Current construction stage; only ever advances.
    pub stage: Stage,
    /// The frame, auto-added by [`Blueprint::set_frame`].
    pub frame: Option<Frame>,
    /// Installed reactors, in installation order (order carries no meaning).
    pub reactors: Vec<Reactor>,
    /// The single engine slot.
    pub engine: Option<Engine>,
    /// The single life support slot.
    pub life_support: Option<LifeSupport>,
    /// The single bridge slot.
    pub bridge: Option<Bridge>,
    /// The single optional shield slot.
    pub shield: Option<Shield>,
    /// The single optional sensors slot.
    pub sensors: Option<Sensors>,
    /// The capacity ledger.
    pub ledger: Ledger,
    /// Set the first time a fusion reactor is installed; never cleared.
    pub fusion_present: bool,
    /// Set the first time an antimatter reactor is installed; never cleared.
    pub antimatter_present: bool,
}

impl Blueprint {
    /// The exact slot cost of everything installed so far.
    pub open spec fn slots_spent(self) -> int {
        (REACTOR_SLOT_COST as int) * self.reactors@.len() + (if self.engine is Some {
            ENGINE_SLOT_COST as int
        } else {
            0
        }) + (if self.life_support is Some {
            LIFE_SUPPORT_SLOT_COST as int
        } else {
            0
        }) + (if self.bridge is Some {
            BRIDGE_SLOT_COST as int
        } else {
            0
        }) + (if self.shield is Some {
            SHIELD_SLOT_COST as int
        } else {
            0
        }) + (if self.sensors is Some {
            SENSORS_SLOT_COST as int
        } else {
            0
        })
    }

    /// All required core modules are present: at least one reactor, and the
    /// engine, life support and bridge slots filled.
    pub open spec fn core_complete(self) -> bool {
        &&& self.reactors@.len() >= 1
        &&& self.engine is Some
        &&& self.life_support is Some
        &&& self.bridge is Some
    }

    /// The blueprint's invariant, holding at every observable point: the
    /// ledger equals the exact cost of what is installed and fits the budget,
    /// the reactor-family flags mirror the installed reactors, and the
    /// installed set is one the current stage permits.
    pub open spec fn wf(self) -> bool {
        &&& self.ledger.used == self.slots_spent()
        &&& self.slots_spent() <= TOTAL_SLOTS
        &&& self.fusion_present == (count_fusion(self.reactors@) > 0)
        &&& self.antimatter_present == (count_antimatter(self.reactors@) > 0)
        &&& match self.stage {
            Stage::Initial => {
                &&& self.frame is None
                &&& self.reactors@.len() == 0
                &&& self.engine is None
                &&& self.life_support is None
                &&& self.bridge is None
                &&& self.shield is None
                &&& self.sensors is None
            },
            Stage::CoreModulesInstallation => {
                &&& self.frame is Some
                &&& self.shield is None
                &&& self.sensors is None
            },
            Stage::OptionalModulesInstallation => self.frame is Some && self.core_complete(),
            Stage::Finalization => self.frame is Some && self.core_complete(),
        }
    }

    /// An empty blueprint in the initial stage: nothing installed, the whole
    /// slot budget available.
    pub fn new() -> (bp: Blueprint)
        ensures
            bp.wf(),
            bp.stage is Initial,
            bp.frame is None,
            bp.reactors@.len() == 0,
            bp.engine is None,
            bp.life_support is None,
            bp.bridge is None,
            bp.shield is None,
            bp.sensors is None,
            bp.ledger.used == 0,
            !bp.fusion_present,
            !bp.antimatter_present,
    {
        Blueprint {
            stage: Stage::Initial,
            frame: None,
            reactors: Vec::new(),
            engine: None,
            life_support: None,
            bridge: None,
            shield: None,
            sensors: None,
            ledger: Ledger::new(),
            fusion_present: false,
            antimatter_present: false,
        }
    }

    /// Current stage of construction.
    pub fn get_stage(&self) -> (s: Stage)
        ensures
            s == self.stage,
    {
        self.stage
    }

    /// Slots consumed so far.
    pub fn used_slots(&self) -> (n: usize)
        ensures
            n == self.ledger.used,
    {
        self.ledger.used
    }

    /// Slots still available.
    pub fn available_slots(&self) -> (n: usize)
        requires
            self.wf(),
        ensures
            n == TOTAL_SLOTS - self.ledger.used,
    {
        self.ledger.remaining()
    }

    /// Adds the frame and opens core-module installation. Legal exactly in
    /// the initial stage; costs no slots.
    pub fn set_frame(&mut self) -> (r: Result<(), BuildError>)
        requires
            old(self).wf(),
        ensures
            final(self).wf(),
            stage_index(old(self).stage) <= stage_index(final(self).stage),
            r is Ok <==> old(self).stage is Initial,
            r is Err ==> *final(self) == *old(self),
            r is Err ==> r == Err::<(), BuildError>(BuildError::StageViolation),
            r is Ok ==> final(self).stage is CoreModulesInstallation,
            r is Ok ==> final(self).frame == Some(Frame),
            r is Ok ==> final(self).reactors@ == old(self).reactors@,
            r is Ok ==> final(self).engine == old(self).engine,
            r is Ok ==> final(self).life_support == old(self).life_support,
            r is Ok ==> final(self).bridge == old(self).bridge,
            r is Ok ==> final(self).shield == old(self).shield,
            r is Ok ==> final(self).sensors == old(self).sensors,
            r is Ok ==> final(self).ledger == old(self).ledger,
            r is Ok ==> final(self).fusion_present == old(self).fusion_present,
            r is Ok ==> final(self).antimatter_present == old(self).antimatter_present,
    {
        if self.stage != Stage::Initial {
            return Err(BuildError::StageViolation);
        }
        self.frame = Some(Frame::new());
        self.stage = Stage::CoreModulesInstallation;
        Ok(())
    }

    /// Installs one more reactor. Legal in the core stage whenever its slot
    /// cost still fits the budget; reactors are the one repeatable kind.
    pub fn add_reactor(&mut self, reactor: Reactor) -> (r: Result<(), BuildError>)
        requires
            old(self).wf(),
        ensures
            final(self).wf(),
            stage_index(old(self).stage) <= stage_index(final(self).stage),
            r is Ok <==> (old(self).stage is CoreModulesInstallation && old(self).ledger.used
                + REACTOR_SLOT_COST <= TOTAL_SLOTS),
            r is Err ==> *final(self) == *old(self),
            !(old(self).stage is CoreModulesInstallation) ==> r == Err::<(), BuildError>(
                BuildError::StageViolation,
            ),
            old(self).stage is CoreModulesInstallation && old(self).ledger.used + REACTOR_SLOT_COST
                > TOTAL_SLOTS ==> r == Err::<(), BuildError>(BuildError::CapacityExceeded),
            r is Ok ==> final(self).stage == old(self).stage,
            r is Ok ==> final(self).frame == old(self).frame,
            r is Ok ==> final(self).reactors@ == old(self).reactors@.push(reactor),
            r is Ok ==> final(self).engine == old(self).engine,
            r is Ok ==> final(self).life_support == old(self).life_support,
            r is Ok ==> final(self).bridge == old(self).bridge,
            r is Ok ==> final(self).shield == old(self).shield,
            r is Ok ==> final(self).sensors == old(self).sensors,
            r is Ok ==> final(self).ledger.used == old(self).ledger.used + REACTOR_SLOT_COST,
            r is Ok ==> final(self).fusion_present == (old(self).fusion_present
                || reactor is Fusion),
            r is Ok ==> final(self).antimatter_present == (old(self).antimatter_present
                || reactor is Antimatter),
    {
        if self.stage != Stage::CoreModulesInstallation {
            return Err(BuildError::StageViolation);
        }
        let cost = reactor.get_slot_cost();
        if !self.ledger.reserve(cost) {
            return Err(BuildError::CapacityExceeded);
        }
        proof {
            lemma_reactor_sums(self.reactors@);
            lemma_reactor_push(self.reactors@, reactor);
        }
        self.reactors.push(reactor);
        match reactor {
            Reactor::Fusion(_) => {
                self.fusion_present = true;
            },
            Reactor::Antimatter(_) => {
                self.antimatter_present = true;
            },
        }
        Ok(())
    }

    /// Installs the engine. Legal in the core stage while the engine slot is
    /// empty and its slot cost fits the budget.
    pub fn add_engine(&mut self, engine: Engine) -> (r: Result<(), BuildError>)
        requires
            old(self).wf(),
        ensures
            final(self).wf(),
            stage_index(old(self).stage) <= stage_index(final(self).stage),
            r is Ok <==> (old(self).stage is CoreModulesInstallation && old(self).engine is None
                && old(self).ledger.used + ENGINE_SLOT_COST <= TOTAL_SLOTS),
            r is Err ==> *final(self) == *old(self),
            !(old(self).stage is CoreModulesInstallation) ==> r == Err::<(), BuildError>(
                BuildError::StageViolation,
            ),
            old(self).stage is CoreModulesInstallation && old(self).engine is Some ==> r == Err::<
                (),
                BuildError,
            >(BuildError::DuplicateInstallation),
            old(self).stage is CoreModulesInstallation && old(self).engine is None && old(
                self,
            ).ledger.used + ENGINE_SLOT_COST > TOTAL_SLOTS ==> r == Err::<(), BuildError>(
                BuildError::CapacityExceeded,
            ),
            r is Ok ==> final(self).stage == old(self).stage,
            r is Ok ==> final(self).frame == old(self).frame,
            r is Ok ==> final(self).reactors@ == old(self).reactors@,
            r is Ok ==> final(self).engine == Some(engine),
            r is Ok ==> final(self).life_support == old(self).life_support,
            r is Ok ==> final(self).bridge == old(self).bridge,
            r is Ok ==> final(self).shield == old(self).shield,
            r is Ok ==> final(self).sensors == old(self).sensors,
            r is Ok ==> final(self).ledger.used == old(self).ledger.used + ENGINE_SLOT_COST,
            r is Ok ==> final(self).fusion_present == old(self).fusion_present,
            r is Ok ==> final(self).antimatter_present == old(self).antimatter_present,
    {
        if self.stage != Stage::CoreModulesInstallation {
            return Err(BuildError::StageViolation);
        }
        if self.engine.is_some() {
            return Err(BuildError::DuplicateInstallation);
        }
        let cost = engine.get_slot_cost();
        if !self.ledger.reserve(cost) {
            return Err(BuildError::CapacityExceeded);
        }
        self.engine = Some(engine);
        Ok(())
    }

    /// Installs the life support unit. Legal in the core stage while its slot
    /// is empty and its slot cost fits the budget.
    pub fn add_life_support(&mut self, life_support: LifeSupport) -> (r: Result<(), BuildError>)
        requires
            old(self).wf(),
        ensures
            final(self).wf(),
            stage_index(old(self).stage) <= stage_index(final(self).stage),
            r is Ok <==> (old(self).stage is CoreModulesInstallation && old(
                self,
            ).life_support is None && old(self).ledger.used + LIFE_SUPPORT_SLOT_COST
                <= TOTAL_SLOTS),
            r is Err ==> *final(self) == *old(self),
            !(old(self).stage is CoreModulesInstallation) ==> r == Err::<(), BuildError>(
                BuildError::StageViolation,
            ),
            old(self).stage is CoreModulesInstallation && old(self).life_support is Some ==> r
                == Err::<(), BuildError>(BuildError::DuplicateInstallation),
            old(self).stage is CoreModulesInstallation && old(self).life_support is None && old(
                self,
            ).ledger.used + LIFE_SUPPORT_SLOT_COST > TOTAL_SLOTS ==> r == Err::<(), BuildError>(
                BuildError::CapacityExceeded,
            ),
            r is Ok ==> final(self).stage == old(self).stage,
            r is Ok ==> final(self).frame == old(self).frame,
            r is Ok ==> final(self).reactors@ == old(self).reactors@,
            r is Ok ==> final(self).engine == old(self).engine,
            r is Ok ==> final(self).life_support == Some(life_support),
            r is Ok ==> final(self).bridge == old(self).bridge,
            r is Ok ==> final(self).shield == old(self).shield,
            r is Ok ==> final(self).sensors == old(self).sensors,
            r is Ok ==> final(self).ledger.used == old(self).ledger.used + LIFE_SUPPORT_SLOT_COST,
            r is Ok ==> final(self).fusion_present == old(self).fusion_present,
            r is Ok ==> final(self).antimatter_present == old(self).antimatter_present,
    {
        if self.stage != Stage::CoreModulesInstallation {
            return Err(BuildError::StageViolation);
        }
        if self.life_support.is_some() {
            return Err(BuildError::DuplicateInstallation);
        }
        let cost = life_support.get_slot_cost();
        if !self.ledger.reserve(cost) {
            return Err(BuildError::CapacityExceeded);
        }
        self.life_support = Some(life_support);
        Ok(())
    }

    /// Installs the bridge. Legal in the core stage while its slot is empty
    /// and its slot cost fits the budget.
    pub fn add_bridge(&mut self, bridge: Bridge) -> (r: Result<(), BuildError>)
        requires
            old(self).wf(),
        ensures
            final(self).wf(),
            stage_index(old(self).stage) <= stage_index(final(self).stage),
            r is Ok <==> (old(self).stage is CoreModulesInstallation && old(self).bridge is None
                && old(self).ledger.used + BRIDGE_SLOT_COST <= TOTAL_SLOTS),
            r is Err ==> *final(self) == *old(self),
            !(old(self).stage is CoreModulesInstallation) ==> r == Err::<(), BuildError>(
                BuildError::StageViolation,
            ),
            old(self).stage is CoreModulesInstallation && old(self).bridge is Some ==> r == Err::<
                (),
                BuildError,
            >(BuildError::DuplicateInstallation),
            old(self).stage is CoreModulesInstallation && old(self).bridge is None && old(
                self,
            ).ledger.used + BRIDGE_SLOT_COST > TOTAL_SLOTS ==> r == Err::<(), BuildError>(
                BuildError::CapacityExceeded,
            ),
            r is Ok ==> final(self).stage == old(self).stage,
            r is Ok ==> final(self).frame == old(self).frame,
            r is Ok ==> final(self).reactors@ == old(self).reactors@,
            r is Ok ==> final(self).engine == old(self).engine,
            r is Ok ==> final(self).life_support == old(self).life_support,
            r is Ok ==> final(self).bridge == Some(bridge),
            r is Ok ==> final(self).shield == old(self).shield,
            r is Ok ==> final(self).sensors == old(self).sensors,
            r is Ok ==> final(self).ledger.used == old(self).ledger.used + BRIDGE_SLOT_COST,
            r is Ok ==> final(self).fusion_present == old(self).fusion_present,
            r is Ok ==> final(self).antimatter_present == old(self).antimatter_present,
    {
        if self.stage != Stage::CoreModulesInstallation {
            return Err(BuildError::StageViolation);
        }
        if self.bridge.is_some() {
            return Err(BuildError::DuplicateInstallation);
        }
        let cost = bridge.get_slot_cost();
        if !self.ledger.reserve(cost) {
            return Err(BuildError::CapacityExceeded);
        }
        self.bridge = Some(bridge);
        Ok(())
    }

    /// Locks the core and opens optional-module installation. Succeeds if and
    /// only if the blueprint is in the core stage with engine, life support,
    /// bridge and at least one reactor installed.
    pub fn lock_core_modules(&mut self) -> (r: Result<(), BuildError>)
        requires
            old(self).wf(),
        ensures
            final(self).wf(),
            stage_index(old(self).stage) <= stage_index(final(self).stage),
            r is Ok <==> (old(self).stage is CoreModulesInstallation && old(self).core_complete()),
            r is Err ==> *final(self) == *old(self),
            !(old(self).stage is CoreModulesInstallation) ==> r == Err::<(), BuildError>(
                BuildError::StageViolation,
            ),
            old(self).stage is CoreModulesInstallation && !old(self).core_complete() ==> r
                == Err::<(), BuildError>(BuildError::IncompleteCore),
            r is Ok ==> final(self).stage is OptionalModulesInstallation,
            r is Ok ==> final(self).frame == old(self).frame,
            r is Ok ==> final(self).reactors@ == old(self).reactors@,
            r is Ok ==> final(self).engine == old(self).engine,
            r is Ok ==> final(self).life_support == old(self).life_support,
            r is Ok ==> final(self).bridge == old(self).bridge,
            r is Ok ==> final(self).shield == old(self).shield,
            r is Ok ==> final(self).sensors == old(self).sensors,
            r is Ok ==> final(self).ledger == old(self).ledger,
            r is Ok ==> final(self).fusion_present == old(self).fusion_present,
            r is Ok ==> final(self).antimatter_present == old(self).antimatter_present,
    {
        if self.stage != Stage::CoreModulesInstallation {
            return Err(BuildError::StageViolation);
        }
        if self.reactors.len() == 0 || self.engine.is_none() || self.life_support.is_none()
            || self.bridge.is_none() {
            return Err(BuildError::IncompleteCore);
        }
        self.stage = Stage::OptionalModulesInstallation;
        Ok(())
    }

    /// Installs the optional shield. Legal in the optional stage while the
    /// shield slot is empty, its slot cost fits the budget, and the variant
    /// is compatible with the reactor families installed so far.
    pub fn add_shield(&mut self, shield: Shield) -> (r: Result<(), BuildError>)
        requires
            old(self).wf(),
        ensures
            final(self).wf(),
            stage_index(old(self).stage) <= stage_index(final(self).stage),
            r is Ok <==> (old(self).stage is OptionalModulesInstallation && old(
                self,
            ).shield is None && old(self).ledger.used + SHIELD_SLOT_COST <= TOTAL_SLOTS
                && shield_allowed(shield, old(self).fusion_present, old(self).antimatter_present)),
            r is Err ==> *final(self) == *old(self),
            !(old(self).stage is OptionalModulesInstallation) ==> r == Err::<(), BuildError>(
                BuildError::StageViolation,
            ),
            old(self).stage is OptionalModulesInstallation && old(self).shield is Some ==> r
                == Err::<(), BuildError>(BuildError::DuplicateInstallation),
            old(self).stage is OptionalModulesInstallation && old(self).shield is None && old(
                self,
            ).ledger.used + SHIELD_SLOT_COST > TOTAL_SLOTS ==> r == Err::<(), BuildError>(
                BuildError::CapacityExceeded,
            ),
            old(self).stage is OptionalModulesInstallation && old(self).shield is None && old(
                self,
            ).ledger.used + SHIELD_SLOT_COST <= TOTAL_SLOTS && !shield_allowed(
                shield,
                old(self).fusion_present,
                old(self).antimatter_present,
            ) ==> r == Err::<(), BuildError>(BuildError::IncompatibleVariant),
            r is Ok ==> final(self).stage == old(self).stage,
            r is Ok ==> final(self).frame == old(self).frame,
            r is Ok ==> final(self).reactors@ == old(self).reactors@,
            r is Ok ==> final(self).engine == old(self).engine,
            r is Ok ==> final(self).life_support == old(self).life_support,
            r is Ok ==> final(self).bridge == old(self).bridge,
            r is Ok ==> final(self).shield == Some(shield),
            r is Ok ==> final(self).sensors == old(self).sensors,
            r is Ok ==> final(self).ledger.used == old(self).ledger.used + SHIELD_SLOT_COST,
            r is Ok ==> final(self).fusion_present == old(self).fusion_present,
            r is Ok ==> final(self).antimatter_present == old(self).antimatter_present,
    {
        if self.stage != Stage::OptionalModulesInstallation {
            return Err(BuildError::StageViolation);
        }
        if self.shield.is_some() {
            return Err(BuildError::DuplicateInstallation);
        }
        let cost = shield.get_slot_cost();
        if !self.ledger.can_reserve(cost) {
            return Err(BuildError::CapacityExceeded);
        }
        if !allowed(&shield, self.fusion_present, self.antimatter_present) {
            return Err(BuildError::IncompatibleVariant);
        }
        // Every other precondition has passed, so the reservation is
        // infallible here.
        let reserved = self.ledger.reserve(cost);
        assert(reserved);
        self.shield = Some(shield);
        Ok(())
    }

    /// Installs the optional sensor suite. Legal in the optional stage while
    /// the sensors slot is empty and its slot cost fits the budget.
    pub fn add_sensors(&mut self, sensors: Sensors) -> (r: Result<(), BuildError>)
        requires
            old(self).wf(),
        ensures
            final(self).wf(),
            stage_index(old(self).stage) <= stage_index(final(self).stage),
            r is Ok <==> (old(self).stage is OptionalModulesInstallation && old(
                self,
            ).sensors is None && old(self).ledger.used + SENSORS_SLOT_COST <= TOTAL_SLOTS),
            r is Err ==> *final(self) == *old(self),
            !(old(self).stage is OptionalModulesInstallation) ==> r == Err::<(), BuildError>(
                BuildError::StageViolation,
            ),
            old(self).stage is OptionalModulesInstallation && old(self).sensors is Some ==> r
                == Err::<(), BuildError>(BuildError::DuplicateInstallation),
            old(self).stage is OptionalModulesInstallation && old(self).sensors is None && old(
                self,
            ).ledger.used + SENSORS_SLOT_COST > TOTAL_SLOTS ==> r == Err::<(), BuildError>(
                BuildError::CapacityExceeded,
            ),
            r is Ok ==> final(self).stage == old(self).stage,
            r is Ok ==> final(self).frame == old(self).frame,
            r is Ok ==> final(self).reactors@ == old(self).reactors@,
            r is Ok ==> final(self).engine == old(self).engine,
            r is Ok ==> final(self).life_support == old(self).life_support,
            r is Ok ==> final(self).bridge == old(self).bridge,
            r is Ok ==> final(self).shield == old(self).shield,
            r is Ok ==> final(self).sensors == Some(sensors),
            r is Ok ==> final(self).ledger.used == old(self).ledger.used + SENSORS_SLOT_COST,
            r is Ok ==> final(self).fusion_present == old(self).fusion_present,
            r is Ok ==> final(self).antimatter_present == old(self).antimatter_present,
    {
        if self.stage != Stage::OptionalModulesInstallation {
            return Err(BuildError::StageViolation);
        }
        if self.sensors.is_some() {
            return Err(BuildError::DuplicateInstallation);
        }
        let cost = sensors.get_slot_cost();
        if !self.ledger.reserve(cost) {
            return Err(BuildError::CapacityExceeded);
        }
        self.sensors = Some(sensors);
        Ok(())
    }

    /// Seals the assembly. Always legal from the optional stage, whether or
    /// not optional modules were added; the blueprint is immutable afterward.
    pub fn finalize(&mut self) -> (r: Result<(), BuildError>)
        requires
            old(self).wf(),
        ensures
            final(self).wf(),
            stage_index(old(self).stage) <= stage_index(final(self).stage),
            r is Ok <==> old(self).stage is OptionalModulesInstallation,
            r is Err ==> *final(self) == *old(self),
            r is Err ==> r == Err::<(), BuildError>(BuildError::StageViolation),
            r is Ok ==> final(self).stage is Finalization,
            r is Ok ==> final(self).frame == old(self).frame,
            r is Ok ==> final(self).reactors@ == old(self).reactors@,
            r is Ok ==> final(self).engine == old(self).engine,
            r is Ok ==> final(self).life_support == old(self).life_support,
            r is Ok ==> final(self).bridge == old(self).bridge,
            r is Ok ==> final(self).shield == old(self).shield,
            r is Ok ==> final(self).sensors == old(self).sensors,
            r is Ok ==> final(self).ledger == old(self).ledger,
            r is Ok ==> final(self).fusion_present == old(self).fusion_present,
            r is Ok ==> final(self).antimatter_present == old(self).antimatter_present,
    {
        if self.stage != Stage::OptionalModulesInstallation {
            return Err(BuildError::StageViolation);
        }
        self.stage = Stage::Finalization;
        Ok(())
    }
}

/// Slot conservation: in a well-formed blueprint the ledger equals the exact
/// sum of the slot costs of the installed modules, and never exceeds the
/// budget.
pub proof fn lemma_slot_conservation(bp: Blueprint)
    requires
        bp.wf(),
    ensures
        bp.ledger.used == bp.slots_spent(),
        bp.ledger.used <= TOTAL_SLOTS,
{
}

} // verus!
