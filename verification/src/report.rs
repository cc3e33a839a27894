use vstd::prelude::*;

use crate::blueprint::Blueprint;
use crate::module::frame::frame_mass;
use crate::module::reactor::{lemma_reactor_sums, reactors_mass, reactors_power_output};
use crate::slot::TOTAL_SLOTS;

verus! {

/// The derived performance figures of a finalized blueprint. Every value is a
/// pure function of the installed variants and the ledger; mass, power and
/// thrust are linear sums of the per-variant constants. The thrust-to-weight
/// ratio is left to the caller as `thrust` over `total_mass`.
#[derive(Clone, Copy, PartialEq, Eq, Structural, Debug)]
pub struct Report {
    /// Sum of the power output of every installed reactor.
    pub power_output: i32,
    /// Sum of the power drawn by engine, life support, bridge, shield and
    /// sensors; reactors never draw power.
    pub power_draw: i32,
    /// `power_output - power_draw`; may be negative, which is informational.
    pub power_balance: i32,
    /// Frame mass plus the mass of every installed module.
    pub total_mass: i32,
    /// The engine's thrust.
    pub thrust: i32,
    /// Slots consumed, echoed from the ledger.
    pub used_slots: usize,
    /// The fixed slot budget.
    pub total_slots: usize,
    /// Slots left unconsumed.
    pub available_slots: usize,
}

impl Blueprint {
    /// Combined power output of the installed reactors.
    pub open spec fn power_output_spec(self) -> int {
        reactors_power_output(self.reactors@)
    }

    /// Combined power draw of engine, life support, bridge, shield and
    /// sensors.
    pub open spec fn power_draw_spec(self) -> int {
        (match self.engine {
            Some(e) => e.power_draw(),
            None => 0,
        }) + (match self.life_support {
            Some(l) => l.power_draw(),
            None => 0,
        }) + (match self.bridge {
            Some(b) => b.power_draw(),
            None => 0,
        }) + (match self.shield {
            Some(s) => s.power_draw(),
            None => 0,
        }) + (match self.sensors {
            Some(s) => s.power_draw(),
            None => 0,
        })
    }

    /// Combined mass of everything installed except the reactors.
    pub open spec fn fixed_mass_spec(self) -> int {
        (match self.frame {
            Some(_) => frame_mass(),
            None => 0,
        }) + (match self.engine {
            Some(e) => e.mass(),
            None => 0,
        }) + (match self.life_support {
            Some(l) => l.mass(),
            None => 0,
        }) + (match self.bridge {
            Some(b) => b.mass(),
            None => 0,
        }) + (match self.shield {
            Some(s) => s.mass(),
            None => 0,
        }) + (match self.sensors {
            Some(s) => s.mass(),
            None => 0,
        })
    }

    /// Total mass: frame plus every installed module, every reactor unit
    /// included.
    pub open spec fn total_mass_spec(self) -> int {
        self.fixed_mass_spec() + reactors_mass(self.reactors@)
    }

    /// The installed engine's thrust.
    pub open spec fn thrust_spec(self) -> int {
        match self.engine {
            Some(e) => e.thrust(),
            None => 0,
        }
    }

    /// The whole report as a pure function of the blueprint.
    pub open spec fn report_spec(self) -> Report {
        Report {
            power_output: self.power_output_spec() as i32,
            power_draw: self.power_draw_spec() as i32,
            power_balance: (self.power_output_spec() - self.power_draw_spec()) as i32,
            total_mass: self.total_mass_spec() as i32,
            thrust: self.thrust_spec() as i32,
            used_slots: self.ledger.used,
            total_slots: TOTAL_SLOTS,
            available_slots: (TOTAL_SLOTS - self.ledger.used) as usize,
        }
    }

    /// Combined power output of the installed reactors.
    pub fn get_power_output(&self) -> (p: i32)
        requires
            self.wf(),
            self.stage is Finalization,
        ensures
            p as int == self.power_output_spec(),
    {
        proof {
            lemma_reactor_sums(self.reactors@);
        }
        let mut total: i32 = 0;
        let mut i: usize = 0;
        while i < self.reactors.len()
            invariant
                i <= self.reactors@.len(),
                self.reactors@.len() <= 3,
                total as int == reactors_power_output(self.reactors@.take(i as int)),
                0 <= total as int <= 1000 * i,
            decreases self.reactors@.len() - i,
        {
            proof {
                assert(self.reactors@.take(i + 1).drop_last() =~= self.reactors@.take(i as int));
                assert(self.reactors@.take(i + 1).last() == self.reactors@[i as int]);
            }
            total = total + self.reactors[i].get_power_output();
            i = i + 1;
        }
        proof {
            assert(self.reactors@.take(self.reactors@.len() as int) =~= self.reactors@);
        }
        total
    }

    /// Combined power draw of the installed modules; reactors draw nothing.
    pub fn get_power_draw(&self) -> (p: i32)
        requires
            self.wf(),
            self.stage is Finalization,
        ensures
            p as int == self.power_draw_spec(),
    {
        let mut total: i32 = 0;
        total = total + (match &self.engine {
            Some(e) => e.get_power_draw(),
            None => 0,
        });
        total = total + (match &self.life_support {
            Some(l) => l.get_power_draw(),
            None => 0,
        });
        total = total + (match &self.bridge {
            Some(b) => b.get_power_draw(),
            None => 0,
        });
        total = total + (match &self.shield {
            Some(s) => s.get_power_draw(),
            None => 0,
        });
        total = total + (match &self.sensors {
            Some(s) => s.get_power_draw(),
            None => 0,
        });
        total
    }

    /// Total mass: frame plus every installed module.
    pub fn get_mass(&self) -> (m: i32)
        requires
            self.wf(),
            self.stage is Finalization,
        ensures
            m as int == self.total_mass_spec(),
    {
        proof {
            lemma_reactor_sums(self.reactors@);
        }
        let mut total: i32 = match &self.frame {
            Some(f) => f.get_mass(),
            None => 0,
        };
        total = total + (match &self.engine {
            Some(e) => e.get_mass(),
            None => 0,
        });
        total = total + (match &self.life_support {
            Some(l) => l.get_mass(),
            None => 0,
        });
        total = total + (match &self.bridge {
            Some(b) => b.get_mass(),
            None => 0,
        });
        total = total + (match &self.shield {
            Some(s) => s.get_mass(),
            None => 0,
        });
        total = total + (match &self.sensors {
            Some(s) => s.get_mass(),
            None => 0,
        });
        let mut i: usize = 0;
        while i < self.reactors.len()
            invariant
                i <= self.reactors@.len(),
                self.reactors@.len() <= 3,
                total as int == self.fixed_mass_spec() + reactors_mass(
                    self.reactors@.take(i as int),
                ),
                0 <= total as int <= 1335 + 450 * i,
            decreases self.reactors@.len() - i,
        {
            proof {
                assert(self.reactors@.take(i + 1).drop_last() =~= self.reactors@.take(i as int));
                assert(self.reactors@.take(i + 1).last() == self.reactors@[i as int]);
            }
            total = total + self.reactors[i].get_mass();
            i = i + 1;
        }
        proof {
            assert(self.reactors@.take(self.reactors@.len() as int) =~= self.reactors@);
        }
        total
    }

    /// The installed engine's thrust.
    pub fn get_thrust(&self) -> (t: i32)
        requires
            self.wf(),
            self.stage is Finalization,
        ensures
            t as int == self.thrust_spec(),
    {
        match &self.engine {
            Some(e) => e.get_thrust(),
            None => 0,
        }
    }

    /// Computes the performance report of a finalized blueprint.
    pub fn report(&self) -> (r: Report)
        requires
            self.wf(),
            self.stage is Finalization,
        ensures
            r == self.report_spec(),
    {
        proof {
            lemma_reactor_sums(self.reactors@);
        }
        let power_output = self.get_power_output();
        let power_draw = self.get_power_draw();
        let total_mass = self.get_mass();
        let thrust = self.get_thrust();
        let used_slots = self.used_slots();
        let available_slots = self.available_slots();
        Report {
            power_output,
            power_draw,
            power_balance: power_output - power_draw,
            total_mass,
            thrust,
            used_slots,
            total_slots: TOTAL_SLOTS,
            available_slots,
        }
    }
}

/// Report determinism: the report is a pure function of the installed
/// variants and the ledger. Two blueprints that agree on them yield the very
/// same report, whatever their construction histories were.
pub proof fn lemma_report_deterministic(a: Blueprint, b: Blueprint)
    requires
        a.frame == b.frame,
        a.reactors@ == b.reactors@,
        a.engine == b.engine,
        a.life_support == b.life_support,
        a.bridge == b.bridge,
        a.shield == b.shield,
        a.sensors == b.sensors,
        a.ledger == b.ledger,
    ensures
        a.report_spec() == b.report_spec(),
{
}

} // verus!
