use spaceship::error::BuildError;
use spaceship::module::bridge::{Bridge, CommandBridge, ExplorerBridge};
use spaceship::module::engine::{Engine, IonEngine, PlasmaEngine};
use spaceship::module::frame::Frame;
use spaceship::module::life_support::{AdvancedLifeSupport, LifeSupport, StandardLifeSupport};
use spaceship::module::reactor::{AntimatterReactor, FusionReactor, Reactor};
use spaceship::module::sensors::{AdvancedSensors, BasicSensors, Sensors};
use spaceship::module::shield::{MagneticShield, PhaseShield, Shield};

#[test]
fn frame_figures() {
    let frame = Frame::new();
    assert_eq!(frame.get_mass(), 1000);
}

#[test]
fn reactor_figures() {
    let fusion = Reactor::Fusion(FusionReactor::new());
    let antimatter = Reactor::Antimatter(AntimatterReactor::new());
    assert_eq!(fusion.get_mass(), 300);
    assert_eq!(fusion.get_power_output(), 1000);
    assert_eq!(fusion.get_slot_cost(), 3);
    assert_eq!(fusion.get_type(), "Fusion");
    assert_eq!(antimatter.get_mass(), 450);
    assert_eq!(antimatter.get_power_output(), 1000);
    assert_eq!(antimatter.get_slot_cost(), 3);
    assert_eq!(antimatter.get_type(), "Antimatter");
}

#[test]
fn engine_figures() {
    let ion = Engine::Ion(IonEngine::new());
    let plasma = Engine::Plasma(PlasmaEngine::new());
    assert_eq!(ion.get_mass(), 100);
    assert_eq!(ion.get_power_draw(), 250);
    assert_eq!(ion.get_thrust(), 500);
    assert_eq!(ion.get_slot_cost(), 2);
    assert_eq!(ion.get_type(), "Ion");
    assert_eq!(plasma.get_mass(), 120);
    assert_eq!(plasma.get_power_draw(), 250);
    assert_eq!(plasma.get_thrust(), 750);
    assert_eq!(plasma.get_slot_cost(), 2);
    assert_eq!(plasma.get_type(), "Plasma");
}

#[test]
fn life_support_figures() {
    let standard = LifeSupport::Standard(StandardLifeSupport::new());
    let advanced = LifeSupport::Advanced(AdvancedLifeSupport::new());
    assert_eq!(standard.get_mass(), 80);
    assert_eq!(standard.get_power_draw(), 75);
    assert_eq!(standard.get_slot_cost(), 2);
    assert_eq!(standard.get_type(), "Standard");
    assert_eq!(advanced.get_mass(), 70);
    assert_eq!(advanced.get_power_draw(), 50);
    assert_eq!(advanced.get_slot_cost(), 2);
    assert_eq!(advanced.get_type(), "Advanced");
}

#[test]
fn bridge_figures() {
    let explorer = Bridge::Explorer(ExplorerBridge::new());
    let command = Bridge::Command(CommandBridge::new());
    assert_eq!(explorer.get_mass(), 50);
    assert_eq!(explorer.get_power_draw(), 75);
    assert_eq!(explorer.get_slot_cost(), 1);
    assert_eq!(explorer.get_type(), "Explorer");
    assert_eq!(command.get_mass(), 60);
    assert_eq!(command.get_power_draw(), 75);
    assert_eq!(command.get_slot_cost(), 1);
    assert_eq!(command.get_type(), "Command");
}

#[test]
fn shield_figures() {
    let magnetic = Shield::Magnetic(MagneticShield::new());
    let phase = Shield::Phase(PhaseShield::new());
    assert_eq!(magnetic.get_mass(), 40);
    assert_eq!(magnetic.get_power_draw(), 100);
    assert_eq!(magnetic.get_slot_cost(), 1);
    assert_eq!(magnetic.get_type(), "Magnetic");
    assert_eq!(phase.get_mass(), 30);
    assert_eq!(phase.get_power_draw(), 120);
    assert_eq!(phase.get_slot_cost(), 1);
    assert_eq!(phase.get_type(), "Phase");
}

#[test]
fn sensors_figures() {
    let basic = Sensors::Basic(BasicSensors::new());
    let advanced = Sensors::Advanced(AdvancedSensors::new());
    assert_eq!(basic.get_mass(), 30);
    assert_eq!(basic.get_power_draw(), 50);
    assert_eq!(basic.get_slot_cost(), 1);
    assert_eq!(basic.get_type(), "Basic");
    assert_eq!(advanced.get_mass(), 35);
    assert_eq!(advanced.get_power_draw(), 50);
    assert_eq!(advanced.get_slot_cost(), 1);
    assert_eq!(advanced.get_type(), "Advanced");
}

#[test]
fn every_error_has_a_message() {
    assert_eq!(
        BuildError::StageViolation.message(),
        "operation not legal in the current stage"
    );
    assert_eq!(
        BuildError::DuplicateInstallation.message(),
        "module slot already occupied"
    );
    assert_eq!(
        BuildError::CapacityExceeded.message(),
        "not enough slots remaining"
    );
    assert_eq!(
        BuildError::IncompleteCore.message(),
        "a required core module is missing"
    );
    assert_eq!(
        BuildError::IncompatibleVariant.message(),
        "shield incompatible with installed reactor family"
    );
}
