use spaceship::blueprint::Blueprint;
use spaceship::error::BuildError;
use spaceship::module::bridge::{Bridge, CommandBridge, ExplorerBridge};
use spaceship::module::engine::{Engine, IonEngine, PlasmaEngine};
use spaceship::module::life_support::{AdvancedLifeSupport, LifeSupport, StandardLifeSupport};
use spaceship::module::reactor::{AntimatterReactor, FusionReactor, Reactor};
use spaceship::module::sensors::{AdvancedSensors, BasicSensors, Sensors};
use spaceship::module::shield::{MagneticShield, PhaseShield, Shield};
use spaceship::report::Report;

fn finalized_with(reactors: &[Reactor]) -> Blueprint {
    let mut bp = Blueprint::new();
    bp.set_frame().unwrap();
    for r in reactors {
        bp.add_reactor(*r).unwrap();
    }
    bp.add_engine(Engine::Plasma(PlasmaEngine::new())).unwrap();
    bp.add_life_support(LifeSupport::Advanced(AdvancedLifeSupport::new()))
        .unwrap();
    bp.add_bridge(Bridge::Command(CommandBridge::new())).unwrap();
    bp.lock_core_modules().unwrap();
    bp.add_sensors(Sensors::Advanced(AdvancedSensors::new())).unwrap();
    bp.finalize().unwrap();
    bp
}

#[test]
fn antimatter_scenario_builds_and_reports() {
    let mut bp = Blueprint::new();
    bp.set_frame().unwrap();
    assert_eq!(
        bp.add_reactor(Reactor::Antimatter(AntimatterReactor::new())),
        Ok(())
    );
    assert_eq!(bp.add_engine(Engine::Ion(IonEngine::new())), Ok(()));
    assert_eq!(
        bp.add_life_support(LifeSupport::Advanced(AdvancedLifeSupport::new())),
        Ok(())
    );
    assert_eq!(bp.add_bridge(Bridge::Command(CommandBridge::new())), Ok(()));
    assert_eq!(bp.used_slots(), 8);
    assert_eq!(bp.available_slots(), 2);
    assert_eq!(bp.lock_core_modules(), Ok(()));
    // Antimatter is present, so the magnetic shield is incompatible and the
    // phase shield fits.
    assert_eq!(
        bp.add_shield(Shield::Magnetic(MagneticShield::new())),
        Err(BuildError::IncompatibleVariant)
    );
    assert_eq!(bp.used_slots(), 8);
    assert_eq!(bp.add_shield(Shield::Phase(PhaseShield::new())), Ok(()));
    assert_eq!(bp.used_slots(), 9);
    assert_eq!(bp.finalize(), Ok(()));
    let report = bp.report();
    assert_eq!(report.total_mass, 1000 + 450 + 100 + 70 + 60 + 30);
    assert_eq!(report.power_output, 1000);
    assert_eq!(report.power_draw, 250 + 50 + 75 + 120);
    assert_eq!(report.power_balance, 1000 - 495);
    assert_eq!(report.thrust, 500);
    assert_eq!(report.used_slots, 9);
    assert_eq!(report.total_slots, 10);
    assert_eq!(report.available_slots, 1);
    let ratio = report.thrust as f64 / report.total_mass as f64;
    assert!((ratio - 0.2924).abs() < 0.0005);
}

#[test]
fn fusion_scenario_reports_exact_sums() {
    let mut bp = Blueprint::new();
    bp.set_frame().unwrap();
    bp.add_reactor(Reactor::Fusion(FusionReactor::new())).unwrap();
    bp.add_engine(Engine::Ion(IonEngine::new())).unwrap();
    bp.add_life_support(LifeSupport::Advanced(AdvancedLifeSupport::new()))
        .unwrap();
    bp.add_bridge(Bridge::Command(CommandBridge::new())).unwrap();
    bp.lock_core_modules().unwrap();
    bp.add_shield(Shield::Magnetic(MagneticShield::new())).unwrap();
    bp.finalize().unwrap();
    let report = bp.report();
    assert_eq!(report.total_mass, 1000 + 300 + 100 + 70 + 60 + 40);
    assert_eq!(report.power_output, 1000);
    assert_eq!(report.power_draw, 250 + 50 + 75 + 100);
    assert_eq!(report.power_balance, 1000 - 475);
    assert_eq!(report.thrust, 500);
    assert_eq!(report.used_slots, 9);
    assert_eq!(report.available_slots, 1);
    let ratio = report.thrust as f64 / report.total_mass as f64;
    assert!((ratio - 500.0 / 1570.0).abs() < 1e-9);
}

#[test]
fn plasma_ship_reports_exact_sums() {
    let bp = finalized_with(&[Reactor::Antimatter(AntimatterReactor::new())]);
    let report = bp.report();
    assert_eq!(report.power_output, 1000);
    assert_eq!(report.total_mass, 1000 + 450 + 120 + 70 + 60 + 35);
    assert_eq!(report.thrust, 750);
    assert_eq!(report.power_draw, 250 + 50 + 75 + 50);
    assert_eq!(report.used_slots, 3 + 2 + 2 + 1 + 1);
    assert_eq!(report.available_slots, 1);
}

#[test]
fn recomputing_the_report_changes_nothing() {
    let bp = finalized_with(&[Reactor::Fusion(FusionReactor::new())]);
    let first: Report = bp.report();
    let second: Report = bp.report();
    assert_eq!(first, second);
}

#[test]
fn installation_order_does_not_affect_the_report() {
    // The same modules installed in a different order (the stage permitting)
    // yield the very same report.
    let mut first = Blueprint::new();
    first.set_frame().unwrap();
    first.add_reactor(Reactor::Fusion(FusionReactor::new())).unwrap();
    first.add_engine(Engine::Ion(IonEngine::new())).unwrap();
    first
        .add_life_support(LifeSupport::Standard(StandardLifeSupport::new()))
        .unwrap();
    first.add_bridge(Bridge::Explorer(ExplorerBridge::new())).unwrap();
    first.lock_core_modules().unwrap();
    first.add_shield(Shield::Magnetic(MagneticShield::new())).unwrap();
    first.add_sensors(Sensors::Basic(BasicSensors::new())).unwrap();
    first.finalize().unwrap();

    let mut second = Blueprint::new();
    second.set_frame().unwrap();
    second.add_bridge(Bridge::Explorer(ExplorerBridge::new())).unwrap();
    second
        .add_life_support(LifeSupport::Standard(StandardLifeSupport::new()))
        .unwrap();
    second.add_engine(Engine::Ion(IonEngine::new())).unwrap();
    second.add_reactor(Reactor::Fusion(FusionReactor::new())).unwrap();
    second.lock_core_modules().unwrap();
    second.add_sensors(Sensors::Basic(BasicSensors::new())).unwrap();
    second.add_shield(Shield::Magnetic(MagneticShield::new())).unwrap();
    second.finalize().unwrap();

    assert_eq!(first.report(), second.report());
}

#[test]
fn the_report_may_balance_negative_without_reactor_draw() {
    // Reactors never draw power, so the balance is output minus the module
    // draws alone; with one reactor it stays positive here.
    let bp = finalized_with(&[Reactor::Fusion(FusionReactor::new())]);
    let report = bp.report();
    assert_eq!(report.power_balance, report.power_output - report.power_draw);
}
