use atomecs_simulations::driver::{count_engine_passes, Action, Driver, Event, Phase};

#[test]
fn counting_engine_sees_every_cycle() {
    let (updates, maintenances, phase) = count_engine_passes(5000);
    assert_eq!(updates, 5000);
    assert_eq!(maintenances, 5000);
    assert_eq!(phase, Phase::Completed);
}

#[test]
fn zero_steps_complete_without_engine_passes() {
    let mut d = Driver::for_configured_steps(0);
    assert_eq!(d.phase, Phase::Configuring);
    assert_eq!(d.handle(Event::SceneReady), Action::Finish);
    assert_eq!(d.phase, Phase::Completed);
    assert_eq!(d.completed_steps, 0);
    assert_eq!(count_engine_passes(0), (0, 0, Phase::Completed));
}

#[test]
fn negative_step_count_runs_nothing() {
    let d = Driver::for_configured_steps(-3);
    assert_eq!(d.total_steps, 0);
    assert_eq!(Driver::for_configured_steps(7).total_steps, 7);
}

#[test]
fn update_and_maintenance_alternate() {
    let mut d = Driver::new(2);
    assert_eq!(d.handle(Event::SceneReady), Action::RunUpdate);
    assert_eq!(d.phase, Phase::Running);
    assert_eq!(d.handle(Event::MaintenanceDone), Action::Ignore);
    assert_eq!(d.handle(Event::UpdateDone), Action::RunMaintenance);
    assert_eq!(d.handle(Event::UpdateDone), Action::Ignore);
    assert_eq!(d.handle(Event::MaintenanceDone), Action::RunUpdate);
    assert_eq!(d.completed_steps, 1);
    assert_eq!(d.handle(Event::UpdateDone), Action::RunMaintenance);
    assert_eq!(d.handle(Event::MaintenanceDone), Action::Finish);
    assert_eq!(d.phase, Phase::Completed);
    assert_eq!(d.completed_steps, 2);
    assert_eq!(d.handle(Event::UpdateDone), Action::Ignore);
}

#[test]
fn engine_failure_aborts_the_run() {
    let mut d = Driver::new(10);
    assert_eq!(d.handle(Event::EngineFailed), Action::Ignore);
    assert_eq!(d.phase, Phase::Configuring);
    d.handle(Event::SceneReady);
    d.handle(Event::UpdateDone);
    assert_eq!(d.handle(Event::EngineFailed), Action::Abort);
    assert_eq!(d.phase, Phase::Aborted);
    assert_eq!(d.handle(Event::MaintenanceDone), Action::Ignore);
    assert_eq!(d.phase, Phase::Aborted);
}
