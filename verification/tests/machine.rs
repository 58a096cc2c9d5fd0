use std::sync::Arc;

use beachhead_companion::clock::{Alarm, Timestamp};
use beachhead_companion::common::{Config, MissingContainerHandling};
use beachhead_companion::companion::Context;
use beachhead_companion::domain_spec::DomainSpec;
use beachhead_companion::error::CompanionError;
use beachhead_companion::inspector::{Inspect, Inspection, InspectionError};
use beachhead_companion::orchestrator::{decide_exit, run, Action, Event, Orchestrator, Phase};
use beachhead_companion::publisher::{Publication, Publish, PublishingError};
use beachhead_companion::refresh::RefreshOutcome;
use beachhead_companion::wait::{WaitAction, WaitEvent, WaitScheduler, WaitState, Wakeup};

/// Every container serves one domain from its own host; listing them works
/// unless `broken`.
struct Fleet {
    running: Vec<String>,
    broken: bool,
    inspections: usize,
}

impl Fleet {
    fn of(names: &[&str]) -> Fleet {
        Fleet { running: names.iter().map(|n| (*n).to_owned()).collect(), broken: false, inspections: 0 }
    }
}

impl Inspect for Fleet {
    fn inspect(&mut self, container_name: &str) -> Result<Inspection, InspectionError> {
        self.inspections += 1;
        if container_name.starts_with("missing") {
            return Err(InspectionError::NotFound(container_name.to_owned()));
        }
        Ok(Inspection {
            envvar_present: true,
            host: format!("{}.host", container_name),
            specs: vec![DomainSpec {
                domain_name: format!("{}.example.org", container_name),
                http_port: Some(80),
                https_port: Some(443),
            }],
        })
    }

    fn enumerate(&mut self) -> Result<Vec<String>, InspectionError> {
        if self.broken {
            Err(InspectionError::Communication("daemon unreachable".to_owned()))
        } else {
            Ok(self.running.clone())
        }
    }
}

/// Takes every publication, or none.
struct Registry {
    down: bool,
    taken: Vec<Publication>,
}

impl Registry {
    fn up() -> Registry {
        Registry { down: false, taken: Vec::new() }
    }

    fn down() -> Registry {
        Registry { down: true, taken: Vec::new() }
    }
}

impl Publish for Registry {
    fn publish(&mut self, publication: &Publication) -> Result<(), PublishingError> {
        if self.down {
            Err(PublishingError { cause: "registry down".to_owned() })
        } else {
            self.taken.push(publication.clone());
            Ok(())
        }
    }
}

fn at(micros: i64) -> Timestamp {
    Timestamp { micros }
}

fn config(refresh: Option<u32>, systemd: bool, watchdog: Option<u64>) -> Config {
    let mut config = Config::default();
    config.refresh_seconds = refresh;
    config.systemd = systemd;
    config.watchdog_microseconds = watchdog;
    config
}

fn context(config: Config, now: Timestamp) -> Context<Fleet, Registry> {
    Context::new_at(Arc::new(config), Fleet::of(&[]), Registry::up(), now)
}

fn orchestrator(config: Config, fleet: Fleet, registry: Registry, explicit: &[&str]) -> Orchestrator<Fleet, Registry> {
    Orchestrator::new(
        Arc::new(config),
        fleet,
        registry,
        explicit.iter().map(|n| (*n).to_owned()).collect(),
    )
}

fn fields(action: Action) -> Vec<(String, String)> {
    match action {
        Action::Notify(notification) => notification.fields(),
        other => panic!("expected a notification, got {:?}", other),
    }
}

fn pair(key: &str, value: &str) -> (String, String) {
    (key.to_owned(), value.to_owned())
}

fn failed() -> Result<(), std::io::Error> {
    Err(std::io::Error::new(std::io::ErrorKind::ConnectionRefused, "no notify socket"))
}

#[test]
fn one_shot_wait_ends_after_the_look_for_a_signal() {
    for pending in [false, true] {
        let mut ctx = context(config(None, true, Some(1_000_000)), at(0));
        let mut scheduler = WaitScheduler::new();
        let first = ctx.wait_at(&mut scheduler, WaitEvent::Entered, at(100));
        assert_eq!(first, WaitAction::Poll);
        assert_eq!(scheduler.next_refresh, None);
        let second = ctx.wait_at(&mut scheduler, WaitEvent::Polled(pending), at(200));
        assert_eq!(second, WaitAction::Return(false));
        assert_eq!(scheduler.state, if pending { WaitState::Stopped } else { WaitState::Finished });
    }
}

#[test]
fn pending_signal_ends_the_wait_though_the_refresh_deadline_has_passed() {
    let mut ctx = context(config(Some(1), false, None), at(0));
    let mut scheduler = WaitScheduler::new();
    assert_eq!(ctx.wait_at(&mut scheduler, WaitEvent::Entered, at(0)), WaitAction::Poll);
    assert_eq!(scheduler.next_refresh, Some(at(1_000_000)));
    let action = ctx.wait_at(&mut scheduler, WaitEvent::Polled(true), at(5_000_000));
    assert_eq!(action, WaitAction::Return(false));
    assert_eq!(scheduler.state, WaitState::Stopped);
}

#[test]
fn wait_parks_on_both_deadlines() {
    let mut ctx = context(config(Some(30), true, Some(20_000_000)), at(1_000_000));
    let mut scheduler = WaitScheduler::new();
    ctx.notify_status_at("Waiting", at(2_000_000));
    assert_eq!(ctx.next_watchdog(), Some(at(11_000_000)));
    assert_eq!(ctx.wait_at(&mut scheduler, WaitEvent::Entered, at(3_000_000)), WaitAction::Poll);
    assert_eq!(scheduler.next_refresh, Some(at(33_000_000)));
    let action = ctx.wait_at(&mut scheduler, WaitEvent::Polled(false), at(3_500_000));
    assert_eq!(
        action,
        WaitAction::Block { refresh: Alarm::After(29_500_000), watchdog: Alarm::After(7_500_000) }
    );
    assert_eq!(scheduler.state, WaitState::Blocked);
}

#[test]
fn wait_without_watchdog_parks_on_the_refresh_deadline_alone() {
    let mut ctx = context(config(Some(2), false, None), at(0));
    let mut scheduler = WaitScheduler::new();
    ctx.wait_at(&mut scheduler, WaitEvent::Entered, at(10));
    let action = ctx.wait_at(&mut scheduler, WaitEvent::Polled(false), at(10));
    assert_eq!(action, WaitAction::Block { refresh: Alarm::After(2_000_000), watchdog: Alarm::Never });
}

#[test]
fn overdue_deadlines_fire_immediately() {
    let mut ctx = context(config(Some(1), true, Some(1_000_000)), at(0));
    let mut scheduler = WaitScheduler::new();
    ctx.wait_at(&mut scheduler, WaitEvent::Entered, at(0));
    let action = ctx.wait_at(&mut scheduler, WaitEvent::Polled(false), at(1_000_000));
    assert_eq!(action, WaitAction::Block { refresh: Alarm::Immediately, watchdog: Alarm::Immediately });
}

#[test]
fn refresh_alarm_ends_the_wait_with_go_on() {
    let mut ctx = context(config(Some(1), false, None), at(0));
    let mut scheduler = WaitScheduler::new();
    ctx.wait_at(&mut scheduler, WaitEvent::Entered, at(0));
    ctx.wait_at(&mut scheduler, WaitEvent::Polled(false), at(0));
    let action = ctx.wait_at(&mut scheduler, WaitEvent::Woke(Wakeup::Refresh), at(1_000_000));
    assert_eq!(action, WaitAction::Return(true));
    assert_eq!(scheduler.state, WaitState::Finished);
}

#[test]
fn signal_during_the_wait_ends_the_loop() {
    let mut ctx = context(config(Some(1), false, None), at(0));
    let mut scheduler = WaitScheduler::new();
    ctx.wait_at(&mut scheduler, WaitEvent::Entered, at(0));
    ctx.wait_at(&mut scheduler, WaitEvent::Polled(false), at(0));
    let action = ctx.wait_at(&mut scheduler, WaitEvent::Woke(Wakeup::Termination), at(500));
    assert_eq!(action, WaitAction::Return(false));
    assert_eq!(scheduler.state, WaitState::Stopped);
}

#[test]
fn heartbeat_wakeup_pings_and_parks_again() {
    let mut ctx = context(config(Some(60), true, Some(10_000_000)), at(0));
    let mut scheduler = WaitScheduler::new();
    ctx.wait_at(&mut scheduler, WaitEvent::Entered, at(0));
    let parked = ctx.wait_at(&mut scheduler, WaitEvent::Polled(false), at(0));
    assert_eq!(parked, WaitAction::Block { refresh: Alarm::After(60_000_000), watchdog: Alarm::Immediately });

    let woke = ctx.wait_at(&mut scheduler, WaitEvent::Woke(Wakeup::Watchdog), at(1_000));
    assert_eq!(woke, WaitAction::Ping);
    assert_eq!(scheduler.state, WaitState::Pinging);
    assert_eq!(ctx.next_watchdog(), Some(at(4_501_000)));

    let after_ping = ctx.wait_at(&mut scheduler, WaitEvent::Notified, at(2_000));
    assert_eq!(after_ping, WaitAction::Poll);

    let parked_again = ctx.wait_at(&mut scheduler, WaitEvent::Polled(false), at(3_000));
    assert_eq!(
        parked_again,
        WaitAction::Block { refresh: Alarm::After(59_997_000), watchdog: Alarm::After(4_498_000) }
    );
    assert_eq!(scheduler.next_refresh, Some(at(60_000_000)));
}

#[test]
fn signal_after_a_heartbeat_is_seen_before_parking_again() {
    let mut ctx = context(config(Some(60), true, Some(10_000_000)), at(0));
    let mut scheduler = WaitScheduler::new();
    ctx.wait_at(&mut scheduler, WaitEvent::Entered, at(0));
    ctx.wait_at(&mut scheduler, WaitEvent::Polled(false), at(0));
    ctx.wait_at(&mut scheduler, WaitEvent::Woke(Wakeup::Watchdog), at(1_000));
    ctx.wait_at(&mut scheduler, WaitEvent::Notified, at(2_000));
    let action = ctx.wait_at(&mut scheduler, WaitEvent::Polled(true), at(3_000));
    assert_eq!(action, WaitAction::Return(false));
    assert_eq!(scheduler.state, WaitState::Stopped);
}

#[test]
fn heartbeat_wakeup_without_service_manager_looks_for_a_signal() {
    let mut ctx = context(config(Some(60), false, Some(10_000_000)), at(0));
    let mut scheduler = WaitScheduler::new();
    ctx.wait_at(&mut scheduler, WaitEvent::Entered, at(0));
    ctx.wait_at(&mut scheduler, WaitEvent::Polled(false), at(0));
    let action = ctx.wait_at(&mut scheduler, WaitEvent::Woke(Wakeup::Watchdog), at(1_000));
    assert_eq!(action, WaitAction::Poll);
    assert_eq!(scheduler.state, WaitState::Checking);
    assert_eq!(ctx.next_watchdog(), Some(at(0)));
}

#[test]
fn event_out_of_turn_stops_the_wait() {
    let mut ctx = context(config(Some(60), true, Some(10_000_000)), at(0));
    let mut scheduler = WaitScheduler::new();
    let action = ctx.wait_at(&mut scheduler, WaitEvent::Woke(Wakeup::Refresh), at(0));
    assert_eq!(action, WaitAction::Return(false));
    assert_eq!(scheduler.state, WaitState::Stopped);

    let mut scheduler = WaitScheduler::new();
    ctx.wait_at(&mut scheduler, WaitEvent::Entered, at(0));
    let action = ctx.wait_at(&mut scheduler, WaitEvent::Notified, at(0));
    assert_eq!(action, WaitAction::Return(false));
    let action = ctx.wait_at(&mut scheduler, WaitEvent::Polled(false), at(0));
    assert_eq!(action, WaitAction::Return(false));
}

#[test]
fn refresh_deadline_stops_at_the_last_timestamp() {
    let mut ctx = context(config(Some(u32::MAX), false, None), at(0));
    let mut scheduler = WaitScheduler::new();
    ctx.wait_at(&mut scheduler, WaitEvent::Entered, at(i64::MAX - 5));
    assert_eq!(scheduler.next_refresh, Some(at(i64::MAX)));
    ctx.wait_at(&mut scheduler, WaitEvent::Entered, at(0));
    let mut scheduler = WaitScheduler::new();
    ctx.wait_at(&mut scheduler, WaitEvent::Entered, at(7));
    assert_eq!(scheduler.next_refresh, Some(at(4_294_967_295_000_007)));
}

#[test]
fn exit_is_a_failure_only_after_a_single_pass_with_errors() {
    let error = || vec![CompanionError::Publishing(PublishingError { cause: "x".to_owned() })];
    assert!(decide_exit(Vec::new(), false).is_ok());
    assert!(decide_exit(Vec::new(), true).is_ok());
    assert!(decide_exit(error(), true).is_ok());
    match decide_exit(error(), false) {
        Err(errors) => {
            assert_eq!(errors.len(), 1);
            assert!(matches!(&errors[0], CompanionError::Publishing(e) if e.cause == "x"));
        }
        Ok(()) => panic!("expected a failure"),
    }
}

#[test]
fn one_shot_run_with_a_publish_failure_fails_with_that_error() {
    let mut machine = orchestrator(config(None, false, None), Fleet::of(&[]), Registry::down(), &["web"]);

    assert!(matches!(run(&mut machine, Event::Started), Action::Poll));
    assert_eq!(machine.phase(), Phase::Waiting);
    let reports = machine.take_reports();
    assert_eq!(reports.len(), 1);
    assert_eq!(reports[0].container.todo, "web");
    assert!(matches!(
        &reports[0].outcome,
        RefreshOutcome::PublishingFailed { refusal, .. } if refusal.cause == "registry down"
    ));
    assert_eq!(machine.errors().len(), 1);
    assert!(matches!(&machine.errors()[0], CompanionError::Publishing(e) if e.cause == "registry down"));

    match run(&mut machine, Event::Polled(false)) {
        Action::Exit(Err(errors)) => {
            assert_eq!(errors.len(), 1);
            assert!(matches!(
                &errors[0],
                CompanionError::Publishing(e) if e.cause == "registry down"
            ));
        }
        other => panic!("expected a failed exit, got {:?}", other),
    }
    assert_eq!(machine.phase(), Phase::Exited);
}

#[test]
fn one_shot_run_without_errors_succeeds() {
    let mut machine = orchestrator(config(None, false, None), Fleet::of(&[]), Registry::up(), &["web"]);
    assert!(matches!(run(&mut machine, Event::Started), Action::Poll));
    assert!(matches!(run(&mut machine, Event::Polled(false)), Action::Exit(Ok(()))));
    assert_eq!(machine.context().publisher().taken.len(), 1);
    assert_eq!(machine.context().publisher().taken[0].host, "web.host");
}

#[test]
fn daemon_that_is_told_to_stop_after_a_publish_failure_succeeds() {
    let mut machine = orchestrator(config(Some(1), false, None), Fleet::of(&[]), Registry::down(), &["web"]);
    assert!(matches!(run(&mut machine, Event::Started), Action::Poll));
    assert!(matches!(run(&mut machine, Event::Polled(true)), Action::Exit(Ok(()))));
    assert_eq!(machine.phase(), Phase::Exited);
}

#[test]
fn daemon_that_is_told_to_stop_while_parked_succeeds() {
    let mut machine = orchestrator(config(Some(1), false, None), Fleet::of(&[]), Registry::down(), &["web"]);
    assert!(matches!(run(&mut machine, Event::Started), Action::Poll));
    assert!(matches!(
        run(&mut machine, Event::Polled(false)),
        Action::Block { refresh: Alarm::After(_), watchdog: Alarm::Never }
    ));
    assert!(matches!(run(&mut machine, Event::Woke(Wakeup::Termination)), Action::Exit(Ok(()))));
}

#[test]
fn refresh_alarm_starts_the_next_pass() {
    let mut settings = config(Some(1), false, None);
    settings.enumerate = true;
    let mut machine = orchestrator(settings, Fleet::of(&["a", "b"]), Registry::up(), &["web"]);
    assert!(matches!(run(&mut machine, Event::Started), Action::Poll));
    assert_eq!(machine.take_reports().len(), 3);
    assert!(matches!(run(&mut machine, Event::Polled(false)), Action::Block { .. }));
    assert_eq!(machine.take_reports().len(), 0);
    assert_eq!(machine.context().inspector().inspections, 3);

    assert!(matches!(run(&mut machine, Event::Woke(Wakeup::Refresh)), Action::Poll));
    assert_eq!(machine.context().inspector().inspections, 6);
    assert_eq!(machine.context().publisher().taken.len(), 6);
    assert_eq!(machine.take_reports().len(), 3);
}

#[test]
fn errors_of_an_earlier_pass_are_dropped() {
    let mut settings = config(Some(1), false, None);
    settings.missing_container = MissingContainerHandling::Report;
    let mut machine = orchestrator(settings, Fleet::of(&[]), Registry::up(), &["missing-one"]);
    assert!(matches!(run(&mut machine, Event::Started), Action::Poll));
    assert!(matches!(run(&mut machine, Event::Polled(false)), Action::Block { .. }));
    assert_eq!(machine.errors().len(), 1);
    assert!(matches!(run(&mut machine, Event::Woke(Wakeup::Refresh)), Action::Poll));
    let reports = machine.take_reports();
    assert_eq!(reports.len(), 2);
    assert_eq!(machine.errors().len(), 1);
    assert!(matches!(run(&mut machine, Event::Polled(true)), Action::Exit(Ok(()))));
    assert_eq!(machine.errors().len(), 0);
}

#[test]
fn run_with_service_manager_announces_every_stage() {
    let mut machine = orchestrator(
        config(Some(10), true, Some(4_000_000)),
        Fleet::of(&[]),
        Registry::up(),
        &["web"],
    );

    assert_eq!(fields(run(&mut machine, Event::Started)), vec![pair("READY", "1")]);
    assert_eq!(machine.phase(), Phase::AnnouncingReady);
    assert_eq!(machine.context().inspector().inspections, 0);

    assert_eq!(
        fields(run(&mut machine, Event::Notified(Ok(())))),
        vec![pair("STATUS", "Refreshing"), pair("WATCHDOG", "1")]
    );
    assert_eq!(machine.phase(), Phase::AnnouncingRefresh);
    assert_eq!(machine.context().inspector().inspections, 0);

    assert_eq!(
        fields(run(&mut machine, Event::Notified(Ok(())))),
        vec![pair("STATUS", "Waiting"), pair("WATCHDOG", "1")]
    );
    assert_eq!(machine.phase(), Phase::AnnouncingWait);
    assert_eq!(machine.context().inspector().inspections, 1);
    assert_eq!(machine.context().publisher().taken.len(), 1);

    assert!(matches!(run(&mut machine, Event::Notified(Ok(()))), Action::Poll));
    assert_eq!(machine.phase(), Phase::Waiting);

    match run(&mut machine, Event::Polled(false)) {
        Action::Block { refresh: Alarm::After(refresh), watchdog: Alarm::After(watchdog) } => {
            assert!(refresh <= 10_000_000 && refresh > 9_000_000, "refresh in {}", refresh);
            assert!(watchdog <= 1_800_000 && watchdog > 800_000, "watchdog in {}", watchdog);
        }
        other => panic!("expected to be parked, got {:?}", other),
    }

    assert_eq!(
        fields(run(&mut machine, Event::Woke(Wakeup::Watchdog))),
        vec![pair("STATUS", "Waiting"), pair("WATCHDOG", "1")]
    );
    assert_eq!(machine.context().inspector().inspections, 1);
    assert!(matches!(run(&mut machine, Event::Notified(Ok(()))), Action::Poll));
    assert!(matches!(run(&mut machine, Event::Polled(false)), Action::Block { .. }));

    assert_eq!(
        fields(run(&mut machine, Event::Woke(Wakeup::Refresh))),
        vec![pair("STATUS", "Refreshing"), pair("WATCHDOG", "1")]
    );
    assert_eq!(machine.context().inspector().inspections, 1);
    assert_eq!(fields(run(&mut machine, Event::Notified(Ok(()))))[0], pair("STATUS", "Waiting"));
    assert_eq!(machine.context().inspector().inspections, 2);
    assert!(matches!(run(&mut machine, Event::Notified(Ok(()))), Action::Poll));

    assert_eq!(
        fields(run(&mut machine, Event::Polled(true))),
        vec![pair("STATUS", "Stopping"), pair("STOPPING", "1")]
    );
    assert_eq!(machine.phase(), Phase::AnnouncingStop);
    assert!(matches!(run(&mut machine, Event::Notified(Ok(()))), Action::Exit(Ok(()))));
    assert_eq!(machine.phase(), Phase::Exited);
}

#[test]
fn failure_to_announce_readiness_is_fatal() {
    let mut machine = orchestrator(config(Some(10), true, None), Fleet::of(&[]), Registry::up(), &["web"]);
    assert_eq!(fields(run(&mut machine, Event::Started)), vec![pair("READY", "1")]);
    match run(&mut machine, Event::Notified(failed())) {
        Action::Exit(Err(errors)) => {
            assert_eq!(errors.len(), 1);
            match &errors[0] {
                CompanionError::Systemd(error) => {
                    assert_eq!(error.kind(), std::io::ErrorKind::ConnectionRefused)
                }
                other => panic!("expected a service manager failure, got {:?}", other),
            }
        }
        other => panic!("expected a failed exit, got {:?}", other),
    }
    assert_eq!(machine.phase(), Phase::Exited);
    assert_eq!(machine.context().inspector().inspections, 0);
}

#[test]
fn later_notification_failures_change_nothing() {
    let mut machine = orchestrator(config(None, true, None), Fleet::of(&[]), Registry::down(), &["web"]);
    assert_eq!(fields(run(&mut machine, Event::Started)), vec![pair("READY", "1")]);
    assert_eq!(fields(run(&mut machine, Event::Notified(Ok(()))))[0], pair("STATUS", "Refreshing"));
    assert_eq!(fields(run(&mut machine, Event::Notified(failed())))[0], pair("STATUS", "Waiting"));
    assert!(matches!(run(&mut machine, Event::Notified(failed())), Action::Poll));
    assert_eq!(fields(run(&mut machine, Event::Polled(false)))[0], pair("STATUS", "Stopping"));
    match run(&mut machine, Event::Notified(failed())) {
        Action::Exit(Err(errors)) => {
            assert_eq!(errors.len(), 1);
            assert!(matches!(&errors[0], CompanionError::Publishing(_)));
        }
        other => panic!("expected a failed exit, got {:?}", other),
    }
}

#[test]
fn failed_enumeration_is_surfaced_first_in_a_one_shot_run() {
    let mut settings = config(None, false, None);
    settings.enumerate = true;
    let mut fleet = Fleet::of(&["a"]);
    fleet.broken = true;
    let mut machine = orchestrator(settings, fleet, Registry::down(), &["web"]);
    assert!(matches!(run(&mut machine, Event::Started), Action::Poll));
    assert_eq!(machine.context().inspector().inspections, 1);
    assert_eq!(machine.errors().len(), 2);
    assert!(matches!(
        machine.take_enumeration_failure(),
        Some(InspectionError::Communication(cause)) if cause == "daemon unreachable"
    ));
    assert!(machine.take_enumeration_failure().is_none());
    match run(&mut machine, Event::Polled(false)) {
        Action::Exit(Err(errors)) => {
            assert_eq!(errors.len(), 2);
            assert!(matches!(
                &errors[0],
                CompanionError::Inspection(InspectionError::Communication(cause)) if cause == "daemon unreachable"
            ));
            assert!(matches!(&errors[1], CompanionError::Publishing(_)));
        }
        other => panic!("expected a failed exit, got {:?}", other),
    }
}

#[test]
fn dry_run_of_the_whole_loop_publishes_nothing() {
    let mut settings = config(Some(1), false, None);
    settings.dry_run = true;
    settings.enumerate = true;
    let mut machine = orchestrator(settings, Fleet::of(&["a", "b"]), Registry::up(), &["web"]);
    assert!(matches!(run(&mut machine, Event::Started), Action::Poll));
    assert!(matches!(run(&mut machine, Event::Polled(false)), Action::Block { .. }));
    assert!(matches!(run(&mut machine, Event::Woke(Wakeup::Refresh)), Action::Poll));
    assert!(matches!(run(&mut machine, Event::Polled(true)), Action::Exit(Ok(()))));
    assert_eq!(machine.context().inspector().inspections, 6);
    assert_eq!(machine.context().publisher().taken.len(), 0);
    let reports = machine.take_reports();
    assert_eq!(reports.len(), 6);
    assert!(reports.iter().all(|report| matches!(report.outcome, RefreshOutcome::DryRun(_))));
}

#[test]
fn event_out_of_turn_makes_the_machine_leave() {
    let mut machine = orchestrator(config(Some(1), true, None), Fleet::of(&[]), Registry::up(), &["web"]);
    assert_eq!(fields(run(&mut machine, Event::Polled(false)))[0], pair("STATUS", "Stopping"));
    assert!(matches!(run(&mut machine, Event::Notified(Ok(()))), Action::Exit(Ok(()))));

    let mut machine = orchestrator(config(Some(1), false, None), Fleet::of(&[]), Registry::up(), &["web"]);
    assert!(matches!(run(&mut machine, Event::Woke(Wakeup::Refresh)), Action::Exit(Ok(()))));
    assert_eq!(machine.context().inspector().inspections, 0);
}

#[test]
fn machine_that_has_exited_stays_so() {
    let mut machine = orchestrator(config(None, false, None), Fleet::of(&[]), Registry::down(), &["web"]);
    run(&mut machine, Event::Started);
    assert!(matches!(run(&mut machine, Event::Polled(false)), Action::Exit(Err(_))));
    assert!(matches!(run(&mut machine, Event::Started), Action::Exit(Ok(()))));
    assert!(matches!(run(&mut machine, Event::Polled(false)), Action::Exit(Ok(()))));
    assert_eq!(machine.phase(), Phase::Exited);
    assert_eq!(machine.context().inspector().inspections, 1);
}
