//! The run loop, as a state machine.
//!
//! The machine owns the run context and does everything that needs no
//! waiting: it works out the containers of a pass, inspects and publishes
//! them, and decides what comes next. Whatever blocks or reaches the service
//! manager it asks of its caller, as an `Action`, and the caller comes back
//! with the `Event` that tells how it went.

use vstd::prelude::*;
use std::sync::Arc;
use crate::clock::Alarm;
use crate::clock::Timestamp;
use crate::clock::now;
use crate::common::Config;
use crate::companion::Context;
use crate::error::CompanionError;
use crate::heartbeat::Notification;
use crate::heartbeat::alive_fields;
use crate::heartbeat::deadline_after_heartbeat;
use crate::heartbeat::notification_fields;
use crate::inspector::Inspect;
use crate::inspector::InspectionError;
use crate::merge::names;
use crate::publisher::Publish;
use crate::refresh::Report;
use crate::refresh::lined_up;
use crate::refresh::pass_made;
use crate::refresh::refresh_all;
use crate::wait::WaitAction;
use crate::wait::WaitEvent;
use crate::wait::WaitScheduler;
use crate::wait::WaitState;
use crate::wait::Wakeup;
use crate::wait::wait_step;

verus! {

/// Where the run stands: what the machine has asked for last.
#[derive(Clone, Copy, Debug, PartialEq, Eq, Structural)]
pub enum Phase {
    /// Nothing yet.
    Starting,
    /// The notification that start-up is finished.
    AnnouncingReady,
    /// The heartbeat that opens an iteration.
    AnnouncingRefresh,
    /// The heartbeat that follows a pass.
    AnnouncingWait,
    /// Something on behalf of the wait between two passes.
    Waiting,
    /// The notification that the daemon stops.
    AnnouncingStop,
    /// The process outcome: the run is over.
    Exited,
}

/// What the caller reports to the machine.
#[derive(Debug)]
pub enum Event {
    /// The process has started.
    Started,
    /// The notification was handed to the service manager, or could not be.
    Notified(Result<(), std::io::Error>),
    /// The look for a pending termination signal is done; `true` where one
    /// was there.
    Polled(bool),
    /// The blocking wait is over.
    Woke(Wakeup),
}

/// What the machine asks of the caller.
#[derive(Debug)]
pub enum Action {
    /// Tell the service manager.
    Notify(Notification),
    /// Look, without blocking, whether a termination signal is pending.
    Poll,
    /// Block until a termination signal arrives or one of the alarms goes
    /// off.
    Block { refresh: Alarm, watchdog: Alarm },
    /// End the process: with success, or with failure and these errors.
    Exit(Result<(), Vec<CompanionError>>),
}

/// An action, as values.
pub enum ActionView {
    Notify(Seq<(Seq<char>, Seq<char>)>),
    Poll,
    Block { refresh: Alarm, watchdog: Alarm },
    Exit(Result<(), Seq<CompanionError>>),
}

impl View for Action {
    type V = ActionView;

    open spec fn view(&self) -> ActionView {
        match *self {
            Action::Notify(notification) => ActionView::Notify(notification@),
            Action::Poll => ActionView::Poll,
            Action::Block { refresh, watchdog } => ActionView::Block { refresh, watchdog },
            Action::Exit(Ok(_)) => ActionView::Exit(Ok(())),
            Action::Exit(Err(errors)) => ActionView::Exit(Err(errors@)),
        }
    }
}

/// The machine, as values: all that its decisions depend on.
pub struct Machine {
    pub config: Config,
    /// The identifiers of the explicit containers.
    pub explicit: Seq<Seq<char>>,
    pub phase: Phase,
    /// The wait between two passes.
    pub scheduler: WaitScheduler,
    /// When the next heartbeat is due.
    pub next_watchdog: Option<Timestamp>,
    /// The errors of the latest pass.
    pub errors: Seq<CompanionError>,
}

impl Machine {
    /// What holds of the machine from its start to its end: there is a
    /// heartbeat deadline exactly where the service manager runs a
    /// watchdog, the wait is in order, and nothing is left of the errors
    /// once the run is over.
    pub open spec fn valid(self) -> bool {
        &&& self.next_watchdog is Some <==> self.config.watchdog_microseconds is Some
        &&& self.scheduler.valid()
        &&& self.phase is Exited ==> self.errors.len() == 0
    }
}

/// The machine after a step, and what it asks for.
pub struct Step {
    pub machine: Machine,
    pub action: ActionView,
}

/// How the process ends when the loop is left with the errors `errors` of
/// the last pass: with failure only where there was a single pass to begin
/// with and it had errors. A daemon that is asked to stop ends with success,
/// whatever its last pass brought.
pub open spec fn exit_outcome(errors: Seq<CompanionError>, refresh_seconds: Option<u32>) -> Result<
    (),
    Seq<CompanionError>,
> {
    if errors.len() == 0 || refresh_seconds is Some {
        Ok(())
    } else {
        Err(errors)
    }
}

/// The event as the wait between two passes takes it.
pub open spec fn wait_event(event: Event) -> WaitEvent {
    match event {
        Event::Started => WaitEvent::Entered,
        Event::Notified(_) => WaitEvent::Notified,
        Event::Polled(pending) => WaitEvent::Polled(pending),
        Event::Woke(wakeup) => WaitEvent::Woke(wakeup),
    }
}

/// The run ends.
pub open spec fn leave(machine: Machine) -> Step {
    Step {
        machine: Machine { phase: Phase::Exited, errors: Seq::empty(), ..machine },
        action: ActionView::Exit(exit_outcome(machine.errors, machine.config.refresh_seconds)),
    }
}

/// The loop is left: the service manager is told, where there is one, and
/// then the run ends.
pub open spec fn shut_down(machine: Machine) -> Step {
    if machine.config.systemd {
        Step {
            machine: Machine { phase: Phase::AnnouncingStop, ..machine },
            action: ActionView::Notify(notification_fields(Notification::Stopping)),
        }
    } else {
        leave(machine)
    }
}

/// The wait between two passes begins at `now`.
pub open spec fn begin_wait(machine: Machine, now: Timestamp) -> Step {
    let step = wait_step(
        machine.config,
        WaitScheduler::idle(),
        machine.next_watchdog,
        WaitEvent::Entered,
        now,
    );
    Step {
        machine: Machine {
            phase: Phase::Waiting,
            scheduler: step.scheduler,
            next_watchdog: step.next_watchdog,
            ..machine
        },
        action: ActionView::Poll,
    }
}

/// A pass has brought the errors `pass`, and it is `now`: the heartbeat
/// "Waiting" goes out, where there is a service manager, and then the wait
/// begins.
pub open spec fn after_pass(machine: Machine, now: Timestamp, pass: Seq<CompanionError>) -> Step {
    if machine.config.systemd {
        Step {
            machine: Machine {
                phase: Phase::AnnouncingWait,
                errors: pass,
                next_watchdog: deadline_after_heartbeat(
                    machine.config.watchdog_microseconds,
                    machine.next_watchdog,
                    now,
                ),
                ..machine
            },
            action: ActionView::Notify(alive_fields("Waiting"@)),
        }
    } else {
        begin_wait(Machine { errors: pass, ..machine }, now)
    }
}

/// An iteration begins. The errors of the pass before are dropped. The
/// heartbeat "Refreshing" goes out, where there is a service manager, and
/// then comes the pass.
pub open spec fn iterate(machine: Machine, now: Timestamp, pass: Seq<CompanionError>) -> Step {
    if machine.config.systemd {
        Step {
            machine: Machine {
                phase: Phase::AnnouncingRefresh,
                errors: Seq::empty(),
                next_watchdog: deadline_after_heartbeat(
                    machine.config.watchdog_microseconds,
                    machine.next_watchdog,
                    now,
                ),
                ..machine
            },
            action: ActionView::Notify(alive_fields("Refreshing"@)),
        }
    } else {
        after_pass(machine, now, pass)
    }
}

/// The wait between two passes has taken a step.
pub open spec fn waited(
    machine: Machine,
    scheduler: WaitScheduler,
    next_watchdog: Option<Timestamp>,
    action: WaitAction,
    now: Timestamp,
    pass: Seq<CompanionError>,
) -> Step {
    let machine = Machine { scheduler, next_watchdog, ..machine };
    match action {
        WaitAction::Poll => Step { machine, action: ActionView::Poll },
        WaitAction::Block { refresh, watchdog } => Step {
            machine,
            action: ActionView::Block { refresh, watchdog },
        },
        WaitAction::Ping => Step { machine, action: ActionView::Notify(alive_fields("Waiting"@)) },
        WaitAction::Return(true) => iterate(machine, now, pass),
        WaitAction::Return(false) => shut_down(machine),
    }
}

/// One step of the run.
///
/// `now` is the time at which the clock is read during the step, and `pass`
/// the errors of the pass that is made during the step; a step that does
/// neither does not depend on them.
///
/// The run starts by telling the service manager that the daemon is ready;
/// if that fails, the run ends at once with that failure. Then iteration
/// follows iteration: heartbeat "Refreshing", pass, heartbeat "Waiting",
/// wait. Where the wait says to go on, the errors of the pass are dropped
/// and the next iteration begins. Where it says to leave, the service
/// manager is told that the daemon stops, and the run ends as
/// `exit_outcome` says. Without a service manager the notifications are left
/// out. Whether a heartbeat or the stopping notification succeeded makes no
/// difference. An event that does not answer what was asked makes the
/// machine leave the loop.
pub open spec fn run_step(
    machine: Machine,
    event: Event,
    now: Timestamp,
    pass: Seq<CompanionError>,
) -> Step {
    match (machine.phase, event) {
        (Phase::Starting, Event::Started) => if machine.config.systemd {
            Step {
                machine: Machine { phase: Phase::AnnouncingReady, ..machine },
                action: ActionView::Notify(notification_fields(Notification::Ready)),
            }
        } else {
            iterate(machine, now, pass)
        },
        (Phase::AnnouncingReady, Event::Notified(Ok(_))) => iterate(machine, now, pass),
        (Phase::AnnouncingReady, Event::Notified(Err(error))) => Step {
            machine: Machine { phase: Phase::Exited, errors: Seq::empty(), ..machine },
            action: ActionView::Exit(Err(seq![CompanionError::Systemd(error)])),
        },
        (Phase::AnnouncingRefresh, Event::Notified(_)) => after_pass(machine, now, pass),
        (Phase::AnnouncingWait, Event::Notified(_)) => begin_wait(machine, now),
        (Phase::Waiting, _) => {
            let step = wait_step(
                machine.config,
                machine.scheduler,
                machine.next_watchdog,
                wait_event(event),
                now,
            );
            waited(machine, step.scheduler, step.next_watchdog, step.action, now, pass)
        },
        (Phase::AnnouncingStop, Event::Notified(_)) => leave(machine),
        (Phase::Exited, _) => leave(machine),
        _ => shut_down(machine),
    }
}

/// Whether a pass is made in the step that the machine takes on `event`.
pub open spec fn makes_pass(machine: Machine, event: Event) -> bool {
    match (machine.phase, event) {
        (Phase::Starting, Event::Started) => !machine.config.systemd,
        (Phase::AnnouncingReady, Event::Notified(Ok(_))) => !machine.config.systemd,
        (Phase::AnnouncingRefresh, Event::Notified(_)) => true,
        (Phase::Waiting, Event::Woke(Wakeup::Refresh)) => machine.scheduler.state is Blocked
            && !machine.config.systemd,
        _ => false,
    }
}

/// A step of the wait that ends the wait does not depend on the clock.
proof fn lemma_return_needs_no_clock(
    config: Config,
    scheduler: WaitScheduler,
    next_watchdog: Option<Timestamp>,
    event: WaitEvent,
    first: Timestamp,
    second: Timestamp,
)
    requires
        wait_step(config, scheduler, next_watchdog, event, first).action is Return,
    ensures
        wait_step(config, scheduler, next_watchdog, event, second) == wait_step(
            config,
            scheduler,
            next_watchdog,
            event,
            first,
        ),
{
}

/// The run loop of the daemon, between two calls of `run`.
pub struct Orchestrator<I: Inspect, P: Publish> {
    pub(crate) ctx: Context<I, P>,
    pub(crate) explicit: Vec<String>,
    pub(crate) phase: Phase,
    pub(crate) scheduler: WaitScheduler,
    /// The errors of the latest pass.
    pub(crate) errors: Vec<CompanionError>,
    /// The reports of the passes since the journal was last taken.
    pub(crate) journal: Vec<Report>,
    /// Why the enumeration of the latest pass failed, if it did.
    pub(crate) enumeration_failure: Option<InspectionError>,
}

impl<I: Inspect, P: Publish> View for Orchestrator<I, P> {
    type V = Machine;

    closed spec fn view(&self) -> Machine {
        Machine {
            config: self.ctx.spec_config(),
            explicit: names(self.explicit@),
            phase: self.phase,
            scheduler: self.scheduler,
            next_watchdog: self.ctx.spec_next_watchdog(),
            errors: self.errors@,
        }
    }
}

impl<I: Inspect, P: Publish> Orchestrator<I, P> {
    /// The inspection backend.
    pub closed spec fn spec_inspector(self) -> I {
        self.ctx.spec_inspector()
    }

    /// The publishing backend.
    pub closed spec fn spec_publisher(self) -> P {
        self.ctx.spec_publisher()
    }

    /// The reports that wait to be taken.
    pub closed spec fn spec_journal(self) -> Seq<Report> {
        self.journal@
    }

    /// Why the enumeration of the latest pass failed, if it did.
    pub closed spec fn spec_enumeration_failure(self) -> Option<InspectionError> {
        self.enumeration_failure
    }

    /// Whether `after` has the backends and the journal of `self`, and
    /// the same to tell of the latest enumeration.
    pub open spec fn untouched(self, after: Self) -> bool {
        &&& after.spec_inspector() == self.spec_inspector()
        &&& after.spec_publisher() == self.spec_publisher()
        &&& after.spec_journal() == self.spec_journal()
        &&& after.spec_enumeration_failure() == self.spec_enumeration_failure()
    }

    /// Whether `after` has the journal of `self` and, behind it, the
    /// reports `reports` of one pass that brought the errors `pass`, and
    /// tells how the enumeration of that pass failed, if it did. The pass
    /// is one of `pass_made`, made through the calls `listed`, `asked` and
    /// `handed`.
    pub open spec fn passed(
        self,
        after: Self,
        pass: Seq<CompanionError>,
        reports: Seq<Report>,
        listed: &mut I,
        enumeration: Option<Result<Vec<String>, InspectionError>>,
        asked: Seq<&mut I>,
        handed: Seq<&mut P>,
    ) -> bool {
        &&& self.spec_journal().len() <= after.spec_journal().len()
        &&& after.spec_journal().take(self.spec_journal().len() as int) == self.spec_journal()
        &&& after.spec_journal().skip(self.spec_journal().len() as int) == reports
        &&& pass_made(
            self@.config,
            self@.explicit,
            listed,
            enumeration,
            asked,
            handed,
            after.spec_enumeration_failure(),
            pass,
            reports,
        )
        &&& self@.config.dry_run ==> after.spec_publisher() == self.spec_publisher()
    }

    /// A machine that has not started. Its first heartbeat is due at the
    /// time of the call.
    pub fn new(
        config: Arc<Config>,
        inspector: I,
        publisher: P,
        explicit_container_names: Vec<String>,
    ) -> (orchestrator: Self)
        ensures
            orchestrator@.config == *config,
            orchestrator@.explicit == names(explicit_container_names@),
            orchestrator@.phase == Phase::Starting,
            orchestrator@.scheduler == WaitScheduler::idle(),
            orchestrator@.next_watchdog is Some <==> config.watchdog_microseconds is Some,
            orchestrator@.errors == Seq::<CompanionError>::empty(),
            orchestrator.spec_inspector() == inspector,
            orchestrator.spec_publisher() == publisher,
            orchestrator.spec_journal() == Seq::<Report>::empty(),
            orchestrator.spec_enumeration_failure() is None,
            orchestrator@.valid(),
    {
        Orchestrator {
            ctx: Context::new(config, inspector, publisher),
            explicit: explicit_container_names,
            phase: Phase::Starting,
            scheduler: WaitScheduler::new(),
            errors: Vec::new(),
            journal: Vec::new(),
            enumeration_failure: None,
        }
    }

    /// The run context.
    pub fn context(&self) -> (ctx: &Context<I, P>)
        ensures
            ctx.spec_config() == self@.config,
            ctx.spec_next_watchdog() == self@.next_watchdog,
            ctx.spec_inspector() == self.spec_inspector(),
            ctx.spec_publisher() == self.spec_publisher(),
    {
        &self.ctx
    }

    /// Where the run stands.
    pub fn phase(&self) -> (phase: Phase)
        ensures
            phase == self@.phase,
    {
        self.phase
    }

    /// The errors of the latest pass, in the order in which they came up.
    /// They are dropped when the next iteration begins and when the run
    /// ends.
    pub fn errors(&self) -> (errors: &Vec<CompanionError>)
        ensures
            errors@ == self@.errors,
    {
        &self.errors
    }

    /// Hands out why the enumeration of the latest pass failed, if it did
    /// and has not been handed out yet, and forgets it.
    pub fn take_enumeration_failure(&mut self) -> (failure: Option<InspectionError>)
        ensures
            failure == old(self).spec_enumeration_failure(),
            final(self).spec_enumeration_failure() is None,
            final(self)@ == old(self)@,
            final(self).spec_inspector() == old(self).spec_inspector(),
            final(self).spec_publisher() == old(self).spec_publisher(),
            final(self).spec_journal() == old(self).spec_journal(),
    {
        let mut failure: Option<InspectionError> = None;
        std::mem::swap(&mut self.enumeration_failure, &mut failure);
        failure
    }

    /// Hands out the reports of the passes made since the last call, oldest
    /// first, and forgets them.
    pub fn take_reports(&mut self) -> (reports: Vec<Report>)
        ensures
            reports@ == old(self).spec_journal(),
            final(self).spec_journal() == Seq::<Report>::empty(),
            final(self)@ == old(self)@,
            final(self).spec_inspector() == old(self).spec_inspector(),
            final(self).spec_publisher() == old(self).spec_publisher(),
            final(self).spec_enumeration_failure() == old(self).spec_enumeration_failure(),
    {
        let mut reports: Vec<Report> = Vec::new();
        std::mem::swap(&mut self.journal, &mut reports);
        reports
    }

    fn leave(&mut self) -> (action: Action)
        ensures
            (Step { machine: final(self)@, action: action@ }) == leave(old(self)@),
            old(self).untouched(*final(self)),
    {
        let mut errors: Vec<CompanionError> = Vec::new();
        std::mem::swap(&mut self.errors, &mut errors);
        self.phase = Phase::Exited;
        let keep_going = self.ctx.config().refresh_seconds.is_some();
        Action::Exit(decide_exit(errors, keep_going))
    }

    fn shut_down(&mut self) -> (action: Action)
        ensures
            (Step { machine: final(self)@, action: action@ }) == shut_down(old(self)@),
            old(self).untouched(*final(self)),
    {
        if self.ctx.config().systemd {
            self.phase = Phase::AnnouncingStop;
            Action::Notify(Notification::Stopping)
        } else {
            self.leave()
        }
    }

    fn begin_wait(&mut self, now: Timestamp) -> (action: Action)
        ensures
            (Step { machine: final(self)@, action: action@ }) == begin_wait(old(self)@, now),
            old(self).untouched(*final(self)),
    {
        self.scheduler = WaitScheduler::new();
        let _ = self.ctx.wait_at(&mut self.scheduler, WaitEvent::Entered, now);
        self.phase = Phase::Waiting;
        Action::Poll
    }

    /// Whether `after` and `action` are what a step without a pass makes of
    /// `self` on `event`, the clock reading `now`.
    pub open spec fn stepped_quietly(
        self,
        after: Self,
        event: Event,
        action: Action,
        now: Timestamp,
    ) -> bool {
        &&& (Step { machine: after@, action: action@ }) == run_step(
            self@,
            event,
            now,
            Seq::empty(),
        )
        &&& self.untouched(after)
    }

    /// Whether a pass is made in the step on `event`.
    fn will_pass(&self, event: &Event) -> (will: bool)
        ensures
            will == makes_pass(self@, *event),
    {
        let alone = !self.ctx.config().systemd;
        match self.phase {
            Phase::Starting => match event {
                Event::Started => alone,
                _ => false,
            },
            Phase::AnnouncingReady => match event {
                Event::Notified(Ok(_)) => alone,
                _ => false,
            },
            Phase::AnnouncingRefresh => match event {
                Event::Notified(_) => true,
                _ => false,
            },
            Phase::Waiting => match event {
                Event::Woke(Wakeup::Refresh) => alone && match self.scheduler.state {
                    WaitState::Blocked => true,
                    _ => false,
                },
                _ => false,
            },
            _ => false,
        }
    }

    /// Makes a pass and goes on to the wait.
    fn after_pass(&mut self) -> (out: (Action, Ghost<Timestamp>, Ghost<Seq<CompanionError>>))
        ensures
            (Step { machine: final(self)@, action: out.0@ }) == after_pass(
                old(self)@,
                out.1@,
                out.2@,
            ),
            exists|
                reports: Seq<Report>,
                listed: &mut I,
                enumeration: Option<Result<Vec<String>, InspectionError>>,
                asked: Seq<&mut I>,
                handed: Seq<&mut P>,
                inspectors: Seq<I>,
                publishers: Seq<P>,
            |
                #![trigger
                    old(self).passed(
                        *final(self),
                        out.2@,
                        reports,
                        listed,
                        enumeration,
                        asked,
                        handed,
                    ),
                    lined_up(inspectors, publishers, asked.len()),
                ]
                {
                    &&& old(self).passed(
                        *final(self),
                        out.2@,
                        reports,
                        listed,
                        enumeration,
                        asked,
                        handed,
                    )
                    &&& lined_up(inspectors, publishers, asked.len())
                    &&& enumeration is Some ==> mut_ref_current(listed) == old(
                        self,
                    ).spec_inspector() && mut_ref_future(listed) == inspectors[0]
                    &&& enumeration is None ==> inspectors[0] == old(self).spec_inspector()
                    &&& publishers[0] == old(self).spec_publisher()
                    &&& inspectors.last() == final(self).spec_inspector()
                    &&& publishers.last() == final(self).spec_publisher()
                    &&& forall|k: int|
                        0 <= k < asked.len() ==> {
                            &&& mut_ref_current(#[trigger] asked[k]) == inspectors[k]
                            &&& mut_ref_future(asked[k]) == inspectors[k + 1]
                            &&& if reports[k].outcome.published() {
                                mut_ref_current(handed[k]) == publishers[k] && mut_ref_future(
                                    handed[k],
                                ) == publishers[k + 1]
                            } else {
                                publishers[k + 1] == publishers[k]
                            }
                        }
                },
    {
        let ghost journal_before = self.journal@;
        let pass = refresh_all(&mut self.ctx, &self.explicit);
        let ghost pass_errors = pass.errors@;
        let ghost pass_reports = pass.reports@;
        let ghost pass_failure = pass.enumeration_failure;
        let ghost inspector_after = self.ctx.spec_inspector();
        let ghost publisher_after = self.ctx.spec_publisher();
        self.enumeration_failure = pass.enumeration_failure;
        self.errors = pass.errors;
        let mut reports = pass.reports;
        self.journal.append(&mut reports);
        let ghost journal_after = self.journal@;
        proof {
            assert(journal_after.take(journal_before.len() as int) == journal_before);
            assert(journal_after.skip(journal_before.len() as int) == pass_reports);
        }
        let now = now();
        let action = match self.ctx.notify_status_at("Waiting", now) {
            Some(heartbeat) => {
                self.phase = Phase::AnnouncingWait;
                Action::Notify(heartbeat)
            },
            None => self.begin_wait(now),
        };
        let out = (action, Ghost(now), Ghost(pass_errors));
        proof {
            let (listed, enumeration, asked, handed, inspectors, publishers) = choose|
                listed: &mut I,
                enumeration: Option<Result<Vec<String>, InspectionError>>,
                asked: Seq<&mut I>,
                handed: Seq<&mut P>,
                inspectors: Seq<I>,
                publishers: Seq<P>,
            |
                #![trigger
                    pass_made(
                        old(self)@.config,
                        old(self)@.explicit,
                        listed,
                        enumeration,
                        asked,
                        handed,
                        pass_failure,
                        pass_errors,
                        pass_reports,
                    ),
                    lined_up(inspectors, publishers, pass_reports.len()),
                ]
                {
                    &&& pass_made(
                        old(self)@.config,
                        old(self)@.explicit,
                        listed,
                        enumeration,
                        asked,
                        handed,
                        pass_failure,
                        pass_errors,
                        pass_reports,
                    )
                    &&& lined_up(inspectors, publishers, pass_reports.len())
                    &&& enumeration is Some ==> mut_ref_current(listed) == old(
                        self,
                    ).spec_inspector() && mut_ref_future(listed) == inspectors[0]
                    &&& enumeration is None ==> inspectors[0] == old(self).spec_inspector()
                    &&& publishers[0] == old(self).spec_publisher()
                    &&& inspectors.last() == inspector_after
                    &&& publishers.last() == publisher_after
                    &&& forall|k: int|
                        0 <= k < pass_reports.len() ==> {
                            &&& mut_ref_current(#[trigger] asked[k]) == inspectors[k]
                            &&& mut_ref_future(asked[k]) == inspectors[k + 1]
                            &&& if pass_reports[k].outcome.published() {
                                mut_ref_current(handed[k]) == publishers[k] && mut_ref_future(
                                    handed[k],
                                ) == publishers[k + 1]
                            } else {
                                publishers[k + 1] == publishers[k]
                            }
                        }
                };
            assert(self.spec_journal() == journal_after);
            assert(old(self).passed(
                *self,
                out.2@,
                pass_reports,
                listed,
                enumeration,
                asked,
                handed,
            ));
            assert(lined_up(inspectors, publishers, asked.len()));
        }
        out
    }

    /// Opens an iteration with the heartbeat "Refreshing".
    fn announce_refresh(&mut self) -> (out: (Action, Ghost<Timestamp>))
        requires
            old(self)@.config.systemd,
        ensures
            forall|pass: Seq<CompanionError>|
                (Step { machine: final(self)@, action: out.0@ }) == #[trigger] iterate(
                    old(self)@,
                    out.1@,
                    pass,
                ),
            old(self).untouched(*final(self)),
    {
        let now = now();
        match self.ctx.notify_status_at("Refreshing", now) {
            Some(heartbeat) => {
                self.errors = Vec::new();
                self.phase = Phase::AnnouncingRefresh;
                (Action::Notify(heartbeat), Ghost(now))
            },
            None => {
                let action = self.leave();
                (action, Ghost(now))
            },
        }
    }

    fn on_start(&mut self, event: Event) -> (out: (Action, Ghost<Timestamp>))
        requires
            old(self)@.phase == Phase::Starting,
            !makes_pass(old(self)@, event),
        ensures
            old(self).stepped_quietly(*final(self), event, out.0, out.1@),
    {
        match event {
            Event::Started => {
                self.phase = Phase::AnnouncingReady;
                (Action::Notify(Notification::Ready), Ghost(Timestamp { micros: 0 }))
            },
            _ => {
                let action = self.shut_down();
                (action, Ghost(Timestamp { micros: 0 }))
            },
        }
    }

    fn on_ready(&mut self, event: Event) -> (out: (Action, Ghost<Timestamp>))
        requires
            old(self)@.phase == Phase::AnnouncingReady,
            !makes_pass(old(self)@, event),
        ensures
            old(self).stepped_quietly(*final(self), event, out.0, out.1@),
    {
        match event {
            Event::Notified(Ok(_)) => self.announce_refresh(),
            Event::Notified(Err(error)) => {
                self.errors = Vec::new();
                self.phase = Phase::Exited;
                let mut errors: Vec<CompanionError> = Vec::new();
                errors.push(CompanionError::Systemd(error));
                assert(errors@ =~= seq![CompanionError::Systemd(error)]);
                (Action::Exit(Err(errors)), Ghost(Timestamp { micros: 0 }))
            },
            _ => {
                let action = self.shut_down();
                (action, Ghost(Timestamp { micros: 0 }))
            },
        }
    }

    fn on_waiting_announced(&mut self, event: Event) -> (out: (Action, Ghost<Timestamp>))
        requires
            old(self)@.phase == Phase::AnnouncingWait,
        ensures
            old(self).stepped_quietly(*final(self), event, out.0, out.1@),
    {
        match event {
            Event::Notified(_) => {
                let now = now();
                let action = self.begin_wait(now);
                (action, Ghost(now))
            },
            _ => {
                let action = self.shut_down();
                (action, Ghost(Timestamp { micros: 0 }))
            },
        }
    }

    fn on_wait(&mut self, event: Event) -> (out: (Action, Ghost<Timestamp>))
        requires
            old(self)@.phase == Phase::Waiting,
            !makes_pass(old(self)@, event),
        ensures
            old(self).stepped_quietly(*final(self), event, out.0, out.1@),
    {
        let ghost before = self@;
        let told = match &event {
            Event::Started => WaitEvent::Entered,
            Event::Notified(_) => WaitEvent::Notified,
            Event::Polled(pending) => WaitEvent::Polled(*pending),
            Event::Woke(wakeup) => WaitEvent::Woke(*wakeup),
        };
        let now = now();
        let asked = self.ctx.wait_at(&mut self.scheduler, told, now);
        match asked {
            WaitAction::Poll => (Action::Poll, Ghost(now)),
            WaitAction::Block { refresh, watchdog } => (
                Action::Block { refresh, watchdog },
                Ghost(now),
            ),
            WaitAction::Ping => (
                Action::Notify(Notification::Alive("Waiting".to_owned())),
                Ghost(now),
            ),
            WaitAction::Return(true) => {
                let (action, Ghost(later)) = self.announce_refresh();
                proof {
                    lemma_return_needs_no_clock(
                        before.config,
                        before.scheduler,
                        before.next_watchdog,
                        told,
                        now,
                        later,
                    );
                }
                (action, Ghost(later))
            },
            WaitAction::Return(false) => {
                let action = self.shut_down();
                (action, Ghost(now))
            },
        }
    }

    fn on_stopping(&mut self, event: Event) -> (out: (Action, Ghost<Timestamp>))
        requires
            old(self)@.phase == Phase::AnnouncingStop,
        ensures
            old(self).stepped_quietly(*final(self), event, out.0, out.1@),
    {
        let action = match event {
            Event::Notified(_) => self.leave(),
            _ => self.shut_down(),
        };
        (action, Ghost(Timestamp { micros: 0 }))
    }

    /// Takes a step without a pass.
    fn step_quietly(&mut self, event: Event) -> (out: (Action, Ghost<Timestamp>))
        requires
            !makes_pass(old(self)@, event),
        ensures
            old(self).stepped_quietly(*final(self), event, out.0, out.1@),
    {
        match self.phase {
            Phase::Starting => self.on_start(event),
            Phase::AnnouncingReady => self.on_ready(event),
            Phase::AnnouncingRefresh => {
                let action = self.shut_down();
                (action, Ghost(Timestamp { micros: 0 }))
            },
            Phase::AnnouncingWait => self.on_waiting_announced(event),
            Phase::Waiting => self.on_wait(event),
            Phase::AnnouncingStop => self.on_stopping(event),
            Phase::Exited => {
                let action = self.leave();
                (action, Ghost(Timestamp { micros: 0 }))
            },
        }
    }
}

/// How the process ends when the loop is left with the errors `errors` of
/// the last pass; `keep_going` says whether a refresh interval is
/// configured. Computes `exit_outcome`.
pub fn decide_exit(errors: Vec<CompanionError>, keep_going: bool) -> (outcome: Result<
    (),
    Vec<CompanionError>,
>)
    ensures
        match outcome {
            Ok(_) => errors@.len() == 0 || keep_going,
            Err(surfaced) => surfaced == errors && errors@.len() > 0 && !keep_going,
        },
{
    if errors.is_empty() || keep_going {
        Ok(())
    } else {
        Err(errors)
    }
}

/// Runs the daemon up to the point where it needs its caller: takes the
/// step that `run_step` describes and returns what the caller is to do.
/// Begin with `Event::Started`; do what the action says and call again with
/// the event that tells how it went, until the action is `Action::Exit`.
///
/// The step is that of `run_step` for some reading of the clock and for the
/// errors of the pass that was made, if one was made. A step without a
/// pass touches neither backend nor journal. A step with a pass adds the
/// reports of that pass to the journal, which fit its errors as
/// `pass_made` says. The calls of the pass were made on the backends of
/// the machine, one after the other: the enumeration, where it is switched
/// on, found the inspection backend as it was before the step; each
/// container found the backends as the container before it left them; and
/// the machine holds them as the last container left them. In a dry run
/// the publishing backend is left alone.
pub fn run<I: Inspect, P: Publish>(orchestrator: &mut Orchestrator<I, P>, event: Event) -> (action:
    Action)
    ensures
        !makes_pass(old(orchestrator)@, event) ==> exists|now: Timestamp| #[trigger]
            old(orchestrator).stepped_quietly(*final(orchestrator), event, action, now),
        makes_pass(old(orchestrator)@, event) ==> exists|
            now: Timestamp,
            pass: Seq<CompanionError>,
            reports: Seq<Report>,
            listed: &mut I,
            enumeration: Option<Result<Vec<String>, InspectionError>>,
            asked: Seq<&mut I>,
            handed: Seq<&mut P>,
            inspectors: Seq<I>,
            publishers: Seq<P>,
        |
            #![trigger
                run_step(old(orchestrator)@, event, now, pass),
                old(orchestrator).passed(
                    *final(orchestrator),
                    pass,
                    reports,
                    listed,
                    enumeration,
                    asked,
                    handed,
                ),
                lined_up(inspectors, publishers, asked.len()),
            ]
            {
                &&& (Step { machine: final(orchestrator)@, action: action@ }) == run_step(
                    old(orchestrator)@,
                    event,
                    now,
                    pass,
                )
                &&& old(orchestrator).passed(
                    *final(orchestrator),
                    pass,
                    reports,
                    listed,
                    enumeration,
                    asked,
                    handed,
                )
                &&& lined_up(inspectors, publishers, asked.len())
                &&& enumeration is Some ==> mut_ref_current(listed) == old(
                    orchestrator,
                ).spec_inspector() && mut_ref_future(listed) == inspectors[0]
                &&& enumeration is None ==> inspectors[0] == old(orchestrator).spec_inspector()
                &&& publishers[0] == old(orchestrator).spec_publisher()
                &&& inspectors.last() == final(orchestrator).spec_inspector()
                &&& publishers.last() == final(orchestrator).spec_publisher()
                &&& forall|k: int|
                    0 <= k < asked.len() ==> {
                        &&& mut_ref_current(#[trigger] asked[k]) == inspectors[k]
                        &&& mut_ref_future(asked[k]) == inspectors[k + 1]
                        &&& if reports[k].outcome.published() {
                            mut_ref_current(handed[k]) == publishers[k] && mut_ref_future(
                                handed[k],
                            ) == publishers[k + 1]
                        } else {
                            publishers[k + 1] == publishers[k]
                        }
                    }
            },
        old(orchestrator)@.config.dry_run ==> final(orchestrator).spec_publisher() == old(
            orchestrator,
        ).spec_publisher(),
        old(orchestrator)@.valid() ==> final(orchestrator)@.valid(),
{
    let ghost before = orchestrator@;
    if orchestrator.will_pass(&event) {
        let ghost mut waited_at = Timestamp { micros: 0 };
        match orchestrator.phase {
            Phase::Waiting => {
                let now = now();
                let _ = orchestrator.ctx.wait_at(
                    &mut orchestrator.scheduler,
                    WaitEvent::Woke(Wakeup::Refresh),
                    now,
                );
                proof {
                    waited_at = now;
                }
            },
            _ => {},
        }
        let ghost waited = *orchestrator;
        let (action, Ghost(now), Ghost(pass)) = orchestrator.after_pass();
        proof {
            lemma_return_needs_no_clock(
                before.config,
                before.scheduler,
                before.next_watchdog,
                WaitEvent::Woke(Wakeup::Refresh),
                waited_at,
                now,
            );
            assert((Step { machine: orchestrator@, action: action@ }) == run_step(
                before,
                event,
                now,
                pass,
            ));
            let (reports, listed, enumeration, asked, handed, inspectors, publishers) = choose|
                reports: Seq<Report>,
                listed: &mut I,
                enumeration: Option<Result<Vec<String>, InspectionError>>,
                asked: Seq<&mut I>,
                handed: Seq<&mut P>,
                inspectors: Seq<I>,
                publishers: Seq<P>,
            |
                #![trigger
                    waited.passed(
                        *orchestrator,
                        pass,
                        reports,
                        listed,
                        enumeration,
                        asked,
                        handed,
                    ),
                    lined_up(inspectors, publishers, asked.len()),
                ]
                {
                    &&& waited.passed(
                        *orchestrator,
                        pass,
                        reports,
                        listed,
                        enumeration,
                        asked,
                        handed,
                    )
                    &&& lined_up(inspectors, publishers, asked.len())
                    &&& enumeration is Some ==> mut_ref_current(listed)
                        == waited.spec_inspector() && mut_ref_future(listed) == inspectors[0]
                    &&& enumeration is None ==> inspectors[0] == waited.spec_inspector()
                    &&& publishers[0] == waited.spec_publisher()
                    &&& inspectors.last() == orchestrator.spec_inspector()
                    &&& publishers.last() == orchestrator.spec_publisher()
                    &&& forall|k: int|
                        0 <= k < asked.len() ==> {
                            &&& mut_ref_current(#[trigger] asked[k]) == inspectors[k]
                            &&& mut_ref_future(asked[k]) == inspectors[k + 1]
                            &&& if reports[k].outcome.published() {
                                mut_ref_current(handed[k]) == publishers[k] && mut_ref_future(
                                    handed[k],
                                ) == publishers[k + 1]
                            } else {
                                publishers[k + 1] == publishers[k]
                            }
                        }
                };
            assert(waited.spec_inspector() == old(orchestrator).spec_inspector());
            assert(waited.spec_publisher() == old(orchestrator).spec_publisher());
            assert(waited.spec_journal() == old(orchestrator).spec_journal());
            assert(waited@.config == before.config && waited@.explicit == before.explicit);
            assert(old(orchestrator).passed(
                *orchestrator,
                pass,
                reports,
                listed,
                enumeration,
                asked,
                handed,
            ));
            assert(lined_up(inspectors, publishers, asked.len()));
            if before.valid() {
                lemma_run_keeps_valid(before, event, now, pass);
            }
        }
        action
    } else {
        let (action, Ghost(now)) = orchestrator.step_quietly(event);
        proof {
            assert(old(orchestrator).stepped_quietly(*orchestrator, event, action, now));
            if before.valid() {
                lemma_run_keeps_valid(before, event, now, Seq::empty());
            }
        }
        action
    }
}

/// Whatever the machine is told, it stays valid, and its configuration and
/// its explicit containers stay what they were at the start.
pub proof fn lemma_run_keeps_valid(
    machine: Machine,
    event: Event,
    now: Timestamp,
    pass: Seq<CompanionError>,
)
    requires
        machine.valid(),
    ensures
        run_step(machine, event, now, pass).machine.valid(),
        run_step(machine, event, now, pass).machine.config == machine.config,
        run_step(machine, event, now, pass).machine.explicit == machine.explicit,
{
}

/// The process ends with failure exactly where the loop is left after a
/// single pass, for want of a refresh interval, and that pass had errors;
/// the failure then carries those errors. With a refresh interval the
/// process ends with success whatever the last pass brought.
pub proof fn lemma_exit_asymmetry(errors: Seq<CompanionError>, refresh_seconds: Option<u32>)
    ensures
        exit_outcome(errors, refresh_seconds) is Err <==> refresh_seconds is None && errors.len()
            > 0,
        exit_outcome(errors, refresh_seconds) matches Err(surfaced) ==> surfaced == errors,
{
}

/// Whenever a step ends the run, the outcome is the one that
/// `exit_outcome` gives for the errors of the latest pass. The one
/// exception is the failure to tell the service manager that the daemon is
/// ready, which ends the run before any pass.
pub proof fn lemma_run_ends_as_decided(
    machine: Machine,
    event: Event,
    now: Timestamp,
    pass: Seq<CompanionError>,
)
    requires
        !(machine.phase is AnnouncingReady && event matches Event::Notified(Err(_))),
    ensures
        run_step(machine, event, now, pass).action matches ActionView::Exit(outcome) ==> outcome
            == exit_outcome(machine.errors, machine.config.refresh_seconds),
{
}

/// If the service manager cannot be told that the daemon is ready, the run
/// ends at once, with that failure as its only error.
pub proof fn lemma_ready_failure_is_fatal(
    machine: Machine,
    error: std::io::Error,
    now: Timestamp,
    pass: Seq<CompanionError>,
)
    requires
        machine.phase is AnnouncingReady,
    ensures
        run_step(machine, Event::Notified(Err(error)), now, pass).action == ActionView::Exit(
            Err(seq![CompanionError::Systemd(error)]),
        ),
        run_step(machine, Event::Notified(Err(error)), now, pass).machine.phase is Exited,
{
}

/// After start-up, a notification that fails has the effect of one that
/// succeeds: it changes neither what the machine does next nor how the
/// run ends.
pub proof fn lemma_later_notification_failure_changes_nothing(
    machine: Machine,
    error: std::io::Error,
    now: Timestamp,
    pass: Seq<CompanionError>,
)
    requires
        !(machine.phase is AnnouncingReady),
    ensures
        run_step(machine, Event::Notified(Err(error)), now, pass) == run_step(
            machine,
            Event::Notified(Ok(())),
            now,
            pass,
        ),
{
}

/// During the wait a pass is made on one occasion only: the caller was
/// parked and reports that the refresh alarm went off. Neither a heartbeat
/// wake-up nor the look for a termination signal leads to a pass.
pub proof fn lemma_only_refresh_alarm_starts_pass(machine: Machine, event: Event)
    requires
        machine.phase is Waiting,
        makes_pass(machine, event),
    ensures
        event == Event::Woke(Wakeup::Refresh),
        machine.scheduler.state is Blocked,
{
}

/// With a single pass to make, the run ends once the look for a termination
/// signal is done, whatever it finds: with success where the pass had no
/// errors, else with failure and the errors of the pass. The service
/// manager, where there is one, is told before that the daemon stops.
pub proof fn lemma_one_shot_surfaces_errors(
    machine: Machine,
    pending: bool,
    notified: Result<(), std::io::Error>,
    polled_at: Timestamp,
    notified_at: Timestamp,
    pass: Seq<CompanionError>,
)
    requires
        machine.config.refresh_seconds is None,
        machine.phase is Waiting,
        machine.scheduler.state is Checking,
        machine.scheduler.next_refresh is None,
    ensures
        ({
            let left = run_step(machine, Event::Polled(pending), polled_at, pass);
            let ended = if machine.config.systemd {
                run_step(left.machine, Event::Notified(notified), notified_at, pass)
            } else {
                left
            };
            &&& machine.config.systemd ==> left.action == ActionView::Notify(
                notification_fields(Notification::Stopping),
            )
            &&& ended.action == ActionView::Exit(
                if machine.errors.len() == 0 {
                    Ok(())
                } else {
                    Err(machine.errors)
                },
            )
        }),
{
}

/// A daemon with a refresh interval that finds a termination signal
/// pending ends with success, whatever errors its last pass had. The
/// service manager, where there is one, is told before that the daemon
/// stops.
pub proof fn lemma_daemon_stops_with_success(
    machine: Machine,
    notified: Result<(), std::io::Error>,
    polled_at: Timestamp,
    notified_at: Timestamp,
    pass: Seq<CompanionError>,
)
    requires
        machine.config.refresh_seconds is Some,
        machine.phase is Waiting,
        machine.scheduler.state is Checking,
    ensures
        ({
            let left = run_step(machine, Event::Polled(true), polled_at, pass);
            let ended = if machine.config.systemd {
                run_step(left.machine, Event::Notified(notified), notified_at, pass)
            } else {
                left
            };
            &&& machine.config.systemd ==> left.action == ActionView::Notify(
                notification_fields(Notification::Stopping),
            )
            &&& ended.action == ActionView::Exit(Ok(()))
        }),
{
}

/// Every pass is followed by the look for a termination signal before
/// anything else is waited for, and that look is reached without blocking:
/// the step that makes the pass asks for a heartbeat or for the look, the
/// answer to the heartbeat asks for the look.
pub proof fn lemma_pass_leads_to_poll(
    machine: Machine,
    event: Event,
    notified: Result<(), std::io::Error>,
    now: Timestamp,
    notified_at: Timestamp,
    pass: Seq<CompanionError>,
)
    requires
        makes_pass(machine, event),
    ensures
        ({
            let passed = run_step(machine, event, now, pass);
            let checking = if machine.config.systemd {
                run_step(passed.machine, Event::Notified(notified), notified_at, pass)
            } else {
                passed
            };
            &&& passed.machine.errors == pass
            &&& machine.config.systemd ==> passed.action == ActionView::Notify(
                alive_fields("Waiting"@),
            )
            &&& checking.action == ActionView::Poll
            &&& checking.machine.phase is Waiting
            &&& checking.machine.scheduler.state is Checking
            &&& checking.machine.errors == pass
        }),
{
}

} // verus!
