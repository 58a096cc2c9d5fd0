//! The run context: configuration, the two backends, and the heartbeat
//! deadline.

use vstd::prelude::*;
use std::sync::Arc;
use crate::clock::Timestamp;
use crate::clock::now;
use crate::common::Config;
use crate::error::CompanionError;
use crate::heartbeat::Notification;
use crate::heartbeat::alive_fields;
use crate::heartbeat::deadline_after_status;
use crate::heartbeat::next_heartbeat;
use crate::inspector::Inspect;
use crate::inspector::Inspection;
use crate::inspector::InspectionError;
use crate::inspector::enumerate_answers;
use crate::inspector::inspect_answers;
use crate::merge::enumeration_error;
use crate::merge::found_names;
use crate::merge::is_merge;
use crate::merge::merge_enumeration;
use crate::merge::names;
use crate::pending::Pending;
use crate::publisher::Publication;
use crate::publisher::Publish;
use crate::publisher::PublishingError;
use crate::publisher::publish_answers;
use crate::wait::WaitAction;
use crate::wait::WaitEvent;
use crate::wait::WaitScheduler;
use crate::wait::wait_step;

verus! {

/// What one run of the daemon owns from start to end.
pub struct Context<I: Inspect, P: Publish> {
    pub(crate) config: Arc<Config>,
    pub(crate) inspector: I,
    pub(crate) publisher: P,
    /// When the next heartbeat is due, where the service manager runs a
    /// watchdog; without one the field has no meaning.
    pub(crate) heartbeat_due: Timestamp,
}

/// The answer of the inspection backend, with the mark of the request on
/// it: an inspection that is marked as the request was, or the backend's
/// failure as an error of the companion.
pub open spec fn marked(explicit: bool, answer: Result<Inspection, InspectionError>) -> Result<
    Pending<Inspection>,
    CompanionError,
> {
    match answer {
        Ok(todo) => Ok(Pending { explicit, todo }),
        Err(error) => Err(CompanionError::Inspection(error)),
    }
}

/// `enumeration` is what becomes of enumeration under `config`: nothing
/// (`None`) where it is switched off, else an answer of the backend to the
/// question for the running containers, asked through the call `asked`.
pub open spec fn enumerated<I: Inspect>(
    config: Config,
    asked: &mut I,
    enumeration: Option<Result<Vec<String>, InspectionError>>,
) -> bool {
    match enumeration {
        Some(answer) => config.enumerate && enumerate_answers(asked, answer),
        None => !config.enumerate,
    }
}

impl<I: Inspect, P: Publish> Context<I, P> {
    /// The configuration of this run.
    pub closed spec fn spec_config(self) -> Config {
        *self.config
    }

    /// The inspection backend.
    pub closed spec fn spec_inspector(self) -> I {
        self.inspector
    }

    /// The publishing backend.
    pub closed spec fn spec_publisher(self) -> P {
        self.publisher
    }

    /// When the next heartbeat is due; `None` without a watchdog.
    pub closed spec fn spec_next_watchdog(self) -> Option<Timestamp> {
        match self.config.watchdog_microseconds {
            Some(_) => Some(self.heartbeat_due),
            None => None,
        }
    }

    /// There is a heartbeat deadline exactly where the service manager runs
    /// a watchdog.
    pub proof fn lemma_deadline_iff_watchdog(self)
        ensures
            self.spec_next_watchdog() is Some <==> self.spec_config().watchdog_microseconds
                is Some,
    {
    }

    /// A context whose first heartbeat is due at `now`.
    pub fn new_at(config: Arc<Config>, inspector: I, publisher: P, now: Timestamp) -> (ctx: Self)
        ensures
            ctx.spec_config() == *config,
            ctx.spec_inspector() == inspector,
            ctx.spec_publisher() == publisher,
            ctx.spec_next_watchdog() == match config.watchdog_microseconds {
                Some(_) => Some(now),
                None => None,
            },
    {
        Context { config, inspector, publisher, heartbeat_due: now }
    }

    /// A context whose first heartbeat is due at the time of the call.
    pub fn new(config: Arc<Config>, inspector: I, publisher: P) -> (ctx: Self)
        ensures
            ctx.spec_config() == *config,
            ctx.spec_inspector() == inspector,
            ctx.spec_publisher() == publisher,
            ctx.spec_next_watchdog() is Some <==> config.watchdog_microseconds is Some,
    {
        Self::new_at(config, inspector, publisher, now())
    }

    /// The configuration of this run.
    pub fn config(&self) -> (config: &Config)
        ensures
            *config == self.spec_config(),
    {
        &self.config
    }

    /// The inspection backend.
    pub fn inspector(&self) -> (inspector: &I)
        ensures
            *inspector == self.spec_inspector(),
    {
        &self.inspector
    }

    /// The publishing backend.
    pub fn publisher(&self) -> (publisher: &P)
        ensures
            *publisher == self.spec_publisher(),
    {
        &self.publisher
    }

    /// When the next heartbeat is due; `None` without a watchdog.
    pub fn next_watchdog(&self) -> (deadline: Option<Timestamp>)
        ensures
            deadline == self.spec_next_watchdog(),
            deadline is Some <==> self.spec_config().watchdog_microseconds is Some,
    {
        match self.config.watchdog_microseconds {
            Some(_) => Some(self.heartbeat_due),
            None => None,
        }
    }

    /// Takes over a new heartbeat deadline.
    fn keep_deadline(&mut self, deadline: Option<Timestamp>)
        requires
            deadline is Some <==> old(self).spec_config().watchdog_microseconds is Some,
        ensures
            old(self).same_but_deadline(*final(self)),
            final(self).spec_next_watchdog() == deadline,
    {
        if let Some(due) = deadline {
            self.heartbeat_due = due;
        }
    }

    /// Whether `after` differs from `self` at most in its inspection
    /// backend.
    pub open spec fn same_but_inspector(self, after: Self) -> bool {
        &&& after.spec_config() == self.spec_config()
        &&& after.spec_publisher() == self.spec_publisher()
        &&& after.spec_next_watchdog() == self.spec_next_watchdog()
    }

    /// Whether `after` differs from `self` at most in its publishing
    /// backend.
    pub open spec fn same_but_publisher(self, after: Self) -> bool {
        &&& after.spec_config() == self.spec_config()
        &&& after.spec_inspector() == self.spec_inspector()
        &&& after.spec_next_watchdog() == self.spec_next_watchdog()
    }

    /// Whether `after` differs from `self` at most in its heartbeat
    /// deadline.
    pub open spec fn same_but_deadline(self, after: Self) -> bool {
        &&& after.spec_config() == self.spec_config()
        &&& after.spec_inspector() == self.spec_inspector()
        &&& after.spec_publisher() == self.spec_publisher()
    }

    /// Asks the inspection backend about one container: about the one that
    /// is named, once. The mark of the request stays on the answer; a
    /// failure comes back as an inspection error.
    pub fn inspect(&mut self, container_name: Pending<String>) -> (result: Result<
        Pending<Inspection>,
        CompanionError,
    >)
        ensures
            old(self).same_but_inspector(*final(self)),
            exists|asked: &mut I, asked_name: &str, answer: Result<Inspection, InspectionError>|
                {
                    &&& #[trigger] call_ensures(I::inspect, (asked, asked_name), answer)
                    &&& asked_name@ == container_name.todo@
                    &&& mut_ref_current(asked) == old(self).spec_inspector()
                    &&& mut_ref_future(asked) == final(self).spec_inspector()
                    &&& result == marked(container_name.explicit, answer)
                },
    {
        let explicit = container_name.explicit;
        let answer = self.inspector.inspect(container_name.todo.as_str());
        match answer {
            Ok(todo) => Ok(Pending { explicit, todo }),
            Err(error) => Err(CompanionError::Inspection(error)),
        }
    }

    /// Hands one publication to the publishing backend: the one that is
    /// given, once. A failure comes back as a publishing error.
    pub fn publish(&mut self, publication: &Publication) -> (result: Result<(), CompanionError>)
        ensures
            old(self).same_but_publisher(*final(self)),
            exists|handed: &mut P, answer: Result<(), PublishingError>|
                {
                    &&& #[trigger] call_ensures(P::publish, (handed, publication), answer)
                    &&& mut_ref_current(handed) == old(self).spec_publisher()
                    &&& mut_ref_future(handed) == final(self).spec_publisher()
                    &&& result == match answer {
                        Ok(_) => Ok::<(), CompanionError>(()),
                        Err(error) => Err(CompanionError::Publishing(error)),
                    }
                },
    {
        let answer = self.publisher.publish(publication);
        match answer {
            Ok(()) => Ok(()),
            Err(error) => Err(CompanionError::Publishing(error)),
        }
    }

    /// The containers of the coming pass: a merge of the explicit names with
    /// what the inspection backend lists when it is asked. Where the
    /// backend fails, its error is returned next to the explicit names,
    /// which are all there. Without enumeration the backend is not asked
    /// and nothing is added to the explicit names.
    pub fn enumerate(&mut self, explicit_container_names: &Vec<String>) -> (out: (
        Vec<Pending<String>>,
        Result<(), CompanionError>,
    ))
        ensures
            old(self).same_but_inspector(*final(self)),
            !old(self).spec_config().enumerate ==> {
                &&& final(self).spec_inspector() == old(self).spec_inspector()
                &&& is_merge(names(explicit_container_names@), Seq::empty(), out.0@)
                &&& out.1 is Ok
            },
            old(self).spec_config().enumerate ==> exists|
                asked: &mut I,
                answer: Result<Vec<String>, InspectionError>,
            |
                {
                    &&& #[trigger] call_ensures(I::enumerate, (asked,), answer)
                    &&& mut_ref_current(asked) == old(self).spec_inspector()
                    &&& mut_ref_future(asked) == final(self).spec_inspector()
                    &&& is_merge(
                        names(explicit_container_names@),
                        found_names(Some(answer)),
                        out.0@,
                    )
                    &&& out.1 == enumeration_error(Some(answer))
                },
    {
        let enumeration = if self.config.enumerate {
            Some(self.inspector.enumerate())
        } else {
            None
        };
        merge_enumeration(explicit_container_names, enumeration)
    }

    /// What is to be told the service manager about the status `status`,
    /// the time being `now`: nothing where the service manager is not used,
    /// else a heartbeat with that status line. With a heartbeat to send, and
    /// a watchdog to satisfy, the next heartbeat becomes due 45 percent of
    /// the watchdog interval after `now`.
    pub fn notify_status_at(&mut self, status: &str, now: Timestamp) -> (notification: Option<
        Notification,
    >)
        ensures
            old(self).same_but_deadline(*final(self)),
            notification is Some <==> old(self).spec_config().systemd,
            notification matches Some(heartbeat) ==> heartbeat@ == alive_fields(status@),
            final(self).spec_next_watchdog() == deadline_after_status(
                old(self).spec_config().systemd,
                old(self).spec_config().watchdog_microseconds,
                old(self).spec_next_watchdog(),
                now,
            ),
    {
        if self.config.systemd {
            let due = next_heartbeat(self.config.watchdog_microseconds, self.next_watchdog(), now);
            self.keep_deadline(due);
            Some(Notification::Alive(status.to_owned()))
        } else {
            None
        }
    }

    /// `notify_status_at` at the time of the call. The clock is read before
    /// anything is handed out, so that the new deadline errs on the early
    /// side however long the service manager takes.
    pub fn notify_status(&mut self, status: &str) -> (notification: Option<Notification>)
        ensures
            old(self).same_but_deadline(*final(self)),
            notification is Some <==> old(self).spec_config().systemd,
            notification matches Some(heartbeat) ==> heartbeat@ == alive_fields(status@),
            exists|now: Timestamp|
                final(self).spec_next_watchdog() == #[trigger] deadline_after_status(
                    old(self).spec_config().systemd,
                    old(self).spec_config().watchdog_microseconds,
                    old(self).spec_next_watchdog(),
                    now,
                ),
    {
        let now = now();
        self.notify_status_at(status, now)
    }

    /// One step of the wait between two passes, the time being `now`: the
    /// step that `wait_step` describes, taken on `scheduler` and on this
    /// context's heartbeat deadline.
    pub fn wait_at(&mut self, scheduler: &mut WaitScheduler, event: WaitEvent, now: Timestamp) -> (action:
        WaitAction)
        ensures
            old(self).same_but_deadline(*final(self)),
            ({
                let step = wait_step(
                    old(self).spec_config(),
                    *old(scheduler),
                    old(self).spec_next_watchdog(),
                    event,
                    now,
                );
                &&& *final(scheduler) == step.scheduler
                &&& final(self).spec_next_watchdog() == step.next_watchdog
                &&& action == step.action
            }),
    {
        let step = scheduler.advance(&self.config, self.next_watchdog(), event, now);
        *scheduler = step.scheduler;
        self.keep_deadline(step.next_watchdog);
        step.action
    }

    /// One step of the wait between two passes, at the time of the call.
    /// Begin with a fresh scheduler and `WaitEvent::Entered`, do what the
    /// returned action says, and come back with the event that tells how
    /// it went, until the action is `WaitAction::Return`.
    pub fn wait(&mut self, scheduler: &mut WaitScheduler, event: WaitEvent) -> (action: WaitAction)
        ensures
            old(self).same_but_deadline(*final(self)),
            exists|now: Timestamp|
                {
                    let step = #[trigger] wait_step(
                        old(self).spec_config(),
                        *old(scheduler),
                        old(self).spec_next_watchdog(),
                        event,
                        now,
                    );
                    &&& *final(scheduler) == step.scheduler
                    &&& final(self).spec_next_watchdog() == step.next_watchdog
                    &&& action == step.action
                },
    {
        let now = now();
        self.wait_at(scheduler, event, now)
    }
}

} // verus!
