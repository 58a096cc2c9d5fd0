//! The wait between two passes, as a state machine.
//!
//! The machine never blocks. It says what the caller is to do next: look
//! for a pending termination signal, park until one of three things
//! happens, or send a heartbeat. The caller does it and reports back.

use vstd::prelude::*;
use crate::clock::Alarm;
use crate::clock::MICROS_PER_SECOND;
use crate::clock::Timestamp;
use crate::clock::alarm_for;
use crate::clock::clamped_sum;
use crate::clock::deadline_to_alarm_clock;
use crate::common::Config;
use crate::heartbeat::deadline_after_heartbeat;
use crate::heartbeat::next_heartbeat;

verus! {

/// What ended a blocking wait. Where several things were ready at once the
/// caller reports any one of them.
#[derive(Clone, Copy, Debug, PartialEq, Eq, Structural)]
pub enum Wakeup {
    /// A termination signal arrived.
    Termination,
    /// The refresh alarm went off.
    Refresh,
    /// The heartbeat alarm went off.
    Watchdog,
}

/// What the caller reports to the machine.
#[derive(Clone, Copy, Debug, PartialEq, Eq, Structural)]
pub enum WaitEvent {
    /// A pass is over and the wait begins.
    Entered,
    /// The look for a pending termination signal is done; `true` where one
    /// was there.
    Polled(bool),
    /// The blocking wait is over.
    Woke(Wakeup),
    /// The heartbeat was handed to the service manager, successfully or not.
    Notified,
}

/// What the machine asks of the caller.
#[derive(Clone, Copy, Debug, PartialEq, Eq, Structural)]
pub enum WaitAction {
    /// Look, without blocking, whether a termination signal is pending.
    Poll,
    /// Block until a termination signal arrives or one of the alarms goes
    /// off.
    Block { refresh: Alarm, watchdog: Alarm },
    /// Send the heartbeat with the status "Waiting".
    Ping,
    /// The wait is over. `true`: go on with the next pass. `false`: leave
    /// the loop.
    Return(bool),
}

/// Where the machine stands.
#[derive(Clone, Copy, Debug, PartialEq, Eq, Structural)]
pub enum WaitState {
    /// The wait has not begun.
    Idle,
    /// Running: the caller is looking for a pending termination signal.
    Checking,
    /// Running: the caller is parked in the blocking wait.
    Blocked,
    /// Running: the caller is sending a heartbeat.
    Pinging,
    /// Over: control went back to the loop without a termination signal.
    Finished,
    /// Over for good: termination was asked for.
    Stopped,
}

/// The wait after one pass.
#[derive(Clone, Copy, Debug, PartialEq, Eq, Structural)]
pub struct WaitScheduler {
    pub state: WaitState,
    /// When the next pass is due; `None` before the wait has begun and
    /// where there is to be no further pass.
    pub next_refresh: Option<Timestamp>,
}

/// The result of one step of the machine: the scheduler after the step, the
/// heartbeat deadline after the step, and what the caller is to do.
pub struct WaitStep {
    pub scheduler: WaitScheduler,
    pub next_watchdog: Option<Timestamp>,
    pub action: WaitAction,
}

/// When the next pass is due for a wait that begins at `now`.
pub open spec fn refresh_deadline(refresh_seconds: Option<u32>, now: Timestamp) -> Option<
    Timestamp,
> {
    match refresh_seconds {
        Some(seconds) => Some(
            Timestamp { micros: clamped_sum(now.micros as int, seconds * 1_000_000) as i64 },
        ),
        None => None,
    }
}

/// One step of the wait.
///
/// A pending termination signal ends the wait before anything else is
/// looked at. Without a refresh interval the wait then ends at once.
/// Otherwise the caller is parked on the termination signal, the refresh
/// deadline and the heartbeat deadline. A termination signal stops the
/// loop, the refresh deadline starts the next pass, and the heartbeat
/// deadline leads to a heartbeat, after which the wait starts over with the
/// look for a termination signal. An event that does not answer what was
/// asked stops the loop.
pub open spec fn wait_step(
    config: Config,
    scheduler: WaitScheduler,
    next_watchdog: Option<Timestamp>,
    event: WaitEvent,
    now: Timestamp,
) -> WaitStep {
    let next_refresh = scheduler.next_refresh;
    let stop = WaitStep {
        scheduler: WaitScheduler { state: WaitState::Stopped, next_refresh },
        next_watchdog,
        action: WaitAction::Return(false),
    };
    let check = WaitStep {
        scheduler: WaitScheduler { state: WaitState::Checking, next_refresh },
        next_watchdog,
        action: WaitAction::Poll,
    };
    match (scheduler.state, event) {
        (WaitState::Idle, WaitEvent::Entered) => WaitStep {
            scheduler: WaitScheduler {
                state: WaitState::Checking,
                next_refresh: refresh_deadline(config.refresh_seconds, now),
            },
            next_watchdog,
            action: WaitAction::Poll,
        },
        (WaitState::Checking, WaitEvent::Polled(pending)) => if pending {
            stop
        } else if next_refresh is None {
            WaitStep {
                scheduler: WaitScheduler { state: WaitState::Finished, next_refresh },
                next_watchdog,
                action: WaitAction::Return(false),
            }
        } else {
            WaitStep {
                scheduler: WaitScheduler { state: WaitState::Blocked, next_refresh },
                next_watchdog,
                action: WaitAction::Block {
                    refresh: alarm_for(now, next_refresh),
                    watchdog: alarm_for(now, next_watchdog),
                },
            }
        },
        (WaitState::Blocked, WaitEvent::Woke(Wakeup::Termination)) => stop,
        (WaitState::Blocked, WaitEvent::Woke(Wakeup::Refresh)) => WaitStep {
            scheduler: WaitScheduler { state: WaitState::Finished, next_refresh },
            next_watchdog,
            action: WaitAction::Return(true),
        },
        (WaitState::Blocked, WaitEvent::Woke(Wakeup::Watchdog)) => if config.systemd {
            WaitStep {
                scheduler: WaitScheduler { state: WaitState::Pinging, next_refresh },
                next_watchdog: deadline_after_heartbeat(
                    config.watchdog_microseconds,
                    next_watchdog,
                    now,
                ),
                action: WaitAction::Ping,
            }
        } else {
            check
        },
        (WaitState::Pinging, WaitEvent::Notified) => check,
        _ => stop,
    }
}

impl WaitScheduler {
    /// The wait before it begins.
    pub open spec fn idle() -> WaitScheduler {
        WaitScheduler { state: WaitState::Idle, next_refresh: None }
    }

    /// A wait that has not begun.
    pub fn new() -> (scheduler: WaitScheduler)
        ensures
            scheduler == WaitScheduler::idle(),
    {
        WaitScheduler { state: WaitState::Idle, next_refresh: None }
    }

    /// Whether the wait is under way: begun and not yet over.
    pub open spec fn running(self) -> bool {
        self.state is Checking || self.state is Blocked || self.state is Pinging
    }

    /// What holds of every scheduler that the machine itself has produced:
    /// a caller is parked, or sends a heartbeat, only where a next pass is
    /// due, and a wait that has not begun has no deadline yet.
    pub open spec fn valid(self) -> bool {
        &&& self.state is Idle ==> self.next_refresh is None
        &&& (self.state is Blocked || self.state is Pinging) ==> self.next_refresh is Some
    }

    /// Takes one step: `wait_step`, computed.
    pub fn advance(
        self,
        config: &Config,
        next_watchdog: Option<Timestamp>,
        event: WaitEvent,
        now: Timestamp,
    ) -> (step: WaitStep)
        ensures
            step == wait_step(*config, self, next_watchdog, event, now),
    {
        let next_refresh = self.next_refresh;
        match (self.state, event) {
            (WaitState::Idle, WaitEvent::Entered) => {
                let due = match config.refresh_seconds {
                    Some(seconds) => Some(now.plus(seconds as u64 * MICROS_PER_SECOND)),
                    None => None,
                };
                WaitStep {
                    scheduler: WaitScheduler { state: WaitState::Checking, next_refresh: due },
                    next_watchdog,
                    action: WaitAction::Poll,
                }
            },
            (WaitState::Checking, WaitEvent::Polled(false)) => {
                if next_refresh.is_none() {
                    WaitStep {
                        scheduler: WaitScheduler { state: WaitState::Finished, next_refresh },
                        next_watchdog,
                        action: WaitAction::Return(false),
                    }
                } else {
                    let refresh = deadline_to_alarm_clock(now, next_refresh);
                    let watchdog = deadline_to_alarm_clock(now, next_watchdog);
                    WaitStep {
                        scheduler: WaitScheduler { state: WaitState::Blocked, next_refresh },
                        next_watchdog,
                        action: WaitAction::Block { refresh, watchdog },
                    }
                }
            },
            (WaitState::Blocked, WaitEvent::Woke(Wakeup::Refresh)) => WaitStep {
                scheduler: WaitScheduler { state: WaitState::Finished, next_refresh },
                next_watchdog,
                action: WaitAction::Return(true),
            },
            (WaitState::Blocked, WaitEvent::Woke(Wakeup::Watchdog)) => {
                if config.systemd {
                    WaitStep {
                        scheduler: WaitScheduler { state: WaitState::Pinging, next_refresh },
                        next_watchdog: next_heartbeat(
                            config.watchdog_microseconds,
                            next_watchdog,
                            now,
                        ),
                        action: WaitAction::Ping,
                    }
                } else {
                    WaitStep {
                        scheduler: WaitScheduler { state: WaitState::Checking, next_refresh },
                        next_watchdog,
                        action: WaitAction::Poll,
                    }
                }
            },
            (WaitState::Pinging, WaitEvent::Notified) => WaitStep {
                scheduler: WaitScheduler { state: WaitState::Checking, next_refresh },
                next_watchdog,
                action: WaitAction::Poll,
            },
            _ => WaitStep {
                scheduler: WaitScheduler { state: WaitState::Stopped, next_refresh },
                next_watchdog,
                action: WaitAction::Return(false),
            },
        }
    }
}

/// The machine keeps its schedulers valid, whatever it is told, and keeps
/// a heartbeat deadline exactly where there is a watchdog.
pub proof fn lemma_step_keeps_valid(
    config: Config,
    scheduler: WaitScheduler,
    next_watchdog: Option<Timestamp>,
    event: WaitEvent,
    now: Timestamp,
)
    requires
        scheduler.valid(),
    ensures
        wait_step(config, scheduler, next_watchdog, event, now).scheduler.valid(),
        (next_watchdog is Some <==> config.watchdog_microseconds is Some) ==> (wait_step(
            config,
            scheduler,
            next_watchdog,
            event,
            now,
        ).next_watchdog is Some <==> config.watchdog_microseconds is Some),
{
}

/// Without a refresh interval the wait is over as soon as the look for a
/// termination signal is done, whatever that look finds: the loop is left,
/// and the caller is never asked to block.
pub proof fn lemma_one_shot_never_blocks(
    config: Config,
    next_watchdog: Option<Timestamp>,
    entered_at: Timestamp,
    pending: bool,
    polled_at: Timestamp,
)
    requires
        config.refresh_seconds is None,
    ensures
        ({
            let entered = wait_step(
                config,
                WaitScheduler::idle(),
                next_watchdog,
                WaitEvent::Entered,
                entered_at,
            );
            let polled = wait_step(
                config,
                entered.scheduler,
                entered.next_watchdog,
                WaitEvent::Polled(pending),
                polled_at,
            );
            &&& entered.action == WaitAction::Poll
            &&& polled.action == WaitAction::Return(false)
            &&& !polled.scheduler.running()
        }),
{
}

/// A termination signal that is pending when the wait begins ends the loop,
/// also where the refresh deadline has passed already.
pub proof fn lemma_pending_termination_wins(
    config: Config,
    next_watchdog: Option<Timestamp>,
    entered_at: Timestamp,
    polled_at: Timestamp,
)
    ensures
        ({
            let entered = wait_step(
                config,
                WaitScheduler::idle(),
                next_watchdog,
                WaitEvent::Entered,
                entered_at,
            );
            let polled = wait_step(
                config,
                entered.scheduler,
                entered.next_watchdog,
                WaitEvent::Polled(true),
                polled_at,
            );
            &&& entered.action == WaitAction::Poll
            &&& polled.action == WaitAction::Return(false)
            &&& polled.scheduler.state == WaitState::Stopped
        }),
{
}

/// Whenever the machine looks for a termination signal and one is pending,
/// the loop ends: no deadline, however ready, comes before it.
pub proof fn lemma_termination_before_deadlines(
    config: Config,
    scheduler: WaitScheduler,
    next_watchdog: Option<Timestamp>,
    now: Timestamp,
)
    requires
        scheduler.state is Checking,
    ensures
        wait_step(config, scheduler, next_watchdog, WaitEvent::Polled(true), now).action
            == WaitAction::Return(false),
        wait_step(config, scheduler, next_watchdog, WaitEvent::Polled(true), now).scheduler.state
            == WaitState::Stopped,
{
}

/// Waking up for the heartbeat alone never starts a pass. The wait stays
/// under way with the refresh deadline it had; once the heartbeat is out
/// the machine looks for a termination signal, and where none is pending
/// the caller is parked again on that same deadline.
pub proof fn lemma_heartbeat_waits_again(
    config: Config,
    scheduler: WaitScheduler,
    next_watchdog: Option<Timestamp>,
    woke_at: Timestamp,
    notified_at: Timestamp,
    polled_at: Timestamp,
)
    requires
        scheduler.valid(),
        scheduler.state is Blocked,
    ensures
        ({
            let woke = wait_step(
                config,
                scheduler,
                next_watchdog,
                WaitEvent::Woke(Wakeup::Watchdog),
                woke_at,
            );
            let checking = if woke.action is Ping {
                wait_step(
                    config,
                    woke.scheduler,
                    woke.next_watchdog,
                    WaitEvent::Notified,
                    notified_at,
                )
            } else {
                woke
            };
            let parked = wait_step(
                config,
                checking.scheduler,
                checking.next_watchdog,
                WaitEvent::Polled(false),
                polled_at,
            );
            &&& !(woke.action is Return)
            &&& woke.scheduler.running()
            &&& woke.scheduler.next_refresh == scheduler.next_refresh
            &&& checking.action == WaitAction::Poll
            &&& checking.scheduler.state == WaitState::Checking
            &&& parked.scheduler.state == WaitState::Blocked
            &&& parked.scheduler.next_refresh == scheduler.next_refresh
            &&& parked.action == WaitAction::Block {
                refresh: alarm_for(polled_at, scheduler.next_refresh),
                watchdog: alarm_for(polled_at, checking.next_watchdog),
            }
        }),
{
}

/// Only the refresh deadline makes the wait end with "go on": every other
/// way out of the wait leaves the loop.
pub proof fn lemma_only_refresh_continues(
    config: Config,
    scheduler: WaitScheduler,
    next_watchdog: Option<Timestamp>,
    event: WaitEvent,
    now: Timestamp,
)
    ensures
        wait_step(config, scheduler, next_watchdog, event, now).action == WaitAction::Return(true)
            <==> scheduler.state is Blocked && event == WaitEvent::Woke(Wakeup::Refresh),
{
}

} // verus!
