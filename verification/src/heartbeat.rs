//! What the service manager is told, and when the next heartbeat is due.

use vstd::prelude::*;
use crate::clock::Timestamp;
use crate::clock::clamped_sum;

verus! {

/// A message for the service manager.
#[derive(Debug)]
pub enum Notification {
    /// Start-up is finished.
    Ready,
    /// A status line for display, together with the sign of life that
    /// resets the watchdog.
    Alive(String),
    /// The daemon is about to stop.
    Stopping,
}

/// The key and value fields that make up a notification.
pub open spec fn notification_fields(notification: Notification) -> Seq<(Seq<char>, Seq<char>)> {
    match notification {
        Notification::Ready => seq![("READY"@, "1"@)],
        Notification::Alive(status) => alive_fields(status@),
        Notification::Stopping => seq![("STATUS"@, "Stopping"@), ("STOPPING"@, "1"@)],
    }
}

impl View for Notification {
    type V = Seq<(Seq<char>, Seq<char>)>;

    /// A notification is what it tells the service manager: its fields.
    open spec fn view(&self) -> Seq<(Seq<char>, Seq<char>)> {
        notification_fields(*self)
    }
}

/// The fields of a heartbeat with the status line `status`.
pub open spec fn alive_fields(status: Seq<char>) -> Seq<(Seq<char>, Seq<char>)> {
    seq![("STATUS"@, status), ("WATCHDOG"@, "1"@)]
}

/// The fields of a list of key and value pairs, as values.
pub open spec fn field_values(fields: Seq<(String, String)>) -> Seq<(Seq<char>, Seq<char>)> {
    fields.map_values(|field: (String, String)| (field.0@, field.1@))
}

impl Notification {
    /// The fields to hand to the service manager, in order.
    pub fn fields(&self) -> (fields: Vec<(String, String)>)
        ensures
            field_values(fields@) == notification_fields(*self),
    {
        let mut fields: Vec<(String, String)> = Vec::new();
        match self {
            Notification::Ready => {
                fields.push(("READY".to_owned(), "1".to_owned()));
            },
            Notification::Alive(status) => {
                fields.push(("STATUS".to_owned(), status.clone()));
                fields.push(("WATCHDOG".to_owned(), "1".to_owned()));
            },
            Notification::Stopping => {
                fields.push(("STATUS".to_owned(), "Stopping".to_owned()));
                fields.push(("STOPPING".to_owned(), "1".to_owned()));
            },
        }
        fields
    }
}

/// The pause between two heartbeats under a watchdog interval of
/// `watchdog` microseconds: 45 percent of it, rounded down.
pub open spec fn heartbeat_delay(watchdog: u64) -> int {
    watchdog * 45 / 100
}

/// Computes `heartbeat_delay`. Two pauses fit into one watchdog interval.
pub fn heartbeat_pause(watchdog: u64) -> (pause: u64)
    ensures
        pause == heartbeat_delay(watchdog),
        2 * pause <= watchdog,
{
    let scaled: u128 = watchdog as u128 * 45;
    (scaled / 100) as u64
}

/// When the next heartbeat is due after one that was sent at `now`.
pub open spec fn heartbeat_deadline(now: Timestamp, watchdog: u64) -> Timestamp {
    Timestamp { micros: clamped_sum(now.micros as int, heartbeat_delay(watchdog)) as i64 }
}

/// The heartbeat deadline once a heartbeat has been sent at `now`: a new
/// one where the service manager runs a watchdog of `watchdog`
/// microseconds, else the one that was there before.
pub open spec fn deadline_after_heartbeat(
    watchdog: Option<u64>,
    before: Option<Timestamp>,
    now: Timestamp,
) -> Option<Timestamp> {
    match watchdog {
        Some(interval) => Some(heartbeat_deadline(now, interval)),
        None => before,
    }
}

/// The heartbeat deadline once the service manager has been told a status
/// at `now`: without a service manager, nothing is told and nothing
/// changes.
pub open spec fn deadline_after_status(
    systemd: bool,
    watchdog: Option<u64>,
    before: Option<Timestamp>,
    now: Timestamp,
) -> Option<Timestamp> {
    if systemd {
        deadline_after_heartbeat(watchdog, before, now)
    } else {
        before
    }
}

/// A heartbeat leaves a deadline exactly where there is a watchdog, and a
/// new deadline never lies before the time at which the heartbeat was sent.
pub proof fn lemma_deadline_follows_heartbeat(
    watchdog: Option<u64>,
    before: Option<Timestamp>,
    now: Timestamp,
)
    requires
        before is Some <==> watchdog is Some,
    ensures
        deadline_after_heartbeat(watchdog, before, now) is Some <==> watchdog is Some,
        watchdog is Some ==> deadline_after_heartbeat(watchdog, before, now)->0.micros
            >= now.micros,
{
}

/// Computes `deadline_after_heartbeat`. A new deadline never lies before
/// `now`.
pub fn next_heartbeat(watchdog: Option<u64>, before: Option<Timestamp>, now: Timestamp) -> (next:
    Option<Timestamp>)
    ensures
        next == deadline_after_heartbeat(watchdog, before, now),
        watchdog is Some ==> next is Some && next->0.micros >= now.micros,
{
    match watchdog {
        Some(interval) => Some(now.plus(heartbeat_pause(interval))),
        None => before,
    }
}

} // verus!
