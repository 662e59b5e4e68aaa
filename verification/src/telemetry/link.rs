//! Connection bookkeeping of the LMU reader: which state changes to report.
//!
//! The reader opens the shared memory, polls it and reconnects on its own;
//! this state machine decides which transitions are announced, so that each
//! change is reported once and the "waiting" notice is not repeated while the
//! game stays unavailable.

use vstd::prelude::*;

verus! {

/// A change of the telemetry connection.
#[derive(Debug, Clone, Copy, PartialEq, Eq, Structural)]
pub enum ConnectionChange {
    Active,
    Disconnected,
}

/// A change of the player's vehicle.
#[derive(Debug, Clone, Copy, PartialEq, Eq, Structural)]
pub enum VehicleChange {
    Acquired,
    Released,
}

/// The changes one telemetry sample reveals.
#[derive(Debug, Clone, Copy, PartialEq, Eq, Structural)]
pub struct LinkChanges {
    pub connection: Option<ConnectionChange>,
    pub vehicle: Option<VehicleChange>,
}

/// What the reader last reported.
#[derive(Debug, Clone, Copy, PartialEq, Eq, Structural)]
pub struct LinkStatus {
    pub connected: bool,
    pub player_has_vehicle: bool,
    /// Whether the "waiting for the game" notice has been shown since the last
    /// connection attempt that succeeded or the last lost connection.
    pub waiting_logged: bool,
}

/// Seconds to wait after a failed attempt before opening the shared memory
/// again.
pub const RECONNECT_INTERVAL_SECS: u64 = 2;

/// What the reader does about the shared memory before a poll.
#[derive(Debug, Clone, Copy, PartialEq, Eq, Structural)]
pub enum ConnectAction {
    /// A connection is open: use it.
    UseOpen,
    /// No connection and the retry time has come: try to open it.
    Attempt,
    /// No connection and the retry time has not come: report no telemetry.
    Wait,
}

/// The reconnect decision: attempt exactly when no connection is open and the
/// retry time has come.
pub fn connect_action(has_connection: bool, retry_due: bool) -> (a: ConnectAction)
    ensures
        has_connection ==> a == ConnectAction::UseOpen,
        !has_connection && retry_due ==> a == ConnectAction::Attempt,
        !has_connection && !retry_due ==> a == ConnectAction::Wait,
{
    if has_connection {
        ConnectAction::UseOpen
    } else if retry_due {
        ConnectAction::Attempt
    } else {
        ConnectAction::Wait
    }
}

/// The change from `before` to `after` of the connection flag.
pub open spec fn connection_change(before: bool, after: bool) -> Option<ConnectionChange> {
    if before == after {
        None
    } else if after {
        Some(ConnectionChange::Active)
    } else {
        Some(ConnectionChange::Disconnected)
    }
}

/// The change from `before` to `after` of the vehicle flag.
pub open spec fn vehicle_change(before: bool, after: bool) -> Option<VehicleChange> {
    if before == after {
        None
    } else if after {
        Some(VehicleChange::Acquired)
    } else {
        Some(VehicleChange::Released)
    }
}

/// A change is reported once: observing the same sample again reports
/// nothing.
pub proof fn lemma_changes_reported_once(connected: bool, player_has_vehicle: bool)
    ensures
        connection_change(connected, connected) is None,
        vehicle_change(player_has_vehicle, player_has_vehicle) is None,
{
}

impl LinkStatus {
    /// Before the first connection: nothing connected, and the waiting notice
    /// already shown when the reader was created.
    pub fn new() -> (r: Self)
        ensures
            !r.connected,
            !r.player_has_vehicle,
            r.waiting_logged,
    {
        LinkStatus { connected: false, player_has_vehicle: false, waiting_logged: true }
    }

    /// Records a telemetry sample and returns the changes to report.
    pub fn observe(&mut self, connected: bool, player_has_vehicle: bool) -> (r: LinkChanges)
        ensures
            r.connection == connection_change(old(self).connected, connected),
            r.vehicle == vehicle_change(old(self).player_has_vehicle, player_has_vehicle),
            final(self).connected == connected,
            final(self).player_has_vehicle == player_has_vehicle,
            final(self).waiting_logged == old(self).waiting_logged,
    {
        let connection = if connected == self.connected {
            None
        } else if connected {
            Some(ConnectionChange::Active)
        } else {
            Some(ConnectionChange::Disconnected)
        };
        let vehicle = if player_has_vehicle == self.player_has_vehicle {
            None
        } else if player_has_vehicle {
            Some(VehicleChange::Acquired)
        } else {
            Some(VehicleChange::Released)
        };
        self.connected = connected;
        self.player_has_vehicle = player_has_vehicle;
        LinkChanges { connection, vehicle }
    }

    /// The shared memory was opened.
    pub fn connection_opened(&mut self)
        ensures
            !final(self).waiting_logged,
            final(self).connected == old(self).connected,
            final(self).player_has_vehicle == old(self).player_has_vehicle,
    {
        self.waiting_logged = false;
    }

    /// Opening the shared memory failed; returns whether to show the waiting
    /// notice, which is shown once until the next success or loss.
    pub fn connection_failed(&mut self) -> (show_notice: bool)
        ensures
            show_notice == !old(self).waiting_logged,
            final(self).waiting_logged,
            final(self).connected == old(self).connected,
            final(self).player_has_vehicle == old(self).player_has_vehicle,
    {
        let show_notice = !self.waiting_logged;
        self.waiting_logged = true;
        show_notice
    }

    /// The connection was lost: telemetry and vehicle are reported gone, and
    /// the waiting notice may be shown again.
    pub fn connection_lost(&mut self) -> (r: LinkChanges)
        ensures
            r.connection == connection_change(old(self).connected, false),
            r.vehicle == vehicle_change(old(self).player_has_vehicle, false),
            !final(self).connected,
            !final(self).player_has_vehicle,
            !final(self).waiting_logged,
    {
        self.waiting_logged = false;
        self.observe(false, false)
    }
}

} // verus!
