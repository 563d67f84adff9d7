//! The session slot that holds at most one live driver, and the checkout
//! discipline for connections that must be moved into each operation.

use vstd::prelude::*;
use crate::error::{ConnectCause, Error};

verus! {

/// Why a connection attempt failed, as the transport layer reports it.
pub struct ConnectFailure {
    pub cause: ConnectCause,
    pub detail: String,
}

/// Where a protocol client located a failure to connect.
#[derive(Debug, Clone, Copy, PartialEq, Eq, Structural)]
pub enum FailureOrigin {
    /// The transport (socket, name resolution, routing).
    Transport,
    /// The encryption handshake.
    Tls,
    /// The server, which refused the login.
    Server,
    /// Anything else.
    Other,
}

/// The cause reported for each origin of a failure to connect.
pub open spec fn cause_of(origin: FailureOrigin) -> ConnectCause {
    match origin {
        FailureOrigin::Transport => ConnectCause::Network,
        FailureOrigin::Tls => ConnectCause::Encryption,
        FailureOrigin::Server => ConnectCause::Authentication,
        FailureOrigin::Other => ConnectCause::Network,
    }
}

/// Classifies a failure to connect by where the client located it.
pub fn connect_failure(origin: FailureOrigin, detail: String) -> (r: ConnectFailure)
    ensures
        r.cause == cause_of(origin),
        r.detail == detail,
{
    let cause = match origin {
        FailureOrigin::Transport => ConnectCause::Network,
        FailureOrigin::Tls => ConnectCause::Encryption,
        FailureOrigin::Server => ConnectCause::Authentication,
        FailureOrigin::Other => ConnectCause::Network,
    };
    ConnectFailure { cause, detail }
}

/// The single live driver of a session, if any.
///
/// A caller holds the session exclusively (behind a lock) for the whole of
/// one operation, so no two operations ever run on the same driver at once.
pub struct Session<D> {
    pub active: Option<D>,
}

impl<D> Session<D> {
    /// A session with no connection.
    pub fn new() -> (r: Session<D>)
        ensures
            r.active is None,
    {
        Session { active: None }
    }

    /// Whether a driver is live.
    pub fn is_connected(&self) -> (r: bool)
        ensures
            r == self.active is Some,
    {
        self.active.is_some()
    }

    /// Records the outcome of a connection attempt. A new driver replaces the
    /// previous one (which is dropped, closing its transport); a failure
    /// leaves the session exactly as it was and is reported as a connect failure.
    pub fn install(&mut self, outcome: Result<D, ConnectFailure>) -> (r: Result<(), Error>)
        ensures
            outcome is Ok ==> r is Ok && final(self).active == Some(outcome->Ok_0),
            outcome is Err ==> *final(self) == *old(self) && r is Err
                && r->Err_0 == Error::ConnectFailure(outcome->Err_0.cause, outcome->Err_0.detail),
    {
        match outcome {
            Ok(d) => {
                self.active = Some(d);
                Ok(())
            },
            Err(f) => Err(Error::ConnectFailure(f.cause, f.detail)),
        }
    }

    /// The live driver, for one operation; `NotConnected` when there is none.
    pub fn driver(&mut self) -> (r: Result<&mut D, Error>)
        ensures
            old(self).active is None ==> r is Err && r->Err_0 is NotConnected && final(self).active is None,
            old(self).active is Some ==> r is Ok && *r->Ok_0 == old(self).active->Some_0
                && final(self).active == Some(*final(r->Ok_0)),
    {
        match &mut self.active {
            Some(d) => Ok(d),
            None => Err(Error::NotConnected),
        }
    }
}


/// Where the connection of a checkout slot is.
#[derive(Debug, Clone, Copy, PartialEq, Eq, Structural)]
pub enum SlotState {
    /// The connection is in the slot, ready for the next operation.
    Idle,
    /// An operation holds the connection.
    InUse,
    /// An operation failed and did not hand the connection back.
    Closed,
}

/// A connection that each operation takes by value and hands back.
pub struct ConnSlot<H> {
    conn: Option<H>,
    state: SlotState,
}

impl<H> ConnSlot<H> {
    /// The connection sits in the slot exactly when the slot is idle.
    pub closed spec fn wf(&self) -> bool {
        (self.state == SlotState::Idle) == (self.conn is Some)
    }

    pub closed spec fn state_of(&self) -> SlotState {
        self.state
    }

    /// The idle connection.
    pub closed spec fn held(&self) -> H {
        self.conn->Some_0
    }

    /// A slot holding a fresh connection.
    pub fn new(conn: H) -> (r: ConnSlot<H>)
        ensures
            r.wf(),
            r.state_of() == SlotState::Idle,
            r.held() == conn,
    {
        ConnSlot { conn: Some(conn), state: SlotState::Idle }
    }

    /// Where the connection is.
    pub fn state(&self) -> (r: SlotState)
        ensures
            r == self.state_of(),
    {
        self.state
    }

    /// Takes the connection for one operation. Without an idle connection the
    /// slot stays as it is and the operation gets `NotConnected`.
    pub fn check_out(&mut self) -> (r: Result<H, Error>)
        requires
            old(self).wf(),
        ensures
            final(self).wf(),
            old(self).state_of() == SlotState::Idle ==> r is Ok && r->Ok_0 == old(self).held()
                && final(self).state_of() == SlotState::InUse,
            old(self).state_of() != SlotState::Idle ==> r is Err && r->Err_0 is NotConnected
                && final(self).state_of() == old(self).state_of(),
    {
        if self.state != SlotState::Idle {
            return Err(Error::NotConnected);
        }
        let h = self.conn.take().unwrap();
        self.state = SlotState::InUse;
        Ok(h)
    }

    /// Ends an operation: on success the connection it hands back becomes idle
    /// and its result is returned; on failure the slot is closed and the error
    /// is returned.
    pub fn check_in<T>(&mut self, outcome: Result<(H, T), Error>) -> (r: Result<T, Error>)
        requires
            old(self).wf(),
            old(self).state_of() == SlotState::InUse,
        ensures
            final(self).wf(),
            outcome is Ok ==> final(self).state_of() == SlotState::Idle && final(self).held()
                == outcome->Ok_0.0 && r == Ok::<T, Error>(outcome->Ok_0.1),
            outcome is Err ==> final(self).state_of() == SlotState::Closed && r == Err::<T, Error>(
                outcome->Err_0,
            ),
    {
        match outcome {
            Ok((h, t)) => {
                self.conn = Some(h);
                self.state = SlotState::Idle;
                Ok(t)
            },
            Err(e) => {
                self.state = SlotState::Closed;
                Err(e)
            },
        }
    }
}

} // verus!
