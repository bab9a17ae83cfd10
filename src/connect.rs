use vstd::prelude::*;
use crate::service::Service;

verus! {

/// Seconds that a direct connect waits for each connection unless told otherwise.
pub const DEFAULT_CONNECT_TIMEOUT_SECS: u64 = 5;

/// What a direct connect learned of one connection.
#[derive(Clone, Debug, PartialEq, Eq)]
pub struct ConnectionInfo {
    pub host: String,
    pub port: u16,
    pub timeout_secs: u64,
    /// Socket diagnostics; `None` where the platform does not report them.
    pub recv_buffer_size: Option<u32>,
    pub send_buffer_size: Option<u32>,
    pub keepalive: Option<bool>,
    pub reuse_address: Option<bool>,
    pub remote_ip: String,
    pub remote_port: u16,
    pub service: Option<Service>,
}

/// Why a direct connect stopped; each carries the address tried and the cause.
#[derive(Clone, Debug, PartialEq, Eq)]
pub enum ConnectError {
    /// The address could not be resolved.
    Resolution { address: String, reason: String },
    /// The connection was refused or timed out.
    Unreachable { address: String, reason: String },
}

/// What a direct-connect session asks its driver to do next.
#[derive(Clone, Copy, Debug, PartialEq, Eq, Structural)]
pub enum ConnectStep {
    /// Resolve, connect to and fingerprint this port.
    Attempt(u16),
    /// Nothing more is attempted; take the result with `finish`.
    Finished,
}

/// A direct connect over a list of ports, taken one after another. The first
/// failure ends the session: no later port is attempted.
#[derive(Clone, Debug)]
pub struct ConnectSession {
    pub ports: Vec<u16>,
    /// How many ports have connected so far.
    pub next: usize,
    pub records: Vec<ConnectionInfo>,
    pub failure: Option<ConnectError>,
}

impl ConnectSession {
    pub open spec fn wf(&self) -> bool {
        &&& self.next <= self.ports@.len()
        &&& self.records@.len() == self.next
        &&& self.failure is Some ==> self.next < self.ports@.len()
    }

    pub open spec fn spec_step(&self) -> ConnectStep {
        if self.failure is Some || self.next >= self.ports@.len() {
            ConnectStep::Finished
        } else {
            ConnectStep::Attempt(self.ports@[self.next as int])
        }
    }

    /// A session over `ports`, nothing attempted yet.
    pub fn new(ports: Vec<u16>) -> (r: ConnectSession)
        ensures
            r.wf(),
            r.ports@ == ports@,
            r.next == 0,
            r.records@.len() == 0,
            r.failure is None,
    {
        ConnectSession { ports, next: 0, records: Vec::new(), failure: None }
    }

    /// What to do next.
    pub fn step(&self) -> (r: ConnectStep)
        requires
            self.wf(),
        ensures
            r == self.spec_step(),
    {
        if self.failure.is_some() || self.next >= self.ports.len() {
            ConnectStep::Finished
        } else {
            ConnectStep::Attempt(self.ports[self.next])
        }
    }

    /// Records that the port being attempted connected.
    pub fn connected(&mut self, info: ConnectionInfo)
        requires
            old(self).wf(),
            old(self).spec_step() is Attempt,
        ensures
            final(self).wf(),
            final(self).ports@ == old(self).ports@,
            final(self).next == old(self).next + 1,
            final(self).records@ == old(self).records@.push(info),
            final(self).failure is None,
    {
        assert(self.next < self.ports.len());
        self.records.push(info);
        self.next = self.next + 1;
    }

    /// Records that the port being attempted failed, which ends the session.
    pub fn failed(&mut self, err: ConnectError)
        requires
            old(self).wf(),
            old(self).spec_step() is Attempt,
        ensures
            final(self).wf(),
            final(self).ports@ == old(self).ports@,
            final(self).next == old(self).next,
            final(self).records@ == old(self).records@,
            final(self).failure == Some(err),
            final(self).spec_step() == ConnectStep::Finished,
    {
        self.failure = Some(err);
    }

    /// The records of every connection, or the failure that ended the session.
    pub fn finish(self) -> (r: Result<Vec<ConnectionInfo>, ConnectError>)
        requires
            self.wf(),
            self.spec_step() == ConnectStep::Finished,
        ensures
            match self.failure {
                Some(e) => r == Err::<Vec<ConnectionInfo>, ConnectError>(e),
                None => r is Ok && r->Ok_0@ == self.records@ && self.records@.len()
                    == self.ports@.len(),
            },
    {
        match self.failure {
            Some(e) => Err(e),
            None => Ok(self.records),
        }
    }
}

/// Ports are attempted one at a time, in the order given, and the first
/// failure ends a direct connect: a session asks to attempt a port only while
/// no failure is recorded, and then it is the port after all those that
/// connected; once a failure is recorded it asks for nothing more, and the
/// ports after the failing one are never attempted.
pub proof fn lemma_failure_stops_connect(s: ConnectSession)
    requires
        s.wf(),
    ensures
        s.spec_step() is Attempt <==> (s.failure is None && s.next < s.ports@.len()),
        s.spec_step() is Attempt ==> s.spec_step() == ConnectStep::Attempt(
            s.ports@[s.records@.len() as int],
        ),
        s.failure is Some ==> s.spec_step() == ConnectStep::Finished,
{
}

} // verus!
