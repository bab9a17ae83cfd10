use vstd::prelude::*;
use crate::service::Service;

verus! {

/// Milliseconds that a range scan waits for each connection.
pub const SCAN_CONNECT_TIMEOUT_MS: u64 = 100;

/// Number of distinct TCP ports.
pub const PORT_SPACE: usize = 65536;

/// What probing one port found.
#[derive(Clone, Debug, PartialEq, Eq)]
pub enum ProbeOutcome {
    /// The connection succeeded; `service` is what fingerprinting found, if it ran.
    Open { service: Option<Service> },
    /// The connection was refused or timed out.
    Closed,
    /// The address could not be resolved; the text says why.
    ResolutionFailed(String),
}

/// The outcome of probing one port.
#[derive(Clone, Debug, PartialEq, Eq)]
pub struct PortReport {
    pub port: u16,
    pub outcome: ProbeOutcome,
}

/// A port that a scan found open, with the service found on it.
#[derive(Clone, Copy, Debug, PartialEq, Eq, Structural)]
pub struct OpenPort {
    pub port: u16,
    pub service: Option<Service>,
}

/// The service of the first report that finds `port` open, if any does.
pub open spec fn first_open(reports: Seq<PortReport>, port: u16) -> Option<Option<Service>>
    decreases reports.len(),
{
    if reports.len() == 0 {
        None
    } else {
        let earlier = first_open(reports.drop_last(), port);
        if earlier is Some {
            earlier
        } else if reports.last().port == port {
            match reports.last().outcome {
                ProbeOutcome::Open { service } => Some(service),
                _ => None,
            }
        } else {
            None
        }
    }
}

/// The open ports below `n`, ascending, each with the service of its first
/// open report.
pub open spec fn open_below(reports: Seq<PortReport>, n: nat) -> Seq<OpenPort>
    decreases n,
{
    if n == 0 {
        seq![]
    } else {
        let before = open_below(reports, (n - 1) as nat);
        match first_open(reports, (n - 1) as u16) {
            Some(s) => before.push(OpenPort { port: (n - 1) as u16, service: s }),
            None => before,
        }
    }
}

/// The result of a scan: every port that some report finds open, ascending.
pub open spec fn open_ports(reports: Seq<PortReport>) -> Seq<OpenPort> {
    open_below(reports, PORT_SPACE as nat)
}

/// Gathers the reports of a scan, whatever order they came in, into the
/// open ports, ascending and each once.
pub fn collect_open(reports: &Vec<PortReport>) -> (r: Vec<OpenPort>)
    ensures
        r@ == open_ports(reports@),
{
    let mut table: Vec<Option<Option<Service>>> = Vec::new();
    let mut p: usize = 0;
    while p < PORT_SPACE
        invariant
            p <= PORT_SPACE,
            table@.len() == p,
            forall|q: int| 0 <= q < p ==> #[trigger] table@[q] == None::<Option<Service>>,
        decreases PORT_SPACE - p,
    {
        table.push(None);
        p = p + 1;
    }
    assert forall|q: int| 0 <= q < PORT_SPACE implies #[trigger] table@[q] == first_open(
        reports@.subrange(0, 0),
        q as u16,
    ) by {}
    let mut i: usize = 0;
    while i < reports.len()
        invariant
            i <= reports@.len(),
            table@.len() == PORT_SPACE,
            forall|q: int|
                0 <= q < PORT_SPACE ==> #[trigger] table@[q] == first_open(
                    reports@.subrange(0, i as int),
                    q as u16,
                ),
        decreases reports.len() - i,
    {
        let ghost prefix = reports@.subrange(0, i as int);
        let ghost next = reports@.subrange(0, i + 1);
        assert(next.drop_last() =~= prefix);
        let port = reports[i].port;
        match reports[i].outcome {
            ProbeOutcome::Open { service } => {
                if table[port as usize].is_none() {
                    table.set(port as usize, Some(service));
                }
            },
            _ => {},
        }
        assert forall|q: int| 0 <= q < PORT_SPACE implies #[trigger] table@[q] == first_open(
            next,
            q as u16,
        ) by {
            assert((q as u16) as int == q);
        }
        i = i + 1;
    }
    assert(reports@.subrange(0, reports@.len() as int) =~= reports@);
    let mut r: Vec<OpenPort> = Vec::new();
    let mut n: usize = 0;
    while n < PORT_SPACE
        invariant
            n <= PORT_SPACE,
            table@.len() == PORT_SPACE,
            forall|q: int|
                0 <= q < PORT_SPACE ==> #[trigger] table@[q] == first_open(reports@, q as u16),
            r@ == open_below(reports@, n as nat),
        decreases PORT_SPACE - n,
    {
        match table[n] {
            Some(s) => r.push(OpenPort { port: n as u16, service: s }),
            None => {},
        }
        n = n + 1;
    }
    r
}

proof fn lemma_first_open_has_report(reports: Seq<PortReport>, port: u16)
    ensures
        first_open(reports, port) is Some <==> exists|i: int|
            0 <= i < reports.len() && #[trigger] reports[i].port == port
                && reports[i].outcome is Open,
        first_open(reports, port) is Some ==> exists|i: int|
            0 <= i < reports.len() && #[trigger] reports[i].port == port
                && reports[i].outcome == (ProbeOutcome::Open {
                service: first_open(reports, port)->Some_0,
            }),
    decreases reports.len(),
{
    if reports.len() > 0 {
        let rest = reports.drop_last();
        lemma_first_open_has_report(rest, port);
        let last = reports.len() - 1;
        if first_open(rest, port) is Some {
            let i = choose|i: int|
                0 <= i < rest.len() && #[trigger] rest[i].port == port
                    && rest[i].outcome == (ProbeOutcome::Open {
                    service: first_open(rest, port)->Some_0,
                });
            assert(reports[i] == rest[i]);
        }
        if exists|i: int|
            0 <= i < reports.len() && #[trigger] reports[i].port == port
                && reports[i].outcome is Open {
            let i = choose|i: int|
                0 <= i < reports.len() && #[trigger] reports[i].port == port
                    && reports[i].outcome is Open;
            if i < last {
                assert(rest[i] == reports[i]);
            }
        }
        if first_open(rest, port) is None && first_open(reports, port) is Some {
            assert(reports[last].port == port);
        }
    }
}

proof fn lemma_open_below(reports: Seq<PortReport>, n: nat)
    requires
        n <= PORT_SPACE,
    ensures
        forall|k: int|
            0 <= k < open_below(reports, n).len() ==> (#[trigger] open_below(reports, n)[k]).port
                < n && first_open(reports, open_below(reports, n)[k].port) == Some(
                open_below(reports, n)[k].service,
            ),
        forall|k: int, m: int|
            0 <= k < m < open_below(reports, n).len() ==> (#[trigger] open_below(reports, n)[k]).port
                < (#[trigger] open_below(reports, n)[m]).port,
        forall|q: u16|
            q < n && (#[trigger] first_open(reports, q)) is Some ==> exists|k: int|
                0 <= k < open_below(reports, n).len() && (#[trigger] open_below(reports, n)[k]).port
                    == q,
    decreases n,
{
    if n > 0 {
        lemma_open_below(reports, (n - 1) as nat);
        let before = open_below(reports, (n - 1) as nat);
        let now = open_below(reports, n);
        assert forall|q: u16| q < n && (#[trigger] first_open(reports, q)) is Some implies exists|
            k: int,
        | 0 <= k < now.len() && (#[trigger] now[k]).port == q by {
            if q < n - 1 {
                let k = choose|k: int| 0 <= k < before.len() && (#[trigger] before[k]).port == q;
                assert(now[k] == before[k]);
            } else {
                assert(now[before.len() as int].port == q);
            }
        }
    }
}

/// A scan lists a port only where a connection to it succeeded: each listed
/// port has a report that finds it open, with the service listed; the list
/// ascends strictly; and every port that a report finds open is listed.
pub proof fn lemma_scan_lists_only_open_ports(reports: Seq<PortReport>)
    ensures
        forall|k: int|
            0 <= k < open_ports(reports).len() ==> exists|i: int|
                0 <= i < reports.len() && #[trigger] reports[i].port == (#[trigger] open_ports(
                    reports,
                )[k]).port && reports[i].outcome == (ProbeOutcome::Open {
                    service: open_ports(reports)[k].service,
                }),
        forall|k: int, m: int|
            0 <= k < m < open_ports(reports).len() ==> (#[trigger] open_ports(reports)[k]).port
                < (#[trigger] open_ports(reports)[m]).port,
        forall|i: int|
            0 <= i < reports.len() && (#[trigger] reports[i]).outcome is Open ==> exists|k: int|
                0 <= k < open_ports(reports).len() && (#[trigger] open_ports(reports)[k]).port
                    == reports[i].port,
{
    let listed = open_ports(reports);
    lemma_open_below(reports, PORT_SPACE as nat);
    assert forall|k: int| 0 <= k < listed.len() implies exists|i: int|
        0 <= i < reports.len() && #[trigger] reports[i].port == (#[trigger] listed[k]).port
            && reports[i].outcome == (ProbeOutcome::Open { service: listed[k].service }) by {
        lemma_first_open_has_report(reports, listed[k].port);
    }
    assert forall|i: int| 0 <= i < reports.len() && (#[trigger] reports[i]).outcome is Open implies exists|
        k: int,
    | 0 <= k < listed.len() && (#[trigger] listed[k]).port == reports[i].port by {
        lemma_first_open_has_report(reports, reports[i].port);
        assert(first_open(reports, reports[i].port) is Some);
    }
}

} // verus!
