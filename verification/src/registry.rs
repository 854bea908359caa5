//! The service registry: a short, insertion-ordered list of service
//! records, at most one per port.
//!
//! The registry is seeded at process start with a fixed list of known
//! services, all with status `unknown`. A health probe drives `upsert`,
//! which replaces the record of an already-known port in place and appends
//! a record for a new port. Listing hands out copies, never references
//! into the registry.

use vstd::prelude::*;

use crate::probe::ProbeOutcome;
use crate::probe::spec_probe_success;
use crate::probe::probe_success;
use crate::record::RecordView;
use crate::record::ServiceRecord;
use crate::record::Status;
use crate::record::record_wf;
use crate::url::spec_base_url;

verus! {

/// Whether some record in the sequence carries the given port.
pub open spec fn spec_has_port(s: Seq<RecordView>, port: u16) -> bool {
    exists|i: int| 0 <= i < s.len() && s[i].port == port
}

/// The record that `upsert` builds for a service: the given name and
/// port, the URL derived from the port, and `online` exactly when the
/// probe succeeded, `offline` otherwise.
pub open spec fn spec_upserted(name: Seq<char>, port: u16, outcome: ProbeOutcome) -> RecordView {
    RecordView {
        name: name,
        port: port,
        status: if spec_probe_success(outcome) {
            Status::Online
        } else {
            Status::Offline
        },
        url: spec_base_url(port),
    }
}

/// The authoritative list of known services and their last-observed
/// status, in insertion order, with at most one record per port.
pub struct Registry {
    records: Vec<ServiceRecord>,
}

impl View for Registry {
    type V = Seq<RecordView>;

    closed spec fn view(&self) -> Seq<RecordView> {
        self.records@.map(|i: int, r: ServiceRecord| r@)
    }
}

impl Registry {
    /// The registry invariant: every record is well formed, and no two
    /// records share a port.
    pub open spec fn wf(&self) -> bool {
        &&& forall|i: int| 0 <= i < self@.len() ==> record_wf(#[trigger] self@[i])
        &&& forall|i: int, j: int|
            0 <= i < j < self@.len() ==> #[trigger] self@[i].port != #[trigger] self@[j].port
    }

    /// An empty registry.
    pub fn new() -> (r: Registry)
        ensures
            r.wf(),
            r@ =~= Seq::<RecordView>::empty(),
    {
        Registry { records: Vec::new() }
    }

    /// How many services the registry knows.
    pub fn len(&self) -> (n: usize)
        ensures
            n == self@.len(),
    {
        self.records.len()
    }

    /// A snapshot copy of all known records, in insertion order.
    pub fn list(&self) -> (out: Vec<ServiceRecord>)
        ensures
            out@.len() == self@.len(),
            forall|i: int| 0 <= i < out@.len() ==> (#[trigger] out@[i])@ == self@[i],
    {
        let mut out: Vec<ServiceRecord> = Vec::new();
        let mut i: usize = 0;
        while i < self.records.len()
            invariant
                i <= self.records.len(),
                out@.len() == i,
                forall|j: int| 0 <= j < i ==> (#[trigger] out@[j])@ == self@[j],
            decreases self.records.len() - i,
        {
            out.push(self.records[i].clone());
            i = i + 1;
        }
        out
    }

    /// The position of the record with the given port, if any: the port is
    /// the natural key, so at most one record carries it in a well-formed
    /// registry.
    fn find_index(&self, port: u16) -> (r: Option<usize>)
        ensures
            match r {
                Some(i) => i < self@.len() && self@[i as int].port == port,
                None => !spec_has_port(self@, port),
            },
    {
        let mut i: usize = 0;
        while i < self.records.len()
            invariant
                i <= self.records.len(),
                forall|j: int| 0 <= j < i ==> self@[j].port != port,
            decreases self.records.len() - i,
        {
            if self.records[i].port == port {
                return Some(i);
            }
            i = i + 1;
        }
        None
    }

    /// Records the outcome of a health probe for the service with the
    /// given name and port: the record of an already-known port is
    /// replaced in place, a record for a new port is appended, and the
    /// resulting record is returned.
    pub fn upsert(&mut self, name: String, port: u16, outcome: ProbeOutcome) -> (rec: ServiceRecord)
        requires
            old(self).wf(),
            name@.len() > 0,
            port >= 1,
        ensures
            final(self).wf(),
            rec@ == spec_upserted(name@, port, outcome),
            spec_has_port(old(self)@, port) ==> final(self)@.len() == old(self)@.len(),
            spec_has_port(old(self)@, port) ==> exists|i: int|
                0 <= i < old(self)@.len() && (#[trigger] old(self)@[i]).port == port
                    && final(self)@ =~= old(self)@.update(i, rec@),
            !spec_has_port(old(self)@, port) ==> final(self)@ =~= old(self)@.push(rec@),
    {
        let healthy = probe_success(&outcome);
        let status = if healthy {
            Status::Online
        } else {
            Status::Offline
        };
        let rec = ServiceRecord::new(name, port, status);
        let stored = rec.clone();
        match self.find_index(port) {
            Some(i) => {
                self.records.set(i, stored);
                proof {
                    assert(self@ =~= old(self)@.update(i as int, rec@));
                }
            },
            None => {
                self.records.push(stored);
                proof {
                    assert(self@ =~= old(self)@.push(rec@));
                }
            },
        }
        rec
    }
}

/// The fixed list of known services a registry starts from, each with
/// status `unknown` and the URL derived from its port.
pub open spec fn spec_seed() -> Seq<RecordView> {
    seq![
        (RecordView {
            name: "Eternal Daemon"@,
            port: 9999,
            status: Status::Unknown,
            url: spec_base_url(9999),
        }),
        (RecordView {
            name: "Consciousness Tracker"@,
            port: 9998,
            status: Status::Unknown,
            url: spec_base_url(9998),
        }),
        (RecordView {
            name: "Self-Modification Engine"@,
            port: 9997,
            status: Status::Unknown,
            url: spec_base_url(9997),
        }),
        (RecordView {
            name: "Memory System"@,
            port: 9995,
            status: Status::Unknown,
            url: spec_base_url(9995),
        }),
        (RecordView { name: "Groq API"@, port: 9987, status: Status::Unknown, url: spec_base_url(9987) }),
    ]
}

impl Registry {
    /// The registry a process starts with: the five known services, all
    /// with status `unknown`.
    pub fn seeded() -> (r: Registry)
        ensures
            r.wf(),
            r@ =~= spec_seed(),
    {
        let mut records: Vec<ServiceRecord> = Vec::new();
        records.push(ServiceRecord::new(String::from_str("Eternal Daemon"), 9999, Status::Unknown));
        records.push(
            ServiceRecord::new(String::from_str("Consciousness Tracker"), 9998, Status::Unknown),
        );
        records.push(
            ServiceRecord::new(String::from_str("Self-Modification Engine"), 9997, Status::Unknown),
        );
        records.push(ServiceRecord::new(String::from_str("Memory System"), 9995, Status::Unknown));
        records.push(ServiceRecord::new(String::from_str("Groq API"), 9987, Status::Unknown));
        let r = Registry { records };
        proof {
            reveal_strlit("Eternal Daemon");
            reveal_strlit("Consciousness Tracker");
            reveal_strlit("Self-Modification Engine");
            reveal_strlit("Memory System");
            reveal_strlit("Groq API");
            assert(r@ =~= spec_seed());
        }
        r
    }
}

/// No two records of a well-formed registry share a port; since `list`
/// mirrors the registry record for record, a listing never returns two
/// records with the same port.
pub proof fn lemma_ports_distinct(r: &Registry)
    requires
        r.wf(),
    ensures
        forall|i: int, j: int|
            0 <= i < r@.len() && 0 <= j < r@.len() && i != j ==> r@[i].port != r@[j].port,
{
    assert forall|i: int, j: int|
        0 <= i < r@.len() && 0 <= j < r@.len() && i != j implies r@[i].port != r@[j].port by {
        if i < j {
            assert(r@[i].port != r@[j].port);
        } else {
            assert(r@[j].port != r@[i].port);
        }
    }
}

} // verus!
