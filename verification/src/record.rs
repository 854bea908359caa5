//! A single service record: a display name, the port that identifies the
//! service, the last-observed status, and the base URL derived from the
//! port.

use vstd::prelude::*;

use crate::url::spec_base_url;
use crate::url::base_url;

verus! {

/// The last-observed status of a service: never probed yet, or the result
/// of the most recent probe.
#[derive(Clone, Copy, Debug, PartialEq, Eq, Structural)]
pub enum Status {
    Unknown,
    Online,
    Offline,
}

impl Status {
    /// The display text of a status.
    pub open spec fn spec_label(self) -> Seq<char> {
        match self {
            Status::Unknown => "unknown"@,
            Status::Online => "online"@,
            Status::Offline => "offline"@,
        }
    }

    /// The display text of a status: `unknown`, `online` or `offline`.
    pub fn label(&self) -> (s: &'static str)
        ensures
            s@ == self.spec_label(),
    {
        match self {
            Status::Unknown => "unknown",
            Status::Online => "online",
            Status::Offline => "offline",
        }
    }
}

/// The mathematical content of a [`ServiceRecord`]: its strings as
/// character sequences.
pub ghost struct RecordView {
    pub name: Seq<char>,
    pub port: u16,
    pub status: Status,
    pub url: Seq<char>,
}

/// One known service endpoint and its last-observed status.
///
/// The port is the natural key of a record; the URL is derived from the
/// port and never stored independently of it.
#[derive(Debug)]
pub struct ServiceRecord {
    pub name: String,
    pub port: u16,
    pub status: Status,
    pub url: String,
}

impl View for ServiceRecord {
    type V = RecordView;

    open spec fn view(&self) -> RecordView {
        RecordView {
            name: self.name@,
            port: self.port,
            status: self.status,
            url: self.url@,
        }
    }
}

/// A well-formed record names a service (non-empty name), has a valid port
/// (1..=65535), and carries exactly the URL derived from its port.
pub open spec fn record_wf(r: RecordView) -> bool {
    &&& r.name.len() > 0
    &&& r.port >= 1
    &&& r.url == spec_base_url(r.port)
}

impl Clone for ServiceRecord {
    /// Cloning a record preserves its whole content.
    fn clone(&self) -> (r: Self)
        ensures
            r@ == self@,
    {
        ServiceRecord {
            name: self.name.clone(),
            port: self.port,
            status: self.status,
            url: self.url.clone(),
        }
    }
}

impl ServiceRecord {
    /// Builds a record for a service on a local port; the URL is computed
    /// from the port.
    pub fn new(name: String, port: u16, status: Status) -> (r: ServiceRecord)
        ensures
            r@.name == name@,
            r@.port == port,
            r@.status == status,
            r@.url == spec_base_url(port),
    {
        let url = base_url(port);
        ServiceRecord { name, port, status, url }
    }
}

} // verus!
