//! Pools (volume groups) and replicas (logical volumes): the data model, the
//! error taxonomy, and the decoding of the volume manager's reports.
use vstd::prelude::*;
use crate::text::{append, decode_utf8, utf8_text};

verus! {

/// The kind of a failure, without its message.
#[derive(Debug, Clone, Copy, PartialEq, Eq, Structural)]
pub enum ErrorKind {
    FailedParsing,
    FailedExec,
    NotFound,
}

#[derive(Debug)]
pub enum Error {
    /// Structured output could not be decoded, or its values are inconsistent.
    FailedParsing { err: String },
    /// A command ran and reported failure.
    FailedExec { err: String },
    /// No pool or volume of the requested name exists.
    NotFound { name: String },
}

impl View for Error {
    type V = (ErrorKind, Seq<char>);

    open spec fn view(&self) -> (ErrorKind, Seq<char>) {
        match self {
            Error::FailedParsing { err } => (ErrorKind::FailedParsing, err@),
            Error::FailedExec { err } => (ErrorKind::FailedExec, err@),
            Error::NotFound { name } => (ErrorKind::NotFound, name@),
        }
    }
}

#[derive(Debug)]
pub struct PoolCreateReq {
    pub name: String,
    pub devices: Vec<String>,
}

#[derive(Debug)]
pub struct CreateReplicaRequest {
    /// uuid of the replica
    pub uuid: String,
    /// name of the pool
    pub pool: String,
    /// size of the replica in bytes
    pub size: u64,
    /// thin provisioning is not implemented: replicas are always thick
    pub thin: bool,
    /// protocol to expose the replica over; only local access is implemented
    pub share: i32,
}

#[derive(Debug)]
pub struct Pool {
    pub name: String,
    pub devices: Vec<String>,
    pub capacity: u64,
    pub used: u64,
}

#[derive(Debug)]
pub struct Replica {
    pub uuid: String,
    /// name of the pool
    pub pool: String,
    pub thin: bool,
    /// size of the replica in bytes
    pub size: u64,
    /// protocol used for exposing the replica
    pub share: i32,
    /// uri usable by nexus to access it
    pub uri: String,
}

/// The views of a list of strings.
pub open spec fn texts(v: Seq<String>) -> Seq<Seq<char>> {
    v.map_values(|s: String| s@)
}

/// The device node of volume `uuid` in pool `pool`: `/dev/<pool>/<uuid>`.
pub open spec fn uri_of(pool: Seq<char>, uuid: Seq<char>) -> Seq<char> {
    "/dev/"@ + pool + "/"@ + uuid
}

impl Pool {
    /// A pool never uses more than its capacity.
    pub open spec fn wf(&self) -> bool {
        self.used <= self.capacity
    }
}

impl Replica {
    /// Its uri is the one derived from pool and uuid; thin provisioning and
    /// sharing are never in effect.
    pub open spec fn wf(&self) -> bool {
        &&& self.uri@ == uri_of(self.pool@, self.uuid@)
        &&& !self.thin
        &&& self.share == 0
    }
}

/// A replica's uri depends on its pool and uuid alone: two well-formed replicas
/// with the same pool and uuid have the same uri, whatever their other fields.
pub proof fn lemma_uri_determined(a: Replica, b: Replica)
    requires
        a.wf(),
        b.wf(),
        a.pool@ == b.pool@,
        a.uuid@ == b.uuid@,
    ensures
        a.uri@ == b.uri@,
{
}

/// Builds the device node path of volume `uuid` in pool `pool`.
pub fn replica_uri(pool: &str, uuid: &str) -> (r: String)
    ensures
        r@ == uri_of(pool@, uuid@),
{
    let mut uri = "/dev/".to_owned();
    append(&mut uri, pool);
    append(&mut uri, "/");
    append(&mut uri, uuid);
    uri
}

/// The replica that a successful creation of `req` yields.
pub fn replica_from_request(req: CreateReplicaRequest) -> (r: Replica)
    ensures
        r.wf(),
        r.uuid@ == req.uuid@,
        r.pool@ == req.pool@,
        r.size == req.size,
{
    let uri = replica_uri(req.pool.as_str(), req.uuid.as_str());
    Replica { uuid: req.uuid, pool: req.pool, thin: false, size: req.size, share: 0, uri }
}

/// The message of a failed command: its error output when that is text, else
/// the fallback.
pub open spec fn exec_message(decoded: Option<Seq<char>>, fallback: Seq<char>) -> Seq<char> {
    match decoded {
        Some(t) => t,
        None => fallback,
    }
}

/// The error for a failed command, given its decoded error output.
pub fn exec_failure(decoded: Option<String>, fallback: &str) -> (r: Error)
    ensures
        r@ == (ErrorKind::FailedExec, exec_message(
            match decoded {
                Some(t) => Some(t@),
                None => None,
            },
            fallback@,
        )),
{
    match decoded {
        Some(t) => Error::FailedExec { err: t },
        None => Error::FailedExec { err: fallback.to_owned() },
    }
}

/// The error for a failed command, given its raw error output.
pub fn exec_error(stderr: &[u8], fallback: &str) -> (r: Error)
    ensures
        r@ == (ErrorKind::FailedExec, exec_message(utf8_text(stderr@), fallback@)),
{
    exec_failure(decode_utf8(stderr), fallback)
}

} // verus!
