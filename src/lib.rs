use vstd::prelude::*;
use crate::lvm::{CreateReplicaRequest, PoolCreateReq};
use crate::text::{unsigned_value, is_unsigned, parse_u64};

pub mod command;
pub mod lvm;
pub mod pool;
pub mod report;
pub mod text;
pub mod volume;

verus! {

/// Errors raised while turning command-line values into requests.
#[derive(Debug)]
pub enum Error {
    /// No value was given for `field`.
    MissingValue { field: String },
    /// The value given for `field` is not an unsigned number.
    InvalidValue { field: String },
}

/// Returns the value given for `field`, or `MissingValue` naming the field.
pub fn require_value(value: Option<String>, field: &str) -> (r: Result<String, Error>)
    ensures
        value is Some ==> r == Ok::<String, Error>(value->Some_0),
        value is None ==> (r matches Err(Error::MissingValue { field: f }) && f@ == field@),
{
    match value {
        Some(v) => Ok(v),
        None => Err(Error::MissingValue { field: field.to_owned() }),
    }
}

/// The request to create pool `name` over `disks`; the name is checked first.
pub fn pool_create_request(name: Option<String>, disks: Option<Vec<String>>) -> (r: Result<PoolCreateReq, Error>)
    ensures
        name is None ==> (r matches Err(Error::MissingValue { field }) && field@ == "name"@),
        name is Some && disks is None ==> (r matches Err(Error::MissingValue { field }) && field@ == "disks"@),
        name is Some && disks is Some ==> (r matches Ok(req) && req.name == name->Some_0
            && req.devices == disks->Some_0),
{
    let name = match require_value(name, "name") {
        Ok(n) => n,
        Err(e) => return Err(e),
    };
    match disks {
        Some(devices) => Ok(PoolCreateReq { name, devices }),
        None => Err(Error::MissingValue { field: "disks".to_owned() }),
    }
}

/// The request to create volume `volume` in pool `pool` with the size written
/// in `size`. The volume is thick and not shared. Values are checked in the
/// order pool, volume, size.
pub fn replica_request(pool: Option<String>, volume: Option<String>, size: Option<String>) -> (r: Result<
    CreateReplicaRequest,
    Error,
>)
    ensures
        pool is None ==> (r matches Err(Error::MissingValue { field }) && field@ == "vgname"@),
        pool is Some && volume is None ==> (r matches Err(Error::MissingValue { field }) && field@ == "lvname"@),
        pool is Some && volume is Some && size is None ==> (r matches Err(Error::MissingValue { field })
            && field@ == "size"@),
        pool is Some && volume is Some && size is Some ==> if is_unsigned(size->Some_0@) && unsigned_value(
            size->Some_0@,
        ) <= u64::MAX {
            r matches Ok(req) && {
                &&& req.pool == pool->Some_0
                &&& req.uuid == volume->Some_0
                &&& req.size as nat == unsigned_value(size->Some_0@)
                &&& !req.thin
                &&& req.share == 0
            }
        } else {
            r matches Err(Error::InvalidValue { field }) && field@ == "size"@
        },
{
    let pool = match require_value(pool, "vgname") {
        Ok(p) => p,
        Err(e) => return Err(e),
    };
    let uuid = match require_value(volume, "lvname") {
        Ok(v) => v,
        Err(e) => return Err(e),
    };
    let text = match require_value(size, "size") {
        Ok(t) => t,
        Err(e) => return Err(e),
    };
    match parse_u64(text.as_str()) {
        Some(size) => Ok(CreateReplicaRequest { uuid, pool, size, thin: false, share: 0 }),
        None => Err(Error::InvalidValue { field: "size".to_owned() }),
    }
}

} // verus!
