//! The structured reports of the volume manager's query commands, one type per
//! report shape, and their decoding into pools and replicas.
use vstd::prelude::*;
use crate::lvm::{Error, ErrorKind, Pool, Replica, replica_uri, texts};
use crate::text::{unsigned_value, is_unsigned, parse_u64};

verus! {

/// Report of pool names.
pub struct VGListReport {
    pub report: Vec<VGList>,
}

pub struct VGList {
    pub vg: Vec<VGName>,
}

pub struct VGName {
    pub vg_name: String,
}

/// Report of one pool's total and free bytes.
pub struct VGsReport {
    pub report: Vec<VG>,
}

pub struct VG {
    pub vg: Vec<VGSize>,
}

pub struct VGSize {
    pub vg_size: String,
    pub vg_free: String,
}

/// Report of which pool each physical device belongs to.
pub struct PVsReport {
    pub report: Vec<PV>,
}

pub struct PV {
    pub pv: Vec<VgPvMap>,
}

pub struct VgPvMap {
    pub vg_name: String,
    pub pv_name: String,
}

/// Report of all volumes, with their pool and size in bytes.
pub struct LVsReport {
    pub report: Vec<LV>,
}

pub struct LV {
    pub lv: Vec<LvEntry>,
}

pub struct LvEntry {
    pub lv_name: String,
    pub vg_name: String,
    pub lv_size: String,
}

/// Text that denotes a byte count.
pub open spec fn is_count(s: Seq<char>) -> bool {
    is_unsigned(s) && unsigned_value(s) <= u64::MAX
}

/// The first row of a size report, if there is one.
pub open spec fn size_row(r: VGsReport) -> Option<VGSize> {
    if r.report@.len() > 0 && r.report@[0].vg@.len() > 0 {
        Some(r.report@[0].vg@[0])
    } else {
        None
    }
}

/// A size row whose counts are numbers, with no more free than total bytes.
pub open spec fn valid_size_row(row: VGSize) -> bool {
    &&& is_count(row.vg_size@)
    &&& is_count(row.vg_free@)
    &&& unsigned_value(row.vg_free@) <= unsigned_value(row.vg_size@)
}

/// The message of the parse failure for a size report without a valid row.
pub open spec fn size_error(r: VGsReport) -> Seq<char> {
    match size_row(r) {
        None => "no size row in the pool report"@,
        Some(row) => if !is_count(row.vg_size@) {
            row.vg_size@
        } else if !is_count(row.vg_free@) {
            row.vg_free@
        } else {
            "free bytes exceed the pool size"@
        },
    }
}

/// Decodes total and free bytes from the first row of a size report.
pub fn pool_sizes(r: &VGsReport) -> (res: Result<(u64, u64), Error>)
    ensures
        res is Ok <==> (size_row(*r) matches Some(row) && valid_size_row(row)),
        res matches Ok((capacity, free)) ==> {
            let row = size_row(*r)->Some_0;
            &&& capacity as nat == unsigned_value(row.vg_size@)
            &&& free as nat == unsigned_value(row.vg_free@)
        },
        res matches Err(e) ==> e@ == (ErrorKind::FailedParsing, size_error(*r)),
{
    if r.report.len() == 0 || r.report[0].vg.len() == 0 {
        return Err(Error::FailedParsing { err: "no size row in the pool report".to_owned() });
    }
    let row = &r.report[0].vg[0];
    let capacity = match parse_u64(row.vg_size.as_str()) {
        Some(c) => c,
        None => return Err(Error::FailedParsing { err: row.vg_size.clone() }),
    };
    let free = match parse_u64(row.vg_free.as_str()) {
        Some(f) => f,
        None => return Err(Error::FailedParsing { err: row.vg_free.clone() }),
    };
    if free > capacity {
        return Err(Error::FailedParsing { err: "free bytes exceed the pool size".to_owned() });
    }
    Ok((capacity, free))
}

/// The devices of the rows that name pool `name`, in report order.
pub open spec fn members_of(rows: Seq<VgPvMap>, name: Seq<char>) -> Seq<Seq<char>>
    decreases rows.len(),
{
    if rows.len() == 0 {
        seq![]
    } else {
        let before = members_of(rows.drop_last(), name);
        if rows.last().vg_name@ == name {
            before.push(rows.last().pv_name@)
        } else {
            before
        }
    }
}

/// Decodes the devices of pool `name` from a device report.
pub fn pool_members(r: &PVsReport, name: &String) -> (res: Result<Vec<String>, Error>)
    ensures
        res is Ok <==> r.report@.len() > 0,
        res matches Ok(devices) ==> texts(devices@) == members_of(r.report@[0].pv@, name@),
        res matches Err(e) ==> e@ == (ErrorKind::FailedParsing, "no section in the device report"@),
{
    if r.report.len() == 0 {
        return Err(Error::FailedParsing { err: "no section in the device report".to_owned() });
    }
    let rows = &r.report[0].pv;
    let ghost name_v = name@;
    let mut devices: Vec<String> = Vec::new();
    let mut i: usize = 0;
    while i < rows.len()
        invariant
            i <= rows@.len(),
            name@ == name_v,
            texts(devices@) == members_of(rows@.take(i as int), name_v),
        decreases rows@.len() - i,
    {
        assert(rows@.take(i + 1).drop_last() =~= rows@.take(i as int));
        if rows[i].vg_name == *name {
            devices.push(rows[i].pv_name.clone());
        }
        assert(texts(devices@) =~= members_of(rows@.take(i + 1), name_v));
        i = i + 1;
    }
    assert(rows@.take(rows@.len() as int) =~= rows@);
    Ok(devices)
}

/// A pool's devices are exactly the devices that the device report maps to it:
/// a device is listed if and only if some row pairs it with the pool, whatever
/// the order of the rows.
pub proof fn lemma_members_are_mapped_devices(rows: Seq<VgPvMap>, name: Seq<char>, device: Seq<char>)
    ensures
        members_of(rows, name).contains(device) <==> exists|i: int|
            0 <= i < rows.len() && (#[trigger] rows[i]).vg_name@ == name && rows[i].pv_name@ == device,
    decreases rows.len(),
{
    if rows.len() > 0 {
        let init = rows.drop_last();
        let last = rows.last();
        let before = members_of(init, name);
        lemma_members_are_mapped_devices(init, name, device);
        if last.vg_name@ == name {
            let after = before.push(last.pv_name@);
            assert(after[before.len() as int] == last.pv_name@);
            if before.contains(device) {
                let k = choose|k: int| 0 <= k < before.len() && before[k] == device;
                assert(after[k] == device);
            }
            if after.contains(device) {
                let k = choose|k: int| 0 <= k < after.len() && after[k] == device;
                if k < before.len() {
                    assert(before[k] == device);
                }
            }
        }
        if exists|i: int| 0 <= i < init.len() && (#[trigger] init[i]).vg_name@ == name && init[i].pv_name@ == device {
            let i = choose|i: int| 0 <= i < init.len() && (#[trigger] init[i]).vg_name@ == name && init[i].pv_name@ == device;
            assert(rows[i] == init[i]);
        }
        if exists|i: int| 0 <= i < rows.len() && (#[trigger] rows[i]).vg_name@ == name && rows[i].pv_name@ == device {
            let i = choose|i: int| 0 <= i < rows.len() && (#[trigger] rows[i]).vg_name@ == name && rows[i].pv_name@ == device;
            if i < init.len() {
                assert(init[i] == rows[i]);
            }
        }
    }
}

/// The pool names of a name report's rows, in report order.
pub open spec fn names_of(rows: Seq<VGName>) -> Seq<Seq<char>> {
    rows.map_values(|n: VGName| n.vg_name@)
}

/// Decodes the pool names from a name report.
pub fn pool_names(r: &VGListReport) -> (res: Result<Vec<String>, Error>)
    ensures
        res is Ok <==> r.report@.len() > 0,
        res matches Ok(names) ==> texts(names@) == names_of(r.report@[0].vg@),
        res matches Err(e) ==> e@ == (ErrorKind::FailedParsing, "no section in the pool name report"@),
{
    if r.report.len() == 0 {
        return Err(Error::FailedParsing { err: "no section in the pool name report".to_owned() });
    }
    let rows = &r.report[0].vg;
    let mut names: Vec<String> = Vec::new();
    let mut i: usize = 0;
    while i < rows.len()
        invariant
            i <= rows@.len(),
            names@.len() == i,
            texts(names@) == names_of(rows@.take(i as int)),
        decreases rows@.len() - i,
    {
        let ghost before = names@;
        names.push(rows[i].vg_name.clone());
        assert forall|k: int| 0 <= k < i + 1 implies #[trigger] texts(names@)[k] == names_of(rows@.take(i + 1))[k] by {
            if k < i {
                assert(texts(before)[k] == names_of(rows@.take(i as int))[k]);
                assert(names@[k] == before[k]);
            }
        }
        assert(texts(names@) =~= names_of(rows@.take(i + 1)));
        i = i + 1;
    }
    assert(rows@.take(rows@.len() as int) =~= rows@);
    Ok(names)
}

/// The pool whose devices, total and free bytes were read; `used` is what is
/// not free.
pub fn assemble_pool(name: String, devices: Vec<String>, capacity: u64, free: u64) -> (p: Pool)
    requires
        free <= capacity,
    ensures
        p.wf(),
        p.name@ == name@,
        texts(p.devices@) == texts(devices@),
        p.capacity == capacity,
        p.used == capacity - free,
{
    Pool { name, devices, capacity, used: capacity - free }
}

/// Replica `v` is the one that row `e` describes.
pub open spec fn describes(e: LvEntry, v: Replica) -> bool {
    &&& v.wf()
    &&& v.uuid@ == e.lv_name@
    &&& v.pool@ == e.vg_name@
    &&& v.size as nat == unsigned_value(e.lv_size@)
}

/// Every row of a volume report has a size that is a byte count.
pub open spec fn valid_volume_rows(rows: Seq<LvEntry>) -> bool {
    forall|i: int| 0 <= i < rows.len() ==> is_count(#[trigger] rows[i].lv_size@)
}

/// Decodes all volumes from a volume report, in report order.
pub fn volumes(r: &LVsReport) -> (res: Result<Vec<Replica>, Error>)
    ensures
        res is Ok <==> r.report@.len() > 0 && valid_volume_rows(r.report@[0].lv@),
        res matches Ok(vs) ==> {
            let rows = r.report@[0].lv@;
            &&& vs@.len() == rows.len()
            &&& forall|i: int| 0 <= i < rows.len() ==> describes(rows[i], #[trigger] vs@[i])
        },
        res matches Err(e) ==> e@.0 == ErrorKind::FailedParsing,
{
    if r.report.len() == 0 {
        return Err(Error::FailedParsing { err: "no section in the volume report".to_owned() });
    }
    let rows = &r.report[0].lv;
    let mut vs: Vec<Replica> = Vec::new();
    let mut i: usize = 0;
    while i < rows.len()
        invariant
            i <= rows@.len(),
            r.report@.len() > 0,
            *rows == r.report@[0].lv,
            vs@.len() == i,
            valid_volume_rows(rows@.take(i as int)),
            forall|j: int| 0 <= j < i ==> describes(rows@[j], #[trigger] vs@[j]),
        decreases rows@.len() - i,
    {
        let e = &rows[i];
        let size = match parse_u64(e.lv_size.as_str()) {
            Some(n) => n,
            None => {
                assert(!is_count(rows@[i as int].lv_size@));
                assert(!valid_volume_rows(r.report@[0].lv@));
                return Err(Error::FailedParsing { err: e.lv_size.clone() });
            },
        };
        let uri = replica_uri(e.vg_name.as_str(), e.lv_name.as_str());
        vs.push(Replica {
            uuid: e.lv_name.clone(),
            pool: e.vg_name.clone(),
            thin: false,
            size,
            share: 0,
            uri,
        });
        assert(valid_volume_rows(rows@.take(i + 1))) by {
            assert forall|j: int| 0 <= j < i + 1 implies is_count(#[trigger] rows@.take(i + 1)[j].lv_size@) by {
                if j < i {
                    assert(rows@.take(i as int)[j] == rows@.take(i + 1)[j]);
                }
            }
        }
        i = i + 1;
    }
    assert(rows@.take(rows@.len() as int) =~= rows@);
    Ok(vs)
}

/// Takes the first replica named `uuid` out of `vs`, or reports that none is.
pub fn find_volume(vs: Vec<Replica>, uuid: &String) -> (res: Result<Replica, Error>)
    ensures
        res is Ok <==> exists|i: int| 0 <= i < vs@.len() && (#[trigger] vs@[i]).uuid@ == uuid@,
        res matches Ok(v) ==> exists|i: int|
            0 <= i < vs@.len() && v == #[trigger] vs@[i] && v.uuid@ == uuid@
                && forall|j: int| 0 <= j < i ==> (#[trigger] vs@[j]).uuid@ != uuid@,
        res matches Err(e) ==> e@ == (ErrorKind::NotFound, uuid@),
{
    let ghost all = vs@;
    let mut list = vs;
    let mut i: usize = 0;
    while i < list.len()
        invariant
            list@ == all,
            all == vs@,
            i <= all.len(),
            forall|j: int| 0 <= j < i ==> (#[trigger] all[j]).uuid@ != uuid@,
        decreases all.len() - i,
    {
        if list[i].uuid == *uuid {
            let v = list.remove(i);
            assert(v == all[i as int] && v.uuid@ == uuid@);
            return Ok(v);
        }
        i = i + 1;
    }
    Err(Error::NotFound { name: uuid.clone() })
}

} // verus!
