//! Pool lifecycle: create, look up, list and remove volume groups. Each
//! operation is a state machine: it hands out the command to run next, and is
//! resumed with how that command ended, until it is done.
use vstd::prelude::*;
use crate::command::{
    Outcome, Report, ReportKind, Step, fails_as, fails_with, pv_create, pv_create_cmd, pv_map, pv_map_cmd,
    pv_remove, pv_remove_cmd, queries, query_result, command_result, completion_error, report_error, request,
    runs, vg_create, vg_create_cmd, vg_names, vg_names_cmd, vg_remove, vg_remove_cmd, vg_size, vg_size_cmd,
};
use crate::lvm::{Error, ErrorKind, Pool, PoolCreateReq, texts};
use crate::report::{
    assemble_pool, members_of, names_of, pool_members, pool_names, pool_sizes, size_error, size_row,
    valid_size_row,
};
use crate::text::unsigned_value;

verus! {

#[derive(Debug, Clone, Copy, PartialEq, Eq, Structural)]
pub enum GetVgState {
    /// Waiting for the report of pool names, to learn whether the pool exists.
    NamesPending,
    /// Waiting for the pool's size report.
    SizesPending,
    /// Sizes are known; waiting for the device report.
    MembersPending { capacity: u64, free: u64 },
    Finished,
}

/// Looks up one pool: whether it exists, its total and free bytes, then its
/// member devices.
pub struct GetVg {
    pub name: String,
    pub state: GetVgState,
}

/// How a lookup of pool `name` in state `pre` moves on when its command ended
/// with `o`: to state `post`, asking for `s`. A pool that the name report does
/// not list is not found.
pub open spec fn get_vg_transition(
    name: Seq<char>,
    pre: GetVgState,
    o: Outcome,
    post: GetVgState,
    s: Step<Pool>,
) -> bool {
    match pre {
        GetVgState::NamesPending => match report_error(o, ReportKind::PoolNames, "failed to execute vgs"@) {
            Some(e) => post == GetVgState::Finished && fails_with(s, e),
            None => {
                let rep = o->Reported_0->PoolNames_0;
                if rep.report@.len() == 0 {
                    post == GetVgState::Finished && fails_with(
                        s,
                        (ErrorKind::FailedParsing, "no section in the pool name report"@),
                    )
                } else if names_of(rep.report@[0].vg@).contains(name) {
                    post == GetVgState::SizesPending && queries(s, vg_size_cmd(name), ReportKind::PoolSizes)
                } else {
                    post == GetVgState::Finished && fails_with(s, (ErrorKind::NotFound, name))
                }
            },
        },
        GetVgState::SizesPending => match report_error(o, ReportKind::PoolSizes, "failed to execute vgs"@) {
            Some(e) => post == GetVgState::Finished && fails_with(s, e),
            None => {
                let rep = o->Reported_0->PoolSizes_0;
                let row = size_row(rep);
                if row is Some && valid_size_row(row->Some_0) {
                    &&& post == (GetVgState::MembersPending {
                        capacity: unsigned_value(row->Some_0.vg_size@) as u64,
                        free: unsigned_value(row->Some_0.vg_free@) as u64,
                    })
                    &&& queries(s, pv_map_cmd(), ReportKind::DeviceMap)
                } else {
                    post == GetVgState::Finished && fails_with(s, (ErrorKind::FailedParsing, size_error(rep)))
                }
            },
        },
        GetVgState::MembersPending { capacity, free } => {
            &&& post == GetVgState::Finished
            &&& match report_error(o, ReportKind::DeviceMap, "failed to execute pvs"@) {
                Some(e) => fails_with(s, e),
                None => {
                    let rep = o->Reported_0->DeviceMap_0;
                    if rep.report@.len() > 0 {
                        s matches Step::Done(Ok(p)) && {
                            &&& p.wf()
                            &&& p.name@ == name
                            &&& texts(p.devices@) == members_of(rep.report@[0].pv@, name)
                            &&& p.capacity == capacity
                            &&& p.used == capacity - free
                        }
                    } else {
                        fails_with(s, (ErrorKind::FailedParsing, "no section in the device report"@))
                    }
                },
            }
        },
        GetVgState::Finished => false,
    }
}

/// A pool reads back the same however it is reached: when the read-back at the
/// end of a creation and a later lookup of the same pool see the same reports,
/// they move to the same state and end the same way, with `used` the total
/// less the free bytes reported.
pub proof fn lemma_create_then_get_agree(
    name: Seq<char>,
    pre: GetVgState,
    o: Outcome,
    created: GetVgState,
    created_step: Step<Pool>,
    looked_up: GetVgState,
    looked_up_step: Step<Pool>,
)
    requires
        get_vg_transition(name, pre, o, created, created_step),
        get_vg_transition(name, pre, o, looked_up, looked_up_step),
    ensures
        created == looked_up,
        request(created_step) == request(looked_up_step),
        created_step is Done <==> looked_up_step is Done,
        created_step matches Step::Done(Err(a)) ==> looked_up_step matches Step::Done(Err(b)) && a@ == b@,
        created_step matches Step::Done(Ok(a)) ==> looked_up_step matches Step::Done(Ok(b)) && {
            &&& a.name@ == b.name@ && a.name@ == name
            &&& texts(a.devices@) == texts(b.devices@)
            &&& a.capacity == b.capacity
            &&& a.used == b.used
            &&& pre matches GetVgState::MembersPending { capacity, free } && a.used == capacity - free
        },
{
}

/// A pool that the name report does not list, as after its removal, is not
/// found: its lookup ends with `NotFound` naming it, and issues no further
/// command.
pub proof fn lemma_unlisted_pool_not_found(name: Seq<char>, o: Outcome, post: GetVgState, s: Step<Pool>)
    requires
        get_vg_transition(name, GetVgState::NamesPending, o, post, s),
        o matches Outcome::Reported(Report::PoolNames(rep)) && rep.report@.len() > 0
            && !names_of(rep.report@[0].vg@).contains(name),
    ensures
        post == GetVgState::Finished,
        fails_with(s, (ErrorKind::NotFound, name)),
{
}

/// Whether `names` holds `name`.
fn holds_name(names: &Vec<String>, name: &String) -> (r: bool)
    ensures
        r == texts(names@).contains(name@),
{
    let mut i: usize = 0;
    while i < names.len()
        invariant
            i <= names@.len(),
            forall|j: int| 0 <= j < i ==> names@[j]@ != name@,
        decreases names@.len() - i,
    {
        if names[i] == *name {
            assert(texts(names@)[i as int] == name@);
            return true;
        }
        i = i + 1;
    }
    proof {
        if texts(names@).contains(name@) {
            let k = choose|k: int| 0 <= k < texts(names@).len() && texts(names@)[k] == name@;
            assert(names@[k]@ == name@);
        }
    }
    false
}

/// Starts looking up pool `name`.
pub fn get_vg(name: String) -> (r: (GetVg, Step<Pool>))
    ensures
        r.0.name@ == name@,
        r.0.state == GetVgState::NamesPending,
        queries(r.1, vg_names_cmd(), ReportKind::PoolNames),
{
    (GetVg { name, state: GetVgState::NamesPending }, Step::Query(vg_names(), ReportKind::PoolNames))
}

impl GetVg {
    pub open spec fn wf(&self) -> bool {
        self.state matches GetVgState::MembersPending { capacity, free } ==> free <= capacity
    }

    pub open spec fn finished(&self) -> bool {
        self.state == GetVgState::Finished
    }

    /// Moves on after the last command ended with `o`.
    pub fn resume(&mut self, o: Outcome) -> (s: Step<Pool>)
        requires
            old(self).wf(),
            !old(self).finished(),
        ensures
            final(self).wf(),
            final(self).name == old(self).name,
            final(self).finished() == s is Done,
            get_vg_transition(old(self).name@, old(self).state, o, final(self).state, s),
    {
        match self.state {
            GetVgState::NamesPending => {
                self.state = GetVgState::Finished;
                let rep = match query_result(o, ReportKind::PoolNames, "failed to execute vgs") {
                    Ok(Report::PoolNames(rep)) => rep,
                    Ok(_) => {
                        return Step::Done(
                            Err(Error::FailedParsing { err: "unexpected report".to_owned() }),
                        );
                    },
                    Err(e) => {
                        return Step::Done(Err(e));
                    },
                };
                match pool_names(&rep) {
                    Ok(names) => if holds_name(&names, &self.name) {
                        self.state = GetVgState::SizesPending;
                        Step::Query(vg_size(self.name.as_str()), ReportKind::PoolSizes)
                    } else {
                        Step::Done(Err(Error::NotFound { name: self.name.clone() }))
                    },
                    Err(e) => Step::Done(Err(e)),
                }
            },
            GetVgState::SizesPending => {
                let rep = match query_result(o, ReportKind::PoolSizes, "failed to execute vgs") {
                    Ok(Report::PoolSizes(rep)) => rep,
                    Ok(_) => {
                        self.state = GetVgState::Finished;
                        return Step::Done(
                            Err(Error::FailedParsing { err: "unexpected report".to_owned() }),
                        );
                    },
                    Err(e) => {
                        self.state = GetVgState::Finished;
                        return Step::Done(Err(e));
                    },
                };
                match pool_sizes(&rep) {
                    Ok((capacity, free)) => {
                        self.state = GetVgState::MembersPending { capacity, free };
                        Step::Query(pv_map(), ReportKind::DeviceMap)
                    },
                    Err(e) => {
                        self.state = GetVgState::Finished;
                        Step::Done(Err(e))
                    },
                }
            },
            GetVgState::MembersPending { capacity, free } => {
                self.state = GetVgState::Finished;
                let rep = match query_result(o, ReportKind::DeviceMap, "failed to execute pvs") {
                    Ok(Report::DeviceMap(rep)) => rep,
                    Ok(_) => {
                        return Step::Done(
                            Err(Error::FailedParsing { err: "unexpected report".to_owned() }),
                        );
                    },
                    Err(e) => {
                        return Step::Done(Err(e));
                    },
                };
                match pool_members(&rep, &self.name) {
                    Ok(devices) => {
                        let pool = assemble_pool(self.name.clone(), devices, capacity, free);
                        Step::Done(Ok(pool))
                    },
                    Err(e) => Step::Done(Err(e)),
                }
            },
            GetVgState::Finished => Step::Done(
                Err(Error::FailedParsing { err: "lookup already finished".to_owned() }),
            ),
        }
    }
}

#[derive(Debug, Clone, Copy, PartialEq, Eq, Structural)]
pub enum CreateVgPhase {
    /// Waiting for the devices to be initialised.
    Initialising,
    /// Waiting for the pool to be created.
    Creating,
    /// Reading the new pool back.
    Reading,
    Finished,
}

/// Creates a pool over its devices, then reads it back: what the volume
/// manager reports after creation is the result.
pub struct CreateVg {
    pub name: String,
    pub devices: Vec<String>,
    pub phase: CreateVgPhase,
    pub lookup: GetVg,
}

/// Starts creating the pool that `req` describes.
pub fn create_vg(req: PoolCreateReq) -> (r: (CreateVg, Step<Pool>))
    ensures
        r.0.wf(),
        r.0.name@ == req.name@,
        texts(r.0.devices@) == texts(req.devices@),
        r.0.phase == CreateVgPhase::Initialising,
        runs(r.1, pv_create_cmd(texts(req.devices@))),
{
    let cmd = pv_create(&req.devices);
    let lookup = GetVg { name: req.name.clone(), state: GetVgState::NamesPending };
    (CreateVg { name: req.name, devices: req.devices, phase: CreateVgPhase::Initialising, lookup }, Step::Run(cmd))
}

impl CreateVg {
    pub open spec fn wf(&self) -> bool {
        &&& self.lookup.wf()
        &&& self.lookup.name@ == self.name@
        &&& self.phase == CreateVgPhase::Reading ==> !self.lookup.finished()
    }

    /// Moves on after the last command ended with `o`. No step is undone when
    /// a later one fails.
    pub fn resume(&mut self, o: Outcome) -> (s: Step<Pool>)
        requires
            old(self).wf(),
            old(self).phase != CreateVgPhase::Finished,
        ensures
            final(self).wf(),
            final(self).name == old(self).name,
            final(self).devices == old(self).devices,
            (final(self).phase == CreateVgPhase::Finished) == s is Done,
            match old(self).phase {
                CreateVgPhase::Initialising => match completion_error(o, "failed to execute pv_create"@) {
                    Some(e) => fails_with(s, e),
                    None => final(self).phase == CreateVgPhase::Creating
                        && runs(s, vg_create_cmd(old(self).name@, texts(old(self).devices@))),
                },
                CreateVgPhase::Creating => match completion_error(o, "failed to execute vg_create"@) {
                    Some(e) => fails_with(s, e),
                    None => {
                        &&& final(self).phase == CreateVgPhase::Reading
                        &&& final(self).lookup.state == GetVgState::NamesPending
                        &&& queries(s, vg_names_cmd(), ReportKind::PoolNames)
                    },
                },
                CreateVgPhase::Reading => {
                    &&& get_vg_transition(old(self).name@, old(self).lookup.state, o, final(self).lookup.state, s)
                    &&& (s is Done || final(self).phase == CreateVgPhase::Reading)
                },
                CreateVgPhase::Finished => false,
            },
    {
        match self.phase {
            CreateVgPhase::Initialising => match command_result(o, "failed to execute pv_create") {
                Ok(()) => {
                    self.phase = CreateVgPhase::Creating;
                    Step::Run(vg_create(self.name.as_str(), &self.devices))
                },
                Err(e) => {
                    self.phase = CreateVgPhase::Finished;
                    Step::Done(Err(e))
                },
            },
            CreateVgPhase::Creating => match command_result(o, "failed to execute vg_create") {
                Ok(()) => {
                    let (lookup, step) = get_vg(self.name.clone());
                    self.lookup = lookup;
                    self.phase = CreateVgPhase::Reading;
                    step
                },
                Err(e) => {
                    self.phase = CreateVgPhase::Finished;
                    Step::Done(Err(e))
                },
            },
            CreateVgPhase::Reading => {
                let step = self.lookup.resume(o);
                if matches!(step, Step::Done(_)) {
                    self.phase = CreateVgPhase::Finished;
                }
                step
            },
            CreateVgPhase::Finished => Step::Done(
                Err(Error::FailedParsing { err: "creation already finished".to_owned() }),
            ),
        }
    }
}

#[derive(Debug, Clone, Copy, PartialEq, Eq, Structural)]
pub enum RemoveVgPhase {
    /// Looking the pool up, to learn its devices.
    Lookup,
    /// Waiting for the pool to be removed.
    RemovingPool,
    /// Waiting for the former member devices to be released.
    ReleasingDevices,
    Finished,
}

/// Removes a pool: looks it up for its devices, removes it, then releases its
/// devices. Nothing is removed unless the lookup succeeded.
pub struct RemoveVg {
    pub name: String,
    pub phase: RemoveVgPhase,
    pub lookup: GetVg,
    pub devices: Vec<String>,
}

/// Starts removing pool `name`.
pub fn remove_vg(name: String) -> (r: (RemoveVg, Step<()>))
    ensures
        r.0.wf(),
        r.0.name@ == name@,
        r.0.phase == RemoveVgPhase::Lookup,
        r.0.lookup.state == GetVgState::NamesPending,
        queries(r.1, vg_names_cmd(), ReportKind::PoolNames),
{
    let lookup = GetVg { name: name.clone(), state: GetVgState::NamesPending };
    (RemoveVg { name, phase: RemoveVgPhase::Lookup, lookup, devices: Vec::new() }, Step::Query(vg_names(), ReportKind::PoolNames))
}

impl RemoveVg {
    pub open spec fn wf(&self) -> bool {
        &&& self.lookup.wf()
        &&& self.lookup.name@ == self.name@
        &&& self.phase == RemoveVgPhase::Lookup ==> !self.lookup.finished()
    }

    /// Moves on after the last command ended with `o`. When releasing the
    /// devices fails the removal fails, though the pool is already gone.
    pub fn resume(&mut self, o: Outcome) -> (s: Step<()>)
        requires
            old(self).wf(),
            old(self).phase != RemoveVgPhase::Finished,
        ensures
            final(self).wf(),
            final(self).name == old(self).name,
            (final(self).phase == RemoveVgPhase::Finished) == s is Done,
            match old(self).phase {
                RemoveVgPhase::Lookup => exists|post: GetVgState, t: Step<Pool>|
                    #[trigger] get_vg_transition(old(self).name@, old(self).lookup.state, o, post, t)
                        && match t {
                        Step::Done(Ok(p)) => {
                            &&& final(self).phase == RemoveVgPhase::RemovingPool
                            &&& texts(final(self).devices@) == texts(p.devices@)
                            &&& runs(s, vg_remove_cmd(old(self).name@))
                        },
                        Step::Done(Err(e)) => fails_with(s, e@),
                        _ => {
                            &&& final(self).phase == RemoveVgPhase::Lookup
                            &&& final(self).lookup.state == post
                            &&& request(s) == request(t)
                        },
                    },
                RemoveVgPhase::RemovingPool => match completion_error(o, "failed to execute vg_remove"@) {
                    Some(e) => fails_with(s, e),
                    None => {
                        &&& final(self).phase == RemoveVgPhase::ReleasingDevices
                        &&& final(self).devices == old(self).devices
                        &&& runs(s, pv_remove_cmd(texts(old(self).devices@)))
                    },
                },
                RemoveVgPhase::ReleasingDevices => match completion_error(o, "failed to execute pv_remove"@) {
                    Some(e) => fails_with(s, e),
                    None => s == Step::<()>::Done(Ok(())),
                },
                RemoveVgPhase::Finished => false,
            },
    {
        match self.phase {
            RemoveVgPhase::Lookup => {
                let ghost pre = self.lookup.state;
                let t = self.lookup.resume(o);
                assert(get_vg_transition(self.name@, pre, o, self.lookup.state, t));
                match t {
                    Step::Done(Ok(p)) => {
                        self.devices = p.devices;
                        self.phase = RemoveVgPhase::RemovingPool;
                        Step::Run(vg_remove(self.name.as_str()))
                    },
                    Step::Done(Err(e)) => {
                        self.phase = RemoveVgPhase::Finished;
                        Step::Done(Err(e))
                    },
                    Step::Run(c) => Step::Run(c),
                    Step::Query(c, k) => Step::Query(c, k),
                }
            },
            RemoveVgPhase::RemovingPool => match command_result(o, "failed to execute vg_remove") {
                Ok(()) => {
                    self.phase = RemoveVgPhase::ReleasingDevices;
                    Step::Run(pv_remove(&self.devices))
                },
                Err(e) => {
                    self.phase = RemoveVgPhase::Finished;
                    Step::Done(Err(e))
                },
            },
            RemoveVgPhase::ReleasingDevices => {
                self.phase = RemoveVgPhase::Finished;
                match command_result(o, "failed to execute pv_remove") {
                    Ok(()) => Step::Done(Ok(())),
                    Err(e) => Step::Done(Err(e)),
                }
            },
            RemoveVgPhase::Finished => Step::Done(
                Err(Error::FailedParsing { err: "removal already finished".to_owned() }),
            ),
        }
    }
}

#[derive(Debug, Clone, Copy, PartialEq, Eq, Structural)]
pub enum ListVgPhase {
    /// Waiting for the report of pool names.
    Names,
    /// Looking up the pool `names[next]`.
    Reading,
    Finished,
}

/// Lists all pools: reads their names, then looks each one up in turn.
pub struct ListVg {
    pub phase: ListVgPhase,
    pub names: Vec<String>,
    pub next: usize,
    pub lookup: GetVg,
    pub pools: Vec<Pool>,
}

/// A listing holds no pool that the name report leaves out, as after the
/// pool's removal: each listed pool carries the name at its place in the
/// report.
pub proof fn lemma_listing_omits_unlisted_pool(pools: Seq<Pool>, names: Seq<String>, name: Seq<char>)
    requires
        pools.len() == names.len(),
        forall|i: int| 0 <= i < pools.len() ==> (#[trigger] pools[i]).name@ == names[i]@,
        !texts(names).contains(name),
    ensures
        forall|i: int| 0 <= i < pools.len() ==> (#[trigger] pools[i]).name@ != name,
{
    assert forall|i: int| 0 <= i < pools.len() implies (#[trigger] pools[i]).name@ != name by {
        assert(texts(names)[i] == names[i]@);
    }
}

/// Starts listing all pools.
pub fn list_vg() -> (r: (ListVg, Step<Vec<Pool>>))
    ensures
        r.0.wf(),
        r.0.phase == ListVgPhase::Names,
        queries(r.1, vg_names_cmd(), ReportKind::PoolNames),
{
    let lookup = GetVg { name: String::new(), state: GetVgState::SizesPending };
    let list = ListVg { phase: ListVgPhase::Names, names: Vec::new(), next: 0, lookup, pools: Vec::new() };
    (list, Step::Query(vg_names(), ReportKind::PoolNames))
}

impl ListVg {
    pub open spec fn wf(&self) -> bool {
        &&& self.lookup.wf()
        &&& forall|i: int| 0 <= i < self.pools@.len() ==> (#[trigger] self.pools@[i]).wf()
        &&& self.phase == ListVgPhase::Reading ==> {
            &&& self.next < self.names@.len()
            &&& self.pools@.len() == self.next
            &&& forall|i: int| 0 <= i < self.next ==> (#[trigger] self.pools@[i]).name@ == self.names@[i]@
            &&& self.lookup.name@ == self.names@[self.next as int]@
            &&& !self.lookup.finished()
        }
    }

    /// Moves on after the last command ended with `o`. The first failed
    /// lookup ends the listing with its error.
    pub fn resume(&mut self, o: Outcome) -> (s: Step<Vec<Pool>>)
        requires
            old(self).wf(),
            old(self).phase != ListVgPhase::Finished,
        ensures
            final(self).wf(),
            (final(self).phase == ListVgPhase::Finished) == s is Done,
            s matches Step::Done(Ok(ps)) ==> forall|i: int| 0 <= i < ps@.len() ==> (#[trigger] ps@[i]).wf(),
            s matches Step::Done(Ok(ps)) ==> ps@.len() == final(self).names@.len() && forall|i: int|
                0 <= i < ps@.len() ==> (#[trigger] ps@[i]).name@ == final(self).names@[i]@,
            match old(self).phase {
                ListVgPhase::Names => match report_error(o, ReportKind::PoolNames, "failed to execute vgs"@) {
                    Some(e) => fails_with(s, e),
                    None => {
                        let rep = o->Reported_0->PoolNames_0;
                        if rep.report@.len() == 0 {
                            fails_as(s, ErrorKind::FailedParsing)
                        } else {
                            let names = names_of(rep.report@[0].vg@);
                            &&& texts(final(self).names@) == names
                            &&& if names.len() == 0 {
                                s matches Step::Done(Ok(ps)) && ps@.len() == 0
                            } else {
                                &&& final(self).phase == ListVgPhase::Reading
                                &&& final(self).next == 0
                                &&& final(self).pools@.len() == 0
                                &&& final(self).lookup.state == GetVgState::SizesPending
                                &&& queries(s, vg_size_cmd(names[0]), ReportKind::PoolSizes)
                            }
                        }
                    },
                },
                ListVgPhase::Reading => {
                    let name = old(self).names@[old(self).next as int]@;
                    &&& final(self).names == old(self).names
                    &&& exists|post: GetVgState, t: Step<Pool>|
                        #[trigger] get_vg_transition(name, old(self).lookup.state, o, post, t)
                            && match t {
                            Step::Done(Ok(p)) => if old(self).next + 1 < old(self).names@.len() {
                                let following = old(self).names@[old(self).next + 1]@;
                                &&& final(self).phase == ListVgPhase::Reading
                                &&& final(self).next == old(self).next + 1
                                &&& final(self).pools@ == old(self).pools@.push(p)
                                &&& final(self).lookup.state == GetVgState::SizesPending
                                &&& queries(s, vg_size_cmd(following), ReportKind::PoolSizes)
                            } else {
                                s matches Step::Done(Ok(ps)) && ps@ == old(self).pools@.push(p)
                            },
                            Step::Done(Err(e)) => fails_with(s, e@),
                            _ => {
                                &&& final(self).phase == ListVgPhase::Reading
                                &&& final(self).next == old(self).next
                                &&& final(self).pools == old(self).pools
                                &&& final(self).lookup.state == post
                                &&& request(s) == request(t)
                            },
                        }
                },
                ListVgPhase::Finished => false,
            },
    {
        match self.phase {
            ListVgPhase::Names => {
                let rep = match query_result(o, ReportKind::PoolNames, "failed to execute vgs") {
                    Ok(Report::PoolNames(rep)) => rep,
                    Ok(_) => {
                        self.phase = ListVgPhase::Finished;
                        return Step::Done(
                            Err(Error::FailedParsing { err: "unexpected report".to_owned() }),
                        );
                    },
                    Err(e) => {
                        self.phase = ListVgPhase::Finished;
                        return Step::Done(Err(e));
                    },
                };
                match pool_names(&rep) {
                    Ok(names) => {
                        self.names = names;
                        if self.names.len() == 0 {
                            self.phase = ListVgPhase::Finished;
                            Step::Done(Ok(Vec::new()))
                        } else {
                            let cmd = vg_size(self.names[0].as_str());
                            self.lookup = GetVg { name: self.names[0].clone(), state: GetVgState::SizesPending };
                            self.next = 0;
                            self.pools = Vec::new();
                            self.phase = ListVgPhase::Reading;
                            Step::Query(cmd, ReportKind::PoolSizes)
                        }
                    },
                    Err(e) => {
                        self.phase = ListVgPhase::Finished;
                        Step::Done(Err(e))
                    },
                }
            },
            ListVgPhase::Reading => {
                let ghost pre = self.lookup.state;
                let t = self.lookup.resume(o);
                assert(get_vg_transition(self.names@[self.next as int]@, pre, o, self.lookup.state, t));
                let count = self.names.len();
                match t {
                    Step::Done(Ok(p)) => {
                        self.pools.push(p);
                        if self.next + 1 < count {
                            self.next = self.next + 1;
                            let cmd = vg_size(self.names[self.next].as_str());
                            self.lookup = GetVg {
                                name: self.names[self.next].clone(),
                                state: GetVgState::SizesPending,
                            };
                            Step::Query(cmd, ReportKind::PoolSizes)
                        } else {
                            self.phase = ListVgPhase::Finished;
                            let mut pools: Vec<Pool> = Vec::new();
                            std::mem::swap(&mut pools, &mut self.pools);
                            Step::Done(Ok(pools))
                        }
                    },
                    Step::Done(Err(e)) => {
                        self.phase = ListVgPhase::Finished;
                        Step::Done(Err(e))
                    },
                    Step::Run(c) => Step::Run(c),
                    Step::Query(c, k) => Step::Query(c, k),
                }
            },
            ListVgPhase::Finished => Step::Done(
                Err(Error::FailedParsing { err: "listing already finished".to_owned() }),
            ),
        }
    }
}

} // verus!
