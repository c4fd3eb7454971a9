//! Volume lifecycle: create, list, look up and remove logical volumes
//! (replicas). As with pools, each operation is a state machine that hands out
//! commands and is resumed with their outcome.
use vstd::prelude::*;
use crate::command::{
    Outcome, Report, ReportKind, Step, command_result, completion_error, fails_as, fails_with, lv_create,
    lv_create_cmd, lv_list, lv_list_cmd, lv_remove, lv_remove_cmd, queries, query_result, report_error, runs,
};
use crate::lvm::{CreateReplicaRequest, Error, ErrorKind, Replica, replica_from_request};
use crate::report::{LvEntry, describes, find_volume, valid_volume_rows, volumes};

verus! {

/// Row `i` is the first of `rows` that names volume `uuid`.
pub open spec fn first_row_named(rows: Seq<LvEntry>, uuid: Seq<char>, i: int) -> bool {
    &&& 0 <= i < rows.len()
    &&& rows[i].lv_name@ == uuid
    &&& forall|j: int| 0 <= j < i ==> (#[trigger] rows[j]).lv_name@ != uuid
}

/// Some row of `rows` names volume `uuid`.
pub open spec fn names_volume(rows: Seq<LvEntry>, uuid: Seq<char>) -> bool {
    exists|i: int| 0 <= i < rows.len() && (#[trigger] rows[i]).lv_name@ == uuid
}

/// A volume report that decodes: it has a section and every size is a count.
pub open spec fn valid_volume_report(o: Outcome) -> bool {
    let rep = o->Reported_0->Volumes_0;
    rep.report@.len() > 0 && valid_volume_rows(rep.report@[0].lv@)
}

/// The rows of a volume report.
pub open spec fn volume_rows(o: Outcome) -> Seq<LvEntry> {
    o->Reported_0->Volumes_0.report@[0].lv@
}

/// How listing all volumes ends when the volume query ended with `o`.
pub open spec fn list_lv_outcome(o: Outcome, s: Step<Vec<Replica>>) -> bool {
    match report_error(o, ReportKind::Volumes, "failed to execute lvs"@) {
        Some(e) => fails_with(s, e),
        None => if valid_volume_report(o) {
            let rows = volume_rows(o);
            s matches Step::Done(Ok(vs)) && {
                &&& vs@.len() == rows.len()
                &&& forall|i: int| 0 <= i < rows.len() ==> describes(rows[i], #[trigger] vs@[i])
            }
        } else {
            fails_as(s, ErrorKind::FailedParsing)
        },
    }
}

/// How looking up volume `uuid` ends when the volume query ended with `o`.
pub open spec fn get_lv_outcome(uuid: Seq<char>, o: Outcome, s: Step<Replica>) -> bool {
    match report_error(o, ReportKind::Volumes, "failed to execute lvs"@) {
        Some(e) => fails_with(s, e),
        None => if valid_volume_report(o) {
            let rows = volume_rows(o);
            if names_volume(rows, uuid) {
                s matches Step::Done(Ok(v)) && exists|i: int|
                    first_row_named(rows, uuid, i) && describes(rows[i], v)
            } else {
                fails_with(s, (ErrorKind::NotFound, uuid))
            }
        } else {
            fails_as(s, ErrorKind::FailedParsing)
        },
    }
}

fn all_volumes(o: Outcome) -> (s: Step<Vec<Replica>>)
    ensures
        list_lv_outcome(o, s),
{
    match query_result(o, ReportKind::Volumes, "failed to execute lvs") {
        Ok(Report::Volumes(rep)) => match volumes(&rep) {
            Ok(vs) => Step::Done(Ok(vs)),
            Err(e) => Step::Done(Err(e)),
        },
        Ok(_) => Step::Done(Err(Error::FailedParsing { err: "unexpected report".to_owned() })),
        Err(e) => Step::Done(Err(e)),
    }
}

fn volume_named(o: Outcome, uuid: &String) -> (s: Step<Replica>)
    ensures
        get_lv_outcome(uuid@, o, s),
{
    let ghost go = o;
    let all = all_volumes(o);
    match all {
        Step::Done(Ok(vs)) => {
            let ghost rows = volume_rows(go);
            let ghost listed = vs@;
            let res = find_volume(vs, uuid);
            assert(names_volume(rows, uuid@) == exists|i: int|
                0 <= i < listed.len() && (#[trigger] listed[i]).uuid@ == uuid@) by {
                if names_volume(rows, uuid@) {
                    let i = choose|i: int| 0 <= i < rows.len() && (#[trigger] rows[i]).lv_name@ == uuid@;
                    assert(describes(rows[i], listed[i]));
                }
                if exists|i: int| 0 <= i < listed.len() && (#[trigger] listed[i]).uuid@ == uuid@ {
                    let i = choose|i: int| 0 <= i < listed.len() && (#[trigger] listed[i]).uuid@ == uuid@;
                    assert(describes(rows[i], listed[i]));
                }
            }
            match res {
                Ok(v) => {
                    proof {
                        let i = choose|i: int|
                            0 <= i < listed.len() && v == #[trigger] listed[i] && v.uuid@ == uuid@
                                && forall|j: int| 0 <= j < i ==> (#[trigger] listed[j]).uuid@ != uuid@;
                        assert(describes(rows[i], v));
                        assert forall|j: int| 0 <= j < i implies (#[trigger] rows[j]).lv_name@ != uuid@ by {
                            assert(describes(rows[j], listed[j]));
                        }
                        assert(first_row_named(rows, uuid@, i));
                    }
                    Step::Done(Ok(v))
                },
                Err(e) => Step::Done(Err(e)),
            }
        },
        Step::Done(Err(e)) => Step::Done(Err(e)),
        Step::Run(c) => Step::Run(c),
        Step::Query(c, k) => Step::Query(c, k),
    }
}

/// Lists all volumes of all pools.
pub struct ListLv {
    pub finished: bool,
}

/// Starts listing all volumes.
pub fn list_lvm_vol() -> (r: (ListLv, Step<Vec<Replica>>))
    ensures
        !r.0.finished,
        queries(r.1, lv_list_cmd(), ReportKind::Volumes),
{
    (ListLv { finished: false }, Step::Query(lv_list(), ReportKind::Volumes))
}

impl ListLv {
    /// Ends the listing after the volume query ended with `o`.
    pub fn resume(&mut self, o: Outcome) -> (s: Step<Vec<Replica>>)
        requires
            !old(self).finished,
        ensures
            final(self).finished,
            s is Done,
            list_lv_outcome(o, s),
    {
        self.finished = true;
        all_volumes(o)
    }
}

/// Looks up one volume by its uuid among all volumes.
pub struct GetLv {
    pub uuid: String,
    pub finished: bool,
}

/// Starts looking up volume `uuid`.
pub fn get_lvm_vol(uuid: String) -> (r: (GetLv, Step<Replica>))
    ensures
        r.0.uuid@ == uuid@,
        !r.0.finished,
        queries(r.1, lv_list_cmd(), ReportKind::Volumes),
{
    (GetLv { uuid, finished: false }, Step::Query(lv_list(), ReportKind::Volumes))
}

impl GetLv {
    /// Ends the lookup after the volume query ended with `o`.
    pub fn resume(&mut self, o: Outcome) -> (s: Step<Replica>)
        requires
            !old(self).finished,
        ensures
            final(self).finished,
            final(self).uuid == old(self).uuid,
            s is Done,
            get_lv_outcome(old(self).uuid@, o, s),
    {
        self.finished = true;
        volume_named(o, &self.uuid)
    }
}

/// Creates one volume.
pub struct CreateLv {
    pub request: CreateReplicaRequest,
    pub finished: bool,
}

/// Starts creating the volume that `req` describes. The volume is always
/// thick and local, whatever `req.thin` and `req.share` ask for.
pub fn create_lvm_vol(req: CreateReplicaRequest) -> (r: (CreateLv, Step<Replica>))
    ensures
        r.0.request == req,
        !r.0.finished,
        runs(r.1, lv_create_cmd(req.uuid@, req.pool@, req.size)),
{
    let cmd = lv_create(req.uuid.as_str(), req.pool.as_str(), req.size);
    (CreateLv { request: req, finished: false }, Step::Run(cmd))
}

impl CreateLv {
    /// Ends the creation after the creation command ended with `o`; the
    /// replica is assembled from the request, not read back.
    pub fn resume(&mut self, o: Outcome) -> (s: Step<Replica>)
        requires
            !old(self).finished,
        ensures
            final(self).finished,
            final(self).request == old(self).request,
            s is Done,
            match completion_error(o, "failed to execute lvcreate"@) {
                Some(e) => fails_with(s, e),
                None => s matches Step::Done(Ok(r)) && {
                    &&& r.wf()
                    &&& r.uuid@ == old(self).request.uuid@
                    &&& r.pool@ == old(self).request.pool@
                    &&& r.size == old(self).request.size
                },
            },
    {
        self.finished = true;
        match command_result(o, "failed to execute lvcreate") {
            Ok(()) => {
                let req = CreateReplicaRequest {
                    uuid: self.request.uuid.clone(),
                    pool: self.request.pool.clone(),
                    size: self.request.size,
                    thin: self.request.thin,
                    share: self.request.share,
                };
                Step::Done(Ok(replica_from_request(req)))
            },
            Err(e) => Step::Done(Err(e)),
        }
    }
}

#[derive(Debug, Clone, Copy, PartialEq, Eq, Structural)]
pub enum RemoveLvPhase {
    /// Looking the volume up, to learn its pool.
    Lookup,
    /// Waiting for the volume to be removed.
    Removing,
    Finished,
}

/// Removes one volume: looks it up for its pool, then removes it by its
/// device path. Nothing is removed unless the lookup succeeded.
pub struct RemoveLv {
    pub uuid: String,
    pub phase: RemoveLvPhase,
    pub pool: String,
}

/// Starts removing volume `uuid`.
pub fn remove_lvm_vol(uuid: String) -> (r: (RemoveLv, Step<()>))
    ensures
        r.0.uuid@ == uuid@,
        r.0.phase == RemoveLvPhase::Lookup,
        queries(r.1, lv_list_cmd(), ReportKind::Volumes),
{
    (RemoveLv { uuid, phase: RemoveLvPhase::Lookup, pool: String::new() }, Step::Query(lv_list(), ReportKind::Volumes))
}

impl RemoveLv {
    /// Moves on after the last command ended with `o`.
    pub fn resume(&mut self, o: Outcome) -> (s: Step<()>)
        requires
            old(self).phase != RemoveLvPhase::Finished,
        ensures
            final(self).uuid == old(self).uuid,
            (final(self).phase == RemoveLvPhase::Finished) == s is Done,
            match old(self).phase {
                RemoveLvPhase::Lookup => exists|t: Step<Replica>|
                    #[trigger] get_lv_outcome(old(self).uuid@, o, t) && match t {
                        Step::Done(Ok(v)) => {
                            &&& final(self).phase == RemoveLvPhase::Removing
                            &&& final(self).pool@ == v.pool@
                            &&& runs(s, lv_remove_cmd(v.pool@, old(self).uuid@))
                        },
                        Step::Done(Err(e)) => fails_with(s, e@),
                        _ => false,
                    },
                RemoveLvPhase::Removing => match completion_error(o, "failed to execute lvremove"@) {
                    Some(e) => fails_with(s, e),
                    None => s == Step::<()>::Done(Ok(())),
                },
                RemoveLvPhase::Finished => false,
            },
    {
        match self.phase {
            RemoveLvPhase::Lookup => {
                let t = volume_named(o, &self.uuid);
                assert(get_lv_outcome(self.uuid@, o, t));
                match t {
                    Step::Done(Ok(v)) => {
                        self.pool = v.pool;
                        self.phase = RemoveLvPhase::Removing;
                        Step::Run(lv_remove(self.pool.as_str(), self.uuid.as_str()))
                    },
                    Step::Done(Err(e)) => {
                        self.phase = RemoveLvPhase::Finished;
                        Step::Done(Err(e))
                    },
                    Step::Run(c) => Step::Run(c),
                    Step::Query(c, k) => Step::Query(c, k),
                }
            },
            RemoveLvPhase::Removing => {
                self.phase = RemoveLvPhase::Finished;
                match command_result(o, "failed to execute lvremove") {
                    Ok(()) => Step::Done(Ok(())),
                    Err(e) => Step::Done(Err(e)),
                }
            },
            RemoveLvPhase::Finished => Step::Done(
                Err(Error::FailedParsing { err: "removal already finished".to_owned() }),
            ),
        }
    }
}

} // verus!
