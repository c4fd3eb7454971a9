//! The volume manager's command surface: the command lines that the pool and
//! volume operations issue, what a caller reports back after running one, and
//! how such a report becomes a success or an error.
use vstd::prelude::*;
use crate::lvm::{Error, ErrorKind, exec_error, exec_message, texts, uri_of};
use crate::report::{LVsReport, PVsReport, VGListReport, VGsReport};
use crate::text::{append, decimal, utf8_text, write_decimal};

verus! {

/// A command line: the program and its arguments.
#[derive(Debug)]
pub struct Invocation {
    pub program: String,
    pub args: Vec<String>,
}

impl View for Invocation {
    type V = (Seq<char>, Seq<Seq<char>>);

    open spec fn view(&self) -> (Seq<char>, Seq<Seq<char>>) {
        (self.program@, texts(self.args@))
    }
}

/// The shape of report that a query's output is decoded into.
#[derive(Debug, Clone, Copy, PartialEq, Eq, Structural)]
pub enum ReportKind {
    PoolNames,
    PoolSizes,
    DeviceMap,
    Volumes,
}

/// The decoded output of a query.
pub enum Report {
    PoolNames(VGListReport),
    PoolSizes(VGsReport),
    DeviceMap(PVsReport),
    Volumes(LVsReport),
}

impl Report {
    pub open spec fn kind(&self) -> ReportKind {
        match self {
            Report::PoolNames(_) => ReportKind::PoolNames,
            Report::PoolSizes(_) => ReportKind::PoolSizes,
            Report::DeviceMap(_) => ReportKind::DeviceMap,
            Report::Volumes(_) => ReportKind::Volumes,
        }
    }
}

/// What running a command came to.
pub enum Outcome {
    /// The command exited with a failure status and wrote `stderr`.
    Failed { stderr: Vec<u8> },
    /// The command succeeded.
    Completed,
    /// The query succeeded and its output decoded into this report.
    Reported(Report),
    /// The query succeeded but its output did not decode.
    Undecodable { err: String },
}

/// What an operation asks for next.
pub enum Step<T> {
    /// Run a command and report how it ended.
    Run(Invocation),
    /// Run a query and report its output decoded as the given kind.
    Query(Invocation, ReportKind),
    /// The operation is over.
    Done(Result<T, Error>),
}

/// `s` runs the command line `c`.
pub open spec fn runs<T>(s: Step<T>, c: (Seq<char>, Seq<Seq<char>>)) -> bool {
    s matches Step::Run(i) && i@ == c
}

/// `s` runs the query `c` and expects a report of kind `k`.
pub open spec fn queries<T>(s: Step<T>, c: (Seq<char>, Seq<Seq<char>>), k: ReportKind) -> bool {
    s matches Step::Query(i, kind) && i@ == c && kind == k
}

/// `s` ends the operation with the error `e`.
pub open spec fn fails_with<T>(s: Step<T>, e: (ErrorKind, Seq<char>)) -> bool {
    s matches Step::Done(Err(x)) && x@ == e
}

/// `s` ends the operation with some error of kind `k`.
pub open spec fn fails_as<T>(s: Step<T>, k: ErrorKind) -> bool {
    s matches Step::Done(Err(x)) && x@.0 == k
}

/// The command that `s` asks for, with the kind of report it expects if it is
/// a query; `None` when `s` ends the operation.
pub open spec fn request<T>(s: Step<T>) -> Option<((Seq<char>, Seq<Seq<char>>), Option<ReportKind>)> {
    match s {
        Step::Run(i) => Some((i@, None)),
        Step::Query(i, k) => Some((i@, Some(k))),
        Step::Done(_) => None,
    }
}

/// The error, if any, that ends an operation after a command with outcome `o`.
pub open spec fn completion_error(o: Outcome, fallback: Seq<char>) -> Option<(ErrorKind, Seq<char>)> {
    match o {
        Outcome::Failed { stderr } => Some(
            (ErrorKind::FailedExec, exec_message(utf8_text(stderr@), fallback)),
        ),
        Outcome::Undecodable { err } => Some((ErrorKind::FailedParsing, err@)),
        _ => None,
    }
}

/// The error, if any, that ends an operation after a query with outcome `o`
/// that should have produced a report of kind `k`.
pub open spec fn report_error(o: Outcome, k: ReportKind, fallback: Seq<char>) -> Option<
    (ErrorKind, Seq<char>),
> {
    match o {
        Outcome::Reported(r) => if r.kind() == k {
            None
        } else {
            Some((ErrorKind::FailedParsing, "unexpected report"@))
        },
        Outcome::Completed => Some((ErrorKind::FailedParsing, "missing report"@)),
        _ => completion_error(o, fallback),
    }
}

/// Turns the outcome of a command into success or its error.
pub fn command_result(o: Outcome, fallback: &str) -> (r: Result<(), Error>)
    ensures
        match completion_error(o, fallback@) {
            Some(e) => r matches Err(x) && x@ == e,
            None => r is Ok,
        },
{
    match o {
        Outcome::Failed { stderr } => Err(exec_error(stderr.as_slice(), fallback)),
        Outcome::Undecodable { err } => Err(Error::FailedParsing { err }),
        _ => Ok(()),
    }
}

/// Turns the outcome of a query into its report or its error.
pub fn query_result(o: Outcome, k: ReportKind, fallback: &str) -> (r: Result<Report, Error>)
    ensures
        match report_error(o, k, fallback@) {
            Some(e) => r matches Err(x) && x@ == e,
            None => o matches Outcome::Reported(rep) && r == Ok::<Report, Error>(rep),
        },
{
    match o {
        Outcome::Failed { stderr } => Err(exec_error(stderr.as_slice(), fallback)),
        Outcome::Undecodable { err } => Err(Error::FailedParsing { err }),
        Outcome::Completed => Err(Error::FailedParsing { err: "missing report".to_owned() }),
        Outcome::Reported(rep) => {
            let same = match (&rep, k) {
                (Report::PoolNames(_), ReportKind::PoolNames) => true,
                (Report::PoolSizes(_), ReportKind::PoolSizes) => true,
                (Report::DeviceMap(_), ReportKind::DeviceMap) => true,
                (Report::Volumes(_), ReportKind::Volumes) => true,
                _ => false,
            };
            if same {
                Ok(rep)
            } else {
                Err(Error::FailedParsing { err: "unexpected report".to_owned() })
            }
        },
    }
}

fn push_arg(args: &mut Vec<String>, a: &str)
    ensures
        texts(final(args)@) == texts(old(args)@).push(a@),
{
    args.push(a.to_owned());
    assert(texts(final(args)@) =~= texts(old(args)@).push(a@));
}

fn push_args(args: &mut Vec<String>, more: &Vec<String>)
    ensures
        texts(final(args)@) == texts(old(args)@) + texts(more@),
{
    let mut i: usize = 0;
    while i < more.len()
        invariant
            i <= more@.len(),
            texts(args@) == texts(old(args)@) + texts(more@.take(i as int)),
        decreases more@.len() - i,
    {
        let ghost before = args@;
        args.push(more[i].clone());
        assert(texts(args@) =~= texts(before).push(more@[i as int]@));
        assert(texts(more@.take(i + 1)) =~= texts(more@.take(i as int)).push(more@[i as int]@));
        i = i + 1;
    }
    assert(more@.take(more@.len() as int) =~= more@);
}

fn invocation(program: &str, args: Vec<String>) -> (r: Invocation)
    ensures
        r@ == (program@, texts(args@)),
{
    Invocation { program: program.to_owned(), args }
}

pub open spec fn pv_create_cmd(devices: Seq<Seq<char>>) -> (Seq<char>, Seq<Seq<char>>) {
    ("pvcreate"@, devices)
}

/// Initialises `devices` as physical members for pools.
pub fn pv_create(devices: &Vec<String>) -> (r: Invocation)
    ensures
        r@ == pv_create_cmd(texts(devices@)),
{
    let mut args: Vec<String> = Vec::new();
    push_args(&mut args, devices);
    invocation("pvcreate", args)
}

pub open spec fn vg_create_cmd(name: Seq<char>, devices: Seq<Seq<char>>) -> (Seq<char>, Seq<Seq<char>>) {
    ("vgcreate"@, seq![name] + devices)
}

/// Creates pool `name` over `devices`.
pub fn vg_create(name: &str, devices: &Vec<String>) -> (r: Invocation)
    ensures
        r@ == vg_create_cmd(name@, texts(devices@)),
{
    let mut args: Vec<String> = Vec::new();
    push_arg(&mut args, name);
    push_args(&mut args, devices);
    invocation("vgcreate", args)
}

pub open spec fn vg_names_cmd() -> (Seq<char>, Seq<Seq<char>>) {
    ("vgs"@, seq!["--options=vg_name"@, "--reportformat=json"@])
}

/// Queries the names of all pools.
pub fn vg_names() -> (r: Invocation)
    ensures
        r@ == vg_names_cmd(),
{
    let mut args: Vec<String> = Vec::new();
    push_arg(&mut args, "--options=vg_name");
    push_arg(&mut args, "--reportformat=json");
    invocation("vgs", args)
}

pub open spec fn vg_size_cmd(name: Seq<char>) -> (Seq<char>, Seq<Seq<char>>) {
    (
        "vgs"@,
        seq![
            name,
            "--options=vg_size,vg_free"@,
            "--units=b"@,
            "--noheadings"@,
            "--nosuffix"@,
            "--reportformat=json"@,
        ],
    )
}

/// Queries the total and free bytes of pool `name`.
pub fn vg_size(name: &str) -> (r: Invocation)
    ensures
        r@ == vg_size_cmd(name@),
{
    let mut args: Vec<String> = Vec::new();
    push_arg(&mut args, name);
    push_arg(&mut args, "--options=vg_size,vg_free");
    push_arg(&mut args, "--units=b");
    push_arg(&mut args, "--noheadings");
    push_arg(&mut args, "--nosuffix");
    push_arg(&mut args, "--reportformat=json");
    invocation("vgs", args)
}

pub open spec fn pv_map_cmd() -> (Seq<char>, Seq<Seq<char>>) {
    ("pvs"@, seq!["--options=vg_name,pv_name"@, "--noheadings"@, "--reportformat=json"@])
}

/// Queries which pool each physical device belongs to.
pub fn pv_map() -> (r: Invocation)
    ensures
        r@ == pv_map_cmd(),
{
    let mut args: Vec<String> = Vec::new();
    push_arg(&mut args, "--options=vg_name,pv_name");
    push_arg(&mut args, "--noheadings");
    push_arg(&mut args, "--reportformat=json");
    invocation("pvs", args)
}

pub open spec fn vg_remove_cmd(name: Seq<char>) -> (Seq<char>, Seq<Seq<char>>) {
    ("vgremove"@, seq![name])
}

/// Removes pool `name`.
pub fn vg_remove(name: &str) -> (r: Invocation)
    ensures
        r@ == vg_remove_cmd(name@),
{
    let mut args: Vec<String> = Vec::new();
    push_arg(&mut args, name);
    invocation("vgremove", args)
}

pub open spec fn pv_remove_cmd(devices: Seq<Seq<char>>) -> (Seq<char>, Seq<Seq<char>>) {
    ("pvremove"@, devices)
}

/// Releases `devices` from pool membership.
pub fn pv_remove(devices: &Vec<String>) -> (r: Invocation)
    ensures
        r@ == pv_remove_cmd(texts(devices@)),
{
    let mut args: Vec<String> = Vec::new();
    push_args(&mut args, devices);
    invocation("pvremove", args)
}

/// A size in bytes as the volume creation command takes it: digits, then `b`.
pub open spec fn byte_size_arg(size: u64) -> Seq<char> {
    decimal(size as nat) + "b"@
}

pub open spec fn lv_create_cmd(uuid: Seq<char>, pool: Seq<char>, size: u64) -> (Seq<char>, Seq<Seq<char>>) {
    ("lvcreate"@, seq!["-L"@, byte_size_arg(size), "-n"@, uuid, pool])
}

/// Creates volume `uuid` of `size` bytes in pool `pool`.
pub fn lv_create(uuid: &str, pool: &str, size: u64) -> (r: Invocation)
    ensures
        r@ == lv_create_cmd(uuid@, pool@, size),
{
    let mut bytes = String::new();
    write_decimal(&mut bytes, size);
    append(&mut bytes, "b");
    let mut args: Vec<String> = Vec::new();
    push_arg(&mut args, "-L");
    push_arg(&mut args, bytes.as_str());
    push_arg(&mut args, "-n");
    push_arg(&mut args, uuid);
    push_arg(&mut args, pool);
    assert(bytes@ =~= byte_size_arg(size));
    invocation("lvcreate", args)
}

pub open spec fn lv_list_cmd() -> (Seq<char>, Seq<Seq<char>>) {
    (
        "lvs"@,
        seq![
            "--options=lv_name,vg_name,lv_size"@,
            "--units=b"@,
            "--nosuffix"@,
            "--reportformat=json"@,
        ],
    )
}

/// Queries all volumes with their pool and size in bytes.
pub fn lv_list() -> (r: Invocation)
    ensures
        r@ == lv_list_cmd(),
{
    let mut args: Vec<String> = Vec::new();
    push_arg(&mut args, "--options=lv_name,vg_name,lv_size");
    push_arg(&mut args, "--units=b");
    push_arg(&mut args, "--nosuffix");
    push_arg(&mut args, "--reportformat=json");
    invocation("lvs", args)
}

pub open spec fn lv_remove_cmd(pool: Seq<char>, uuid: Seq<char>) -> (Seq<char>, Seq<Seq<char>>) {
    ("lvremove"@, seq!["-f"@, uri_of(pool, uuid)])
}

/// Removes volume `uuid` of pool `pool`, without asking for confirmation.
pub fn lv_remove(pool: &str, uuid: &str) -> (r: Invocation)
    ensures
        r@ == lv_remove_cmd(pool@, uuid@),
{
    let path = crate::lvm::replica_uri(pool, uuid);
    let mut args: Vec<String> = Vec::new();
    push_arg(&mut args, "-f");
    push_arg(&mut args, path.as_str());
    invocation("lvremove", args)
}

} // verus!
