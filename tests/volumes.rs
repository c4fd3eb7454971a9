use lvm_lib::command::{Invocation, Outcome, Report, ReportKind, Step};
use lvm_lib::lvm::{replica_uri, CreateReplicaRequest, Error, Replica};
use lvm_lib::report::{LvEntry, LVsReport, LV};
use lvm_lib::volume::{create_lvm_vol, get_lvm_vol, list_lvm_vol, remove_lvm_vol};

const LVS_ARGS: [&str; 4] = ["--options=lv_name,vg_name,lv_size", "--units=b", "--nosuffix", "--reportformat=json"];

fn strings(items: &[&str]) -> Vec<String> {
    items.iter().map(|s| s.to_string()).collect()
}

fn expect_run<T>(step: Step<T>, program: &str, args: &[&str]) {
    match step {
        Step::Run(Invocation { program: p, args: a }) => {
            assert_eq!(p, program);
            assert_eq!(a, strings(args));
        }
        _ => panic!("expected a command"),
    }
}

fn expect_volume_query<T>(step: Step<T>) {
    match step {
        Step::Query(Invocation { program, args }, kind) => {
            assert_eq!(program, "lvs");
            assert_eq!(args, strings(&LVS_ARGS));
            assert_eq!(kind, ReportKind::Volumes);
        }
        _ => panic!("expected a query"),
    }
}

fn done<T>(step: Step<T>) -> Result<T, Error> {
    match step {
        Step::Done(r) => r,
        _ => panic!("expected the operation to be over"),
    }
}

fn volumes(rows: &[(&str, &str, &str)]) -> Outcome {
    let lv = rows
        .iter()
        .map(|(lv, vg, size)| LvEntry { lv_name: lv.to_string(), vg_name: vg.to_string(), lv_size: size.to_string() })
        .collect();
    Outcome::Reported(Report::Volumes(LVsReport { report: vec![LV { lv }] }))
}

fn request(uuid: &str, pool: &str, size: u64, thin: bool, share: i32) -> CreateReplicaRequest {
    CreateReplicaRequest { uuid: uuid.to_string(), pool: pool.to_string(), size, thin, share }
}

fn create(req: CreateReplicaRequest) -> Result<Replica, Error> {
    let (mut c, _) = create_lvm_vol(req);
    done(c.resume(Outcome::Completed))
}

fn lookup(uuid: &str, report: Outcome) -> Result<Replica, Error> {
    let (mut g, step) = get_lvm_vol(uuid.to_string());
    expect_volume_query(step);
    done(g.resume(report))
}

#[test]
fn create_one_gib_volume() {
    let (mut c, step) = create_lvm_vol(request("vol-1", "tank1", 1073741824, false, 0));
    expect_run(step, "lvcreate", &["-L", "1073741824b", "-n", "vol-1", "tank1"]);
    let r = done(c.resume(Outcome::Completed)).unwrap();
    assert_eq!(r.uuid, "vol-1");
    assert_eq!(r.pool, "tank1");
    assert_eq!(r.size, 1073741824);
    assert!(!r.thin);
    assert_eq!(r.share, 0);
    assert_eq!(r.uri, "/dev/tank1/vol-1");
}

#[test]
fn thin_and_share_are_not_honoured() {
    let r = create(request("vol-2", "tank1", 0, true, 1)).unwrap();
    assert!(!r.thin);
    assert_eq!(r.share, 0);
    let (_, step) = create_lvm_vol(request("vol-2", "tank1", 0, true, 1));
    expect_run(step, "lvcreate", &["-L", "0b", "-n", "vol-2", "tank1"]);
}

#[test]
fn create_volume_failure_carries_stderr() {
    let (mut c, _) = create_lvm_vol(request("vol-1", "tank1", 4096, false, 0));
    let step = c.resume(Outcome::Failed { stderr: b"Insufficient free space".to_vec() });
    match done(step) {
        Err(Error::FailedExec { err }) => assert_eq!(err, "Insufficient free space"),
        _ => panic!("expected an execution failure"),
    }
    let (mut c, _) = create_lvm_vol(request("vol-1", "tank1", 4096, false, 0));
    let step = c.resume(Outcome::Failed { stderr: vec![0xc3, 0x28] });
    match done(step) {
        Err(Error::FailedExec { err }) => assert_eq!(err, "failed to execute lvcreate"),
        _ => panic!("expected an execution failure"),
    }
}

#[test]
fn uri_depends_on_pool_and_uuid_only() {
    let a = create(request("vol-1", "tank1", 1, false, 0)).unwrap();
    let b = create(request("vol-1", "tank1", 1 << 40, true, 7)).unwrap();
    assert_eq!(a.uri, b.uri);
    let listed = lookup("vol-1", volumes(&[("vol-1", "tank1", "512")])).unwrap();
    assert_eq!(listed.uri, a.uri);
    assert_eq!(replica_uri("tank1", "vol-1"), "/dev/tank1/vol-1");
    assert_ne!(replica_uri("tank2", "vol-1"), a.uri);
}

#[test]
fn list_volumes_of_all_pools() {
    let (mut l, step) = list_lvm_vol();
    expect_volume_query(step);
    let vs = done(l.resume(volumes(&[("vol-1", "tank1", "1073741824"), ("vol-2", "tank2", "4096")]))).unwrap();
    assert_eq!(vs.len(), 2);
    assert_eq!((vs[0].uuid.as_str(), vs[0].pool.as_str(), vs[0].size), ("vol-1", "tank1", 1073741824));
    assert_eq!(vs[0].uri, "/dev/tank1/vol-1");
    assert_eq!((vs[1].uuid.as_str(), vs[1].pool.as_str(), vs[1].size), ("vol-2", "tank2", 4096));
    assert_eq!(vs[1].uri, "/dev/tank2/vol-2");
}

#[test]
fn list_volumes_with_bad_size_is_a_parse_failure() {
    let (mut l, _) = list_lvm_vol();
    let step = l.resume(volumes(&[("vol-1", "tank1", "1073741824"), ("vol-2", "tank2", "4k")]));
    assert!(matches!(done(step), Err(Error::FailedParsing { .. })));
    let (mut l, _) = list_lvm_vol();
    let step = l.resume(Outcome::Reported(Report::Volumes(LVsReport { report: vec![] })));
    assert!(matches!(done(step), Err(Error::FailedParsing { .. })));
}

#[test]
fn get_finds_first_volume_with_uuid() {
    let report = volumes(&[("vol-0", "tank1", "1"), ("vol-1", "tank2", "2"), ("vol-1", "tank3", "3")]);
    let r = lookup("vol-1", report).unwrap();
    assert_eq!(r.pool, "tank2");
    assert_eq!(r.size, 2);
    assert_eq!(r.uri, "/dev/tank2/vol-1");
}

#[test]
fn get_missing_volume_is_not_found() {
    match lookup("vol-9", volumes(&[("vol-1", "tank1", "1")])) {
        Err(Error::NotFound { name }) => assert_eq!(name, "vol-9"),
        _ => panic!("expected not found"),
    }
    match lookup("vol-9", volumes(&[])) {
        Err(Error::NotFound { name }) => assert_eq!(name, "vol-9"),
        _ => panic!("expected not found"),
    }
}

#[test]
fn get_with_failed_query_is_exec_failure() {
    match lookup("vol-1", Outcome::Failed { stderr: b"lvs: locking failed".to_vec() }) {
        Err(Error::FailedExec { err }) => assert_eq!(err, "lvs: locking failed"),
        _ => panic!("expected an execution failure"),
    }
}

#[test]
fn remove_volume_then_get_is_not_found() {
    let (mut r, step) = remove_lvm_vol("vol-1".to_string());
    expect_volume_query(step);
    let step = r.resume(volumes(&[("vol-1", "tank1", "1073741824")]));
    expect_run(step, "lvremove", &["-f", "/dev/tank1/vol-1"]);
    assert!(done(r.resume(Outcome::Completed)).is_ok());
    match lookup("vol-1", volumes(&[])) {
        Err(Error::NotFound { name }) => assert_eq!(name, "vol-1"),
        _ => panic!("expected not found"),
    }
}

#[test]
fn remove_missing_volume_issues_no_removal() {
    let (mut r, _) = remove_lvm_vol("vol-1".to_string());
    let step = r.resume(volumes(&[("vol-2", "tank1", "1")]));
    match done(step) {
        Err(Error::NotFound { name }) => assert_eq!(name, "vol-1"),
        _ => panic!("expected not found"),
    }
}

#[test]
fn remove_volume_failure_carries_stderr() {
    let (mut r, _) = remove_lvm_vol("vol-1".to_string());
    r.resume(volumes(&[("vol-1", "tank1", "1")]));
    let step = r.resume(Outcome::Failed { stderr: b"Logical volume in use".to_vec() });
    match done(step) {
        Err(Error::FailedExec { err }) => assert_eq!(err, "Logical volume in use"),
        _ => panic!("expected an execution failure"),
    }
}

#[test]
fn volume_size_may_carry_a_plus_sign() {
    let r = lookup("vol-1", volumes(&[("vol-1", "tank1", "+4096")])).unwrap();
    assert_eq!(r.size, 4096);
}
