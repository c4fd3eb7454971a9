use lvm_lib::command::{Invocation, Outcome, Report, ReportKind, Step};
use lvm_lib::lvm::{Error, Pool, PoolCreateReq};
use lvm_lib::pool::{create_vg, get_vg, list_vg, remove_vg};
use lvm_lib::report::{PVsReport, VGList, VGListReport, VGName, VGSize, VGsReport, VgPvMap, PV, VG};

fn strings(items: &[&str]) -> Vec<String> {
    items.iter().map(|s| s.to_string()).collect()
}

fn expect_run<T>(step: Step<T>, program: &str, args: &[&str]) {
    match step {
        Step::Run(Invocation { program: p, args: a }) => {
            assert_eq!(p, program);
            assert_eq!(a, strings(args));
        }
        _ => panic!("expected a command"),
    }
}

fn expect_query<T>(step: Step<T>, program: &str, args: &[&str], kind: ReportKind) {
    match step {
        Step::Query(Invocation { program: p, args: a }, k) => {
            assert_eq!(p, program);
            assert_eq!(a, strings(args));
            assert_eq!(k, kind);
        }
        _ => panic!("expected a query"),
    }
}

fn done<T>(step: Step<T>) -> Result<T, Error> {
    match step {
        Step::Done(r) => r,
        _ => panic!("expected the operation to be over"),
    }
}

fn sizes(size: &str, free: &str) -> Outcome {
    Outcome::Reported(Report::PoolSizes(VGsReport {
        report: vec![VG { vg: vec![VGSize { vg_size: size.to_string(), vg_free: free.to_string() }] }],
    }))
}

fn device_map(rows: &[(&str, &str)]) -> Outcome {
    let pv = rows
        .iter()
        .map(|(vg, pv)| VgPvMap { vg_name: vg.to_string(), pv_name: pv.to_string() })
        .collect();
    Outcome::Reported(Report::DeviceMap(PVsReport { report: vec![PV { pv }] }))
}

fn pool_names(names: &[&str]) -> Outcome {
    let vg = names.iter().map(|n| VGName { vg_name: n.to_string() }).collect();
    Outcome::Reported(Report::PoolNames(VGListReport { report: vec![VGList { vg }] }))
}

const SIZE_ARGS: [&str; 5] = ["--options=vg_size,vg_free", "--units=b", "--noheadings", "--nosuffix", "--reportformat=json"];
const PV_ARGS: [&str; 3] = ["--options=vg_name,pv_name", "--noheadings", "--reportformat=json"];

fn size_args(name: &str) -> Vec<&str> {
    let mut a = vec![name];
    a.extend_from_slice(&SIZE_ARGS);
    a
}

const NAME_ARGS: [&str; 2] = ["--options=vg_name", "--reportformat=json"];

/// Starts a lookup of `name` and answers its name query with a report that
/// lists the pool.
fn lookup(name: &str) -> lvm_lib::pool::GetVg {
    let (mut g, step) = get_vg(name.to_string());
    expect_query(step, "vgs", &NAME_ARGS, ReportKind::PoolNames);
    let step = g.resume(pool_names(&["other", name]));
    expect_query(step, "vgs", &size_args(name), ReportKind::PoolSizes);
    g
}

fn read_pool(name: &str, size: &str, free: &str, rows: &[(&str, &str)]) -> Result<Pool, Error> {
    let mut g = lookup(name);
    let step = g.resume(sizes(size, free));
    expect_query(step, "pvs", &PV_ARGS, ReportKind::DeviceMap);
    done(g.resume(device_map(rows)))
}

#[test]
fn create_pool_over_two_devices() {
    let req = PoolCreateReq { name: "tank1".to_string(), devices: strings(&["/dev/sdb", "/dev/sdc"]) };
    let (mut c, step) = create_vg(req);
    expect_run(step, "pvcreate", &["/dev/sdb", "/dev/sdc"]);
    let step = c.resume(Outcome::Completed);
    expect_run(step, "vgcreate", &["tank1", "/dev/sdb", "/dev/sdc"]);
    let step = c.resume(Outcome::Completed);
    expect_query(step, "vgs", &NAME_ARGS, ReportKind::PoolNames);
    let step = c.resume(pool_names(&["tank1"]));
    expect_query(step, "vgs", &size_args("tank1"), ReportKind::PoolSizes);
    let step = c.resume(sizes("21466447872", "21466447872"));
    expect_query(step, "pvs", &PV_ARGS, ReportKind::DeviceMap);
    let step = c.resume(device_map(&[("tank1", "/dev/sdb"), ("other", "/dev/sdd"), ("tank1", "/dev/sdc")]));
    let pool = done(step).unwrap();
    assert_eq!(pool.name, "tank1");
    assert_eq!(pool.devices, strings(&["/dev/sdb", "/dev/sdc"]));
    assert_eq!(pool.capacity, 21466447872);
    assert_eq!(pool.used, 0);
}

#[test]
fn create_pool_stops_when_devices_cannot_be_initialised() {
    let req = PoolCreateReq { name: "tank1".to_string(), devices: strings(&["/dev/sdb"]) };
    let (mut c, _) = create_vg(req);
    let step = c.resume(Outcome::Failed { stderr: b"Device /dev/sdb not found.".to_vec() });
    match done(step) {
        Err(Error::FailedExec { err }) => assert_eq!(err, "Device /dev/sdb not found."),
        _ => panic!("expected an execution failure"),
    }
}

#[test]
fn create_pool_failure_uses_fallback_for_binary_stderr() {
    let req = PoolCreateReq { name: "tank1".to_string(), devices: strings(&["/dev/sdb"]) };
    let (mut c, _) = create_vg(req);
    c.resume(Outcome::Completed);
    let step = c.resume(Outcome::Failed { stderr: vec![0xff, 0xfe, 0x00] });
    match done(step) {
        Err(Error::FailedExec { err }) => assert_eq!(err, "failed to execute vg_create"),
        _ => panic!("expected an execution failure"),
    }
}

#[test]
fn used_is_capacity_minus_free() {
    let pool = read_pool("tank1", "1000", "250", &[("tank1", "/dev/sdb")]).unwrap();
    assert_eq!(pool.capacity, 1000);
    assert_eq!(pool.used, 750);
    assert!(pool.used <= pool.capacity);
    assert_eq!(pool.devices, strings(&["/dev/sdb"]));
}

#[test]
fn free_above_capacity_is_a_parse_failure() {
    match read_pool_sizes_only("tank1", "100", "101") {
        Err(Error::FailedParsing { err }) => assert_eq!(err, "free bytes exceed the pool size"),
        _ => panic!("expected a parse failure"),
    }
}

fn read_pool_sizes_only(name: &str, size: &str, free: &str) -> Result<Pool, Error> {
    let mut g = lookup(name);
    done(g.resume(sizes(size, free)))
}

#[test]
fn non_numeric_size_is_a_parse_failure() {
    match read_pool_sizes_only("tank1", "10G", "0") {
        Err(Error::FailedParsing { err }) => assert_eq!(err, "10G"),
        _ => panic!("expected a parse failure"),
    }
    assert!(matches!(read_pool_sizes_only("tank1", "100", ""), Err(Error::FailedParsing { .. })));
    assert!(matches!(
        read_pool_sizes_only("tank1", "18446744073709551616", "0"),
        Err(Error::FailedParsing { .. })
    ));
}

#[test]
fn sizes_may_carry_a_plus_sign() {
    let pool = read_pool("tank1", "+1000", "+10", &[]).unwrap();
    assert_eq!(pool.capacity, 1000);
    assert_eq!(pool.used, 990);
    assert!(matches!(read_pool_sizes_only("tank1", "+", "0"), Err(Error::FailedParsing { .. })));
}

#[test]
fn largest_size_is_accepted() {
    let pool = read_pool("tank1", "18446744073709551615", "0", &[]).unwrap();
    assert_eq!(pool.capacity, u64::MAX);
    assert_eq!(pool.used, u64::MAX);
    assert!(pool.devices.is_empty());
}

#[test]
fn missing_size_row_is_a_parse_failure() {
    let mut g = lookup("tank1");
    let empty = Outcome::Reported(Report::PoolSizes(VGsReport { report: vec![VG { vg: vec![] }] }));
    match done(g.resume(empty)) {
        Err(Error::FailedParsing { err }) => assert_eq!(err, "no size row in the pool report"),
        _ => panic!("expected a parse failure"),
    }
    let mut g = lookup("tank1");
    let empty = Outcome::Reported(Report::PoolSizes(VGsReport { report: vec![] }));
    assert!(matches!(done(g.resume(empty)), Err(Error::FailedParsing { .. })));
}

#[test]
fn undecodable_report_is_a_parse_failure() {
    let mut g = lookup("tank1");
    let step = g.resume(Outcome::Undecodable { err: "expected value at line 1 column 1".to_string() });
    match done(step) {
        Err(Error::FailedParsing { err }) => assert_eq!(err, "expected value at line 1 column 1"),
        _ => panic!("expected a parse failure"),
    }
}

#[test]
fn wrong_report_kind_is_a_parse_failure() {
    let mut g = lookup("tank1");
    let step = g.resume(pool_names(&["tank1"]));
    assert!(matches!(done(step), Err(Error::FailedParsing { .. })));
    let (mut g, _) = get_vg("tank1".to_string());
    assert!(matches!(done(g.resume(Outcome::Completed)), Err(Error::FailedParsing { .. })));
}

#[test]
fn missing_device_section_is_a_parse_failure() {
    let mut g = lookup("tank1");
    g.resume(sizes("100", "0"));
    let step = g.resume(Outcome::Reported(Report::DeviceMap(PVsReport { report: vec![] })));
    match done(step) {
        Err(Error::FailedParsing { err }) => assert_eq!(err, "no section in the device report"),
        _ => panic!("expected a parse failure"),
    }
}

#[test]
fn removed_pool_is_not_found() {
    let (mut g, step) = get_vg("tank1".to_string());
    expect_query(step, "vgs", &NAME_ARGS, ReportKind::PoolNames);
    match done(g.resume(pool_names(&["tank2"]))) {
        Err(Error::NotFound { name }) => assert_eq!(name, "tank1"),
        _ => panic!("expected not found"),
    }
    let (mut g, _) = get_vg("tank1".to_string());
    match done(g.resume(pool_names(&[]))) {
        Err(Error::NotFound { name }) => assert_eq!(name, "tank1"),
        _ => panic!("expected not found"),
    }
}

#[test]
fn failed_name_query_is_exec_failure() {
    let (mut g, _) = get_vg("tank1".to_string());
    let step = g.resume(Outcome::Failed { stderr: b"locking failed".to_vec() });
    match done(step) {
        Err(Error::FailedExec { err }) => assert_eq!(err, "locking failed"),
        _ => panic!("expected an execution failure"),
    }
}

#[test]
fn remove_pool_then_list_omits_it() {
    let (mut r, step) = remove_vg("tank1".to_string());
    expect_query(step, "vgs", &NAME_ARGS, ReportKind::PoolNames);
    let step = r.resume(pool_names(&["tank1", "tank2"]));
    expect_query(step, "vgs", &size_args("tank1"), ReportKind::PoolSizes);
    let step = r.resume(sizes("1000", "1000"));
    expect_query(step, "pvs", &PV_ARGS, ReportKind::DeviceMap);
    let step = r.resume(device_map(&[("tank1", "/dev/sdb"), ("tank1", "/dev/sdc"), ("tank2", "/dev/sdd")]));
    expect_run(step, "vgremove", &["tank1"]);
    let step = r.resume(Outcome::Completed);
    expect_run(step, "pvremove", &["/dev/sdb", "/dev/sdc"]);
    assert!(done(r.resume(Outcome::Completed)).is_ok());

    let (mut l, step) = list_vg();
    expect_query(step, "vgs", &["--options=vg_name", "--reportformat=json"], ReportKind::PoolNames);
    let step = l.resume(pool_names(&["tank2"]));
    expect_query(step, "vgs", &size_args("tank2"), ReportKind::PoolSizes);
    let step = l.resume(sizes("500", "100"));
    expect_query(step, "pvs", &PV_ARGS, ReportKind::DeviceMap);
    let pools = done(l.resume(device_map(&[("tank2", "/dev/sdd")]))).unwrap();
    assert_eq!(pools.len(), 1);
    assert_eq!(pools[0].name, "tank2");
    assert_eq!(pools[0].used, 400);
    assert!(pools.iter().all(|p| p.name != "tank1"));
}

#[test]
fn remove_pool_stops_before_removing_when_lookup_fails() {
    let (mut r, _) = remove_vg("tank1".to_string());
    match done(r.resume(pool_names(&["tank2"]))) {
        Err(Error::NotFound { name }) => assert_eq!(name, "tank1"),
        _ => panic!("expected not found"),
    }
    let (mut r, _) = remove_vg("tank1".to_string());
    r.resume(pool_names(&["tank1"]));
    let step = r.resume(sizes("1", "2"));
    assert!(matches!(done(step), Err(Error::FailedParsing { .. })));
}

#[test]
fn remove_pool_reports_failed_device_release() {
    let (mut r, _) = remove_vg("tank1".to_string());
    r.resume(pool_names(&["tank1"]));
    r.resume(sizes("1000", "1000"));
    r.resume(device_map(&[("tank1", "/dev/sdb")]));
    r.resume(Outcome::Completed);
    let step = r.resume(Outcome::Failed { stderr: b"pvremove failed".to_vec() });
    match done(step) {
        Err(Error::FailedExec { err }) => assert_eq!(err, "pvremove failed"),
        _ => panic!("expected an execution failure"),
    }
}

#[test]
fn list_without_pools_is_empty() {
    let (mut l, _) = list_vg();
    let pools = done(l.resume(pool_names(&[]))).unwrap();
    assert!(pools.is_empty());
}

#[test]
fn list_reads_every_pool_in_order() {
    let (mut l, _) = list_vg();
    l.resume(pool_names(&["a", "b"]));
    l.resume(sizes("10", "5"));
    let step = l.resume(device_map(&[("a", "/dev/sda"), ("b", "/dev/sdb")]));
    expect_query(step, "vgs", &size_args("b"), ReportKind::PoolSizes);
    l.resume(sizes("20", "20"));
    let pools = done(l.resume(device_map(&[("a", "/dev/sda"), ("b", "/dev/sdb")]))).unwrap();
    assert_eq!(pools.len(), 2);
    assert_eq!((pools[0].name.as_str(), pools[0].used), ("a", 5));
    assert_eq!(pools[0].devices, strings(&["/dev/sda"]));
    assert_eq!((pools[1].name.as_str(), pools[1].used), ("b", 0));
    assert_eq!(pools[1].devices, strings(&["/dev/sdb"]));
}

#[test]
fn list_stops_at_first_failed_lookup() {
    let (mut l, _) = list_vg();
    l.resume(pool_names(&["a", "b"]));
    let step = l.resume(sizes("1", "2"));
    assert!(matches!(done(step), Err(Error::FailedParsing { .. })));
}
