use cpuset::set::parse_flag;
use cpuset::{CpuRange, CpuSet, Error, SetState, CPUSET_PATH};

#[test]
fn set_decoded_from_control_files() {
    let s = SetState::from_contents("group0", "0-3\n", "1\n").unwrap();
    assert_eq!(
        s,
        SetState {
            name: "group0".to_string(),
            cpus: CpuRange::Range { start: 0, end: 3 },
            cpu_exclusive: true,
        }
    );
    let s = SetState::from_contents("g", "\n", "0\n").unwrap();
    assert_eq!(s.cpus, CpuRange::Empty);
    assert!(!s.cpu_exclusive);
}

#[test]
fn set_with_bad_cpu_list_fails() {
    assert!(matches!(
        SetState::from_contents("g", "1-2-3\n", "0\n"),
        Err(Error::InvalidFormat(_, _))
    ));
    assert!(matches!(
        SetState::from_contents("g", "0-3\n", "yes\n"),
        Err(Error::InvalidInt(_))
    ));
}

#[test]
fn exclusive_flag_values() {
    assert_eq!(parse_flag("0\n").unwrap(), false);
    assert_eq!(parse_flag("1").unwrap(), true);
    assert!(matches!(parse_flag("2\n"), Err(Error::UnexpectedFlag(2))));
    assert!(matches!(parse_flag(""), Err(Error::InvalidInt(_))));
    assert!(matches!(parse_flag("true"), Err(Error::InvalidInt(_))));
}

#[test]
fn controller_keeps_its_path() {
    let c = CpuSet::new("/tmp/cpuset");
    assert_eq!(c.path(), "/tmp/cpuset");
    assert_eq!(CpuSet::new(CPUSET_PATH).path(), "/sys/fs/cgroup/cpuset");
}

#[test]
fn creation_checked_afterwards() {
    assert!(CpuSet::creation_result(true).is_ok());
    assert!(matches!(
        CpuSet::creation_result(false),
        Err(Error::CreationFailed)
    ));
}

#[test]
fn io_errors_convert() {
    let e = std::io::Error::new(std::io::ErrorKind::NotFound, "missing");
    match Error::from(e) {
        Error::Io(inner) => assert_eq!(inner.kind(), std::io::ErrorKind::NotFound),
        other => panic!("unexpected error {:?}", other),
    }
}
