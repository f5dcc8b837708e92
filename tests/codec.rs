use cpuset::{trim_line_endings, CpuRange, Error};

#[test]
fn single_number_reads_as_list_of_one() {
    assert_eq!(CpuRange::from_str("7").unwrap(), CpuRange::List(vec![7]));
    assert_eq!(CpuRange::from_str("0\n").unwrap(), CpuRange::List(vec![0]));
    assert_eq!(CpuRange::from_str("+5").unwrap(), CpuRange::List(vec![5]));
    assert_eq!(
        CpuRange::from_str("18446744073709551615").unwrap(),
        CpuRange::List(vec![usize::MAX])
    );
}

#[test]
fn list_of_one_writes_single_number() {
    assert_eq!(CpuRange::List(vec![7]).to_string(), "7");
    assert_eq!(CpuRange::List(vec![0]).to_string(), "0");
    assert_eq!(CpuRange::List(vec![1234]).to_string(), "1234");
}

#[test]
fn comma_list_reads_back() {
    assert_eq!(
        CpuRange::from_str("0,1,2").unwrap(),
        CpuRange::List(vec![0, 1, 2])
    );
    assert_eq!(
        CpuRange::from_str("4,10,3\n").unwrap(),
        CpuRange::List(vec![4, 10, 3])
    );
    assert_eq!(CpuRange::List(vec![4, 10, 3]).to_string(), "4,10,3");
}

#[test]
fn dash_range_reads_and_writes() {
    assert_eq!(
        CpuRange::from_str("0-3").unwrap(),
        CpuRange::Range { start: 0, end: 3 }
    );
    assert_eq!(
        CpuRange::from_str("12-7\r\n").unwrap(),
        CpuRange::Range { start: 12, end: 7 }
    );
    assert_eq!(CpuRange::Range { start: 0, end: 3 }.to_string(), "0-3");
    assert_eq!(CpuRange::Range { start: 12, end: 40 }.to_string(), "12-40");
}

#[test]
fn range_and_list_stay_apart() {
    assert_ne!(
        CpuRange::from_str("0-1").unwrap(),
        CpuRange::from_str("0,1").unwrap()
    );
}

#[test]
fn empty_texts_read_as_no_cpus() {
    assert_eq!(CpuRange::from_str("").unwrap(), CpuRange::Empty);
    assert_eq!(CpuRange::from_str("\n").unwrap(), CpuRange::Empty);
    assert_eq!(CpuRange::from_str("\r\n").unwrap(), CpuRange::Empty);
    assert_eq!(CpuRange::Empty.to_string(), "");
    assert_eq!(CpuRange::List(vec![]).to_string(), "");
}

#[test]
fn three_part_range_is_a_format_error() {
    match CpuRange::from_str("1-2-3") {
        Err(Error::InvalidFormat(text, expected)) => {
            assert_eq!(text, "1-2-3");
            assert_eq!(expected, "0-1 or 0,1,2");
        }
        other => panic!("unexpected result {:?}", other),
    }
}

#[test]
fn bad_list_entry_is_an_integer_error() {
    assert!(matches!(
        CpuRange::from_str("1,a,3"),
        Err(Error::InvalidInt(_))
    ));
    assert!(matches!(CpuRange::from_str("1,,3"), Err(Error::InvalidInt(_))));
    assert!(matches!(CpuRange::from_str("1-a"), Err(Error::InvalidInt(_))));
    assert!(matches!(CpuRange::from_str("1-a-3"), Err(Error::InvalidInt(_))));
    assert!(matches!(CpuRange::from_str("x"), Err(Error::InvalidInt(_))));
    assert!(matches!(CpuRange::from_str(" 1"), Err(Error::InvalidInt(_))));
    assert!(matches!(
        CpuRange::from_str("18446744073709551616"),
        Err(Error::InvalidInt(_))
    ));
}

#[test]
fn round_trip_of_written_sets() {
    let sets = vec![
        CpuRange::Empty,
        CpuRange::List(vec![9]),
        CpuRange::List(vec![0, 2, 4, 6]),
        CpuRange::Range { start: 1, end: 31 },
    ];
    for s in sets {
        assert_eq!(CpuRange::from_str(&s.to_string()).unwrap(), s);
    }
}

#[test]
fn trims_only_trailing_line_endings() {
    assert_eq!(trim_line_endings("0-3\r\n\n"), "0-3");
    assert_eq!(trim_line_endings("\n1\n"), "\n1");
    assert_eq!(trim_line_endings("1 \n"), "1 ");
    assert_eq!(trim_line_endings(""), "");
}
