use winfw::{get_fw_rules, Error, NativeRecord};

#[test]
fn test_get_fw_rules() {
    let records: Vec<NativeRecord> = Vec::new();
    let rules = get_fw_rules(0, &records);
    match rules {
        Err(_) => assert!(false),
        Ok(_) => {
            assert!(true)
        }
    }
}

#[test]
fn listing_of_nothing_is_empty() {
    let records: Vec<NativeRecord> = Vec::new();
    let rules = get_fw_rules(0, &records);
    assert_eq!(rules.map(|r| r.len()), Ok(0));
}

#[test]
fn listing_failure_carries_the_status() {
    let records: Vec<NativeRecord> = Vec::new();
    let rules = get_fw_rules(5, &records);
    assert_eq!(rules.err(), Some(Error::Native(5)));
}

#[test]
fn listing_failure_wins_over_the_records() {
    let records = vec![NativeRecord::default()];
    assert_eq!(get_fw_rules(0x8000_4005, &records).err(), Some(Error::Native(0x8000_4005)));
}

#[test]
fn listing_keeps_the_order_of_the_enumeration() {
    let mut b = NativeRecord::default();
    b.name[0] = b'b';
    let mut a = NativeRecord::default();
    a.name[0] = b'a';
    let rules = get_fw_rules(0, &[b, a]).unwrap();
    assert_eq!(rules.len(), 2);
    assert_eq!(rules[0].name, "b");
    assert_eq!(rules[1].name, "a");
}

#[test]
fn listing_with_an_unreadable_record_is_a_decoding_error() {
    let mut bad = NativeRecord::default();
    bad.remote_ports = [b'9'; 1024];
    assert_eq!(get_fw_rules(0, &[NativeRecord::default(), bad]).err(), Some(Error::Decode));
}
