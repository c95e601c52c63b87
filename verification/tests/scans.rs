use oracle_scans::catalog::{
    confirm_saved, register_datapoint_scan, register_epoch_preparation_scan,
    register_local_oracle_datapoint_scan, register_pool_box_scan, register_pool_deposit_scan,
    register_refresh_box_scan, save_scan_ids_locally,
};
use oracle_scans::description::{Description, Member};
use oracle_scans::predicate::Predicate;
use oracle_scans::scan::{is_null_id, Registration, Scan, ScanError};

fn s(text: &str) -> String {
    text.to_string()
}

fn text_member(key: &str, text: &str) -> Member {
    Member { key: s(key), value: Description::Text(s(text)) }
}

fn asset(id: &str) -> Description {
    Description::Record(vec![text_member("predicate", "containsAsset"), text_member("assetId", id)])
}

fn script(bytes: &str) -> Description {
    Description::Record(vec![text_member("predicate", "equals"), text_member("value", bytes)])
}

fn register_of(register: &str, bytes: &str) -> Description {
    Description::Record(vec![
        text_member("predicate", "equals"),
        text_member("register", register),
        text_member("value", bytes),
    ])
}

fn all_of(items: Vec<Description>) -> Description {
    Description::Record(vec![
        text_member("predicate", "and"),
        Member { key: s("args"), value: Description::List(items) },
    ])
}

fn six() -> Vec<Registration> {
    vec![
        register_pool_box_scan(&s("nft"), &s("0e01")),
        register_refresh_box_scan("Refresh Box Scan", &s("refresh"), &s("0e02")),
        register_epoch_preparation_scan(&s("nft"), &s("0e03")),
        register_local_oracle_datapoint_scan(&s("token"), &s("0e04"), &s("07ab")),
        register_datapoint_scan(&s("token"), &s("0e04")),
        register_pool_deposit_scan(&s("0e05")),
    ]
}

#[test]
fn describes_each_condition_with_its_members() {
    assert_eq!(Predicate::ContainsAsset(s("a1")).describe(), asset("a1"));
    assert_eq!(Predicate::EqualsValue(s("b2")).describe(), script("b2"));
    assert_eq!(Predicate::EqualsRegister(s("R4"), s("c3")).describe(), register_of("R4", "c3"));
    assert_eq!(
        Predicate::And(vec![Predicate::ContainsAsset(s("a1")), Predicate::EqualsValue(s("b2"))])
            .describe(),
        all_of(vec![asset("a1"), script("b2")])
    );
    assert_eq!(Predicate::And(vec![]).describe(), all_of(vec![]));
}

#[test]
fn description_keeps_the_order_of_the_parts() {
    let forward =
        Predicate::And(vec![Predicate::ContainsAsset(s("a")), Predicate::EqualsValue(s("b"))]);
    let backward =
        Predicate::And(vec![Predicate::EqualsValue(s("b")), Predicate::ContainsAsset(s("a"))]);
    assert_eq!(backward.describe(), all_of(vec![script("b"), asset("a")]));
    assert_ne!(forward.describe(), backward.describe());
}

#[test]
fn parse_gives_back_what_was_described() {
    for pending in six() {
        let described = pending.rule().describe();
        assert_eq!(Predicate::parse(&described).as_ref(), Some(pending.rule()));
    }
    let nested = Predicate::And(vec![
        Predicate::And(vec![Predicate::EqualsRegister(s("R5"), s("ff"))]),
        Predicate::And(vec![]),
        Predicate::ContainsAsset(s("")),
    ]);
    assert_eq!(Predicate::parse(&nested.describe()), Some(nested));
}

#[test]
fn parse_refuses_what_describes_no_rule() {
    assert_eq!(Predicate::parse(&Description::Text(s("equals"))), None);
    assert_eq!(Predicate::parse(&Description::List(vec![])), None);
    assert_eq!(Predicate::parse(&Description::Record(vec![])), None);
    assert_eq!(
        Predicate::parse(&Description::Record(vec![text_member("predicate", "equals")])),
        None
    );
    assert_eq!(
        Predicate::parse(&Description::Record(vec![
            text_member("predicate", "or"),
            text_member("value", "00"),
        ])),
        None
    );
    assert_eq!(
        Predicate::parse(&Description::Record(vec![
            text_member("value", "00"),
            text_member("predicate", "equals"),
        ])),
        None
    );
    assert_eq!(
        Predicate::parse(&Description::Record(vec![
            text_member("predicate", "containsAsset"),
            text_member("value", "00"),
        ])),
        None
    );
    assert_eq!(
        Predicate::parse(&Description::Record(vec![
            text_member("predicate", "equals"),
            text_member("value", "00"),
            text_member("register", "R4"),
        ])),
        None
    );
    assert_eq!(
        Predicate::parse(&Description::Record(vec![
            text_member("predicate", "and"),
            text_member("args", "00"),
        ])),
        None
    );
    assert_eq!(
        Predicate::parse(&all_of(vec![script("00"), Description::Text(s("x"))])),
        None
    );
}

#[test]
fn parse_reads_each_kind() {
    assert_eq!(Predicate::parse(&asset("a1")), Some(Predicate::ContainsAsset(s("a1"))));
    assert_eq!(Predicate::parse(&script("b2")), Some(Predicate::EqualsValue(s("b2"))));
    assert_eq!(
        Predicate::parse(&register_of("R4", "c3")),
        Some(Predicate::EqualsRegister(s("R4"), s("c3")))
    );
    assert_eq!(
        Predicate::parse(&all_of(vec![asset("a1"), script("b2")])),
        Some(Predicate::And(vec![
            Predicate::ContainsAsset(s("a1")),
            Predicate::EqualsValue(s("b2")),
        ]))
    );
}

#[test]
fn catalog_names_and_rules() {
    let pending = six();
    let names: Vec<&str> = pending.iter().map(|p| p.name()).collect();
    assert_eq!(
        names,
        vec![
            "Pool Box Scan",
            "Refresh Box Scan",
            "Epoch Preparation Scan",
            "Local Oracle Datapoint Scan",
            "All Datapoints Scan",
            "Pool Deposits Scan",
        ]
    );
    assert_eq!(
        pending[0].rule(),
        &Predicate::And(vec![Predicate::ContainsAsset(s("nft")), Predicate::EqualsValue(s("0e01"))])
    );
    assert_eq!(
        pending[1].rule(),
        &Predicate::And(vec![
            Predicate::ContainsAsset(s("refresh")),
            Predicate::EqualsValue(s("0e02")),
        ])
    );
    assert_eq!(
        pending[2].rule(),
        &Predicate::And(vec![Predicate::ContainsAsset(s("nft")), Predicate::EqualsValue(s("0e03"))])
    );
    assert_eq!(
        pending[3].rule(),
        &Predicate::And(vec![
            Predicate::ContainsAsset(s("token")),
            Predicate::EqualsValue(s("0e04")),
            Predicate::EqualsRegister(s("R4"), s("07ab")),
        ])
    );
    assert_eq!(
        pending[4].rule(),
        &Predicate::And(vec![
            Predicate::ContainsAsset(s("token")),
            Predicate::EqualsValue(s("0e04")),
        ])
    );
    assert_eq!(pending[5].rule(), &Predicate::EqualsValue(s("0e05")));
}

#[test]
fn only_the_deposit_scan_asks_for_no_asset() {
    let found: Vec<bool> = six().iter().map(|p| p.rule().checks_asset()).collect();
    assert_eq!(found, vec![true, true, true, true, true, false]);
}

#[test]
fn checks_asset_looks_at_every_depth() {
    assert!(!Predicate::And(vec![]).checks_asset());
    assert!(!Predicate::EqualsRegister(s("R4"), s("00")).checks_asset());
    assert!(Predicate::And(vec![
        Predicate::EqualsValue(s("00")),
        Predicate::And(vec![Predicate::EqualsValue(s("01")), Predicate::ContainsAsset(s("a"))]),
    ])
    .checks_asset());
}

#[test]
fn request_holds_name_and_rule() {
    let pending = Scan::register("Pool Deposits Scan", Predicate::EqualsValue(s("0e05")));
    assert_eq!(
        pending.request(),
        Description::Record(vec![
            text_member("scanName", "Pool Deposits Scan"),
            Member { key: s("trackingRule"), value: script("0e05") },
        ])
    );
    assert_eq!(register_pool_deposit_scan(&s("0e05")).request(), pending.request());
}

#[test]
fn register_with_an_identifier_makes_the_scan() {
    let scan = Scan::register("Mine", Predicate::EqualsValue(s("00")))
        .complete(Ok(s("17")))
        .unwrap();
    assert_eq!(scan.name(), "Mine");
    assert_eq!(scan.id(), "17");
}

#[test]
fn register_with_the_null_identifier_fails() {
    for pending in six() {
        assert!(matches!(pending.complete(Ok(s("null"))), Err(ScanError::FailedToRegister)));
    }
}

#[test]
fn register_hands_on_the_failure_of_the_node() {
    let out = Scan::register("Mine", Predicate::EqualsValue(s("00"))).complete(Err(s("refused")));
    match out {
        Err(ScanError::NodeError(message)) => assert_eq!(message, "refused"),
        other => panic!("{:?}", other),
    }
}

#[test]
fn null_identifier_is_told_apart() {
    assert!(is_null_id(&s("null")));
    assert!(!is_null_id(&s("Null")));
    assert!(!is_null_id(&s("")));
    assert!(!is_null_id(&s("nul")));
    assert!(!is_null_id(&s("null ")));
}

#[test]
fn new_keeps_name_and_identifier() {
    let scan = Scan::new("A", &s("null"));
    assert_eq!(scan.name(), "A");
    assert_eq!(scan.id(), "null");
}

#[test]
fn get_boxes_on_no_match_is_empty() {
    let scan = Scan::new("A", &s("1"));
    let out: Vec<u32> = scan.get_boxes(Ok(vec![])).unwrap();
    assert!(out.is_empty());
}

#[test]
fn get_boxes_keeps_the_order_of_the_node() {
    let scan = Scan::new("A", &s("1"));
    assert_eq!(scan.get_boxes(Ok(vec![3u32, 1, 2])).unwrap(), vec![3, 1, 2]);
    assert!(matches!(
        scan.get_boxes::<u32>(Err(s("down"))),
        Err(ScanError::NodeError(m)) if m == "down"
    ));
}

#[test]
fn get_box_on_no_match_fails() {
    let scan = Scan::new("A", &s("1"));
    assert!(matches!(scan.get_box::<u32>(Ok(vec![])), Err(ScanError::NoBoxesFound)));
}

#[test]
fn get_box_gives_the_first() {
    let scan = Scan::new("A", &s("1"));
    assert_eq!(scan.get_box(Ok(vec![s("x")])).unwrap(), "x");
    assert_eq!(scan.get_box(Ok(vec![9u32, 4, 7])).unwrap(), 9);
    assert!(matches!(
        scan.get_box::<u32>(Err(s("down"))),
        Err(ScanError::NodeError(m)) if m == "down"
    ));
}

#[test]
fn serialized_replies_are_handed_on() {
    let scan = Scan::new("A", &s("1"));
    assert_eq!(scan.get_serialized_boxes(Ok(vec![s("aa"), s("bb")])).unwrap(), vec!["aa", "bb"]);
    assert!(scan.get_serialized_boxes(Ok(vec![])).unwrap().is_empty());
    assert_eq!(scan.get_serialized_box(Ok(s("aa"))).unwrap(), "aa");
    assert!(matches!(
        scan.get_serialized_boxes(Err(s("bad"))),
        Err(ScanError::NodeError(m)) if m == "bad"
    ));
    assert!(matches!(
        scan.get_serialized_box(Err(s("bad"))),
        Err(ScanError::NodeError(m)) if m == "bad"
    ));
}

#[test]
fn document_of_two_scans() {
    let text = save_scan_ids_locally(vec![Scan::new("A", &s("1")), Scan::new("B", &s("2"))])
        .unwrap();
    assert_eq!(text, "{\n    \"A\": \"1\",\n    \"B\": \"2\"\n}");
    let read = json::parse(&text).unwrap();
    assert!(read.is_object());
    assert_eq!(read.len(), 2);
    assert_eq!(read["A"].as_str(), Some("1"));
    assert_eq!(read["B"].as_str(), Some("2"));
    let keys: Vec<&str> = read.entries().map(|(key, _)| key).collect();
    assert_eq!(keys, vec!["A", "B"]);
}

#[test]
fn document_of_no_scan_is_an_empty_object() {
    let text = save_scan_ids_locally(vec![]).unwrap();
    assert_eq!(text, "{}");
}

#[test]
fn document_with_a_null_identifier_is_refused() {
    assert!(matches!(
        save_scan_ids_locally(vec![Scan::new("A", &s("null"))]),
        Err(ScanError::FailedToRegister)
    ));
    assert!(matches!(
        save_scan_ids_locally(vec![
            Scan::new("A", &s("1")),
            Scan::new("B", &s("null")),
            Scan::new("C", &s("3")),
        ]),
        Err(ScanError::FailedToRegister)
    ));
}

#[test]
fn document_keeps_one_member_for_a_name() {
    let text = save_scan_ids_locally(vec![
        Scan::new("A", &s("1")),
        Scan::new("B", &s("2")),
        Scan::new("A", &s("3")),
    ])
    .unwrap();
    assert_eq!(text, "{\n    \"A\": \"3\",\n    \"B\": \"2\"\n}");
}

#[test]
fn document_escapes_what_json_escapes() {
    let text = save_scan_ids_locally(vec![Scan::new("a\"b", &s("x\\y"))]).unwrap();
    let read = json::parse(&text).unwrap();
    assert_eq!(read["a\"b"].as_str(), Some("x\\y"));
}

#[test]
fn a_failed_write_is_an_io_error() {
    assert!(matches!(confirm_saved(Ok(())), Ok(true)));
    assert!(matches!(
        confirm_saved(Err(s("disk full"))),
        Err(ScanError::IoError(m)) if m == "disk full"
    ));
}
