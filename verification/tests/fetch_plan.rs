use upower_registry::fetch::{
    FetchGranularity, FetchRequest, wire_names, plan_requests, merge_responses,
};
use upower_registry::raw::RawValue;

#[test]
fn the_field_table_lists_every_wire_name_in_order() {
    let names = wire_names();
    assert_eq!(names.len(), 37);
    assert_eq!(names[0], "NativePath");
    assert_eq!(names[5], "Type");
    assert_eq!(names[9], "Online");
    assert_eq!(names[30], "ChargeStartThreshold");
    assert_eq!(names[36], "CapacityLevel");
}

#[test]
fn bulk_granularity_plans_one_request_per_device() {
    let plan = plan_requests("/dev/h1", FetchGranularity::Bulk);
    assert_eq!(plan, vec![FetchRequest::GetAll { handle: "/dev/h1".to_owned() }]);
}

#[test]
fn per_field_granularity_plans_one_request_per_table_entry() {
    let plan = plan_requests("/dev/h1", FetchGranularity::PerField);
    assert_eq!(plan.len(), 37);
    assert_eq!(
        plan[0],
        FetchRequest::Get { handle: "/dev/h1".to_owned(), name: "NativePath".to_owned() },
    );
    assert_eq!(
        plan[36],
        FetchRequest::Get { handle: "/dev/h1".to_owned(), name: "CapacityLevel".to_owned() },
    );
    for (i, name) in wire_names().into_iter().enumerate() {
        assert_eq!(plan[i], FetchRequest::Get { handle: "/dev/h1".to_owned(), name });
    }
}

#[test]
fn merge_keeps_successful_answers_in_order_and_drops_failures() {
    let parts = vec![
        ("Vendor".to_owned(), Some(RawValue::Text("Acme".to_owned()))),
        ("Temperature".to_owned(), None),
        ("UpdateTime".to_owned(), Some(RawValue::Uint(7))),
    ];
    let record = merge_responses(&parts);
    assert_eq!(
        record,
        vec![
            ("Vendor".to_owned(), RawValue::Text("Acme".to_owned())),
            ("UpdateTime".to_owned(), RawValue::Uint(7)),
        ],
    );
}

#[test]
fn merge_of_all_failures_is_an_empty_record() {
    let parts = vec![("Vendor".to_owned(), None), ("Model".to_owned(), None)];
    assert_eq!(merge_responses(&parts), Vec::new());
}
