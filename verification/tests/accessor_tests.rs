use cubeb_coreaudio_samples::codec::{STATUS_BAD_SIZE, STATUS_UNKNOWN_PROPERTY};
use cubeb_coreaudio_samples::graph::{
    get_list_property, get_property, get_string_property, get_u32_list_property, get_u32_property,
    has_property_scoped, Fetched, Graph, ObjectRecord, PropertyAddress, PropertyRecord,
    SCOPE_GLOBAL, SCOPE_INPUT,
};

fn rec(selector: u32, scope: u32, reply: Fetched) -> PropertyRecord {
    PropertyRecord { address: PropertyAddress { selector, scope, element: 0 }, reply }
}

fn one_object(id: u32, properties: Vec<PropertyRecord>) -> Graph {
    Graph { objects: vec![ObjectRecord { id, properties }] }
}

#[test]
fn scalar_read_decodes_value() {
    let g = one_object(5, vec![rec(0x1111, SCOPE_GLOBAL, Fetched::Data(vec![42, 0, 0, 0]))]);
    assert_eq!(get_u32_property(&g, 5, 0x1111), Ok(42));
}

#[test]
fn missing_property_reports_unknown() {
    let g = one_object(5, vec![]);
    assert_eq!(get_u32_property(&g, 5, 0x1111), Err(STATUS_UNKNOWN_PROPERTY));
}

#[test]
fn missing_object_reports_unknown() {
    let g = one_object(5, vec![rec(0x1111, SCOPE_GLOBAL, Fetched::Data(vec![1, 0, 0, 0]))]);
    assert_eq!(get_u32_property(&g, 6, 0x1111), Err(STATUS_UNKNOWN_PROPERTY));
}

#[test]
fn wrong_size_reports_bad_size() {
    let g = one_object(5, vec![rec(0x1111, SCOPE_GLOBAL, Fetched::Data(vec![1, 0]))]);
    assert_eq!(get_u32_property(&g, 5, 0x1111), Err(STATUS_BAD_SIZE));
}

#[test]
fn recorded_error_status_is_passed_through() {
    let g = one_object(5, vec![rec(0x1111, SCOPE_GLOBAL, Fetched::Error(-50))]);
    assert_eq!(get_u32_property(&g, 5, 0x1111), Err(-50));
    assert_eq!(get_property(&g, 5, 0x1111, 4), Err(-50));
}

#[test]
fn list_read_counts_whole_elements() {
    let payload = vec![1, 0, 0, 0, 2, 0, 0, 0, 3, 0, 0, 0];
    let g = one_object(5, vec![rec(0x2222, SCOPE_GLOBAL, Fetched::Data(payload))]);
    let v = get_u32_list_property(&g, 5, 0x2222).unwrap();
    assert_eq!(v, vec![1, 2, 3]);
    let raw = get_list_property(&g, 5, 0x2222, 4).unwrap();
    assert_eq!(raw.len(), 3);
}

#[test]
fn empty_list_is_a_value_not_an_error() {
    let g = one_object(5, vec![rec(0x2222, SCOPE_GLOBAL, Fetched::Data(Vec::new()))]);
    let v = get_u32_list_property(&g, 5, 0x2222).unwrap();
    assert!(v.is_empty());
}

#[test]
fn string_read_returns_decoded_text() {
    let g = one_object(
        5,
        vec![
            rec(0x3333, SCOPE_GLOBAL, Fetched::Text(String::from("Built-in Output"))),
            rec(0x4444, SCOPE_GLOBAL, Fetched::Data(vec![0, 0, 0, 0])),
        ],
    );
    assert_eq!(get_string_property(&g, 5, 0x3333), Ok(String::from("Built-in Output")));
    assert_eq!(get_string_property(&g, 5, 0x4444), Err(STATUS_BAD_SIZE));
}

#[test]
fn empty_string_is_a_value_not_an_error() {
    let g = one_object(5, vec![rec(0x3333, SCOPE_GLOBAL, Fetched::Text(String::new()))]);
    assert_eq!(get_string_property(&g, 5, 0x3333), Ok(String::new()));
}

#[test]
fn has_property_respects_scope() {
    let g = one_object(5, vec![rec(0x1111, SCOPE_INPUT, Fetched::Data(vec![1, 0, 0, 0]))]);
    assert!(has_property_scoped(&g, 5, 0x1111, SCOPE_INPUT));
    assert!(!has_property_scoped(&g, 5, 0x1111, SCOPE_GLOBAL));
    assert!(!has_property_scoped(&g, 6, 0x1111, SCOPE_INPUT));
}

#[test]
fn first_matching_record_wins() {
    let g = one_object(
        5,
        vec![
            rec(0x1111, SCOPE_GLOBAL, Fetched::Data(vec![7, 0, 0, 0])),
            rec(0x1111, SCOPE_GLOBAL, Fetched::Data(vec![9, 0, 0, 0])),
        ],
    );
    assert_eq!(get_u32_property(&g, 5, 0x1111), Ok(7));
}
