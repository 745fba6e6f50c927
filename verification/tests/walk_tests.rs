use cubeb_coreaudio_samples::classes::{
    CLASS_AGGREGATE_DEVICE, CLASS_BOOLEAN_CONTROL, CLASS_BOX, CLASS_DEVICE, CLASS_OBJECT,
    CLASS_STREAM, SYSTEM_OBJECT_ID,
};
use cubeb_coreaudio_samples::graph::{
    Fetched, Graph, ObjectRecord, PropertyAddress, PropertyRecord, SCOPE_GLOBAL, SCOPE_INPUT,
    SCOPE_OUTPUT,
};
use cubeb_coreaudio_samples::options::{
    TraversalOptions, DEBUG, INCLUDE_BOXES, INCLUDE_CONTROLS, INCLUDE_STREAMS,
};
use cubeb_coreaudio_samples::selectors::{
    SEL_AGG_TAP_LIST, SEL_BASE_CLASS, SEL_CLASS, SEL_DEV_BUFFER_FRAME_SIZE_RANGE, SEL_DEV_IO_CYCLE_USAGE,
    SEL_DEV_LATENCY, SEL_DEV_NOMINAL_SAMPLE_RATE, SEL_DEV_STREAMS, SEL_DEV_TRANSPORT_TYPE,
    SEL_NAME, SEL_OWNED_OBJECTS, SEL_STREAM_TERMINAL_TYPE,
};
use cubeb_coreaudio_samples::walker::{traverse, traverse_with_options, walk_object};

fn rec(selector: u32, scope: u32, reply: Fetched) -> PropertyRecord {
    PropertyRecord { address: PropertyAddress { selector, scope, element: 0 }, reply }
}

fn u32_data(v: u32) -> Fetched {
    Fetched::Data(v.to_le_bytes().to_vec())
}

fn u64_data(v: u64) -> Fetched {
    Fetched::Data(v.to_le_bytes().to_vec())
}

fn f64_data(v: f64) -> Fetched {
    Fetched::Data(v.to_bits().to_le_bytes().to_vec())
}

fn u32_list_data(vs: &[u32]) -> Fetched {
    let mut b = Vec::new();
    for v in vs {
        b.extend_from_slice(&v.to_le_bytes());
    }
    Fetched::Data(b)
}

fn classed(id: u32, class: u32, mut extra: Vec<PropertyRecord>) -> ObjectRecord {
    let mut properties = vec![
        rec(SEL_BASE_CLASS, SCOPE_GLOBAL, u32_data(CLASS_OBJECT)),
        rec(SEL_CLASS, SCOPE_GLOBAL, u32_data(class)),
    ];
    properties.append(&mut extra);
    ObjectRecord { id, properties }
}

#[test]
fn nesting_matches_recursion() {
    // root -> child 2 (with grandchild 4) and child 3: the grandchild nests
    // strictly under 2, and 3 is a sibling of 2.
    let g = Graph {
        objects: vec![
            ObjectRecord {
                id: SYSTEM_OBJECT_ID,
                properties: vec![rec(SEL_OWNED_OBJECTS, SCOPE_GLOBAL, u32_list_data(&[2, 3]))],
            },
            ObjectRecord {
                id: 2,
                properties: vec![rec(SEL_OWNED_OBJECTS, SCOPE_GLOBAL, u32_list_data(&[4]))],
            },
            ObjectRecord { id: 3, properties: vec![] },
            ObjectRecord { id: 4, properties: vec![] },
        ],
    };
    let out = traverse(&g);
    let expected = "AudioObjectID: 1\n  BaseClass: Err(2003332927)\n  Class: Err(2003332927)\n  AudioObjectID: 2\n    BaseClass: Err(2003332927)\n    Class: Err(2003332927)\n    AudioObjectID: 4\n      BaseClass: Err(2003332927)\n      Class: Err(2003332927)\n  AudioObjectID: 3\n    BaseClass: Err(2003332927)\n    Class: Err(2003332927)\n";
    assert_eq!(out, expected, "got:\n{}", out);
}

#[test]
fn filters_suppress_and_admit_each_class() {
    let g = Graph {
        objects: vec![
            ObjectRecord {
                id: SYSTEM_OBJECT_ID,
                properties: vec![rec(SEL_OWNED_OBJECTS, SCOPE_GLOBAL, u32_list_data(&[2]))],
            },
            classed(2, CLASS_BOX, vec![]),
        ],
    };
    let without = traverse(&g);
    assert!(!without.contains("AudioObjectID: 2"));
    let mut opt = TraversalOptions::empty();
    opt.insert(INCLUDE_BOXES);
    let with = traverse_with_options(&g, opt);
    assert!(with.contains("AudioObjectID: 2"));
    assert!(with.contains("Class (Known): \"AudioBox\""));
}

#[test]
fn control_base_class_is_filtered() {
    let g = Graph {
        objects: vec![
            ObjectRecord {
                id: 8,
                properties: vec![
                    rec(SEL_BASE_CLASS, SCOPE_GLOBAL, u32_data(CLASS_BOOLEAN_CONTROL)),
                ],
            },
        ],
    };
    let path: Vec<u32> = Vec::new();
    assert!(walk_object(&g, &path, 8, TraversalOptions::empty()).is_none());
    let mut opt = TraversalOptions::empty();
    opt.insert(INCLUDE_CONTROLS);
    assert!(walk_object(&g, &path, 8, opt).is_some());
}

#[test]
fn debug_mode_reports_failures_with_status() {
    let g = Graph {
        objects: vec![
            ObjectRecord {
                id: SYSTEM_OBJECT_ID,
                properties: vec![rec(SEL_NAME, SCOPE_GLOBAL, Fetched::Text(String::from("hi")))],
            },
        ],
    };
    let quiet = traverse(&g);
    assert!(quiet.contains("Name: \"hi\""));
    assert!(!quiet.contains("Owner:"));
    let mut opt = TraversalOptions::empty();
    opt.insert(DEBUG);
    let loud = traverse_with_options(&g, opt);
    assert!(loud.contains("Name: Ok(\"hi\")"));
    assert!(loud.contains("Owner: Err(2003332927)"));
}

#[test]
fn device_properties_render_exactly() {
    let g = Graph {
        objects: vec![
            classed(
                7,
                CLASS_DEVICE,
                vec![
                    rec(SEL_DEV_TRANSPORT_TYPE, SCOPE_GLOBAL, u32_data(0x75736220)),
                    rec(SEL_DEV_NOMINAL_SAMPLE_RATE, SCOPE_GLOBAL, f64_data(48000.0)),
                    rec(SEL_DEV_LATENCY, SCOPE_INPUT, u32_data(128)),
                    rec(SEL_DEV_STREAMS, SCOPE_INPUT, u32_list_data(&[10, 11])),
                    rec(
                        SEL_DEV_BUFFER_FRAME_SIZE_RANGE,
                        SCOPE_GLOBAL,
                        Fetched::Data(
                            64.0f64
                                .to_bits()
                                .to_le_bytes()
                                .iter()
                                .chain(4096.0f64.to_bits().to_le_bytes().iter())
                                .copied()
                                .collect(),
                        ),
                    ),
                    rec(SEL_DEV_IO_CYCLE_USAGE, SCOPE_GLOBAL, u32_data(0.5f32.to_bits())),
                ],
            ),
        ],
    };
    let path: Vec<u32> = Vec::new();
    let node = walk_object(&g, &path, 7, TraversalOptions::empty()).unwrap();
    let roots = vec![node];
    let out = cubeb_coreaudio_samples::tree::render_report(&roots);
    assert!(out.contains("Class (Known): \"AudioDevice\""));
    assert!(out.contains("TransportType: \"USB\""));
    assert!(out.contains("NominalSampleRate: 48000.0"));
    assert!(out.contains("Input Latency: 128"));
    assert!(out.contains("Input Streams: [10, 11]"));
    assert!(out.contains(
        "BufferFrameSizeRange: AudioValueRange { mMinimum: 64.0, mMaximum: 4096.0 }"
    ));
    assert!(out.contains("IOCycleUsage: 0x3F000000"));
}

#[test]
fn stream_terminal_types_render_named_and_hex() {
    let mut opt = TraversalOptions::empty();
    opt.insert(INCLUDE_STREAMS);
    let path: Vec<u32> = Vec::new();
    let named = Graph {
        objects: vec![
            classed(
                20,
                CLASS_STREAM,
                vec![rec(SEL_STREAM_TERMINAL_TYPE, SCOPE_GLOBAL, u32_data(0x73706b72))],
            ),
        ],
    };
    let node = walk_object(&named, &path, 20, opt).unwrap();
    let out = cubeb_coreaudio_samples::tree::render_report(&vec![node]);
    assert!(out.contains("TerminalType: \"Speaker\""));
    let raw = Graph {
        objects: vec![
            classed(
                20,
                CLASS_STREAM,
                vec![rec(SEL_STREAM_TERMINAL_TYPE, SCOPE_GLOBAL, u32_data(0x123))],
            ),
        ],
    };
    let node = walk_object(&raw, &path, 20, opt).unwrap();
    let out = cubeb_coreaudio_samples::tree::render_report(&vec![node]);
    assert!(out.contains("TerminalType: \"0x0123\""));
}

#[test]
fn unknown_class_renders_as_four_character_tag() {
    let g = Graph { objects: vec![classed(9, 0x41424344, vec![])] };
    let path: Vec<u32> = Vec::new();
    let node = walk_object(&g, &path, 9, TraversalOptions::empty()).unwrap();
    let out = cubeb_coreaudio_samples::tree::render_report(&vec![node]);
    assert!(out.contains("Class (FourCC): \"ABCD\""));
}

#[test]
fn aggregate_tap_counts_render_as_numbers() {
    let g = Graph {
        objects: vec![
            classed(
                12,
                CLASS_AGGREGATE_DEVICE,
                vec![rec(SEL_AGG_TAP_LIST, SCOPE_GLOBAL, u64_data(3))],
            ),
        ],
    };
    let path: Vec<u32> = Vec::new();
    let node = walk_object(&g, &path, 12, TraversalOptions::empty()).unwrap();
    let out = cubeb_coreaudio_samples::tree::render_report(&vec![node]);
    assert!(out.contains("TapList: 3"));
}

#[test]
fn traversal_is_idempotent() {
    let g = Graph {
        objects: vec![
            ObjectRecord {
                id: SYSTEM_OBJECT_ID,
                properties: vec![
                    rec(SEL_OWNED_OBJECTS, SCOPE_GLOBAL, u32_list_data(&[2])),
                    rec(SEL_NAME, SCOPE_GLOBAL, Fetched::Text(String::from("root"))),
                ],
            },
            ObjectRecord { id: 2, properties: vec![] },
        ],
    };
    let mut opt = TraversalOptions::empty();
    opt.insert(DEBUG);
    let first = traverse_with_options(&g, opt);
    let second = traverse_with_options(&g, opt);
    assert_eq!(first, second);
}

#[test]
fn cycles_in_the_owned_lists_are_guarded() {
    let g = Graph {
        objects: vec![
            ObjectRecord {
                id: SYSTEM_OBJECT_ID,
                properties: vec![rec(SEL_OWNED_OBJECTS, SCOPE_GLOBAL, u32_list_data(&[2]))],
            },
            ObjectRecord {
                id: 2,
                properties: vec![
                    rec(SEL_OWNED_OBJECTS, SCOPE_GLOBAL, u32_list_data(&[1, 2, 3])),
                ],
            },
            ObjectRecord { id: 3, properties: vec![] },
        ],
    };
    let out = traverse(&g);
    assert_eq!(out.matches("AudioObjectID: 1\n").count(), 1);
    assert_eq!(out.matches("AudioObjectID: 2\n").count(), 1);
    assert_eq!(out.matches("AudioObjectID: 3\n").count(), 1);
}

#[test]
fn output_scope_is_queried_independently() {
    let g = Graph {
        objects: vec![
            classed(
                7,
                CLASS_DEVICE,
                vec![rec(SEL_DEV_LATENCY, SCOPE_OUTPUT, u32_data(256))],
            ),
        ],
    };
    let path: Vec<u32> = Vec::new();
    let node = walk_object(&g, &path, 7, TraversalOptions::empty()).unwrap();
    let out = cubeb_coreaudio_samples::tree::render_report(&vec![node]);
    assert!(out.contains("Output Latency: 256"));
    assert!(!out.contains("Input Latency"));
}
