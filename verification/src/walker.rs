//! The object walker: the declarative per-class property tables, the
//! filter policy, and the recursive walk over the modeled object graph
//! that builds one report tree per pass.
use crate::classes::{
    spec_class_name, spec_terminal_name, spec_transport_name, class_to_str, terminaltype_to_str,
    transporttype_to_str,
};
use crate::codec::{Status, STATUS_BAD_SIZE};
use crate::graph::{
    get_data_property_scoped, get_list_property_scoped, get_string_property_scoped,
    get_i32_property_scoped, get_u32_list_property_scoped, get_u32_property_scoped,
    get_u64_property_scoped, spec_get_bytes, spec_get_i32, spec_get_list, spec_get_text,
    spec_get_u32, spec_get_u32_list, spec_get_u64,
    spec_scoped_address, Graph, SCOPE_GLOBAL, SCOPE_INPUT, SCOPE_OUTPUT,
};
use crate::options::TraversalOptions;
use crate::render::{
    append_dec_i64, append_dec_u32, append_dec_u64, append_f32_bits, append_f64_bits, push_char,
    spec_dec, spec_dec_signed, spec_f32_bits, spec_f64_bits,
};
use crate::shapes::{
    append_bool_u32, append_channel_layout, append_quoted, append_ranged_format_list,
    append_stream_format, append_u32_list, append_value_range, append_value_range_list,
    lemma_layout_text_eq, spec_bool_text, spec_channel_layout_text_bytes, spec_quoted,
    spec_ranged_format_list_text, spec_stream_format_text, spec_u32_list_text,
    spec_value_range_list_text, spec_value_range_text,
};
use vstd::prelude::*;
use vstd::string::*;

verus! {

/// The shape of one property in the catalogue: how its payload is decoded
/// and shown.
#[derive(Clone, Copy, Debug, PartialEq, Eq, Structural)]
pub enum Shape {
    /// A string-handle property, shown quoted.
    Text,
    /// A four-byte unsigned scalar, shown in decimal.
    U32,
    /// A four-byte signed scalar (a process identifier), shown in decimal.
    I32,
    /// A four-byte flag: any non-zero value reads as set.
    Flag,
    /// An eight-byte double-precision value, shown by its bit pattern.
    F64Bits,
    /// A four-byte single-precision value, shown by its bit pattern.
    F32Bits,
    /// A transport-type tag, shown by its table name.
    TransportType,
    /// A terminal-type tag, shown by its table name or hexadecimal tag.
    TerminalType,
    /// A stream direction: one reads as input, everything else as output.
    Direction,
    /// A variable-length list of four-byte handles.
    U32List,
    /// One sixteen-byte value range.
    ValueRange,
    /// A variable-length list of sixteen-byte value ranges.
    ValueRangeList,
    /// One forty-byte stream format description.
    StreamFormat,
    /// A variable-length list of fifty-six-byte ranged formats.
    RangedFormatList,
    /// The variable-length preferred channel layout, expanded.
    ChannelLayout,
    /// The modeled element count of an opaque array-reference property.
    ElementCount,
}

/// One row of a property table: the label the report shows, the address to
/// query, the payload's shape, and the option bits that must be set for
/// the row to be read at all.
pub struct PropertyRow {
    pub label: &'static str,
    pub selector: u32,
    pub scope: u32,
    pub shape: Shape,
    pub gate: u16,
}

/// The mathematical content of a table row.
pub struct RowView {
    pub label: Seq<char>,
    pub selector: u32,
    pub scope: u32,
    pub shape: Shape,
    pub gate: u16,
}

/// The content of one built row.
pub open spec fn row_view(r: PropertyRow) -> RowView {
    RowView {
        label: r.label@,
        selector: r.selector,
        scope: r.scope,
        shape: r.shape,
        gate: r.gate,
    }
}

/// The content of a built row table.
pub open spec fn rows_view(rs: Seq<PropertyRow>) -> Seq<RowView> {
    Seq::new(rs.len(), |i: int| row_view(rs[i]))
}

/// What one row's value reads as: the rendered text of a successfully
/// decoded payload, or the status the read failed with.
pub open spec fn spec_render_shape(g: Graph, id: u32, row: RowView) -> Result<Seq<char>, Status> {
    let addr = spec_scoped_address(row.selector, row.scope);
    match row.shape {
        Shape::Text => (match spec_get_text(g, id, addr) {
            Ok(t) => Ok(spec_quoted(t)),
            Err(s) => Err(s),
        }),
        Shape::U32 => (match spec_get_u32(g, id, addr) {
            Ok(v) => Ok(spec_dec(v as nat)),
            Err(s) => Err(s),
        }),
        Shape::I32 => (match spec_get_i32(g, id, addr) {
            Ok(v) => Ok(spec_dec_signed(v as int)),
            Err(s) => Err(s),
        }),
        Shape::Flag => (match spec_get_u32(g, id, addr) {
            Ok(v) => Ok(spec_bool_text(v)),
            Err(s) => Err(s),
        }),
        Shape::F64Bits => (match spec_get_u64(g, id, addr) {
            Ok(v) => Ok(spec_f64_bits(v)),
            Err(s) => Err(s),
        }),
        Shape::F32Bits => (match spec_get_u32(g, id, addr) {
            Ok(v) => Ok(spec_f32_bits(v)),
            Err(s) => Err(s),
        }),
        Shape::TransportType => (match spec_get_u32(g, id, addr) {
            Ok(v) => Ok(spec_quoted(spec_transport_name(v))),
            Err(s) => Err(s),
        }),
        Shape::TerminalType => (match spec_get_u32(g, id, addr) {
            Ok(v) => Ok(spec_quoted(spec_terminal_name(v))),
            Err(s) => Err(s),
        }),
        Shape::Direction => (match spec_get_u32(g, id, addr) {
            Ok(v) => Ok(
                spec_quoted(
                    if v == 1 {
                        "Input"@
                    } else {
                        "Output"@
                    },
                ),
            ),
            Err(s) => Err(s),
        }),
        Shape::U32List => (match spec_get_u32_list(g, id, addr) {
            Ok(s) => Ok(spec_u32_list_text(s)),
            Err(s) => Err(s),
        }),
        Shape::ValueRange => (match spec_get_bytes(g, id, addr) {
            Ok(b) => if b.len() == 16 {
                Ok(spec_value_range_text(b))
            } else {
                Err(STATUS_BAD_SIZE)
            },
            Err(s) => Err(s),
        }),
        Shape::ValueRangeList => (match spec_get_list(g, id, addr, 16) {
            Ok(cs) => Ok(spec_value_range_list_text(cs)),
            Err(s) => Err(s),
        }),
        Shape::StreamFormat => (match spec_get_bytes(g, id, addr) {
            Ok(b) => if b.len() == 40 {
                Ok(spec_stream_format_text(b))
            } else {
                Err(STATUS_BAD_SIZE)
            },
            Err(s) => Err(s),
        }),
        Shape::RangedFormatList => (match spec_get_list(g, id, addr, 56) {
            Ok(cs) => Ok(spec_ranged_format_list_text(cs)),
            Err(s) => Err(s),
        }),
        Shape::ChannelLayout => (match spec_get_bytes(g, id, addr) {
            Ok(b) => if crate::codec::spec_layout_well_formed(b) {
                Ok(spec_channel_layout_text_bytes(b))
            } else {
                Err(STATUS_BAD_SIZE)
            },
            Err(s) => Err(s),
        }),
        Shape::ElementCount => (match spec_get_u64(g, id, addr) {
            Ok(v) => Ok(spec_dec(v as nat)),
            Err(s) => Err(s),
        }),
    }
}

/// Reads and renders one row's value.
pub fn render_shape(g: &Graph, id: u32, row: &PropertyRow) -> (r: Result<String, Status>)
    ensures
        (match (r, spec_render_shape(*g, id, row_view(*row))) {
            (Ok(v), Ok(t)) => v@ == t,
            (Err(a), Err(b)) => a == b,
            _ => false,
        }),
{
    let mut out = String::new();
    match row.shape {
        Shape::Text => {
            match get_string_property_scoped(g, id, row.selector, row.scope) {
                Ok(t) => {
                    append_quoted(&mut out, t.as_str());
                    proof {
                        assert(out@ =~= spec_quoted(t@));
                    }
                },
                Err(s) => {
                    return Err(s);
                },
            }
        },
        Shape::U32 => {
            match get_u32_property_scoped(g, id, row.selector, row.scope) {
                Ok(v) => {
                    append_dec_u32(&mut out, v);
                    proof {
                        assert(out@ =~= spec_dec(v as nat));
                    }
                },
                Err(s) => {
                    return Err(s);
                },
            }
        },
        Shape::I32 => {
            match get_i32_property_scoped(g, id, row.selector, row.scope) {
                Ok(v) => {
                    append_dec_i64(&mut out, v as i64);
                    proof {
                        assert(out@ =~= spec_dec_signed(v as int));
                    }
                },
                Err(s) => {
                    return Err(s);
                },
            }
        },
        Shape::Flag => {
            match get_u32_property_scoped(g, id, row.selector, row.scope) {
                Ok(v) => {
                    append_bool_u32(&mut out, v);
                    proof {
                        assert(out@ =~= spec_bool_text(v));
                    }
                },
                Err(s) => {
                    return Err(s);
                },
            }
        },
        Shape::F64Bits => {
            match get_u64_property_scoped(g, id, row.selector, row.scope) {
                Ok(v) => {
                    append_f64_bits(&mut out, v);
                    proof {
                        assert(out@ =~= spec_f64_bits(v));
                    }
                },
                Err(s) => {
                    return Err(s);
                },
            }
        },
        Shape::F32Bits => {
            match get_u32_property_scoped(g, id, row.selector, row.scope) {
                Ok(v) => {
                    append_f32_bits(&mut out, v);
                    proof {
                        assert(out@ =~= spec_f32_bits(v));
                    }
                },
                Err(s) => {
                    return Err(s);
                },
            }
        },
        Shape::TransportType => {
            match get_u32_property_scoped(g, id, row.selector, row.scope) {
                Ok(v) => {
                    let name = transporttype_to_str(v);
                    append_quoted(&mut out, name);
                    proof {
                        assert(out@ =~= spec_quoted(spec_transport_name(v)));
                    }
                },
                Err(s) => {
                    return Err(s);
                },
            }
        },
        Shape::TerminalType => {
            match get_u32_property_scoped(g, id, row.selector, row.scope) {
                Ok(v) => {
                    let name = terminaltype_to_str(v);
                    append_quoted(&mut out, name.as_str());
                    proof {
                        assert(out@ =~= spec_quoted(spec_terminal_name(v)));
                    }
                },
                Err(s) => {
                    return Err(s);
                },
            }
        },
        Shape::Direction => {
            match get_u32_property_scoped(g, id, row.selector, row.scope) {
                Ok(v) => {
                    if v == 1 {
                        append_quoted(&mut out, "Input");
                    } else {
                        append_quoted(&mut out, "Output");
                    }
                },
                Err(s) => {
                    return Err(s);
                },
            }
        },
        Shape::U32List => {
            match get_u32_list_property_scoped(g, id, row.selector, row.scope) {
                Ok(v) => {
                    append_u32_list(&mut out, &v);
                    proof {
                        assert(out@ =~= spec_u32_list_text(v@));
                    }
                },
                Err(s) => {
                    return Err(s);
                },
            }
        },
        Shape::ValueRange => {
            match get_data_property_scoped(g, id, row.selector, row.scope) {
                Ok(b) => {
                    if b.len() == 16 {
                        append_value_range(&mut out, &b);
                        proof {
                            assert(out@ =~= spec_value_range_text(b@));
                        }
                    } else {
                        return Err(STATUS_BAD_SIZE);
                    }
                },
                Err(s) => {
                    return Err(s);
                },
            }
        },
        Shape::ValueRangeList => {
            match get_list_property_scoped(g, id, row.selector, row.scope, 16) {
                Ok(cs) => {
                    proof {
                        let b = (match crate::graph::spec_lookup(
                            *g,
                            id,
                            spec_scoped_address(row.selector, row.scope),
                        ) {
                            crate::graph::Fetched::Data(b) => b@,
                            _ => Seq::<u8>::empty(),
                        });
                        let spec_chunks = crate::codec::chunks_of(b, 16);
                        assert(cs@.len() == spec_chunks.len());
                        assert(spec_chunks.len() == b.len() / 16);
                        assert forall|j: int| 0 <= j < cs@.len() implies (#[trigger] cs@[j])@.len()
                            == 16 by {
                            assert(cs@[j]@ == spec_chunks[j]);
                            assert(spec_chunks[j] == crate::codec::chunk_at(b, 16, j as nat));
                            assert((j as nat) * 16 + 16 <= b.len()) by (nonlinear_arith)
                                requires
                                    0 <= j < b.len() / 16,
                            ;
                            assert(crate::codec::chunk_at(b, 16, j as nat).len() == 16);
                        }
                    }
                    append_value_range_list(&mut out, &cs);
                    proof {
                        let spec_chunks = (match spec_get_list(
                            *g,
                            id,
                            spec_scoped_address(row.selector, row.scope),
                            16,
                        ) {
                            Ok(c) => c,
                            Err(_) => Seq::<Seq<u8>>::empty(),
                        });
                        assert(Seq::new(cs@.len(), |i: int| cs@[i]@) =~= spec_chunks);
                        assert(out@ =~= spec_value_range_list_text(spec_chunks));
                    }
                },
                Err(s) => {
                    return Err(s);
                },
            }
        },
        Shape::StreamFormat => {
            match get_data_property_scoped(g, id, row.selector, row.scope) {
                Ok(b) => {
                    if b.len() == 40 {
                        append_stream_format(&mut out, &b);
                        proof {
                            assert(out@ =~= spec_stream_format_text(b@));
                        }
                    } else {
                        return Err(STATUS_BAD_SIZE);
                    }
                },
                Err(s) => {
                    return Err(s);
                },
            }
        },
        Shape::RangedFormatList => {
            match get_list_property_scoped(g, id, row.selector, row.scope, 56) {
                Ok(cs) => {
                    proof {
                        let b = (match crate::graph::spec_lookup(
                            *g,
                            id,
                            spec_scoped_address(row.selector, row.scope),
                        ) {
                            crate::graph::Fetched::Data(b) => b@,
                            _ => Seq::<u8>::empty(),
                        });
                        let spec_chunks = crate::codec::chunks_of(b, 56);
                        assert(cs@.len() == spec_chunks.len());
                        assert(spec_chunks.len() == b.len() / 56);
                        assert forall|j: int| 0 <= j < cs@.len() implies (#[trigger] cs@[j])@.len()
                            == 56 by {
                            assert(cs@[j]@ == spec_chunks[j]);
                            assert(spec_chunks[j] == crate::codec::chunk_at(b, 56, j as nat));
                            assert((j as nat) * 56 + 56 <= b.len()) by (nonlinear_arith)
                                requires
                                    0 <= j < b.len() / 56,
                            ;
                            assert(crate::codec::chunk_at(b, 56, j as nat).len() == 56);
                        }
                    }
                    append_ranged_format_list(&mut out, &cs);
                    proof {
                        let spec_chunks = (match spec_get_list(
                            *g,
                            id,
                            spec_scoped_address(row.selector, row.scope),
                            56,
                        ) {
                            Ok(c) => c,
                            Err(_) => Seq::<Seq<u8>>::empty(),
                        });
                        assert(Seq::new(cs@.len(), |i: int| cs@[i]@) =~= spec_chunks);
                        assert(out@ =~= spec_ranged_format_list_text(spec_chunks));
                    }
                },
                Err(s) => {
                    return Err(s);
                },
            }
        },
        Shape::ChannelLayout => {
            match get_data_property_scoped(g, id, row.selector, row.scope) {
                Ok(b) => {
                    match crate::codec::expand_channel_layout(&b) {
                        Ok(l) => {
                            append_channel_layout(&mut out, &l);
                            proof {
                                lemma_layout_text_eq(l, b@);
                                assert(out@ =~= spec_channel_layout_text_bytes(b@));
                            }
                        },
                        Err(s) => {
                            return Err(s);
                        },
                    }
                },
                Err(s) => {
                    return Err(s);
                },
            }
        },
        Shape::ElementCount => {
            match get_u64_property_scoped(g, id, row.selector, row.scope) {
                Ok(v) => {
                    append_dec_u64(&mut out, v);
                    proof {
                        assert(out@ =~= spec_dec(v as nat));
                    }
                },
                Err(s) => {
                    return Err(s);
                },
            }
        },
    }
    Ok(out)
}

/// What one table row contributes to an object's report: nothing where its
/// gate is off or the read failed outside debug mode; the labeled value on
/// success; the labeled result, successful or not, in debug mode.
pub open spec fn spec_emit_row(
    g: Graph,
    id: u32,
    row: RowView,
    opt: TraversalOptions,
) -> Option<Seq<char>> {
    if row.gate != 0 && !opt.has(row.gate) {
        None
    } else {
        match spec_render_shape(g, id, row) {
            Ok(t) => if opt.has(crate::options::DEBUG) {
                Some(row.label + ": Ok("@ + t + ")"@)
            } else {
                Some(row.label + ": "@ + t)
            },
            Err(s) => if opt.has(crate::options::DEBUG) {
                Some(row.label + ": Err("@ + spec_dec_signed(s as int) + ")"@)
            } else {
                None
            },
        }
    }
}

/// Reads one table row and renders its report line, if any.
pub fn emit_row(g: &Graph, id: u32, row: &PropertyRow, opt: TraversalOptions) -> (r: Option<
    String,
>)
    ensures
        (match (r, spec_emit_row(*g, id, row_view(*row), opt)) {
            (Some(v), Some(t)) => v@ == t,
            (None, None) => true,
            _ => false,
        }),
{
    if row.gate != 0 && !opt.contains(row.gate) {
        return None;
    }
    let debug = opt.contains(crate::options::DEBUG);
    match render_shape(g, id, row) {
        Ok(t) => {
            let mut line = String::new();
            line.append(row.label);
            if debug {
                line.append(": Ok(");
                line.append(t.as_str());
                line.append(")");
            } else {
                line.append(": ");
                line.append(t.as_str());
            }
            Some(line)
        },
        Err(s) => {
            if debug {
                let mut line = String::new();
                line.append(row.label);
                line.append(": Err(");
                append_dec_i64(&mut line, s as i64);
                line.append(")");
                Some(line)
            } else {
                None
            }
        },
    }
}

/// The properties reported for every visited object.
pub open spec fn spec_common_rows() -> Seq<RowView> {
    seq![
        RowView {
            label: "Owner"@,
            selector: crate::selectors::SEL_OWNER,
            scope: SCOPE_GLOBAL,
            shape: Shape::Flag,
            gate: 0,
        },
        RowView {
            label: "Name"@,
            selector: crate::selectors::SEL_NAME,
            scope: SCOPE_GLOBAL,
            shape: Shape::Text,
            gate: 0,
        },
        RowView {
            label: "ModelName"@,
            selector: crate::selectors::SEL_MODEL_NAME,
            scope: SCOPE_GLOBAL,
            shape: Shape::Text,
            gate: 0,
        },
        RowView {
            label: "Manufacturer"@,
            selector: crate::selectors::SEL_MANUFACTURER,
            scope: SCOPE_GLOBAL,
            shape: Shape::Text,
            gate: 0,
        },
        RowView {
            label: "ElementName"@,
            selector: crate::selectors::SEL_ELEMENT_NAME,
            scope: SCOPE_GLOBAL,
            shape: Shape::Text,
            gate: 0,
        },
        RowView {
            label: "ElementNumberName"@,
            selector: crate::selectors::SEL_ELEMENT_NUMBER_NAME,
            scope: SCOPE_GLOBAL,
            shape: Shape::Text,
            gate: 0,
        },
        RowView {
            label: "DeviceUID"@,
            selector: crate::selectors::SEL_DEV_DEVICE_UID,
            scope: SCOPE_GLOBAL,
            shape: Shape::Text,
            gate: 0,
        },
    ]
}

/// The properties reported for every visited object.
pub fn common_rows() -> (r: Vec<PropertyRow>)
    ensures
        rows_view(r@) == spec_common_rows(),
{
    let rows = vec![
        PropertyRow {
            label: "Owner",
            selector: crate::selectors::SEL_OWNER,
            scope: SCOPE_GLOBAL,
            shape: Shape::Flag,
            gate: 0,
        },
        PropertyRow {
            label: "Name",
            selector: crate::selectors::SEL_NAME,
            scope: SCOPE_GLOBAL,
            shape: Shape::Text,
            gate: 0,
        },
        PropertyRow {
            label: "ModelName",
            selector: crate::selectors::SEL_MODEL_NAME,
            scope: SCOPE_GLOBAL,
            shape: Shape::Text,
            gate: 0,
        },
        PropertyRow {
            label: "Manufacturer",
            selector: crate::selectors::SEL_MANUFACTURER,
            scope: SCOPE_GLOBAL,
            shape: Shape::Text,
            gate: 0,
        },
        PropertyRow {
            label: "ElementName",
            selector: crate::selectors::SEL_ELEMENT_NAME,
            scope: SCOPE_GLOBAL,
            shape: Shape::Text,
            gate: 0,
        },
        PropertyRow {
            label: "ElementNumberName",
            selector: crate::selectors::SEL_ELEMENT_NUMBER_NAME,
            scope: SCOPE_GLOBAL,
            shape: Shape::Text,
            gate: 0,
        },
        PropertyRow {
            label: "DeviceUID",
            selector: crate::selectors::SEL_DEV_DEVICE_UID,
            scope: SCOPE_GLOBAL,
            shape: Shape::Text,
            gate: 0,
        },
    ];
    proof {
        assert(rows_view(rows@) =~= spec_common_rows());
    }
    rows
}
/// The device property set.
pub open spec fn spec_device_rows() -> Seq<RowView> {
    seq![
        RowView {
            label: "ConfigurationApplication"@,
            selector: crate::selectors::SEL_DEV_CONFIGURATION_APPLICATION,
            scope: SCOPE_GLOBAL,
            shape: Shape::Text,
            gate: 0,
        },
        RowView {
            label: "DeviceUID"@,
            selector: crate::selectors::SEL_DEV_DEVICE_UID,
            scope: SCOPE_GLOBAL,
            shape: Shape::Text,
            gate: 0,
        },
        RowView {
            label: "ModelUID"@,
            selector: crate::selectors::SEL_DEV_MODEL_UID,
            scope: SCOPE_GLOBAL,
            shape: Shape::Text,
            gate: 0,
        },
        RowView {
            label: "TransportType"@,
            selector: crate::selectors::SEL_DEV_TRANSPORT_TYPE,
            scope: SCOPE_GLOBAL,
            shape: Shape::TransportType,
            gate: 0,
        },
        RowView {
            label: "HogMode"@,
            selector: crate::selectors::SEL_DEV_HOG_MODE,
            scope: SCOPE_GLOBAL,
            shape: Shape::I32,
            gate: 0,
        },
        RowView {
            label: "RelatedDevices"@,
            selector: crate::selectors::SEL_DEV_RELATED_DEVICES,
            scope: SCOPE_GLOBAL,
            shape: Shape::U32List,
            gate: 0,
        },
        RowView {
            label: "ActiveSubDeviceList"@,
            selector: crate::selectors::SEL_AGG_ACTIVE_SUB_DEVICE_LIST,
            scope: SCOPE_GLOBAL,
            shape: Shape::U32List,
            gate: 0,
        },
        RowView {
            label: "ClockDomain"@,
            selector: crate::selectors::SEL_DEV_CLOCK_DOMAIN,
            scope: SCOPE_GLOBAL,
            shape: Shape::U32,
            gate: 0,
        },
        RowView {
            label: "ClockDevice"@,
            selector: crate::selectors::SEL_DEV_CLOCK_DEVICE,
            scope: SCOPE_GLOBAL,
            shape: Shape::Text,
            gate: 0,
        },
        RowView {
            label: "DeviceIsAlive"@,
            selector: crate::selectors::SEL_DEV_IS_ALIVE,
            scope: SCOPE_GLOBAL,
            shape: Shape::Flag,
            gate: 0,
        },
        RowView {
            label: "DeviceIsRunningSomewhere"@,
            selector: crate::selectors::SEL_DEV_IS_RUNNING_SOMEWHERE,
            scope: SCOPE_GLOBAL,
            shape: Shape::Flag,
            gate: 0,
        },
        RowView {
            label: "DeviceIsRunning"@,
            selector: crate::selectors::SEL_DEV_IS_RUNNING,
            scope: SCOPE_GLOBAL,
            shape: Shape::Flag,
            gate: 0,
        },
        RowView {
            label: "Input DeviceCanBeDefaultDevice"@,
            selector: crate::selectors::SEL_DEV_CAN_BE_DEFAULT_DEVICE,
            scope: SCOPE_INPUT,
            shape: Shape::Flag,
            gate: 0,
        },
        RowView {
            label: "Output DeviceCanBeDefaultDevice"@,
            selector: crate::selectors::SEL_DEV_CAN_BE_DEFAULT_DEVICE,
            scope: SCOPE_OUTPUT,
            shape: Shape::Flag,
            gate: 0,
        },
        RowView {
            label: "Output DeviceCanBeDefaultSystemDevice"@,
            selector: crate::selectors::SEL_DEV_CAN_BE_DEFAULT_SYSTEM_DEVICE,
            scope: SCOPE_OUTPUT,
            shape: Shape::Flag,
            gate: 0,
        },
        RowView {
            label: "Input Latency"@,
            selector: crate::selectors::SEL_DEV_LATENCY,
            scope: SCOPE_INPUT,
            shape: Shape::U32,
            gate: 0,
        },
        RowView {
            label: "Output Latency"@,
            selector: crate::selectors::SEL_DEV_LATENCY,
            scope: SCOPE_OUTPUT,
            shape: Shape::U32,
            gate: 0,
        },
        RowView {
            label: "Input Streams"@,
            selector: crate::selectors::SEL_DEV_STREAMS,
            scope: SCOPE_INPUT,
            shape: Shape::U32List,
            gate: 0,
        },
        RowView {
            label: "Output Streams"@,
            selector: crate::selectors::SEL_DEV_STREAMS,
            scope: SCOPE_OUTPUT,
            shape: Shape::U32List,
            gate: 0,
        },
        RowView {
            label: "ControlList"@,
            selector: crate::selectors::SEL_CONTROL_LIST,
            scope: SCOPE_GLOBAL,
            shape: Shape::U32List,
            gate: 0,
        },
        RowView {
            label: "Input SafetyOffset"@,
            selector: crate::selectors::SEL_DEV_SAFETY_OFFSET,
            scope: SCOPE_INPUT,
            shape: Shape::U32,
            gate: 0,
        },
        RowView {
            label: "Output SafetyOffset"@,
            selector: crate::selectors::SEL_DEV_SAFETY_OFFSET,
            scope: SCOPE_OUTPUT,
            shape: Shape::U32,
            gate: 0,
        },
        RowView {
            label: "ActualSampleRate"@,
            selector: crate::selectors::SEL_DEV_ACTUAL_SAMPLE_RATE,
            scope: SCOPE_GLOBAL,
            shape: Shape::F64Bits,
            gate: 0,
        },
        RowView {
            label: "NominalSampleRate"@,
            selector: crate::selectors::SEL_DEV_NOMINAL_SAMPLE_RATE,
            scope: SCOPE_GLOBAL,
            shape: Shape::F64Bits,
            gate: 0,
        },
        RowView {
            label: "AvailableNominalSampleRates"@,
            selector: crate::selectors::SEL_DEV_AVAILABLE_NOMINAL_SAMPLE_RATES,
            scope: SCOPE_GLOBAL,
            shape: Shape::ValueRangeList,
            gate: crate::options::INCLUDE_FORMATS,
        },
        RowView {
            label: "BufferFrameSize"@,
            selector: crate::selectors::SEL_DEV_BUFFER_FRAME_SIZE,
            scope: SCOPE_GLOBAL,
            shape: Shape::U32,
            gate: 0,
        },
        RowView {
            label: "BufferFrameSizeRange"@,
            selector: crate::selectors::SEL_DEV_BUFFER_FRAME_SIZE_RANGE,
            scope: SCOPE_GLOBAL,
            shape: Shape::ValueRange,
            gate: 0,
        },
        RowView {
            label: "UsesVariableBufferFrameSizes"@,
            selector: crate::selectors::SEL_DEV_USES_VARIABLE_BUFFER_FRAME_SIZES,
            scope: SCOPE_GLOBAL,
            shape: Shape::U32,
            gate: 0,
        },
        RowView {
            label: "Input PreferredChannelsForStereo"@,
            selector: crate::selectors::SEL_DEV_PREFERRED_CHANNELS_FOR_STEREO,
            scope: SCOPE_INPUT,
            shape: Shape::U32List,
            gate: 0,
        },
        RowView {
            label: "Output PreferredChannelsForStereo"@,
            selector: crate::selectors::SEL_DEV_PREFERRED_CHANNELS_FOR_STEREO,
            scope: SCOPE_OUTPUT,
            shape: Shape::U32List,
            gate: 0,
        },
        RowView {
            label: "Output PreferredChannelLayout"@,
            selector: crate::selectors::SEL_DEV_PREFERRED_CHANNEL_LAYOUT,
            scope: SCOPE_OUTPUT,
            shape: Shape::ChannelLayout,
            gate: crate::options::INCLUDE_CHANNELS,
        },
        RowView {
            label: "IOCycleUsage"@,
            selector: crate::selectors::SEL_DEV_IO_CYCLE_USAGE,
            scope: SCOPE_GLOBAL,
            shape: Shape::F32Bits,
            gate: 0,
        },
        RowView {
            label: "Input ProcessMute"@,
            selector: crate::selectors::SEL_DEV_PROCESS_MUTE,
            scope: SCOPE_INPUT,
            shape: Shape::U32,
            gate: 0,
        },
    ]
}

/// The device property set.
pub fn device_rows() -> (r: Vec<PropertyRow>)
    ensures
        rows_view(r@) == spec_device_rows(),
{
    let rows = vec![
        PropertyRow {
            label: "ConfigurationApplication",
            selector: crate::selectors::SEL_DEV_CONFIGURATION_APPLICATION,
            scope: SCOPE_GLOBAL,
            shape: Shape::Text,
            gate: 0,
        },
        PropertyRow {
            label: "DeviceUID",
            selector: crate::selectors::SEL_DEV_DEVICE_UID,
            scope: SCOPE_GLOBAL,
            shape: Shape::Text,
            gate: 0,
        },
        PropertyRow {
            label: "ModelUID",
            selector: crate::selectors::SEL_DEV_MODEL_UID,
            scope: SCOPE_GLOBAL,
            shape: Shape::Text,
            gate: 0,
        },
        PropertyRow {
            label: "TransportType",
            selector: crate::selectors::SEL_DEV_TRANSPORT_TYPE,
            scope: SCOPE_GLOBAL,
            shape: Shape::TransportType,
            gate: 0,
        },
        PropertyRow {
            label: "HogMode",
            selector: crate::selectors::SEL_DEV_HOG_MODE,
            scope: SCOPE_GLOBAL,
            shape: Shape::I32,
            gate: 0,
        },
        PropertyRow {
            label: "RelatedDevices",
            selector: crate::selectors::SEL_DEV_RELATED_DEVICES,
            scope: SCOPE_GLOBAL,
            shape: Shape::U32List,
            gate: 0,
        },
        PropertyRow {
            label: "ActiveSubDeviceList",
            selector: crate::selectors::SEL_AGG_ACTIVE_SUB_DEVICE_LIST,
            scope: SCOPE_GLOBAL,
            shape: Shape::U32List,
            gate: 0,
        },
        PropertyRow {
            label: "ClockDomain",
            selector: crate::selectors::SEL_DEV_CLOCK_DOMAIN,
            scope: SCOPE_GLOBAL,
            shape: Shape::U32,
            gate: 0,
        },
        PropertyRow {
            label: "ClockDevice",
            selector: crate::selectors::SEL_DEV_CLOCK_DEVICE,
            scope: SCOPE_GLOBAL,
            shape: Shape::Text,
            gate: 0,
        },
        PropertyRow {
            label: "DeviceIsAlive",
            selector: crate::selectors::SEL_DEV_IS_ALIVE,
            scope: SCOPE_GLOBAL,
            shape: Shape::Flag,
            gate: 0,
        },
        PropertyRow {
            label: "DeviceIsRunningSomewhere",
            selector: crate::selectors::SEL_DEV_IS_RUNNING_SOMEWHERE,
            scope: SCOPE_GLOBAL,
            shape: Shape::Flag,
            gate: 0,
        },
        PropertyRow {
            label: "DeviceIsRunning",
            selector: crate::selectors::SEL_DEV_IS_RUNNING,
            scope: SCOPE_GLOBAL,
            shape: Shape::Flag,
            gate: 0,
        },
        PropertyRow {
            label: "Input DeviceCanBeDefaultDevice",
            selector: crate::selectors::SEL_DEV_CAN_BE_DEFAULT_DEVICE,
            scope: SCOPE_INPUT,
            shape: Shape::Flag,
            gate: 0,
        },
        PropertyRow {
            label: "Output DeviceCanBeDefaultDevice",
            selector: crate::selectors::SEL_DEV_CAN_BE_DEFAULT_DEVICE,
            scope: SCOPE_OUTPUT,
            shape: Shape::Flag,
            gate: 0,
        },
        PropertyRow {
            label: "Output DeviceCanBeDefaultSystemDevice",
            selector: crate::selectors::SEL_DEV_CAN_BE_DEFAULT_SYSTEM_DEVICE,
            scope: SCOPE_OUTPUT,
            shape: Shape::Flag,
            gate: 0,
        },
        PropertyRow {
            label: "Input Latency",
            selector: crate::selectors::SEL_DEV_LATENCY,
            scope: SCOPE_INPUT,
            shape: Shape::U32,
            gate: 0,
        },
        PropertyRow {
            label: "Output Latency",
            selector: crate::selectors::SEL_DEV_LATENCY,
            scope: SCOPE_OUTPUT,
            shape: Shape::U32,
            gate: 0,
        },
        PropertyRow {
            label: "Input Streams",
            selector: crate::selectors::SEL_DEV_STREAMS,
            scope: SCOPE_INPUT,
            shape: Shape::U32List,
            gate: 0,
        },
        PropertyRow {
            label: "Output Streams",
            selector: crate::selectors::SEL_DEV_STREAMS,
            scope: SCOPE_OUTPUT,
            shape: Shape::U32List,
            gate: 0,
        },
        PropertyRow {
            label: "ControlList",
            selector: crate::selectors::SEL_CONTROL_LIST,
            scope: SCOPE_GLOBAL,
            shape: Shape::U32List,
            gate: 0,
        },
        PropertyRow {
            label: "Input SafetyOffset",
            selector: crate::selectors::SEL_DEV_SAFETY_OFFSET,
            scope: SCOPE_INPUT,
            shape: Shape::U32,
            gate: 0,
        },
        PropertyRow {
            label: "Output SafetyOffset",
            selector: crate::selectors::SEL_DEV_SAFETY_OFFSET,
            scope: SCOPE_OUTPUT,
            shape: Shape::U32,
            gate: 0,
        },
        PropertyRow {
            label: "ActualSampleRate",
            selector: crate::selectors::SEL_DEV_ACTUAL_SAMPLE_RATE,
            scope: SCOPE_GLOBAL,
            shape: Shape::F64Bits,
            gate: 0,
        },
        PropertyRow {
            label: "NominalSampleRate",
            selector: crate::selectors::SEL_DEV_NOMINAL_SAMPLE_RATE,
            scope: SCOPE_GLOBAL,
            shape: Shape::F64Bits,
            gate: 0,
        },
        PropertyRow {
            label: "AvailableNominalSampleRates",
            selector: crate::selectors::SEL_DEV_AVAILABLE_NOMINAL_SAMPLE_RATES,
            scope: SCOPE_GLOBAL,
            shape: Shape::ValueRangeList,
            gate: crate::options::INCLUDE_FORMATS,
        },
        PropertyRow {
            label: "BufferFrameSize",
            selector: crate::selectors::SEL_DEV_BUFFER_FRAME_SIZE,
            scope: SCOPE_GLOBAL,
            shape: Shape::U32,
            gate: 0,
        },
        PropertyRow {
            label: "BufferFrameSizeRange",
            selector: crate::selectors::SEL_DEV_BUFFER_FRAME_SIZE_RANGE,
            scope: SCOPE_GLOBAL,
            shape: Shape::ValueRange,
            gate: 0,
        },
        PropertyRow {
            label: "UsesVariableBufferFrameSizes",
            selector: crate::selectors::SEL_DEV_USES_VARIABLE_BUFFER_FRAME_SIZES,
            scope: SCOPE_GLOBAL,
            shape: Shape::U32,
            gate: 0,
        },
        PropertyRow {
            label: "Input PreferredChannelsForStereo",
            selector: crate::selectors::SEL_DEV_PREFERRED_CHANNELS_FOR_STEREO,
            scope: SCOPE_INPUT,
            shape: Shape::U32List,
            gate: 0,
        },
        PropertyRow {
            label: "Output PreferredChannelsForStereo",
            selector: crate::selectors::SEL_DEV_PREFERRED_CHANNELS_FOR_STEREO,
            scope: SCOPE_OUTPUT,
            shape: Shape::U32List,
            gate: 0,
        },
        PropertyRow {
            label: "Output PreferredChannelLayout",
            selector: crate::selectors::SEL_DEV_PREFERRED_CHANNEL_LAYOUT,
            scope: SCOPE_OUTPUT,
            shape: Shape::ChannelLayout,
            gate: crate::options::INCLUDE_CHANNELS,
        },
        PropertyRow {
            label: "IOCycleUsage",
            selector: crate::selectors::SEL_DEV_IO_CYCLE_USAGE,
            scope: SCOPE_GLOBAL,
            shape: Shape::F32Bits,
            gate: 0,
        },
        PropertyRow {
            label: "Input ProcessMute",
            selector: crate::selectors::SEL_DEV_PROCESS_MUTE,
            scope: SCOPE_INPUT,
            shape: Shape::U32,
            gate: 0,
        },
    ];
    proof {
        assert(rows_view(rows@) =~= spec_device_rows());
    }
    rows
}
/// The aggregate-device additions to the device property set.
pub open spec fn spec_aggregate_rows() -> Seq<RowView> {
    seq![
        RowView {
            label: "TapList"@,
            selector: crate::selectors::SEL_AGG_TAP_LIST,
            scope: SCOPE_GLOBAL,
            shape: Shape::ElementCount,
            gate: 0,
        },
        RowView {
            label: "SubTapList"@,
            selector: crate::selectors::SEL_AGG_SUB_TAP_LIST,
            scope: SCOPE_GLOBAL,
            shape: Shape::ElementCount,
            gate: 0,
        },
    ]
}

/// The aggregate-device additions to the device property set.
pub fn aggregate_rows() -> (r: Vec<PropertyRow>)
    ensures
        rows_view(r@) == spec_aggregate_rows(),
{
    let rows = vec![
        PropertyRow {
            label: "TapList",
            selector: crate::selectors::SEL_AGG_TAP_LIST,
            scope: SCOPE_GLOBAL,
            shape: Shape::ElementCount,
            gate: 0,
        },
        PropertyRow {
            label: "SubTapList",
            selector: crate::selectors::SEL_AGG_SUB_TAP_LIST,
            scope: SCOPE_GLOBAL,
            shape: Shape::ElementCount,
            gate: 0,
        },
    ];
    proof {
        assert(rows_view(rows@) =~= spec_aggregate_rows());
    }
    rows
}
/// The stream property set.
pub open spec fn spec_stream_rows() -> Seq<RowView> {
    seq![
        RowView {
            label: "IsActive"@,
            selector: crate::selectors::SEL_STREAM_IS_ACTIVE,
            scope: SCOPE_GLOBAL,
            shape: Shape::Flag,
            gate: 0,
        },
        RowView {
            label: "Direction"@,
            selector: crate::selectors::SEL_STREAM_DIRECTION,
            scope: SCOPE_GLOBAL,
            shape: Shape::Direction,
            gate: 0,
        },
        RowView {
            label: "TerminalType"@,
            selector: crate::selectors::SEL_STREAM_TERMINAL_TYPE,
            scope: SCOPE_GLOBAL,
            shape: Shape::TerminalType,
            gate: 0,
        },
        RowView {
            label: "StartingChannel"@,
            selector: crate::selectors::SEL_STREAM_STARTING_CHANNEL,
            scope: SCOPE_GLOBAL,
            shape: Shape::U32,
            gate: 0,
        },
        RowView {
            label: "Input Latency"@,
            selector: crate::selectors::SEL_DEV_LATENCY,
            scope: SCOPE_INPUT,
            shape: Shape::U32,
            gate: 0,
        },
        RowView {
            label: "Output Latency"@,
            selector: crate::selectors::SEL_DEV_LATENCY,
            scope: SCOPE_OUTPUT,
            shape: Shape::U32,
            gate: 0,
        },
        RowView {
            label: "VirtualFormat"@,
            selector: crate::selectors::SEL_STREAM_VIRTUAL_FORMAT,
            scope: SCOPE_GLOBAL,
            shape: Shape::StreamFormat,
            gate: 0,
        },
        RowView {
            label: "AvailableVirtualFormats"@,
            selector: crate::selectors::SEL_STREAM_AVAILABLE_VIRTUAL_FORMATS,
            scope: SCOPE_GLOBAL,
            shape: Shape::RangedFormatList,
            gate: crate::options::INCLUDE_FORMATS,
        },
        RowView {
            label: "PhysicalFormat"@,
            selector: crate::selectors::SEL_STREAM_PHYSICAL_FORMAT,
            scope: SCOPE_GLOBAL,
            shape: Shape::StreamFormat,
            gate: 0,
        },
        RowView {
            label: "AvailablePhysicalFormats"@,
            selector: crate::selectors::SEL_STREAM_AVAILABLE_PHYSICAL_FORMATS,
            scope: SCOPE_GLOBAL,
            shape: Shape::RangedFormatList,
            gate: crate::options::INCLUDE_FORMATS,
        },
    ]
}

/// The stream property set.
pub fn stream_rows() -> (r: Vec<PropertyRow>)
    ensures
        rows_view(r@) == spec_stream_rows(),
{
    let rows = vec![
        PropertyRow {
            label: "IsActive",
            selector: crate::selectors::SEL_STREAM_IS_ACTIVE,
            scope: SCOPE_GLOBAL,
            shape: Shape::Flag,
            gate: 0,
        },
        PropertyRow {
            label: "Direction",
            selector: crate::selectors::SEL_STREAM_DIRECTION,
            scope: SCOPE_GLOBAL,
            shape: Shape::Direction,
            gate: 0,
        },
        PropertyRow {
            label: "TerminalType",
            selector: crate::selectors::SEL_STREAM_TERMINAL_TYPE,
            scope: SCOPE_GLOBAL,
            shape: Shape::TerminalType,
            gate: 0,
        },
        PropertyRow {
            label: "StartingChannel",
            selector: crate::selectors::SEL_STREAM_STARTING_CHANNEL,
            scope: SCOPE_GLOBAL,
            shape: Shape::U32,
            gate: 0,
        },
        PropertyRow {
            label: "Input Latency",
            selector: crate::selectors::SEL_DEV_LATENCY,
            scope: SCOPE_INPUT,
            shape: Shape::U32,
            gate: 0,
        },
        PropertyRow {
            label: "Output Latency",
            selector: crate::selectors::SEL_DEV_LATENCY,
            scope: SCOPE_OUTPUT,
            shape: Shape::U32,
            gate: 0,
        },
        PropertyRow {
            label: "VirtualFormat",
            selector: crate::selectors::SEL_STREAM_VIRTUAL_FORMAT,
            scope: SCOPE_GLOBAL,
            shape: Shape::StreamFormat,
            gate: 0,
        },
        PropertyRow {
            label: "AvailableVirtualFormats",
            selector: crate::selectors::SEL_STREAM_AVAILABLE_VIRTUAL_FORMATS,
            scope: SCOPE_GLOBAL,
            shape: Shape::RangedFormatList,
            gate: crate::options::INCLUDE_FORMATS,
        },
        PropertyRow {
            label: "PhysicalFormat",
            selector: crate::selectors::SEL_STREAM_PHYSICAL_FORMAT,
            scope: SCOPE_GLOBAL,
            shape: Shape::StreamFormat,
            gate: 0,
        },
        PropertyRow {
            label: "AvailablePhysicalFormats",
            selector: crate::selectors::SEL_STREAM_AVAILABLE_PHYSICAL_FORMATS,
            scope: SCOPE_GLOBAL,
            shape: Shape::RangedFormatList,
            gate: crate::options::INCLUDE_FORMATS,
        },
    ];
    proof {
        assert(rows_view(rows@) =~= spec_stream_rows());
    }
    rows
}
/// The process property set.
pub open spec fn spec_process_rows() -> Seq<RowView> {
    seq![
        RowView {
            label: "PID"@,
            selector: crate::selectors::SEL_PROC_PID,
            scope: SCOPE_GLOBAL,
            shape: Shape::I32,
            gate: 0,
        },
        RowView {
            label: "BundleID"@,
            selector: crate::selectors::SEL_PROC_BUNDLE_ID,
            scope: SCOPE_GLOBAL,
            shape: Shape::Text,
            gate: 0,
        },
        RowView {
            label: "Input Devices"@,
            selector: crate::selectors::SEL_PROC_DEVICES,
            scope: SCOPE_INPUT,
            shape: Shape::U32List,
            gate: 0,
        },
        RowView {
            label: "Output Devices"@,
            selector: crate::selectors::SEL_PROC_DEVICES,
            scope: SCOPE_OUTPUT,
            shape: Shape::U32List,
            gate: 0,
        },
        RowView {
            label: "IsRunning"@,
            selector: crate::selectors::SEL_PROC_IS_RUNNING,
            scope: SCOPE_GLOBAL,
            shape: Shape::Flag,
            gate: 0,
        },
        RowView {
            label: "IsRunningInput"@,
            selector: crate::selectors::SEL_PROC_IS_RUNNING_INPUT,
            scope: SCOPE_GLOBAL,
            shape: Shape::Flag,
            gate: 0,
        },
        RowView {
            label: "IsRunningOutput"@,
            selector: crate::selectors::SEL_PROC_IS_RUNNING_OUTPUT,
            scope: SCOPE_GLOBAL,
            shape: Shape::Flag,
            gate: 0,
        },
    ]
}

/// The process property set.
pub fn process_rows() -> (r: Vec<PropertyRow>)
    ensures
        rows_view(r@) == spec_process_rows(),
{
    let rows = vec![
        PropertyRow {
            label: "PID",
            selector: crate::selectors::SEL_PROC_PID,
            scope: SCOPE_GLOBAL,
            shape: Shape::I32,
            gate: 0,
        },
        PropertyRow {
            label: "BundleID",
            selector: crate::selectors::SEL_PROC_BUNDLE_ID,
            scope: SCOPE_GLOBAL,
            shape: Shape::Text,
            gate: 0,
        },
        PropertyRow {
            label: "Input Devices",
            selector: crate::selectors::SEL_PROC_DEVICES,
            scope: SCOPE_INPUT,
            shape: Shape::U32List,
            gate: 0,
        },
        PropertyRow {
            label: "Output Devices",
            selector: crate::selectors::SEL_PROC_DEVICES,
            scope: SCOPE_OUTPUT,
            shape: Shape::U32List,
            gate: 0,
        },
        PropertyRow {
            label: "IsRunning",
            selector: crate::selectors::SEL_PROC_IS_RUNNING,
            scope: SCOPE_GLOBAL,
            shape: Shape::Flag,
            gate: 0,
        },
        PropertyRow {
            label: "IsRunningInput",
            selector: crate::selectors::SEL_PROC_IS_RUNNING_INPUT,
            scope: SCOPE_GLOBAL,
            shape: Shape::Flag,
            gate: 0,
        },
        PropertyRow {
            label: "IsRunningOutput",
            selector: crate::selectors::SEL_PROC_IS_RUNNING_OUTPUT,
            scope: SCOPE_GLOBAL,
            shape: Shape::Flag,
            gate: 0,
        },
    ];
    proof {
        assert(rows_view(rows@) =~= spec_process_rows());
    }
    rows
}
/// The hardware-wide property set of the system object.
pub open spec fn spec_hardware_rows() -> Seq<RowView> {
    seq![
        RowView {
            label: "Devices"@,
            selector: crate::selectors::SEL_HW_DEVICES,
            scope: SCOPE_GLOBAL,
            shape: Shape::U32List,
            gate: 0,
        },
        RowView {
            label: "DefaultInputDevice"@,
            selector: crate::selectors::SEL_HW_DEFAULT_INPUT_DEVICE,
            scope: SCOPE_GLOBAL,
            shape: Shape::U32,
            gate: 0,
        },
        RowView {
            label: "DefaultOutputDevice"@,
            selector: crate::selectors::SEL_HW_DEFAULT_OUTPUT_DEVICE,
            scope: SCOPE_GLOBAL,
            shape: Shape::U32,
            gate: 0,
        },
        RowView {
            label: "DefaultSystemOutputDevice"@,
            selector: crate::selectors::SEL_HW_DEFAULT_SYSTEM_OUTPUT_DEVICE,
            scope: SCOPE_GLOBAL,
            shape: Shape::U32,
            gate: 0,
        },
        RowView {
            label: "MixStereoToMono"@,
            selector: crate::selectors::SEL_HW_MIX_STEREO_TO_MONO,
            scope: SCOPE_GLOBAL,
            shape: Shape::Flag,
            gate: 0,
        },
        RowView {
            label: "PlugInList"@,
            selector: crate::selectors::SEL_HW_PLUG_IN_LIST,
            scope: SCOPE_GLOBAL,
            shape: Shape::U32List,
            gate: 0,
        },
        RowView {
            label: "TransportManagerList"@,
            selector: crate::selectors::SEL_HW_TRANSPORT_MANAGER_LIST,
            scope: SCOPE_GLOBAL,
            shape: Shape::U32List,
            gate: 0,
        },
        RowView {
            label: "BoxList"@,
            selector: crate::selectors::SEL_HW_BOX_LIST,
            scope: SCOPE_GLOBAL,
            shape: Shape::U32List,
            gate: 0,
        },
        RowView {
            label: "ClockDeviceList"@,
            selector: crate::selectors::SEL_HW_CLOCK_DEVICE_LIST,
            scope: SCOPE_GLOBAL,
            shape: Shape::U32List,
            gate: 0,
        },
        RowView {
            label: "ProcessIsMain"@,
            selector: crate::selectors::SEL_HW_PROCESS_IS_MAIN,
            scope: SCOPE_GLOBAL,
            shape: Shape::Flag,
            gate: 0,
        },
        RowView {
            label: "IsInitingOrExiting"@,
            selector: crate::selectors::SEL_HW_IS_INITING_OR_EXITING,
            scope: SCOPE_GLOBAL,
            shape: Shape::Flag,
            gate: 0,
        },
        RowView {
            label: "ProcessInputMute"@,
            selector: crate::selectors::SEL_HW_PROCESS_INPUT_MUTE,
            scope: SCOPE_GLOBAL,
            shape: Shape::Flag,
            gate: 0,
        },
        RowView {
            label: "ProcessIsAudible"@,
            selector: crate::selectors::SEL_HW_PROCESS_IS_AUDIBLE,
            scope: SCOPE_GLOBAL,
            shape: Shape::Flag,
            gate: 0,
        },
        RowView {
            label: "SleepingIsAllowed"@,
            selector: crate::selectors::SEL_HW_SLEEPING_IS_ALLOWED,
            scope: SCOPE_GLOBAL,
            shape: Shape::Flag,
            gate: 0,
        },
        RowView {
            label: "UnloadingIsAllowed"@,
            selector: crate::selectors::SEL_HW_UNLOADING_IS_ALLOWED,
            scope: SCOPE_GLOBAL,
            shape: Shape::Flag,
            gate: 0,
        },
        RowView {
            label: "HogModeIsAllowed"@,
            selector: crate::selectors::SEL_HW_HOG_MODE_IS_ALLOWED,
            scope: SCOPE_GLOBAL,
            shape: Shape::Flag,
            gate: 0,
        },
        RowView {
            label: "UserSessionIsActiveOrHeadless"@,
            selector: crate::selectors::SEL_HW_USER_SESSION_IS_ACTIVE_OR_HEADLESS,
            scope: SCOPE_GLOBAL,
            shape: Shape::Flag,
            gate: 0,
        },
        RowView {
            label: "PowerHint"@,
            selector: crate::selectors::SEL_HW_POWER_HINT,
            scope: SCOPE_GLOBAL,
            shape: Shape::U32,
            gate: 0,
        },
        RowView {
            label: "ProcessObjectList"@,
            selector: crate::selectors::SEL_HW_PROCESS_OBJECT_LIST,
            scope: SCOPE_GLOBAL,
            shape: Shape::U32List,
            gate: 0,
        },
        RowView {
            label: "TapList"@,
            selector: crate::selectors::SEL_HW_TAP_LIST,
            scope: SCOPE_GLOBAL,
            shape: Shape::U32List,
            gate: 0,
        },
    ]
}

/// The hardware-wide property set of the system object.
pub fn hardware_rows() -> (r: Vec<PropertyRow>)
    ensures
        rows_view(r@) == spec_hardware_rows(),
{
    let rows = vec![
        PropertyRow {
            label: "Devices",
            selector: crate::selectors::SEL_HW_DEVICES,
            scope: SCOPE_GLOBAL,
            shape: Shape::U32List,
            gate: 0,
        },
        PropertyRow {
            label: "DefaultInputDevice",
            selector: crate::selectors::SEL_HW_DEFAULT_INPUT_DEVICE,
            scope: SCOPE_GLOBAL,
            shape: Shape::U32,
            gate: 0,
        },
        PropertyRow {
            label: "DefaultOutputDevice",
            selector: crate::selectors::SEL_HW_DEFAULT_OUTPUT_DEVICE,
            scope: SCOPE_GLOBAL,
            shape: Shape::U32,
            gate: 0,
        },
        PropertyRow {
            label: "DefaultSystemOutputDevice",
            selector: crate::selectors::SEL_HW_DEFAULT_SYSTEM_OUTPUT_DEVICE,
            scope: SCOPE_GLOBAL,
            shape: Shape::U32,
            gate: 0,
        },
        PropertyRow {
            label: "MixStereoToMono",
            selector: crate::selectors::SEL_HW_MIX_STEREO_TO_MONO,
            scope: SCOPE_GLOBAL,
            shape: Shape::Flag,
            gate: 0,
        },
        PropertyRow {
            label: "PlugInList",
            selector: crate::selectors::SEL_HW_PLUG_IN_LIST,
            scope: SCOPE_GLOBAL,
            shape: Shape::U32List,
            gate: 0,
        },
        PropertyRow {
            label: "TransportManagerList",
            selector: crate::selectors::SEL_HW_TRANSPORT_MANAGER_LIST,
            scope: SCOPE_GLOBAL,
            shape: Shape::U32List,
            gate: 0,
        },
        PropertyRow {
            label: "BoxList",
            selector: crate::selectors::SEL_HW_BOX_LIST,
            scope: SCOPE_GLOBAL,
            shape: Shape::U32List,
            gate: 0,
        },
        PropertyRow {
            label: "ClockDeviceList",
            selector: crate::selectors::SEL_HW_CLOCK_DEVICE_LIST,
            scope: SCOPE_GLOBAL,
            shape: Shape::U32List,
            gate: 0,
        },
        PropertyRow {
            label: "ProcessIsMain",
            selector: crate::selectors::SEL_HW_PROCESS_IS_MAIN,
            scope: SCOPE_GLOBAL,
            shape: Shape::Flag,
            gate: 0,
        },
        PropertyRow {
            label: "IsInitingOrExiting",
            selector: crate::selectors::SEL_HW_IS_INITING_OR_EXITING,
            scope: SCOPE_GLOBAL,
            shape: Shape::Flag,
            gate: 0,
        },
        PropertyRow {
            label: "ProcessInputMute",
            selector: crate::selectors::SEL_HW_PROCESS_INPUT_MUTE,
            scope: SCOPE_GLOBAL,
            shape: Shape::Flag,
            gate: 0,
        },
        PropertyRow {
            label: "ProcessIsAudible",
            selector: crate::selectors::SEL_HW_PROCESS_IS_AUDIBLE,
            scope: SCOPE_GLOBAL,
            shape: Shape::Flag,
            gate: 0,
        },
        PropertyRow {
            label: "SleepingIsAllowed",
            selector: crate::selectors::SEL_HW_SLEEPING_IS_ALLOWED,
            scope: SCOPE_GLOBAL,
            shape: Shape::Flag,
            gate: 0,
        },
        PropertyRow {
            label: "UnloadingIsAllowed",
            selector: crate::selectors::SEL_HW_UNLOADING_IS_ALLOWED,
            scope: SCOPE_GLOBAL,
            shape: Shape::Flag,
            gate: 0,
        },
        PropertyRow {
            label: "HogModeIsAllowed",
            selector: crate::selectors::SEL_HW_HOG_MODE_IS_ALLOWED,
            scope: SCOPE_GLOBAL,
            shape: Shape::Flag,
            gate: 0,
        },
        PropertyRow {
            label: "UserSessionIsActiveOrHeadless",
            selector: crate::selectors::SEL_HW_USER_SESSION_IS_ACTIVE_OR_HEADLESS,
            scope: SCOPE_GLOBAL,
            shape: Shape::Flag,
            gate: 0,
        },
        PropertyRow {
            label: "PowerHint",
            selector: crate::selectors::SEL_HW_POWER_HINT,
            scope: SCOPE_GLOBAL,
            shape: Shape::U32,
            gate: 0,
        },
        PropertyRow {
            label: "ProcessObjectList",
            selector: crate::selectors::SEL_HW_PROCESS_OBJECT_LIST,
            scope: SCOPE_GLOBAL,
            shape: Shape::U32List,
            gate: 0,
        },
        PropertyRow {
            label: "TapList",
            selector: crate::selectors::SEL_HW_TAP_LIST,
            scope: SCOPE_GLOBAL,
            shape: Shape::U32List,
            gate: 0,
        },
    ];
    proof {
        assert(rows_view(rows@) =~= spec_hardware_rows());
    }
    rows
}
/// The six control base classes the control filter matches.
pub open spec fn spec_is_control_base(c: u32) -> bool {
    ||| c == crate::classes::CLASS_CONTROL
    ||| c == crate::classes::CLASS_SLIDER_CONTROL
    ||| c == crate::classes::CLASS_LEVEL_CONTROL
    ||| c == crate::classes::CLASS_BOOLEAN_CONTROL
    ||| c == crate::classes::CLASS_SELECTOR_CONTROL
    ||| c == crate::classes::CLASS_STEREO_PAN_CONTROL
}

/// Whether `c` is one of the six control base classes.
pub fn is_control_base(c: u32) -> (r: bool)
    ensures
        r == spec_is_control_base(c),
{
    c == crate::classes::CLASS_CONTROL || c == crate::classes::CLASS_SLIDER_CONTROL || c
        == crate::classes::CLASS_LEVEL_CONTROL || c == crate::classes::CLASS_BOOLEAN_CONTROL || c
        == crate::classes::CLASS_SELECTOR_CONTROL || c == crate::classes::CLASS_STEREO_PAN_CONTROL
}

/// The filter policy: whether an object with the given base class and
/// class is skipped, together with all its descendants. A class lookup
/// failure never matches a filtered class.
pub open spec fn spec_skip_object(
    base: Result<u32, Status>,
    class: Result<u32, Status>,
    opt: TraversalOptions,
) -> bool {
    ||| (!opt.has(crate::options::INCLUDE_CONTROLS) && (base matches Ok(b)
        && spec_is_control_base(b)))
    ||| (!opt.has(crate::options::INCLUDE_BOXES) && (class matches Ok(c) && c
        == crate::classes::CLASS_BOX))
    ||| (!opt.has(crate::options::INCLUDE_CLOCKS) && (class matches Ok(c) && c
        == crate::classes::CLASS_CLOCK_DEVICE))
    ||| (!opt.has(crate::options::INCLUDE_STREAMS) && (class matches Ok(c) && c
        == crate::classes::CLASS_STREAM))
    ||| (!opt.has(crate::options::INCLUDE_PLUGINS) && (class matches Ok(c) && c
        == crate::classes::CLASS_PLUG_IN))
    ||| (!opt.has(crate::options::INCLUDE_PROCESSES) && (class matches Ok(c) && c
        == crate::classes::CLASS_PROCESS))
}

/// Applies the filter policy to one object's class lookups.
pub fn skip_object(
    base: Result<u32, Status>,
    class: Result<u32, Status>,
    opt: TraversalOptions,
) -> (r: bool)
    ensures
        r == spec_skip_object(base, class, opt),
{
    if !opt.contains(crate::options::INCLUDE_CONTROLS) {
        if let Ok(b) = base {
            if is_control_base(b) {
                return true;
            }
        }
    }
    if let Ok(c) = class {
        if !opt.contains(crate::options::INCLUDE_BOXES) && c == crate::classes::CLASS_BOX {
            return true;
        }
        if !opt.contains(crate::options::INCLUDE_CLOCKS) && c == crate::classes::CLASS_CLOCK_DEVICE {
            return true;
        }
        if !opt.contains(crate::options::INCLUDE_STREAMS) && c == crate::classes::CLASS_STREAM {
            return true;
        }
        if !opt.contains(crate::options::INCLUDE_PLUGINS) && c == crate::classes::CLASS_PLUG_IN {
            return true;
        }
        if !opt.contains(crate::options::INCLUDE_PROCESSES) && c == crate::classes::CLASS_PROCESS {
            return true;
        }
    }
    false
}

/// The report line for a class lookup: a failed lookup is always shown
/// with its status, a known tag by its table name, an unknown one as a
/// raw four-character tag.
pub open spec fn spec_class_line(identifier: Seq<char>, r: Result<u32, Status>) -> Seq<char> {
    match r {
        Err(s) => identifier + ": Err("@ + spec_dec_signed(s as int) + ")"@,
        Ok(c) => match spec_class_name(c) {
            Some(n) => identifier + " (Known): "@ + spec_quoted(n),
            None => identifier + " (FourCC): "@ + spec_quoted(crate::render::spec_fourcc(c)),
        },
    }
}

/// Renders the report line for a class lookup.
pub fn class_line(identifier: &str, r: Result<u32, Status>) -> (out: String)
    ensures
        out@ == spec_class_line(identifier@, r),
{
    let mut line = String::new();
    line.append(identifier);
    match r {
        Err(s) => {
            line.append(": Err(");
            append_dec_i64(&mut line, s as i64);
            line.append(")");
            assert(line@ =~= spec_class_line(identifier@, r));
        },
        Ok(c) => {
            match class_to_str(c) {
                Some(n) => {
                    line.append(" (Known): ");
                    append_quoted(&mut line, n);
                    assert(line@ =~= spec_class_line(identifier@, r));
                },
                None => {
                    line.append(" (FourCC): ");
                    push_char(&mut line, '"');
                    crate::render::append_fourcc(&mut line, c);
                    push_char(&mut line, '"');
                    assert(line@ =~= spec_class_line(identifier@, r));
                },
            }
        },
    }
    line
}

/// The leaves a row table contributes to an object's branch, from row `i`
/// on.
pub open spec fn spec_rows_leaves_from(
    g: Graph,
    id: u32,
    rows: Seq<RowView>,
    opt: TraversalOptions,
    i: int,
) -> Seq<crate::tree::ReportNode>
    decreases rows.len() - i,
{
    if i < 0 || i >= rows.len() {
        Seq::<crate::tree::ReportNode>::empty()
    } else {
        let rest = spec_rows_leaves_from(g, id, rows, opt, i + 1);
        match spec_emit_row(g, id, rows[i], opt) {
            Some(t) => seq![crate::tree::ReportNode::Leaf(t)] + rest,
            None => rest,
        }
    }
}

/// The leaves a row table contributes to an object's branch.
pub open spec fn spec_rows_leaves(
    g: Graph,
    id: u32,
    rows: Seq<RowView>,
    opt: TraversalOptions,
) -> Seq<crate::tree::ReportNode> {
    spec_rows_leaves_from(g, id, rows, opt, 0)
}

/// Reads a whole row table and appends the resulting leaves.
pub fn emit_rows_into(
    children: &mut Vec<crate::tree::Node>,
    g: &Graph,
    id: u32,
    rows: &Vec<PropertyRow>,
    opt: TraversalOptions,
)
    ensures
        crate::tree::nodes_view(final(children)@) == crate::tree::nodes_view(old(children)@)
            + spec_rows_leaves(*g, id, rows_view(rows@), opt),
{
    let ghost rv = rows_view(rows@);
    let n: usize = rows.len();
    let mut i: usize = 0;
    proof {
        crate::tree::lemma_nodes_view(children@);
        assert(crate::tree::nodes_view(children@) + spec_rows_leaves_from(*g, id, rv, opt, 0)
            =~= crate::tree::nodes_view(old(children)@) + spec_rows_leaves(*g, id, rv, opt));
    }
    while i < n
        invariant
            rv == rows_view(rows@),
            n == rows@.len(),
            i <= n,
            crate::tree::nodes_view(children@) + spec_rows_leaves_from(*g, id, rv, opt, i as int)
                == crate::tree::nodes_view(old(children)@) + spec_rows_leaves(*g, id, rv, opt),
        decreases n - i,
    {
        let line = emit_row(g, id, &rows[i], opt);
        proof {
            assert(rv[i as int] == row_view(rows@[i as int]));
        }
        match line {
            Some(t) => {
                proof {
                    crate::tree::lemma_nodes_view(children@);
                    crate::tree::lemma_nodes_view(children@.push(crate::tree::Node::Leaf(t)));
                }
                let ghost before = children@;
                children.push(crate::tree::Node::Leaf(t));
                proof {
                    crate::tree::lemma_nodes_view(before);
                    crate::tree::lemma_nodes_view(children@);
                    assert(crate::tree::nodes_view(children@) =~= crate::tree::nodes_view(before)
                        + seq![crate::tree::node_view(crate::tree::Node::Leaf(t))]);
                    assert(crate::tree::nodes_view(children@) + spec_rows_leaves_from(
                        *g,
                        id,
                        rv,
                        opt,
                        i as int + 1,
                    ) =~= crate::tree::nodes_view(before) + spec_rows_leaves_from(
                        *g,
                        id,
                        rv,
                        opt,
                        i as int,
                    ));
                }
            },
            None => {},
        }
        i += 1;
    }
}

/// How many objects of the snapshot a pass may still open: those whose
/// handle is not yet on the recursion path.
pub open spec fn count_unvisited(objs: Seq<crate::graph::ObjectRecord>, path: Seq<u32>) -> nat
    decreases objs.len(),
{
    if objs.len() == 0 {
        0
    } else {
        (if path.contains(objs.last().id) {
            0nat
        } else {
            1nat
        }) + count_unvisited(objs.drop_last(), path)
    }
}

/// Extending the path never raises the count, and strictly lowers it when
/// the added handle belongs to a snapshot object not yet on the path.
pub proof fn lemma_count_push(objs: Seq<crate::graph::ObjectRecord>, path: Seq<u32>, x: u32)
    ensures
        count_unvisited(objs, path.push(x)) <= count_unvisited(objs, path),
        ((exists|j: int| 0 <= j < objs.len() && objs[j].id == x) && !path.contains(x))
            ==> count_unvisited(objs, path.push(x)) < count_unvisited(objs, path),
    decreases objs.len(),
{
    if objs.len() == 0 {
    } else {
        let last = objs.last();
        assert(path.push(x)[path.len() as int] == x);
        if path.contains(last.id) {
            let w = choose|i: int| 0 <= i < path.len() && path[i] == last.id;
            assert(path.push(x)[w] == last.id);
            assert(path.push(x).contains(last.id));
        }
        if path.push(x).contains(last.id) && !path.contains(last.id) {
            let w = choose|i: int| 0 <= i < path.push(x).len() && path.push(x)[i] == last.id;
            assert(w == path.len());
            assert(last.id == x);
        }
        lemma_count_push(objs.drop_last(), path, x);
        if (exists|j: int| 0 <= j < objs.len() && objs[j].id == x) && !path.contains(x) {
            let j = choose|j: int| 0 <= j < objs.len() && objs[j].id == x;
            if j == objs.len() - 1 {
                assert(last.id == x);
                assert(path.push(x).contains(x));
            } else {
                assert(objs.drop_last()[j] == objs[j]);
                assert(exists|k: int|
                    0 <= k < objs.drop_last().len() && objs.drop_last()[k].id == x);
            }
        }
    }
}

/// A present first match means a matching record exists.
pub proof fn lemma_first_object_witness(
    objs: Seq<crate::graph::ObjectRecord>,
    id: u32,
    i: int,
)
    requires
        crate::graph::first_object_from(objs, id, i) is Some,
    ensures
        exists|j: int| 0 <= j < objs.len() && objs[j].id == id,
    decreases objs.len() - i,
{
    if 0 <= i < objs.len() {
        if objs[i].id == id {
            assert(objs[i].id == id);
        } else {
            lemma_first_object_witness(objs, id, i + 1);
        }
    }
}

/// Walking into an object of the snapshot that the path does not yet hold
/// strictly lowers the count of objects still to open.
pub proof fn lemma_walk_measure(g: Graph, path: Seq<u32>, id: u32)
    requires
        crate::graph::spec_object(g, id) is Some,
        !path.contains(id),
    ensures
        count_unvisited(g.objects@, path.push(id)) < count_unvisited(g.objects@, path),
{
    lemma_first_object_witness(g.objects@, id, 0);
    lemma_count_push(g.objects@, path, id);
}

/// The leaves of one visited object's branch: the two class lines, always
/// shown, then the common property set, then the property set of its
/// exact class.
pub open spec fn spec_object_leaves(g: Graph, id: u32, opt: TraversalOptions) -> Seq<
    crate::tree::ReportNode,
> {
    let base = spec_get_u32(g, id, crate::graph::spec_global_address(crate::selectors::SEL_BASE_CLASS));
    let class = spec_get_u32(g, id, crate::graph::spec_global_address(crate::selectors::SEL_CLASS));
    seq![
        crate::tree::ReportNode::Leaf(spec_class_line("BaseClass"@, base)),
        crate::tree::ReportNode::Leaf(spec_class_line("Class"@, class)),
    ] + spec_rows_leaves(g, id, spec_common_rows(), opt) + (match class {
        Ok(c) => {
            if c == crate::classes::CLASS_SYSTEM_OBJECT {
                spec_rows_leaves(g, id, spec_hardware_rows(), opt)
            } else if c == crate::classes::CLASS_AGGREGATE_DEVICE {
                spec_rows_leaves(g, id, spec_aggregate_rows(), opt) + spec_rows_leaves(
                    g,
                    id,
                    spec_device_rows(),
                    opt,
                )
            } else if c == crate::classes::CLASS_SUB_DEVICE || c == crate::classes::CLASS_DEVICE {
                spec_rows_leaves(g, id, spec_device_rows(), opt)
            } else if c == crate::classes::CLASS_STREAM {
                spec_rows_leaves(g, id, spec_stream_rows(), opt)
            } else if c == crate::classes::CLASS_PROCESS {
                spec_rows_leaves(g, id, spec_process_rows(), opt)
            } else {
                Seq::<crate::tree::ReportNode>::empty()
            }
        },
        Err(_) => Seq::<crate::tree::ReportNode>::empty(),
    })
}

/// What one pass reports for the object `id` reached over `path`: nothing
/// where the handle is already on the path or the filter policy skips the
/// object; otherwise a branch labeled by the handle, holding the object's
/// own leaves and then the subtree of each owned child, in the order the
/// service lists them.
pub open spec fn spec_walk(g: Graph, path: Seq<u32>, id: u32, opt: TraversalOptions) -> Option<
    crate::tree::ReportNode,
>
    decreases count_unvisited(g.objects@, path), 0nat, 0nat,
{
    if path.contains(id) {
        None
    } else {
        let owned = spec_get_u32_list(
            g,
            id,
            crate::graph::spec_global_address(crate::selectors::SEL_OWNED_OBJECTS),
        );
        let base = spec_get_u32(
            g,
            id,
            crate::graph::spec_global_address(crate::selectors::SEL_BASE_CLASS),
        );
        let class = spec_get_u32(g, id, crate::graph::spec_global_address(crate::selectors::SEL_CLASS));
        if spec_skip_object(base, class, opt) {
            None
        } else {
            let kids = (match owned {
                Ok(ks) => {
                    proof {
                        assert(crate::graph::spec_object(g, id) is Some);
                        lemma_walk_measure(g, path, id);
                    }
                    spec_walk_children(g, path.push(id), ks, opt, 0)
                },
                Err(_) => Seq::<crate::tree::ReportNode>::empty(),
            });
            Some(
                crate::tree::ReportNode::Branch(
                    "AudioObjectID: "@ + spec_dec(id as nat),
                    spec_object_leaves(g, id, opt) + kids,
                ),
            )
        }
    }
}

/// The subtrees of the children `kids[i..]`, visited in order; a skipped
/// child contributes nothing.
pub open spec fn spec_walk_children(
    g: Graph,
    path: Seq<u32>,
    kids: Seq<u32>,
    opt: TraversalOptions,
    i: int,
) -> Seq<crate::tree::ReportNode>
    decreases count_unvisited(g.objects@, path), 1nat, kids.len() - i,
{
    if i < 0 || i >= kids.len() {
        Seq::<crate::tree::ReportNode>::empty()
    } else {
        let first = spec_walk(g, path, kids[i], opt);
        let rest = spec_walk_children(g, path, kids, opt, i + 1);
        match first {
            Some(n) => seq![n] + rest,
            None => rest,
        }
    }
}

/// Whether `path` holds `id`.
fn contains_id(path: &Vec<u32>, id: u32) -> (r: bool)
    ensures
        r == path@.contains(id),
{
    let n: usize = path.len();
    let mut i: usize = 0;
    while i < n
        invariant
            n == path@.len(),
            i <= n,
            forall|j: int| 0 <= j < i as int ==> path@[j] != id,
        decreases n - i,
    {
        if path[i] == id {
            return true;
        }
        i += 1;
    }
    false
}

/// Copies a path of handles.
fn copy_ids(src: &Vec<u32>) -> (r: Vec<u32>)
    ensures
        r@ == src@,
{
    let mut r: Vec<u32> = Vec::new();
    let n: usize = src.len();
    let mut i: usize = 0;
    while i < n
        invariant
            n == src@.len(),
            i <= n,
            r@ == src@.subrange(0, i as int),
        decreases n - i,
    {
        r.push(src[i]);
        proof {
            assert(src@.subrange(0, i as int).push(src@[i as int]) =~= src@.subrange(
                0,
                i as int + 1,
            ));
        }
        i += 1;
    }
    proof {
        assert(src@.subrange(0, n as int) =~= src@);
    }
    r
}

/// Visits one object: applies the filter policy, reports the object's
/// properties, and recurses into its owned children, guarding against a
/// handle that is already on the recursion path.
#[verifier::rlimit(60)]
pub fn walk_object(g: &Graph, path: &Vec<u32>, id: u32, opt: TraversalOptions) -> (r: Option<
    crate::tree::Node,
>)
    ensures
        (match r {
            Some(n) => spec_walk(*g, path@, id, opt) == Some(crate::tree::node_view(n)),
            None => spec_walk(*g, path@, id, opt) is None,
        }),
    decreases count_unvisited(g.objects@, path@), 0nat, 0nat,
{
    if contains_id(path, id) {
        return None;
    }
    let owned = crate::graph::get_u32_list_property(g, id, crate::selectors::SEL_OWNED_OBJECTS);
    let base = crate::graph::get_u32_property(g, id, crate::selectors::SEL_BASE_CLASS);
    let class = crate::graph::get_u32_property(g, id, crate::selectors::SEL_CLASS);
    if skip_object(base, class, opt) {
        return None;
    }
    let mut label = String::new();
    label.append("AudioObjectID: ");
    append_dec_u32(&mut label, id);
    let mut children: Vec<crate::tree::Node> = Vec::new();
    let line_base = class_line("BaseClass", base);
    children.push(crate::tree::Node::Leaf(line_base));
    let line_class = class_line("Class", class);
    children.push(crate::tree::Node::Leaf(line_class));
    proof {
        crate::tree::lemma_nodes_view(children@);
        assert(crate::tree::nodes_view(children@) =~= seq![
            crate::tree::ReportNode::Leaf(spec_class_line("BaseClass"@, base)),
            crate::tree::ReportNode::Leaf(spec_class_line("Class"@, class)),
        ]);
    }
    let common = common_rows();
    emit_rows_into(&mut children, g, id, &common, opt);
    match class {
        Ok(c) => {
            if c == crate::classes::CLASS_SYSTEM_OBJECT {
                let rows = hardware_rows();
                emit_rows_into(&mut children, g, id, &rows, opt);
            } else if c == crate::classes::CLASS_AGGREGATE_DEVICE {
                let rows_a = aggregate_rows();
                emit_rows_into(&mut children, g, id, &rows_a, opt);
                let rows_d = device_rows();
                emit_rows_into(&mut children, g, id, &rows_d, opt);
            } else if c == crate::classes::CLASS_SUB_DEVICE || c == crate::classes::CLASS_DEVICE {
                let rows = device_rows();
                emit_rows_into(&mut children, g, id, &rows, opt);
            } else if c == crate::classes::CLASS_STREAM {
                let rows = stream_rows();
                emit_rows_into(&mut children, g, id, &rows, opt);
            } else if c == crate::classes::CLASS_PROCESS {
                let rows = process_rows();
                emit_rows_into(&mut children, g, id, &rows, opt);
            }
        },
        Err(_) => {},
    }
    proof {
        assert(crate::tree::nodes_view(children@) =~= spec_object_leaves(*g, id, opt));
    }
    let ghost leaves = crate::tree::nodes_view(children@);
    match owned {
        Ok(kids) => {
            let mut path2 = copy_ids(path);
            path2.push(id);
            proof {
                assert(crate::graph::spec_object(*g, id) is Some);
                lemma_walk_measure(*g, path@, id);
            }
            let ghost kid_views = spec_walk_children(*g, path2@, kids@, opt, 0);
            let n_kids: usize = kids.len();
            let mut j: usize = 0;
            while j < n_kids
                invariant
                    leaves == spec_object_leaves(*g, id, opt),
                    path2@ == path@.push(id),
                    count_unvisited(g.objects@, path2@) < count_unvisited(g.objects@, path@),
                    kid_views == spec_walk_children(*g, path2@, kids@, opt, 0),
                    n_kids == kids@.len(),
                    j <= n_kids,
                    crate::tree::nodes_view(children@) + spec_walk_children(
                        *g,
                        path2@,
                        kids@,
                        opt,
                        j as int,
                    ) == leaves + kid_views,
                decreases n_kids - j,
            {
                let sub = walk_object(g, &path2, kids[j], opt);
                match sub {
                    Some(node) => {
                        let ghost before = children@;
                        children.push(node);
                        proof {
                            crate::tree::lemma_nodes_view(before);
                            crate::tree::lemma_nodes_view(children@);
                            assert(crate::tree::nodes_view(children@)
                                =~= crate::tree::nodes_view(before) + seq![
                                crate::tree::node_view(node),
                            ]);
                            assert(crate::tree::nodes_view(children@) + spec_walk_children(
                                *g,
                                path2@,
                                kids@,
                                opt,
                                j as int + 1,
                            ) =~= crate::tree::nodes_view(before) + spec_walk_children(
                                *g,
                                path2@,
                                kids@,
                                opt,
                                j as int,
                            ));
                        }
                    },
                    None => {},
                }
                j += 1;
            }
            proof {
                assert(crate::tree::nodes_view(children@) =~= leaves + kid_views);
            }
        },
        Err(_) => {
            proof {
                assert(crate::tree::nodes_view(children@) =~= leaves
                    + Seq::<crate::tree::ReportNode>::empty());
            }
        },
    }
    let node = crate::tree::Node::Branch(crate::tree::Branch { label, children });
    proof {
        crate::tree::lemma_nodes_view(node->Branch_0.children@);
    }
    Some(node)
}

/// The whole report of one pass: the rendered tree of the walk from the
/// root system object, empty where the root itself is skipped.
pub open spec fn spec_traverse(g: Graph, opt: TraversalOptions) -> Seq<char> {
    match spec_walk(g, Seq::<u32>::empty(), crate::classes::SYSTEM_OBJECT_ID, opt) {
        Some(n) => crate::tree::spec_render_report(seq![n]),
        None => Seq::<char>::empty(),
    }
}

/// Runs one traversal pass from the root system object with `opt` and
/// serializes the resulting tree as indented text. The pass is a function
/// of the snapshot and the options alone: two passes over the same
/// snapshot with the same options return identical text.
pub fn traverse_with_options(g: &Graph, opt: TraversalOptions) -> (r: String)
    ensures
        r@ == spec_traverse(*g, opt),
{
    let path: Vec<u32> = Vec::new();
    proof {
        assert(path@ =~= Seq::<u32>::empty());
    }
    match walk_object(g, &path, crate::classes::SYSTEM_OBJECT_ID, opt) {
        Some(node) => {
            let roots = vec![node];
            proof {
                crate::tree::lemma_nodes_view(roots@);
                assert(crate::tree::nodes_view(roots@) =~= seq![crate::tree::node_view(node)]);
            }
            crate::tree::render_report(&roots)
        },
        None => String::new(),
    }
}

/// Runs one traversal pass with every toggle off.
pub fn traverse(g: &Graph) -> (r: String)
    ensures
        r@ == spec_traverse(*g, TraversalOptions { bits: 0 }),
{
    traverse_with_options(g, TraversalOptions::empty())
}

/// Filter correctness: a walk emits a branch for an object exactly when
/// its handle is not already on the recursion path and no filter rule
/// matches it — so disabling the toggle of an object's class (or, for a
/// control, of the control toggle) suppresses its branch, and with it the
/// whole subtree below it, while enabling the toggle lets the branch
/// appear; a class lookup failure never matches a filtered class.
pub proof fn lemma_filter_correctness(g: Graph, path: Seq<u32>, id: u32, opt: TraversalOptions)
    ensures
        spec_walk(g, path, id, opt) is Some <==> (!path.contains(id) && !spec_skip_object(
            spec_get_u32(
                g,
                id,
                crate::graph::spec_global_address(crate::selectors::SEL_BASE_CLASS),
            ),
            spec_get_u32(g, id, crate::graph::spec_global_address(crate::selectors::SEL_CLASS)),
            opt,
        )),
{
}

/// Debug-mode completeness: when a row's underlying read fails, debug mode
/// emits a leaf holding the row's label and the failing status, and
/// without debug mode the row emits nothing.
pub proof fn lemma_debug_completeness(
    g: Graph,
    id: u32,
    row: RowView,
    opt: TraversalOptions,
    status: Status,
)
    requires
        row.gate == 0 || opt.has(row.gate),
        spec_render_shape(g, id, row) == Err::<Seq<char>, Status>(status),
    ensures
        opt.has(crate::options::DEBUG) ==> spec_emit_row(g, id, row, opt) == Some(
            row.label + ": Err("@ + spec_dec_signed(status as int) + ")"@,
        ),
        !opt.has(crate::options::DEBUG) ==> spec_emit_row(g, id, row, opt) is None,
{
}

/// Idempotence: two traversal passes with identical options over an
/// unchanged snapshot produce byte-identical text — the report is a
/// function of the snapshot and the options alone.
pub proof fn lemma_traverse_idempotent(g: Graph, opt: TraversalOptions, r1: String, r2: String)
    requires
        r1@ == spec_traverse(g, opt),
        r2@ == spec_traverse(g, opt),
    ensures
        r1@ == r2@,
{
}

} // verus!
