//! The modeled audio-object graph that one traversal pass reads: a snapshot
//! of the service's answers, keyed by object handle and property address,
//! and the accessor layer that decodes scalar, list and text properties
//! out of it.
use crate::codec::{
    chunk_at, chunk_bytes, i32_of_le, read_i32_le, read_u32_le, read_u64_le, u32_of_le, u64_of_le,
    Status, STATUS_BAD_SIZE, STATUS_UNKNOWN_PROPERTY,
};
use vstd::prelude::*;

verus! {

/// The scope qualifier for a property of the object as a whole.
pub const SCOPE_GLOBAL: u32 = 0x676c6f62;

/// The scope qualifier narrowing a property to the input direction.
pub const SCOPE_INPUT: u32 = 0x696e7074;

/// The scope qualifier narrowing a property to the output direction.
pub const SCOPE_OUTPUT: u32 = 0x6f757470;

/// The one element this tool ever addresses: the main (master) element.
pub const ELEMENT_MAIN: u32 = 0;

/// What a property is: a selector saying which property, a scope qualifier,
/// and an element, always the main element here.
#[derive(Clone, Copy, Debug, PartialEq, Eq, Structural)]
pub struct PropertyAddress {
    pub selector: u32,
    pub scope: u32,
    pub element: u32,
}

/// The global-scope, main-element address for `selector`.
pub open spec fn spec_global_address(selector: u32) -> PropertyAddress {
    PropertyAddress { selector, scope: SCOPE_GLOBAL, element: ELEMENT_MAIN }
}

/// The main-element address for `selector` in `scope`.
pub open spec fn spec_scoped_address(selector: u32, scope: u32) -> PropertyAddress {
    PropertyAddress { selector, scope, element: ELEMENT_MAIN }
}

/// What the service answered for one property of one object: the raw bytes
/// of the value, the decoded text of a string-handle property, or a
/// non-zero status code.
#[derive(Clone, Debug)]
pub enum Fetched {
    Data(Vec<u8>),
    Text(String),
    Error(Status),
}

/// One property of one object, with the service's answer for it.
#[derive(Clone, Debug)]
pub struct PropertyRecord {
    pub address: PropertyAddress,
    pub reply: Fetched,
}

/// One object of the graph: its handle and the answers the service gives
/// for its properties. A property missing from the list is one the object
/// does not have.
#[derive(Clone, Debug)]
pub struct ObjectRecord {
    pub id: u32,
    pub properties: Vec<PropertyRecord>,
}

/// A snapshot of the audio-object graph as the service reports it: one
/// record per object. An object missing from the list answers every query
/// with the unknown-property status.
#[derive(Clone, Debug)]
pub struct Graph {
    pub objects: Vec<ObjectRecord>,
}

/// The first object record with handle `id` at or past index `i`.
pub open spec fn first_object_from(objs: Seq<ObjectRecord>, id: u32, i: int) -> Option<
    ObjectRecord,
>
    decreases objs.len() - i,
{
    if i < 0 || i >= objs.len() {
        None
    } else if objs[i].id == id {
        Some(objs[i])
    } else {
        first_object_from(objs, id, i + 1)
    }
}

/// The first object record with handle `id`.
pub open spec fn spec_object(g: Graph, id: u32) -> Option<ObjectRecord> {
    first_object_from(g.objects@, id, 0)
}

/// The first property record with address `addr` at or past index `i`.
pub open spec fn first_property_from(props: Seq<PropertyRecord>, addr: PropertyAddress, i: int) -> Option<
    PropertyRecord,
>
    decreases props.len() - i,
{
    if i < 0 || i >= props.len() {
        None
    } else if props[i].address == addr {
        Some(props[i])
    } else {
        first_property_from(props, addr, i + 1)
    }
}

/// What one query for `addr` on object `id` answers: the recorded reply,
/// or the unknown-property status where the object or the property is not
/// in the snapshot.
pub open spec fn spec_lookup(g: Graph, id: u32, addr: PropertyAddress) -> Fetched {
    match spec_object(g, id) {
        None => Fetched::Error(STATUS_UNKNOWN_PROPERTY),
        Some(rec) => match first_property_from(rec.properties@, addr, 0) {
            None => Fetched::Error(STATUS_UNKNOWN_PROPERTY),
            Some(p) => p.reply,
        },
    }
}

/// Whether object `id` has a recorded answer for `addr`.
pub open spec fn spec_has_property(g: Graph, id: u32, addr: PropertyAddress) -> bool {
    match spec_object(g, id) {
        None => false,
        Some(rec) => first_property_from(rec.properties@, addr, 0) is Some,
    }
}

/// Finds the record of object `id`, first match first.
fn find_object<'a>(g: &'a Graph, id: u32) -> (r: Option<&'a ObjectRecord>)
    ensures
        (match r {
            Some(rec) => spec_object(*g, id) == Some(*rec),
            None => spec_object(*g, id) is None,
        }),
{
    let mut i: usize = 0;
    let n: usize = g.objects.len();
    while i < n
        invariant
            n == g.objects@.len(),
            0 <= i <= n,
            first_object_from(g.objects@, id, 0) == first_object_from(g.objects@, id, i as int),
        decreases n - i,
    {
        if g.objects[i].id == id {
            return Some(&g.objects[i]);
        }
        i += 1;
    }
    None
}

/// Finds the record for `addr` among `props`, first match first.
fn find_property<'a>(props: &'a Vec<PropertyRecord>, addr: PropertyAddress) -> (r: Option<
    &'a PropertyRecord,
>)
    ensures
        (match r {
            Some(p) => first_property_from(props@, addr, 0) == Some(*p),
            None => first_property_from(props@, addr, 0) is None,
        }),
{
    let mut i: usize = 0;
    let n: usize = props.len();
    while i < n
        invariant
            n == props@.len(),
            0 <= i <= n,
            first_property_from(props@, addr, 0) == first_property_from(props@, addr, i as int),
        decreases n - i,
    {
        if props[i].address.selector == addr.selector && props[i].address.scope == addr.scope
            && props[i].address.element == addr.element {
            return Some(&props[i]);
        }
        i += 1;
    }
    None
}

/// Answers one query: the recorded reply of object `id` for `addr`, or the
/// unknown-property status.
fn lookup<'a>(g: &'a Graph, id: u32, addr: PropertyAddress) -> (r: Option<&'a Fetched>)
    ensures
        (match r {
            Some(f) => spec_lookup(*g, id, addr) == *f,
            None => spec_lookup(*g, id, addr) == Fetched::Error(STATUS_UNKNOWN_PROPERTY),
        }),
{
    match find_object(g, id) {
        None => None,
        Some(rec) => match find_property(&rec.properties, addr) {
            None => None,
            Some(p) => Some(&p.reply),
        },
    }
}

/// Copies a byte vector.
fn copy_bytes(src: &Vec<u8>) -> (r: Vec<u8>)
    ensures
        r@ == src@,
{
    let mut r: Vec<u8> = Vec::new();
    let mut i: usize = 0;
    let n: usize = src.len();
    while i < n
        invariant
            n == src@.len(),
            i <= n,
            r@ == src@.subrange(0, i as int),
        decreases n - i,
    {
        r.push(src[i]);
        proof {
            assert(src@.subrange(0, i as int).push(src@[i as int]) =~= src@.subrange(
                0,
                i as int + 1,
            ));
        }
        i += 1;
    }
    proof {
        assert(src@.subrange(0, n as int) =~= src@);
    }
    r
}

/// Whether object `id` reports having the property `selector` in `scope`.
pub fn has_property_scoped(g: &Graph, id: u32, selector: u32, scope: u32) -> (r: bool)
    ensures
        r == spec_has_property(*g, id, spec_scoped_address(selector, scope)),
{
    let addr = PropertyAddress { selector, scope, element: ELEMENT_MAIN };
    match find_object(g, id) {
        None => false,
        Some(rec) => find_property(&rec.properties, addr).is_some(),
    }
}

/// What a fixed-size read of `size` bytes answers for `addr` on `id`: the
/// payload where the reply is data of exactly that size, the reply's own
/// status where it failed, and the bad-size status otherwise.
pub open spec fn spec_get_data(g: Graph, id: u32, addr: PropertyAddress, size: nat) -> Result<
    Seq<u8>,
    Status,
> {
    match spec_lookup(g, id, addr) {
        Fetched::Error(s) => Err(s),
        Fetched::Text(_) => Err(STATUS_BAD_SIZE),
        Fetched::Data(b) => if b@.len() == size {
            Ok(b@)
        } else {
            Err(STATUS_BAD_SIZE)
        },
    }
}

/// Reads a fixed-size property value of exactly `size` bytes from object
/// `id`, in `scope`. Fails with the recorded status where the property is
/// absent or errored, and with the bad-size status where the value does not
/// have the expected shape.
pub fn get_property_scoped(g: &Graph, id: u32, selector: u32, scope: u32, size: usize) -> (r:
    Result<Vec<u8>, Status>)
    ensures
        (match (r, spec_get_data(*g, id, spec_scoped_address(selector, scope), size as nat)) {
            (Ok(v), Ok(b)) => v@ == b,
            (Err(a), Err(b)) => a == b,
            _ => false,
        }),
{
    let addr = PropertyAddress { selector, scope, element: ELEMENT_MAIN };
    match lookup(g, id, addr) {
        None => Err(STATUS_UNKNOWN_PROPERTY),
        Some(Fetched::Error(s)) => Err(*s),
        Some(Fetched::Text(_)) => Err(STATUS_BAD_SIZE),
        Some(Fetched::Data(b)) => if b.len() == size {
            Ok(copy_bytes(b))
        } else {
            Err(STATUS_BAD_SIZE)
        },
    }
}

/// Reads a fixed-size property value in the global scope.
pub fn get_property(g: &Graph, id: u32, selector: u32, size: usize) -> (r: Result<Vec<u8>, Status>)
    ensures
        (match (r, spec_get_data(*g, id, spec_global_address(selector), size as nat)) {
            (Ok(v), Ok(b)) => v@ == b,
            (Err(a), Err(b)) => a == b,
            _ => false,
        }),
{
    get_property_scoped(g, id, selector, SCOPE_GLOBAL, size)
}

/// What a list read answers for `addr` on `id`: the payload split into its
/// whole `elem_size`-byte elements. A zero-byte payload yields the empty
/// list, not an error.
pub open spec fn spec_get_list(g: Graph, id: u32, addr: PropertyAddress, elem_size: nat) -> Result<
    Seq<Seq<u8>>,
    Status,
>
    recommends
        elem_size > 0,
{
    match spec_lookup(g, id, addr) {
        Fetched::Error(s) => Err(s),
        Fetched::Text(_) => Err(STATUS_BAD_SIZE),
        Fetched::Data(b) => Ok(crate::codec::chunks_of(b@, elem_size)),
    }
}

/// Reads a variable-length list property from object `id` in `scope`: the
/// payload's byte size determines the element count, so a payload of
/// `n * elem_size` bytes yields exactly `n` elements, and an empty payload
/// yields the empty list, not an error.
pub fn get_list_property_scoped(g: &Graph, id: u32, selector: u32, scope: u32, elem_size: usize) -> (r:
    Result<Vec<Vec<u8>>, Status>)
    requires
        elem_size > 0,
    ensures
        (match (r, spec_get_list(*g, id, spec_scoped_address(selector, scope), elem_size as nat)) {
            (Ok(v), Ok(b)) => {
                &&& v@.len() == b.len()
                &&& forall|i: int| 0 <= i < v@.len() ==> v@[i]@ == b[i]
            },
            (Err(a), Err(b)) => a == b,
            _ => false,
        }),
{
    let addr = PropertyAddress { selector, scope, element: ELEMENT_MAIN };
    match lookup(g, id, addr) {
        None => Err(STATUS_UNKNOWN_PROPERTY),
        Some(Fetched::Error(s)) => Err(*s),
        Some(Fetched::Text(_)) => Err(STATUS_BAD_SIZE),
        Some(Fetched::Data(b)) => Ok(chunk_bytes(b, elem_size)),
    }
}

/// Reads a variable-length list property in the global scope.
pub fn get_list_property(g: &Graph, id: u32, selector: u32, elem_size: usize) -> (r: Result<
    Vec<Vec<u8>>,
    Status,
>)
    requires
        elem_size > 0,
    ensures
        (match (r, spec_get_list(*g, id, spec_global_address(selector), elem_size as nat)) {
            (Ok(v), Ok(b)) => {
                &&& v@.len() == b.len()
                &&& forall|i: int| 0 <= i < v@.len() ==> v@[i]@ == b[i]
            },
            (Err(a), Err(b)) => a == b,
            _ => false,
        }),
{
    get_list_property_scoped(g, id, selector, SCOPE_GLOBAL, elem_size)
}

/// What a text read answers for `addr` on `id`: the decoded text of a
/// string-handle property, the reply's status where it failed, and the
/// bad-size status where the property is not a text property.
pub open spec fn spec_get_text(g: Graph, id: u32, addr: PropertyAddress) -> Result<
    Seq<char>,
    Status,
> {
    match spec_lookup(g, id, addr) {
        Fetched::Error(s) => Err(s),
        Fetched::Data(_) => Err(STATUS_BAD_SIZE),
        Fetched::Text(t) => Ok(t@),
    }
}

/// Reads a string-handle property of object `id` in `scope`, fully decoded
/// to owned text. An empty text is a legitimate value, not an error.
pub fn get_string_property_scoped(g: &Graph, id: u32, selector: u32, scope: u32) -> (r: Result<
    String,
    Status,
>)
    ensures
        (match (r, spec_get_text(*g, id, spec_scoped_address(selector, scope))) {
            (Ok(v), Ok(t)) => v@ == t,
            (Err(a), Err(b)) => a == b,
            _ => false,
        }),
{
    let addr = PropertyAddress { selector, scope, element: ELEMENT_MAIN };
    match lookup(g, id, addr) {
        None => Err(STATUS_UNKNOWN_PROPERTY),
        Some(Fetched::Error(s)) => Err(*s),
        Some(Fetched::Data(_)) => Err(STATUS_BAD_SIZE),
        Some(Fetched::Text(t)) => Ok(t.clone()),
    }
}

/// Reads a string-handle property of object `id` in the global scope, fully
/// decoded to owned text. An empty text is a legitimate value, not an
/// error.
pub fn get_string_property(g: &Graph, id: u32, selector: u32) -> (r: Result<String, Status>)
    ensures
        (match (r, spec_get_text(*g, id, spec_global_address(selector))) {
            (Ok(v), Ok(t)) => v@ == t,
            (Err(a), Err(b)) => a == b,
            _ => false,
        }),
{
    get_string_property_scoped(g, id, selector, SCOPE_GLOBAL)
}

/// What a four-byte scalar read answers for `addr` on `id`, decoded as a
/// little-endian `u32`.
pub open spec fn spec_get_u32(g: Graph, id: u32, addr: PropertyAddress) -> Result<u32, Status> {
    match spec_get_data(g, id, addr, 4) {
        Err(s) => Err(s),
        Ok(b) => Ok(u32_of_le(b)),
    }
}

/// Reads a four-byte scalar property of object `id` in `scope` as a `u32`.
pub fn get_u32_property_scoped(g: &Graph, id: u32, selector: u32, scope: u32) -> (r: Result<
    u32,
    Status,
>)
    ensures
        r == spec_get_u32(*g, id, spec_scoped_address(selector, scope)),
{
    match get_property_scoped(g, id, selector, scope, 4) {
        Err(s) => Err(s),
        Ok(b) => Ok(read_u32_le(&b, 0)),
    }
}

/// Reads a four-byte scalar property of object `id` in the global scope as
/// a `u32`.
pub fn get_u32_property(g: &Graph, id: u32, selector: u32) -> (r: Result<u32, Status>)
    ensures
        r == spec_get_u32(*g, id, spec_global_address(selector)),
{
    get_u32_property_scoped(g, id, selector, SCOPE_GLOBAL)
}

/// What a four-byte scalar read answers, decoded as a little-endian `i32`.
pub open spec fn spec_get_i32(g: Graph, id: u32, addr: PropertyAddress) -> Result<i32, Status> {
    match spec_get_data(g, id, addr, 4) {
        Err(s) => Err(s),
        Ok(b) => Ok(i32_of_le(b)),
    }
}

/// Reads a four-byte scalar property of object `id` in the global scope as
/// an `i32`.
pub fn get_i32_property(g: &Graph, id: u32, selector: u32) -> (r: Result<i32, Status>)
    ensures
        r == spec_get_i32(*g, id, spec_global_address(selector)),
{
    match get_property(g, id, selector, 4) {
        Err(s) => Err(s),
        Ok(b) => Ok(read_i32_le(&b, 0)),
    }
}

/// What an eight-byte scalar read answers, decoded as a little-endian
/// `u64`.
pub open spec fn spec_get_u64(g: Graph, id: u32, addr: PropertyAddress) -> Result<u64, Status> {
    match spec_get_data(g, id, addr, 8) {
        Err(s) => Err(s),
        Ok(b) => Ok(u64_of_le(b)),
    }
}

/// Reads an eight-byte scalar property of object `id` in `scope` as a
/// `u64`.
pub fn get_u64_property_scoped(g: &Graph, id: u32, selector: u32, scope: u32) -> (r: Result<
    u64,
    Status,
>)
    ensures
        r == spec_get_u64(*g, id, spec_scoped_address(selector, scope)),
{
    match get_property_scoped(g, id, selector, scope, 8) {
        Err(s) => Err(s),
        Ok(b) => Ok(read_u64_le(&b, 0)),
    }
}

/// Reads the little-endian `u32` list property `selector` of object `id`
/// in `scope`: one value for each whole four-byte element of the payload.
pub open spec fn spec_get_u32_list(g: Graph, id: u32, addr: PropertyAddress) -> Result<
    Seq<u32>,
    Status,
> {
    match spec_lookup(g, id, addr) {
        Fetched::Error(s) => Err(s),
        Fetched::Text(_) => Err(STATUS_BAD_SIZE),
        Fetched::Data(b) => Ok(Seq::new(b@.len() / 4, |i: int| u32_of_le(chunk_at(b@, 4, i as nat)))),
    }
}

/// Reads a list property of object `id` in `scope` as `u32` handles.
pub fn get_u32_list_property_scoped(g: &Graph, id: u32, selector: u32, scope: u32) -> (r: Result<
    Vec<u32>,
    Status,
>)
    ensures
        (match (r, spec_get_u32_list(*g, id, spec_scoped_address(selector, scope))) {
            (Ok(v), Ok(b)) => v@ == b,
            (Err(a), Err(b)) => a == b,
            _ => false,
        }),
{
    let addr = PropertyAddress { selector, scope, element: ELEMENT_MAIN };
    match lookup(g, id, addr) {
        None => Err(STATUS_UNKNOWN_PROPERTY),
        Some(Fetched::Error(s)) => Err(*s),
        Some(Fetched::Text(_)) => Err(STATUS_BAD_SIZE),
        Some(Fetched::Data(b)) => {
            let v = crate::codec::parse_u32_list(b);
            proof {
                assert(v@ =~= Seq::new(b@.len() / 4, |i: int| u32_of_le(chunk_at(b@, 4, i as nat))));
            }
            Ok(v)
        },
    }
}

/// Reads a list property of object `id` in the global scope as `u32`
/// handles.
pub fn get_u32_list_property(g: &Graph, id: u32, selector: u32) -> (r: Result<Vec<u32>, Status>)
    ensures
        (match (r, spec_get_u32_list(*g, id, spec_global_address(selector))) {
            (Ok(v), Ok(b)) => v@ == b,
            (Err(a), Err(b)) => a == b,
            _ => false,
        }),
{
    get_u32_list_property_scoped(g, id, selector, SCOPE_GLOBAL)
}

/// What a whole-payload read answers for `addr` on `id`: all the bytes of
/// a data reply.
pub open spec fn spec_get_bytes(g: Graph, id: u32, addr: PropertyAddress) -> Result<
    Seq<u8>,
    Status,
> {
    match spec_lookup(g, id, addr) {
        Fetched::Error(s) => Err(s),
        Fetched::Text(_) => Err(STATUS_BAD_SIZE),
        Fetched::Data(b) => Ok(b@),
    }
}

/// Reads the whole raw payload of a variable-size property of object `id`
/// in `scope`.
pub fn get_data_property_scoped(g: &Graph, id: u32, selector: u32, scope: u32) -> (r: Result<
    Vec<u8>,
    Status,
>)
    ensures
        (match (r, spec_get_bytes(*g, id, spec_scoped_address(selector, scope))) {
            (Ok(v), Ok(b)) => v@ == b,
            (Err(a), Err(b)) => a == b,
            _ => false,
        }),
{
    let addr = PropertyAddress { selector, scope, element: ELEMENT_MAIN };
    match lookup(g, id, addr) {
        None => Err(STATUS_UNKNOWN_PROPERTY),
        Some(Fetched::Error(s)) => Err(*s),
        Some(Fetched::Text(_)) => Err(STATUS_BAD_SIZE),
        Some(Fetched::Data(b)) => Ok(copy_bytes(b)),
    }
}

/// Reads a four-byte scalar property of object `id` in `scope` as an
/// `i32`.
pub fn get_i32_property_scoped(g: &Graph, id: u32, selector: u32, scope: u32) -> (r: Result<
    i32,
    Status,
>)
    ensures
        r == spec_get_i32(*g, id, spec_scoped_address(selector, scope)),
{
    match get_property_scoped(g, id, selector, scope, 4) {
        Err(s) => Err(s),
        Ok(b) => Ok(read_i32_le(&b, 0)),
    }
}

} // verus!
