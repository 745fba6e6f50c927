//! Rendering of the property value shapes a report shows: flags, handle
//! lists, sample-rate ranges, stream format descriptions, and the expanded
//! preferred channel layout.
use crate::codec::{spec_description_at, spec_implied_channels, u32_of_le, u64_of_le, ChannelDescription, ChannelLayout};
use crate::render::{
    append_dec_u32, append_f32_bits, append_f64_bits, push_char, spec_dec,
    spec_f32_bits, spec_f64_bits,
};
use vstd::prelude::*;
use vstd::string::*;

verus! {

/// Text in double quotes.
pub open spec fn spec_quoted(t: Seq<char>) -> Seq<char> {
    seq!['"'] + t + seq!['"']
}

/// Appends `t` in double quotes.
pub fn append_quoted(out: &mut String, t: &str)
    ensures
        final(out)@ == old(out)@ + spec_quoted(t@),
{
    push_char(out, '"');
    out.append(t);
    push_char(out, '"');
    assert(out@ =~= old(out)@ + spec_quoted(t@));
}

/// The text of a flag property: any non-zero value reads as set.
pub open spec fn spec_bool_text(v: u32) -> Seq<char> {
    if v != 0 {
        "true"@
    } else {
        "false"@
    }
}

/// Appends the text of a flag value.
pub fn append_bool_u32(out: &mut String, v: u32)
    ensures
        final(out)@ == old(out)@ + spec_bool_text(v),
{
    if v != 0 {
        out.append("true");
    } else {
        out.append("false");
    }
}

/// The comma-separated decimal items of a handle list, from index `i` on.
pub open spec fn spec_u32_items(s: Seq<u32>, i: int) -> Seq<char>
    decreases s.len() - i,
{
    if i < 0 || i >= s.len() {
        Seq::<char>::empty()
    } else if i == s.len() - 1 {
        spec_dec(s[i] as nat)
    } else {
        spec_dec(s[i] as nat) + ", "@ + spec_u32_items(s, i + 1)
    }
}

/// A handle list in brackets: `[1, 2, 3]`, `[]` when empty.
pub open spec fn spec_u32_list_text(s: Seq<u32>) -> Seq<char> {
    "["@ + spec_u32_items(s, 0) + "]"@
}

/// Appends a handle list in brackets.
pub fn append_u32_list(out: &mut String, v: &Vec<u32>)
    ensures
        final(out)@ == old(out)@ + spec_u32_list_text(v@),
{
    out.append("[");
    let n: usize = v.len();
    let mut i: usize = 0;
    while i < n
        invariant
            n == v@.len(),
            i <= n,
            out@ + spec_u32_items(v@, i as int) == old(out)@ + "["@ + spec_u32_items(v@, 0),
        decreases n - i,
    {
        append_dec_u32(out, v[i]);
        if i + 1 < n {
            out.append(", ");
        }
        i += 1;
    }
    out.append("]");
    assert(out@ =~= old(out)@ + spec_u32_list_text(v@));
}

/// A sample-rate or buffer-size range: its two bounds, each read as a
/// double-precision bit pattern.
pub open spec fn spec_value_range_text(b: Seq<u8>) -> Seq<char>
    recommends
        b.len() == 16,
{
    "AudioValueRange { mMinimum: "@ + spec_f64_bits(u64_of_le(b.subrange(0, 8)))
        + ", mMaximum: "@ + spec_f64_bits(u64_of_le(b.subrange(8, 16))) + " }"@
}

/// Appends the text of one sixteen-byte value range.
pub fn append_value_range(out: &mut String, b: &Vec<u8>)
    requires
        b@.len() == 16,
    ensures
        final(out)@ == old(out)@ + spec_value_range_text(b@),
{
    out.append("AudioValueRange { mMinimum: ");
    let lo = crate::codec::read_u64_le(b, 0);
    append_f64_bits(out, lo);
    out.append(", mMaximum: ");
    let hi = crate::codec::read_u64_le(b, 8);
    append_f64_bits(out, hi);
    out.append(" }");
    assert(out@ =~= old(out)@ + spec_value_range_text(b@));
}

/// The comma-separated value-range items of a list, from index `i` on.
pub open spec fn spec_value_range_items(cs: Seq<Seq<u8>>, i: int) -> Seq<char>
    decreases cs.len() - i,
{
    if i < 0 || i >= cs.len() {
        Seq::<char>::empty()
    } else if i == cs.len() - 1 {
        spec_value_range_text(cs[i])
    } else {
        spec_value_range_text(cs[i]) + ", "@ + spec_value_range_items(cs, i + 1)
    }
}

/// A list of value ranges in brackets.
pub open spec fn spec_value_range_list_text(cs: Seq<Seq<u8>>) -> Seq<char> {
    "["@ + spec_value_range_items(cs, 0) + "]"@
}

/// Appends a list of sixteen-byte value ranges in brackets.
#[verifier::rlimit(60)]
pub fn append_value_range_list(out: &mut String, cs: &Vec<Vec<u8>>)
    requires
        forall|i: int| 0 <= i < cs@.len() ==> (#[trigger] cs@[i])@.len() == 16,
    ensures
        final(out)@ == old(out)@ + spec_value_range_list_text(
            Seq::new(cs@.len(), |i: int| cs@[i]@),
        ),
{
    let ghost views = Seq::new(cs@.len(), |i: int| cs@[i]@);
    out.append("[");
    let n: usize = cs.len();
    let mut i: usize = 0;
    while i < n
        invariant
            views == Seq::new(cs@.len(), |j: int| cs@[j]@),
            forall|j: int| 0 <= j < cs@.len() ==> (#[trigger] cs@[j])@.len() == 16,
            n == cs@.len(),
            i <= n,
            out@ + spec_value_range_items(views, i as int) == old(out)@ + "["@
                + spec_value_range_items(views, 0),
        decreases n - i,
    {
        append_value_range(out, &cs[i]);
        if i + 1 < n {
            out.append(", ");
        }
        i += 1;
    }
    out.append("]");
    assert(out@ =~= old(out)@ + spec_value_range_list_text(views));
}

/// A stream format description: the nine fields of the fixed forty-byte
/// structure, the sample rate read as a double-precision bit pattern.
pub open spec fn spec_stream_format_text(b: Seq<u8>) -> Seq<char>
    recommends
        b.len() == 40,
{
    "AudioStreamBasicDescription { mSampleRate: "@ + spec_f64_bits(u64_of_le(b.subrange(0, 8)))
        + ", mFormatID: "@ + spec_dec(u32_of_le(b.subrange(8, 12)) as nat) + ", mFormatFlags: "@
        + spec_dec(u32_of_le(b.subrange(12, 16)) as nat) + ", mBytesPerPacket: "@ + spec_dec(
        u32_of_le(b.subrange(16, 20)) as nat,
    ) + ", mFramesPerPacket: "@ + spec_dec(u32_of_le(b.subrange(20, 24)) as nat)
        + ", mBytesPerFrame: "@ + spec_dec(u32_of_le(b.subrange(24, 28)) as nat)
        + ", mChannelsPerFrame: "@ + spec_dec(u32_of_le(b.subrange(28, 32)) as nat)
        + ", mBitsPerChannel: "@ + spec_dec(u32_of_le(b.subrange(32, 36)) as nat)
        + ", mReserved: "@ + spec_dec(u32_of_le(b.subrange(36, 40)) as nat) + " }"@
}

/// Appends the text of one forty-byte stream format description.
pub fn append_stream_format(out: &mut String, b: &Vec<u8>)
    requires
        b@.len() == 40,
    ensures
        final(out)@ == old(out)@ + spec_stream_format_text(b@),
{
    out.append("AudioStreamBasicDescription { mSampleRate: ");
    append_f64_bits(out, crate::codec::read_u64_le(b, 0));
    out.append(", mFormatID: ");
    append_dec_u32(out, crate::codec::read_u32_le(b, 8));
    out.append(", mFormatFlags: ");
    append_dec_u32(out, crate::codec::read_u32_le(b, 12));
    out.append(", mBytesPerPacket: ");
    append_dec_u32(out, crate::codec::read_u32_le(b, 16));
    out.append(", mFramesPerPacket: ");
    append_dec_u32(out, crate::codec::read_u32_le(b, 20));
    out.append(", mBytesPerFrame: ");
    append_dec_u32(out, crate::codec::read_u32_le(b, 24));
    out.append(", mChannelsPerFrame: ");
    append_dec_u32(out, crate::codec::read_u32_le(b, 28));
    out.append(", mBitsPerChannel: ");
    append_dec_u32(out, crate::codec::read_u32_le(b, 32));
    out.append(", mReserved: ");
    append_dec_u32(out, crate::codec::read_u32_le(b, 36));
    out.append(" }");
    assert(out@ =~= old(out)@ + spec_stream_format_text(b@));
}

/// A format range of the available-format lists: the format and the
/// sample-rate range it covers, fifty-six bytes in all.
pub open spec fn spec_ranged_format_text(b: Seq<u8>) -> Seq<char>
    recommends
        b.len() == 56,
{
    "AudioStreamRangedDescription { mFormat: "@ + spec_stream_format_text(b.subrange(0, 40))
        + ", mSampleRateRange: "@ + spec_value_range_text(b.subrange(40, 56)) + " }"@
}

/// Appends the text of one fifty-six-byte ranged format description.
pub fn append_ranged_format(out: &mut String, b: &Vec<u8>)
    requires
        b@.len() == 56,
    ensures
        final(out)@ == old(out)@ + spec_ranged_format_text(b@),
{
    out.append("AudioStreamRangedDescription { mFormat: ");
    let fmt = sub_bytes(b, 0, 40);
    append_stream_format(out, &fmt);
    out.append(", mSampleRateRange: ");
    let range = sub_bytes(b, 40, 56);
    append_value_range(out, &range);
    out.append(" }");
    assert(out@ =~= old(out)@ + spec_ranged_format_text(b@));
}

/// Copies the bytes of `b` from `from` to `to`.
fn sub_bytes(b: &Vec<u8>, from: usize, to: usize) -> (r: Vec<u8>)
    requires
        from <= to <= b@.len(),
    ensures
        r@ == b@.subrange(from as int, to as int),
{
    let mut r: Vec<u8> = Vec::new();
    let mut i: usize = from;
    while i < to
        invariant
            from <= i <= to <= b@.len(),
            r@ == b@.subrange(from as int, i as int),
        decreases to - i,
    {
        r.push(b[i]);
        proof {
            assert(b@.subrange(from as int, i as int).push(b@[i as int]) =~= b@.subrange(
                from as int,
                i as int + 1,
            ));
        }
        i += 1;
    }
    r
}

/// The comma-separated ranged-format items of a list, from index `i` on.
pub open spec fn spec_ranged_format_items(cs: Seq<Seq<u8>>, i: int) -> Seq<char>
    decreases cs.len() - i,
{
    if i < 0 || i >= cs.len() {
        Seq::<char>::empty()
    } else if i == cs.len() - 1 {
        spec_ranged_format_text(cs[i])
    } else {
        spec_ranged_format_text(cs[i]) + ", "@ + spec_ranged_format_items(cs, i + 1)
    }
}

/// A list of ranged format descriptions in brackets.
pub open spec fn spec_ranged_format_list_text(cs: Seq<Seq<u8>>) -> Seq<char> {
    "["@ + spec_ranged_format_items(cs, 0) + "]"@
}

/// Appends a list of fifty-six-byte ranged format descriptions.
#[verifier::rlimit(100)]
#[verifier::spinoff_prover]
pub fn append_ranged_format_list(out: &mut String, cs: &Vec<Vec<u8>>)
    requires
        forall|i: int| 0 <= i < cs@.len() ==> (#[trigger] cs@[i])@.len() == 56,
    ensures
        final(out)@ == old(out)@ + spec_ranged_format_list_text(
            Seq::new(cs@.len(), |i: int| cs@[i]@),
        ),
{
    let ghost views = Seq::new(cs@.len(), |i: int| cs@[i]@);
    out.append("[");
    let n: usize = cs.len();
    let mut i: usize = 0;
    while i < n
        invariant
            views == Seq::new(cs@.len(), |j: int| cs@[j]@),
            forall|j: int| 0 <= j < cs@.len() ==> (#[trigger] cs@[j])@.len() == 56,
            n == cs@.len(),
            i <= n,
            out@ + spec_ranged_format_items(views, i as int) == old(out)@ + "["@
                + spec_ranged_format_items(views, 0),
        decreases n - i,
    {
        append_ranged_format(out, &cs[i]);
        if i + 1 < n {
            out.append(", ");
        }
        i += 1;
    }
    out.append("]");
    assert(out@ =~= old(out)@ + spec_ranged_format_list_text(views));
}

/// The text of one channel description: label, flags, and the three
/// coordinates read as single-precision bit patterns.
pub open spec fn spec_channel_description_text(d: ChannelDescription) -> Seq<char> {
    "AudioChannelDescription { mChannelLabel: "@ + spec_dec(d.label as nat)
        + ", mChannelFlags: "@ + spec_dec(d.flags as nat) + ", mCoordinates: ["@ + spec_f32_bits(
        d.coord0,
    ) + ", "@ + spec_f32_bits(d.coord1) + ", "@ + spec_f32_bits(d.coord2) + "] }"@
}

/// Appends the text of one channel description.
pub fn append_channel_description(out: &mut String, d: &ChannelDescription)
    ensures
        final(out)@ == old(out)@ + spec_channel_description_text(*d),
{
    out.append("AudioChannelDescription { mChannelLabel: ");
    append_dec_u32(out, d.label);
    out.append(", mChannelFlags: ");
    append_dec_u32(out, d.flags);
    out.append(", mCoordinates: [");
    append_f32_bits(out, d.coord0);
    out.append(", ");
    append_f32_bits(out, d.coord1);
    out.append(", ");
    append_f32_bits(out, d.coord2);
    out.append("] }");
    assert(out@ =~= old(out)@ + spec_channel_description_text(*d));
}

/// The comma-separated channel-description items, from index `i` on.
pub open spec fn spec_channel_description_items(ds: Seq<ChannelDescription>, i: int) -> Seq<char>
    decreases ds.len() - i,
{
    if i < 0 || i >= ds.len() {
        Seq::<char>::empty()
    } else if i == ds.len() - 1 {
        spec_channel_description_text(ds[i])
    } else {
        spec_channel_description_text(ds[i]) + ", "@ + spec_channel_description_items(ds, i + 1)
    }
}

/// The text of an expanded channel layout: the header fields and every
/// trailing channel description.
pub open spec fn spec_channel_layout_text(l: ChannelLayout) -> Seq<char> {
    "AudioChannelLayout { mChannelLayoutTag: "@ + spec_dec(l.tag as nat) + ", mChannelBitmap: "@
        + spec_dec(l.bitmap as nat) + ", mNumberChannelDescriptions: "@ + spec_dec(
        l.declared_channels as nat,
    ) + ", mChannelDescriptions: ["@ + spec_channel_description_items(l.descriptions@, 0)
        + "] }"@
}

/// Appends the text of an expanded channel layout.
#[verifier::rlimit(60)]
pub fn append_channel_layout(out: &mut String, l: &ChannelLayout)
    ensures
        final(out)@ == old(out)@ + spec_channel_layout_text(*l),
{
    out.append("AudioChannelLayout { mChannelLayoutTag: ");
    append_dec_u32(out, l.tag);
    out.append(", mChannelBitmap: ");
    append_dec_u32(out, l.bitmap);
    out.append(", mNumberChannelDescriptions: ");
    append_dec_u32(out, l.declared_channels);
    out.append(", mChannelDescriptions: [");
    let n: usize = l.descriptions.len();
    let mut i: usize = 0;
    while i < n
        invariant
            n == l.descriptions@.len(),
            i <= n,
            out@ + spec_channel_description_items(l.descriptions@, i as int) == old(out)@
                + "AudioChannelLayout { mChannelLayoutTag: "@ + spec_dec(l.tag as nat)
                + ", mChannelBitmap: "@ + spec_dec(l.bitmap as nat)
                + ", mNumberChannelDescriptions: "@ + spec_dec(l.declared_channels as nat)
                + ", mChannelDescriptions: ["@ + spec_channel_description_items(
                l.descriptions@,
                0,
            ),
        decreases n - i,
    {
        append_channel_description(out, &l.descriptions[i]);
        if i + 1 < n {
            out.append(", ");
        }
        i += 1;
    }
    out.append("] }");
    assert(out@ =~= old(out)@ + spec_channel_layout_text(*l));
}

/// The comma-separated channel descriptions a raw layout payload holds,
/// from record `i` up to record `k`.
pub open spec fn spec_layout_items_bytes(b: Seq<u8>, i: int, k: int) -> Seq<char>
    decreases k - i,
{
    if i < 0 || i >= k {
        Seq::<char>::empty()
    } else if i == k - 1 {
        spec_channel_description_text(spec_description_at(b, i as nat))
    } else {
        spec_channel_description_text(spec_description_at(b, i as nat)) + ", "@
            + spec_layout_items_bytes(b, i + 1, k)
    }
}

/// The text of the expanded channel layout a raw payload holds: the header
/// fields and as many trailing descriptions as the payload length implies.
pub open spec fn spec_channel_layout_text_bytes(b: Seq<u8>) -> Seq<char>
    recommends
        b.len() >= 12,
{
    "AudioChannelLayout { mChannelLayoutTag: "@ + spec_dec(u32_of_le(b.subrange(0, 4)) as nat)
        + ", mChannelBitmap: "@ + spec_dec(u32_of_le(b.subrange(4, 8)) as nat)
        + ", mNumberChannelDescriptions: "@ + spec_dec(u32_of_le(b.subrange(8, 12)) as nat)
        + ", mChannelDescriptions: ["@ + spec_layout_items_bytes(
        b,
        0,
        spec_implied_channels(b.len()) as int,
    ) + "] }"@
}

/// Description sequences that agree record for record render the same
/// items.
pub proof fn lemma_layout_items_eq(ds: Seq<ChannelDescription>, b: Seq<u8>, i: int)
    requires
        0 <= i <= ds.len(),
        ds.len() == spec_implied_channels(b.len()),
        forall|j: int| 0 <= j < ds.len() ==> ds[j] == spec_description_at(b, j as nat),
    ensures
        spec_channel_description_items(ds, i) == spec_layout_items_bytes(b, i, ds.len() as int),
    decreases ds.len() - i,
{
    if i < ds.len() {
        lemma_layout_items_eq(ds, b, i + 1);
    }
}

/// An expansion that satisfies the expander's contract renders the same
/// text as the raw payload it came from.
pub proof fn lemma_layout_text_eq(l: ChannelLayout, b: Seq<u8>)
    requires
        l.tag == u32_of_le(b.subrange(0, 4)),
        l.bitmap == u32_of_le(b.subrange(4, 8)),
        l.declared_channels == u32_of_le(b.subrange(8, 12)),
        l.descriptions@.len() == spec_implied_channels(b.len()),
        forall|j: int|
            0 <= j < l.descriptions@.len() ==> l.descriptions@[j] == spec_description_at(
                b,
                j as nat,
            ),
    ensures
        spec_channel_layout_text(l) == spec_channel_layout_text_bytes(b),
{
    lemma_layout_items_eq(l.descriptions@, b, 0);
}

} // verus!
