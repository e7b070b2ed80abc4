//! Line information, line requests and their builder, live-request
//! bookkeeping, and decoded line values.
use vstd::prelude::*;
use vstd::utf8::{decode_utf8, valid_utf8};
use vstd::slice::{slice_subrange, slice_to_vec};
use vstd::string::StringSliceAdditionalSpecFns;
use crate::abi_v2::{
    attr_id_of, GpioV2LineAttrId, GpioV2LineAttribute,
    GpioV2LineConfigAttribute, GpioV2LineInfo, GpioV2LineRequest, GpioV2LineValues,
    ATTR_ID_DEBOUNCE, ATTR_ID_FLAGS, ATTR_ID_OUTPUT_VALUES, GPIO_V2_LINE_NUM_ATTRS_MAX,
};
use crate::cstring::{encoded_label, lossy_utf8, until_nul, CString};
use crate::error::{classify, Error, IoctlKind, Result as IoctlResult};
use crate::mask::{
    first_index, full_mask, has_bit, index_of_offset as position_of, is_first_index,
    is_full_mask, lemma_first_index, lemma_set_bit, lemma_test_bit, lemma_zero_mask,
    mask_indices, matched_indices, offsets_to_mask, GPIO_V2_LINES_MAX,
};

verus! {

/// Line flags, as the kernel reports them and as a request asks for them.
pub const GPIO_V2_LINE_FLAG_USED: u64 = 1;
pub const GPIO_V2_LINE_FLAG_ACTIVE_LOW: u64 = 2;
pub const GPIO_V2_LINE_FLAG_INPUT: u64 = 4;
pub const GPIO_V2_LINE_FLAG_OUTPUT: u64 = 8;
pub const GPIO_V2_LINE_FLAG_EDGE_RISING: u64 = 16;
pub const GPIO_V2_LINE_FLAG_EDGE_FALLING: u64 = 32;
pub const GPIO_V2_LINE_FLAG_OPEN_DRAIN: u64 = 64;
pub const GPIO_V2_LINE_FLAG_OPEN_SOURCE: u64 = 128;
pub const GPIO_V2_LINE_FLAG_BIAS_PULL_UP: u64 = 256;
pub const GPIO_V2_LINE_FLAG_BIAS_PULL_DOWN: u64 = 512;
pub const GPIO_V2_LINE_FLAG_BIAS_DISABLED: u64 = 1024;
pub const GPIO_V2_LINE_FLAG_EVENT_CLOCK_REALTIME: u64 = 2048;
pub const GPIO_V2_LINE_FLAG_EVENT_CLOCK_HTE: u64 = 4096;

/// A set of line flags, kept as the kernel's bitmask (unknown bits retained).
#[derive(Clone, Copy, Debug, PartialEq, Eq, Structural)]
pub struct LineFlags {
    pub bits: u64,
}

/// Flags given to a request; the same bitmask as [`LineFlags`].
pub type HandleFlags = LineFlags;

impl LineFlags {
    /// The flags whose bitmask is `bits`, unknown bits included.
    pub fn from_bits_retain(bits: u64) -> (r: LineFlags)
        ensures
            r.bits == bits,
    {
        LineFlags { bits }
    }

    /// No flag.
    pub fn empty() -> (r: LineFlags)
        ensures
            r.bits == 0,
    {
        LineFlags { bits: 0 }
    }

    /// The bitmask.
    pub fn bits(&self) -> (r: u64)
        ensures
            r == self.bits,
    {
        self.bits
    }

    /// The flags of both.
    pub fn union(self, other: LineFlags) -> (r: LineFlags)
        ensures
            r.bits == self.bits | other.bits,
    {
        LineFlags { bits: self.bits | other.bits }
    }

    /// Whether every flag of `other` is set here.
    pub fn contains(&self, other: LineFlags) -> (r: bool)
        ensures
            r == (self.bits & other.bits == other.bits),
    {
        self.bits & other.bits == other.bits
    }
}

/// A line attribute, decoded from its record by discriminant.
#[derive(Clone, Copy, Debug, PartialEq, Eq, Structural)]
pub enum LineAttribute {
    Flags(LineFlags),
    Values(u64),
    DebouncePeriodUs(u32),
}

/// The attribute that a record holds, read through the arm its discriminant
/// selects (the debounce arm for a discriminant out of range).
pub open spec fn decode_attribute(a: GpioV2LineAttribute) -> LineAttribute {
    match attr_id_of(a.id) {
        GpioV2LineAttrId::Flags => LineAttribute::Flags(LineFlags { bits: a.value }),
        GpioV2LineAttrId::OutputValues => LineAttribute::Values(a.value),
        GpioV2LineAttrId::Debounce => LineAttribute::DebouncePeriodUs(a.value as u32),
    }
}

impl LineAttribute {
    /// Decodes an attribute record, reading only the arm that its
    /// discriminant selects.
    pub fn from_record(a: &GpioV2LineAttribute) -> (r: LineAttribute)
        ensures
            r == decode_attribute(*a),
    {
        match GpioV2LineAttrId::from_u32(a.id) {
            GpioV2LineAttrId::Flags => LineAttribute::Flags(LineFlags { bits: a.value }),
            GpioV2LineAttrId::OutputValues => LineAttribute::Values(a.value),
            GpioV2LineAttrId::Debounce => LineAttribute::DebouncePeriodUs(a.value as u32),
        }
    }

    /// The placeholder attribute: output values all zero.
    pub fn default() -> (r: LineAttribute)
        ensures
            r == LineAttribute::Values(0),
    {
        LineAttribute::Values(0)
    }
}

/// The entries of `attrs` in use when `n` are claimed: none when the count
/// is beyond the array.
pub open spec fn used_prefix<T>(attrs: Seq<T>, n: int) -> Seq<T> {
    if n <= attrs.len() {
        attrs.take(n)
    } else {
        Seq::empty()
    }
}

/// What the kernel reports of one line.
#[derive(Clone, Copy, Debug)]
pub struct LineInfo {
    inner: GpioV2LineInfo,
}

impl View for LineInfo {
    type V = GpioV2LineInfo;

    closed spec fn view(&self) -> GpioV2LineInfo {
        self.inner
    }
}

impl LineInfo {
    /// Wraps a record that the kernel filled.
    pub fn from_record(inner: GpioV2LineInfo) -> (r: LineInfo)
        ensures
            r@ == inner,
    {
        LineInfo { inner }
    }

    /// The line's offset on its chip.
    pub fn offset(&self) -> (r: u32)
        ensures
            r == self@.offset,
    {
        self.inner.offset
    }

    /// The line's flags.
    pub fn flags(&self) -> (r: LineFlags)
        ensures
            r.bits == self@.flags,
    {
        LineFlags::from_bits_retain(self.inner.flags)
    }

    /// The label of the line's consumer.
    pub fn consumer(&self) -> (r: String)
        ensures
            r@ == lossy_utf8(until_nul(self@.consumer.bytes@)),
            valid_utf8(until_nul(self@.consumer.bytes@)) ==> r@ == decode_utf8(until_nul(self@.consumer.bytes@)),
    {
        self.inner.consumer.to_string_lossy()
    }

    /// The line's name.
    pub fn name(&self) -> (r: String)
        ensures
            r@ == lossy_utf8(until_nul(self@.name.bytes@)),
            valid_utf8(until_nul(self@.name.bytes@)) ==> r@ == decode_utf8(until_nul(self@.name.bytes@)),
    {
        self.inner.name.to_string_lossy()
    }

    /// How many attributes the kernel reported.
    pub fn num_attrs(&self) -> (r: u32)
        ensures
            r == self@.num_attrs,
    {
        self.inner.num_attrs
    }

    /// The attributes in use, decoded; at most the ten the record holds.
    pub fn attrs(&self) -> (r: Vec<LineAttribute>)
        ensures
            r@.len() == if self@.num_attrs < 10 { self@.num_attrs as int } else { 10 },
            forall|i: int| 0 <= i < r@.len() ==> r@[i] == decode_attribute(self@.attrs@[i]),
    {
        let n: usize = if (self.inner.num_attrs as usize) < GPIO_V2_LINE_NUM_ATTRS_MAX {
            self.inner.num_attrs as usize
        } else {
            GPIO_V2_LINE_NUM_ATTRS_MAX
        };
        let mut out: Vec<LineAttribute> = Vec::new();
        let mut i: usize = 0;
        while i < n
            invariant
                i <= n <= 10,
                n == if self@.num_attrs < 10 { self@.num_attrs as int } else { 10 },
                self@ == self.inner,
                out@.len() == i,
                forall|j: int| 0 <= j < i ==> out@[j] == decode_attribute(self@.attrs@[j]),
            decreases n - i,
        {
            out.push(LineAttribute::from_record(&self.inner.attrs[i]));
            i += 1;
        }
        out
    }
}

/// The offsets in use in a request record (none when the count is beyond the
/// array).
pub open spec fn request_offsets(r: GpioV2LineRequest) -> Seq<u32> {
    used_prefix(r.offsets@, r.num_lines as int)
}

/// The configuration attributes in use in a request record (none when the
/// count is beyond the array).
pub open spec fn request_attrs(r: GpioV2LineRequest) -> Seq<GpioV2LineConfigAttribute> {
    used_prefix(r.config.attrs@, r.config.num_attrs as int)
}

/// The flags of the first `Flags` attribute in `attrs` that applies to
/// index `index`.
pub open spec fn flags_override(attrs: Seq<GpioV2LineConfigAttribute>, index: u64) -> Option<u64>
    decreases attrs.len(),
{
    if attrs.len() == 0 {
        None
    } else if has_bit(attrs[0].mask, index) && attr_id_of(attrs[0].attr.id)
        == GpioV2LineAttrId::Flags {
        Some(attrs[0].attr.value)
    } else {
        flags_override(attrs.drop_first(), index)
    }
}

/// The default output of index `index` that the first output-values
/// attribute applying to it gives, as 0 or 1.
pub open spec fn value_override(attrs: Seq<GpioV2LineConfigAttribute>, index: u64) -> Option<u8>
    decreases attrs.len(),
{
    if attrs.len() == 0 {
        None
    } else if has_bit(attrs[0].mask, index) && attr_id_of(attrs[0].attr.id)
        == GpioV2LineAttrId::OutputValues {
        Some(if has_bit(attrs[0].attr.value, index) { 1u8 } else { 0u8 })
    } else {
        value_override(attrs.drop_first(), index)
    }
}

/// A built request for lines, ready to be submitted.
#[derive(Clone, Copy, Debug)]
pub struct LineRequest {
    inner: GpioV2LineRequest,
}

impl View for LineRequest {
    type V = GpioV2LineRequest;

    closed spec fn view(&self) -> GpioV2LineRequest {
        self.inner
    }
}

impl LineRequest {
    /// A builder for a new request.
    pub fn builder() -> (r: LineRequestBuilder)
        ensures
            r@.num_lines == 0,
            r@.config.num_attrs == 0,
            r@.config.flags == 0,
            r@.event_buffer_size == 0,
            forall|i: int| 0 <= i < 32 ==> r@.consumer.bytes@[i] == 0,
            forall|i: int| 0 <= i < 5 ==> r@.config.padding@[i] == 0,
            forall|i: int| 0 <= i < 5 ==> r@.padding@[i] == 0,
    {
        LineRequestBuilder::new()
    }

    /// The record to hand to the kernel.
    pub fn record(&self) -> (r: GpioV2LineRequest)
        ensures
            r == self@,
    {
        self.inner
    }

    /// The requested offsets, in request order.
    pub fn offsets(&self) -> (r: &[u32])
        ensures
            r@ == request_offsets(self@),
    {
        let n = self.inner.num_lines as usize;
        if n <= GPIO_V2_LINES_MAX {
            let r = slice_subrange(self.inner.offsets.as_slice(), 0, n);
            assert(r@ =~= request_offsets(self@));
            r
        } else {
            let r = slice_subrange(self.inner.offsets.as_slice(), 0, 0);
            assert(r@ =~= request_offsets(self@));
            r
        }
    }

    /// The consumer label.
    pub fn consumer(&self) -> (r: String)
        ensures
            r@ == lossy_utf8(until_nul(self@.consumer.bytes@)),
            valid_utf8(until_nul(self@.consumer.bytes@)) ==> r@ == decode_utf8(until_nul(self@.consumer.bytes@)),
    {
        self.inner.consumer.to_string_lossy()
    }

    /// The default flags of every line.
    pub fn flags(&self) -> (r: HandleFlags)
        ensures
            r.bits == self@.config.flags,
    {
        LineFlags::from_bits_retain(self.inner.config.flags)
    }

    /// The number of requested lines.
    pub fn num_lines(&self) -> (r: u32)
        ensures
            r == self@.num_lines,
    {
        self.inner.num_lines
    }

    /// The position of `offset` among the requested offsets.
    pub fn index_of_offset(&self, offset: u32) -> (r: Option<usize>)
        ensures
            r matches Some(i) ==> first_index(request_offsets(self@), offset) == Some(i as int),
            r is None ==> first_index(request_offsets(self@), offset) is None,
            r is None <==> !request_offsets(self@).contains(offset),
            r matches Some(i) ==> i < request_offsets(self@).len() <= GPIO_V2_LINES_MAX,
    {
        position_of(self.offsets(), offset)
    }

    /// The configuration attributes in use.
    fn attrs(&self) -> (r: &[GpioV2LineConfigAttribute])
        ensures
            r@ == request_attrs(self@),
    {
        let n = self.inner.config.num_attrs as usize;
        if n <= GPIO_V2_LINE_NUM_ATTRS_MAX {
            let r = slice_subrange(self.inner.config.attrs.as_slice(), 0, n);
            assert(r@ =~= request_attrs(self@));
            r
        } else {
            let r = slice_subrange(self.inner.config.attrs.as_slice(), 0, 0);
            assert(r@ =~= request_attrs(self@));
            r
        }
    }

    /// The flags that line `offset` is requested with: those of the first
    /// flags attribute that applies to it, else the request's default flags;
    /// `None` when the offset is not requested.
    pub fn flags_of_offset(&self, offset: u32) -> (r: Option<HandleFlags>)
        ensures
            match first_index(request_offsets(self@), offset) {
                None => r is None,
                Some(i) => r == Some(
                    LineFlags {
                        bits: match flags_override(request_attrs(self@), i as u64) {
                            Some(f) => f,
                            None => self@.config.flags,
                        },
                    },
                ),
            },
    {
        let index = match self.index_of_offset(offset) {
            Some(i) => i,
            None => {
                return None;
            },
        };
        let attrs = self.attrs();
        assert(attrs@.skip(0) =~= attrs@);
        let mut k: usize = 0;
        while k < attrs.len()
            invariant
                k <= attrs@.len(),
                index < 64,
                attrs@ == request_attrs(self@),
                first_index(request_offsets(self@), offset) == Some(index as int),
                flags_override(attrs@, index as u64) == flags_override(
                    attrs@.skip(k as int),
                    index as u64,
                ),
            decreases attrs.len() - k,
        {
            let a = &attrs[k];
            proof {
                lemma_test_bit(a.mask, index as u64);
                assert(attrs@.skip(k as int).drop_first() =~= attrs@.skip(k + 1));
            }
            if a.mask & (1u64 << (index as u64)) != 0 {
                if let LineAttribute::Flags(f) = LineAttribute::from_record(&a.attr) {
                    assert(attrs@.skip(k as int)[0] == attrs@[k as int]);
                    return Some(f);
                }
            }
            k += 1;
        }
        assert(attrs@.skip(k as int) =~= Seq::<GpioV2LineConfigAttribute>::empty());
        Some(self.flags())
    }

    /// The default output value that the request gives line `offset`, as 0 or
    /// 1: from the first output-values attribute that applies to it. `None`
    /// when the offset is not requested or no such attribute applies; the
    /// line's direction is not consulted.
    pub fn default_value_of_offset(&self, offset: u32) -> (r: Option<u8>)
        ensures
            match first_index(request_offsets(self@), offset) {
                None => r is None,
                Some(i) => r == value_override(request_attrs(self@), i as u64),
            },
    {
        let index = match self.index_of_offset(offset) {
            Some(i) => i,
            None => {
                return None;
            },
        };
        let attrs = self.attrs();
        assert(attrs@.skip(0) =~= attrs@);
        let mut k: usize = 0;
        while k < attrs.len()
            invariant
                k <= attrs@.len(),
                index < 64,
                attrs@ == request_attrs(self@),
                first_index(request_offsets(self@), offset) == Some(index as int),
                value_override(attrs@, index as u64) == value_override(
                    attrs@.skip(k as int),
                    index as u64,
                ),
            decreases attrs.len() - k,
        {
            let a = &attrs[k];
            proof {
                lemma_test_bit(a.mask, index as u64);
                assert(attrs@.skip(k as int).drop_first() =~= attrs@.skip(k + 1));
            }
            if a.mask & (1u64 << (index as u64)) != 0 {
                if let LineAttribute::Values(values) = LineAttribute::from_record(&a.attr) {
                    proof {
                        lemma_test_bit(values, index as u64);
                        assert(attrs@.skip(k as int)[0] == attrs@[k as int]);
                    }
                    if values & (1u64 << (index as u64)) != 0 {
                        return Some(1);
                    } else {
                        return Some(0);
                    }
                }
            }
            k += 1;
        }
        assert(attrs@.skip(k as int) =~= Seq::<GpioV2LineConfigAttribute>::empty());
        None
    }
}

/// A per-line setting given to the builder, layered over the request's
/// default flags.
#[derive(Clone, Copy, Debug, PartialEq, Eq, Structural)]
pub enum OffsetAttribute {
    Flags(LineFlags),
    Value(u8),
    DebouncePeriodUs(u32),
}

/// The attribute record for `a` on the line at request index `index`.
pub open spec fn encode_attribute(a: OffsetAttribute, index: u64) -> GpioV2LineAttribute {
    match a {
        OffsetAttribute::Value(v) => GpioV2LineAttribute {
            id: ATTR_ID_OUTPUT_VALUES,
            padding: 0,
            value: if v == 0 { 0u64 } else { 1u64 << index },
        },
        OffsetAttribute::Flags(f) => GpioV2LineAttribute { id: ATTR_ID_FLAGS, padding: 0, value: f.bits },
        OffsetAttribute::DebouncePeriodUs(us) => GpioV2LineAttribute {
            id: ATTR_ID_DEBOUNCE,
            padding: 0,
            value: us as u64,
        },
    }
}

impl OffsetAttribute {
    /// The attribute record for this setting on the line at request index
    /// `index`: an output value becomes that line's bit of the values word.
    pub fn into_line_attribute(self, index: u32) -> (r: GpioV2LineAttribute)
        requires
            index < 64,
        ensures
            r == encode_attribute(self, index as u64),
    {
        match self {
            OffsetAttribute::Value(v) => GpioV2LineAttribute {
                id: GpioV2LineAttrId::OutputValues.as_u32(),
                padding: 0,
                value: if v == 0 { 0u64 } else { 1u64 << (index as u64) },
            },
            OffsetAttribute::Flags(flags) => GpioV2LineAttribute {
                id: GpioV2LineAttrId::Flags.as_u32(),
                padding: 0,
                value: flags.bits(),
            },
            OffsetAttribute::DebouncePeriodUs(us) => GpioV2LineAttribute {
                id: GpioV2LineAttrId::Debounce.as_u32(),
                padding: 0,
                value: us as u64,
            },
        }
    }

    /// Output value 1 for `true`, 0 for `false`.
    pub fn from_bool(value: bool) -> (r: OffsetAttribute)
        ensures
            r == OffsetAttribute::Value(if value { 1u8 } else { 0u8 }),
    {
        OffsetAttribute::Value(if value { 1u8 } else { 0u8 })
    }
}

/// One line to request: its offset and its own settings, in order.
#[derive(Clone, Debug)]
pub struct OffsetConfig {
    pub offset: u32,
    pub line_attr: Vec<OffsetAttribute>,
}

impl OffsetConfig {
    /// The line at `offset` with the settings `line_attr`.
    pub fn new(offset: u32, line_attr: Vec<OffsetAttribute>) -> (r: OffsetConfig)
        ensures
            r.offset == offset,
            r.line_attr@ == line_attr@,
    {
        OffsetConfig { offset, line_attr }
    }

    /// The line at `offset` with no setting of its own.
    pub fn from_offset(offset: u32) -> (r: OffsetConfig)
        ensures
            r.offset == offset,
            r.line_attr@.len() == 0,
    {
        OffsetConfig { offset, line_attr: Vec::new() }
    }
}

/// Offsets, attribute slots, and whether packing has stopped.
pub type Packing = (Seq<u32>, Seq<GpioV2LineConfigAttribute>, bool);

/// Packing one more line: its offset takes the next index, and as many of
/// its settings as there are free slots are appended, each marking only
/// that index. Packing stops once 64 lines are taken, or once a line's
/// settings reach the last free slot: that line is kept (with the settings
/// that fit) and every later line is dropped.
pub open spec fn pack_step(st: Packing, offset: u32, attrs: Seq<OffsetAttribute>) -> Packing {
    let line = st.0.len();
    let room = GPIO_V2_LINE_NUM_ATTRS_MAX - st.1.len();
    let taken = if attrs.len() < room { attrs.len() as int } else { room };
    let added = Seq::new(
        taken as nat,
        |j: int|
            GpioV2LineConfigAttribute {
                attr: encode_attribute(attrs[j], line as u64),
                mask: 1u64 << (line as u64),
            },
    );
    (
        st.0.push(offset),
        st.1 + added,
        st.1.len() + taken >= GPIO_V2_LINE_NUM_ATTRS_MAX || line + 1 >= GPIO_V2_LINES_MAX,
    )
}

/// The packing of the first `n` configurations.
pub open spec fn pack(configs: Seq<OffsetConfig>, n: nat) -> Packing
    decreases n,
{
    if n == 0 {
        (Seq::empty(), Seq::empty(), false)
    } else {
        let st = pack(configs, (n - 1) as nat);
        if st.2 {
            st
        } else {
            pack_step(st, configs[n - 1].offset, configs[n - 1].line_attr@)
        }
    }
}

/// The packing of all configurations.
pub open spec fn packed(configs: Seq<OffsetConfig>) -> Packing {
    pack(configs, configs.len())
}

/// Bounds and shape of a packing.
pub proof fn lemma_pack_bounds(configs: Seq<OffsetConfig>, n: nat)
    requires
        n <= configs.len(),
    ensures
        pack(configs, n).0.len() <= GPIO_V2_LINES_MAX,
        pack(configs, n).1.len() <= GPIO_V2_LINE_NUM_ATTRS_MAX,
        !pack(configs, n).2 ==> pack(configs, n).0.len() < GPIO_V2_LINES_MAX
            && pack(configs, n).1.len() < GPIO_V2_LINE_NUM_ATTRS_MAX,
        !pack(configs, n).2 ==> pack(configs, n).0.len() == n,
        pack(configs, n).2 ==> pack(configs, n).0.len() == GPIO_V2_LINES_MAX
            || pack(configs, n).1.len() == GPIO_V2_LINE_NUM_ATTRS_MAX,
        pack(configs, n).0.len() <= n,
        pack(configs, n).0 == configs.map_values(|c: OffsetConfig| c.offset).take(
            pack(configs, n).0.len() as int,
        ),
    decreases n,
{
    if n > 0 {
        lemma_pack_bounds(configs, (n - 1) as nat);
        let st = pack(configs, (n - 1) as nat);
        if !st.2 {
            assert(pack(configs, n).0 =~= configs.map_values(|c: OffsetConfig| c.offset).take(
                pack(configs, n).0.len() as int,
            ));
        }
    }
}

/// Once packing has stopped, later configurations change nothing.
pub proof fn lemma_pack_stopped(configs: Seq<OffsetConfig>, n: nat, m: nat)
    requires
        n <= m,
        pack(configs, n).2,
    ensures
        pack(configs, m) == pack(configs, n),
    decreases m - n,
{
    if m > n {
        lemma_pack_stopped(configs, n, (m - 1) as nat);
    }
}

/// A request keeps a prefix of the lines it is given, in order, of at most
/// 64 lines: a line after the 64th never reaches the request. Unless the
/// settings fill all ten slots early, exactly the first 64 lines (all of
/// them, if fewer) are kept.
pub proof fn lemma_request_keeps_first_lines(configs: Seq<OffsetConfig>)
    ensures
        packed(configs).0.len() <= GPIO_V2_LINES_MAX,
        packed(configs).0 == configs.map_values(|c: OffsetConfig| c.offset).take(
            packed(configs).0.len() as int,
        ),
        packed(configs).1.len() < GPIO_V2_LINE_NUM_ATTRS_MAX ==> packed(configs).0.len() == if configs.len()
            < GPIO_V2_LINES_MAX {
            configs.len() as int
        } else {
            GPIO_V2_LINES_MAX as int
        },
{
    lemma_pack_bounds(configs, configs.len());
}

/// Accumulates the configuration of a request.
#[derive(Clone, Copy, Debug)]
pub struct LineRequestBuilder {
    inner: LineRequest,
}

impl View for LineRequestBuilder {
    type V = GpioV2LineRequest;

    closed spec fn view(&self) -> GpioV2LineRequest {
        self.inner.inner
    }
}

impl LineRequestBuilder {
    /// An empty request: no line, no flag, empty label.
    pub fn new() -> (r: LineRequestBuilder)
        ensures
            r@.num_lines == 0,
            r@.config.num_attrs == 0,
            r@.config.flags == 0,
            r@.event_buffer_size == 0,
            forall|i: int| 0 <= i < 32 ==> r@.consumer.bytes@[i] == 0,
            forall|i: int| 0 <= i < 5 ==> r@.config.padding@[i] == 0,
            forall|i: int| 0 <= i < 5 ==> r@.padding@[i] == 0,
    {
        LineRequestBuilder { inner: LineRequest { inner: GpioV2LineRequest::zeroed() } }
    }

    /// Sets the consumer label, cut after 31 bytes.
    pub fn set_consumer(self, consumer: &str) -> (r: LineRequestBuilder)
        ensures
            r@.consumer.bytes@ == encoded_label(consumer.spec_bytes()),
            r@ == (GpioV2LineRequest { consumer: r@.consumer, ..self@ }),
    {
        let mut rec = self.inner.inner;
        rec.consumer = CString::new(consumer);
        LineRequestBuilder { inner: LineRequest { inner: rec } }
    }

    /// Sets the default flags of every line.
    pub fn set_flags(self, flags: HandleFlags) -> (r: LineRequestBuilder)
        ensures
            r@.config.flags == flags.bits,
            r@ == (GpioV2LineRequest {
                config: (crate::abi_v2::GpioV2LineConfig { flags: flags.bits, ..self@.config }),
                ..self@
            }),
    {
        let mut rec = self.inner.inner;
        rec.config.flags = flags.bits();
        LineRequestBuilder { inner: LineRequest { inner: rec } }
    }

    /// Sets the suggested number of edge events for the kernel to buffer.
    pub fn set_event_buffer_size(self, size: u32) -> (r: LineRequestBuilder)
        ensures
            r@ == (GpioV2LineRequest { event_buffer_size: size, ..self@ }),
    {
        let mut rec = self.inner.inner;
        rec.event_buffer_size = size;
        LineRequestBuilder { inner: LineRequest { inner: rec } }
    }

    /// Sets the lines to request, in order. Each line takes the next index;
    /// its settings are appended to the shared attribute slots, each marking
    /// only that line's index. Configurations beyond capacity are silently
    /// dropped: lines beyond the 64th, and once a line's settings reach the
    /// tenth slot, that line's remaining settings and every later line.
    pub fn set_offsets(self, configs: &[OffsetConfig]) -> (r: LineRequestBuilder)
        ensures
            r@.num_lines == packed(configs@).0.len(),
            r@.config.num_attrs == packed(configs@).1.len(),
            request_offsets(r@) == packed(configs@).0,
            request_attrs(r@) == packed(configs@).1,
            r@.offsets@.skip(r@.num_lines as int) == self@.offsets@.skip(r@.num_lines as int),
            r@.config.attrs@.skip(r@.config.num_attrs as int) == self@.config.attrs@.skip(
                r@.config.num_attrs as int,
            ),
            r@.consumer == self@.consumer,
            r@.config.flags == self@.config.flags,
            r@.config.padding == self@.config.padding,
            r@.event_buffer_size == self@.event_buffer_size,
            r@.padding == self@.padding,
            r@.fd == self@.fd,
    {
        let mut rec = self.inner.inner;
        let mut offsets = rec.offsets;
        let mut slots = rec.config.attrs;
        let mut lines_num: usize = 0;
        let mut attrs_num: usize = 0;
        let mut full = false;
        let mut i: usize = 0;
        while i < configs.len() && !full
            invariant
                i <= configs@.len(),
                pack(configs@, i as nat) == (
                    offsets@.take(lines_num as int),
                    slots@.take(attrs_num as int),
                    full,
                ),
                lines_num <= 64,
                attrs_num <= 10,
                !full ==> lines_num < 64 && attrs_num < 10,
                offsets@.len() == 64,
                slots@.len() == 10,
                forall|x: int| lines_num <= x < 64 ==> offsets@[x] == rec.offsets@[x],
                forall|x: int| attrs_num <= x < 10 ==> slots@[x] == rec.config.attrs@[x],
            decreases configs@.len() - i,
        {
            let config = &configs[i];
            let ghost st = pack(configs@, i as nat);
            let ghost start = attrs_num as int;
            let ghost old_slots = slots@;
            offsets[lines_num] = config.offset;
            let room: usize = GPIO_V2_LINE_NUM_ATTRS_MAX - attrs_num;
            let taken: usize = if config.line_attr.len() < room {
                config.line_attr.len()
            } else {
                room
            };
            let ghost added = Seq::new(
                taken as nat,
                |j: int|
                    GpioV2LineConfigAttribute {
                        attr: encode_attribute(config.line_attr@[j], lines_num as u64),
                        mask: 1u64 << (lines_num as u64),
                    },
            );
            let mut j: usize = 0;
            while j < taken
                invariant
                    j <= taken,
                    start + taken <= 10,
                    taken <= config.line_attr@.len(),
                    lines_num < 64,
                    attrs_num == start + j,
                    slots@.len() == 10,
                    old_slots.len() == 10,
                    0 <= start,
                    slots@.take(start) == old_slots.take(start),
                    forall|x: int| start + j <= x < 10 ==> slots@[x] == old_slots[x],
                    forall|k: int| 0 <= k < j ==> slots@[start + k] == added[k],
                    added.len() == taken,
                    forall|k: int|
                        0 <= k < taken ==> added[k] == (GpioV2LineConfigAttribute {
                            attr: encode_attribute(config.line_attr@[k], lines_num as u64),
                            mask: 1u64 << (lines_num as u64),
                        }),
                decreases taken - j,
            {
                let attr = config.line_attr[j].into_line_attribute(lines_num as u32);
                slots[attrs_num] = GpioV2LineConfigAttribute {
                    attr,
                    mask: 1u64 << (lines_num as u64),
                };
                attrs_num += 1;
                j += 1;
                assert(slots@.take(start) =~= old_slots.take(start));
            }
            assert forall|x: int| attrs_num <= x < 10 implies slots@[x] == rec.config.attrs@[x] by {
                assert(slots@[x] == old_slots[x]);
            }
            full = attrs_num >= GPIO_V2_LINE_NUM_ATTRS_MAX || lines_num + 1 >= GPIO_V2_LINES_MAX;
            lines_num += 1;
            i += 1;
            proof {
                assert(slots@.take(attrs_num as int) =~= st.1 + added) by {
                    assert(old_slots.take(start) == st.1);
                    assert forall|k: int| 0 <= k < attrs_num implies #[trigger] slots@[k] == (st.1
                        + added)[k] by {
                        if k < start {
                            assert(slots@[k] == slots@.take(start)[k]);
                            assert(old_slots[k] == old_slots.take(start)[k]);
                        }
                    }
                }
                assert(offsets@.take(lines_num as int) =~= st.0.push(config.offset));
            }
        }
        proof {
            if full {
                lemma_pack_stopped(configs@, i as nat, configs@.len());
            }
        }
        rec.offsets = offsets;
        rec.config.attrs = slots;
        rec.num_lines = lines_num as u32;
        rec.config.num_attrs = attrs_num as u32;
        proof {
            assert(rec.offsets@.skip(lines_num as int) =~= self@.offsets@.skip(lines_num as int));
            assert(rec.config.attrs@.skip(attrs_num as int) =~= self@.config.attrs@.skip(
                attrs_num as int,
            ));
            assert(request_offsets(rec) =~= offsets@.take(lines_num as int));
            assert(request_attrs(rec) =~= slots@.take(attrs_num as int));
        }
        LineRequestBuilder { inner: LineRequest { inner: rec } }
    }

    /// The request as configured; no check is made here, the kernel judges
    /// it on submission.
    pub fn build(self) -> (r: Result<LineRequest, Error>)
        ensures
            r matches Ok(req) && req@ == self@,
    {
        Ok(self.inner)
    }
}

/// One line's value: its offset and 0 or 1 (any non-zero value given to
/// [`LineHandle::set_values_query`] means active).
#[derive(Clone, Copy, Debug, PartialEq, Eq, Structural)]
pub struct LineValueItem {
    pub offset: u32,
    pub value: u8,
}

impl LineValueItem {
    /// The line at `offset` with value 1 for `true` and 0 for `false`.
    pub fn from_bool(offset: u32, value: bool) -> (r: LineValueItem)
        ensures
            r == (LineValueItem { offset, value: if value { 1u8 } else { 0u8 } }),
    {
        LineValueItem { offset, value: if value { 1u8 } else { 0u8 } }
    }
}

/// The value that a values record gives index `index`: 0 or 1 where the
/// mask holds the index, nothing elsewhere.
pub open spec fn value_at(rec: GpioV2LineValues, index: int) -> Option<u8> {
    if 0 <= index < 64 && has_bit(rec.mask, index as u64) {
        Some(if has_bit(rec.bits, index as u64) { 1u8 } else { 0u8 })
    } else {
        None
    }
}

/// The items of the lines from index `start` on that the mask holds, in
/// request order.
pub open spec fn items_from(offsets: Seq<u32>, rec: GpioV2LineValues, start: int) -> Seq<
    LineValueItem,
>
    decreases offsets.len() - start,
{
    if start < 0 || start >= offsets.len() {
        Seq::empty()
    } else {
        let rest = items_from(offsets, rec, start + 1);
        match value_at(rec, start) {
            Some(v) => seq![LineValueItem { offset: offsets[start], value: v }] + rest,
            None => rest,
        }
    }
}

/// A snapshot of line values with the offsets of the request they belong to.
#[derive(Clone, Debug)]
pub struct LineValue {
    inner: GpioV2LineValues,
    offsets: Vec<u32>,
}

impl View for LineValue {
    type V = (Seq<u32>, GpioV2LineValues);

    closed spec fn view(&self) -> (Seq<u32>, GpioV2LineValues) {
        (self.offsets@, self.inner)
    }
}

impl LineValue {
    /// The snapshot that a values record gives the lines `offsets`.
    pub fn new(offsets: &[u32], inner: GpioV2LineValues) -> (r: LineValue)
        ensures
            r@ == (offsets@, inner),
    {
        LineValue { inner, offsets: slice_to_vec(offsets) }
    }

    /// The value of line `offset`: `None` when it is not among the offsets
    /// or the snapshot does not hold it.
    pub fn value_of_offset(&self, offset: u32) -> (r: Option<u8>)
        ensures
            r == match first_index(self@.0, offset) {
                Some(i) => value_at(self@.1, i),
                None => None,
            },
    {
        let index = position_of(self.offsets.as_slice(), offset)?;
        self.value_of_index(index)
    }

    /// The value of the line at index `index`, if the snapshot holds it.
    pub fn value_of_index(&self, index: usize) -> (r: Option<u8>)
        ensures
            r == value_at(self@.1, index as int),
    {
        if index >= GPIO_V2_LINES_MAX {
            return None;
        }
        proof {
            lemma_test_bit(self.inner.mask, index as u64);
            lemma_test_bit(self.inner.bits, index as u64);
        }
        let flag = 1u64 << (index as u64);
        if self.inner.mask & flag != 0 {
            if self.inner.bits & flag == 0 {
                Some(0)
            } else {
                Some(1)
            }
        } else {
            None
        }
    }

    /// A cursor over the held values, in request order.
    pub fn values_iter(&self) -> (r: LineValueIter<'_>)
        ensures
            r@ == (self@.0, self@.1, 0int),
    {
        LineValueIter::new(self)
    }

    /// All held values, in request order.
    pub fn values(&self) -> (r: Vec<LineValueItem>)
        ensures
            r@ == items_from(self@.0, self@.1, 0),
    {
        let mut it = self.values_iter();
        let mut out: Vec<LineValueItem> = Vec::new();
        while it.index < self.offsets.len()
            invariant
                it@.0 == self@.0,
                it@.1 == self@.1,
                0 <= it@.2 <= self@.0.len(),
                out@ + items_from(self@.0, self@.1, it@.2) == items_from(self@.0, self@.1, 0),
            decreases self@.0.len() - it@.2,
        {
            let ghost before = it@.2;
            match it.next() {
                Some(item) => {
                    out.push(item);
                    assert(out@ + items_from(self@.0, self@.1, it@.2) =~= items_from(
                        self@.0,
                        self@.1,
                        0,
                    )) by {
                        assert(out@.drop_last() + seq![item] =~= out@);
                    }
                },
                None => {},
            }
        }
        assert(items_from(self@.0, self@.1, it@.2) =~= Seq::<LineValueItem>::empty());
        assert(out@ =~= items_from(self@.0, self@.1, 0));
        out
    }
}

/// A cursor over the values of a snapshot.
#[derive(Debug)]
pub struct LineValueIter<'a> {
    values: &'a LineValue,
    index: usize,
}

impl<'a> View for LineValueIter<'a> {
    type V = (Seq<u32>, GpioV2LineValues, int);

    closed spec fn view(&self) -> (Seq<u32>, GpioV2LineValues, int) {
        (self.values@.0, self.values@.1, self.index as int)
    }
}

impl<'a> LineValueIter<'a> {
    /// A cursor at the first value of `values`.
    pub fn new(values: &'a LineValue) -> (r: LineValueIter<'a>)
        ensures
            r@ == (values@.0, values@.1, 0int),
    {
        LineValueIter { values, index: 0 }
    }

    /// A cursor over the same values, back at the first one.
    pub fn restarted(&self) -> (r: LineValueIter<'a>)
        ensures
            r@ == (self@.0, self@.1, 0int),
    {
        LineValueIter { values: self.values, index: 0 }
    }

    /// The next held value, or `None` once all have been given.
    pub fn next(&mut self) -> (r: Option<LineValueItem>)
        ensures
            final(self)@.0 == old(self)@.0,
            final(self)@.1 == old(self)@.1,
            old(self)@.2 <= final(self)@.2,
            old(self)@.2 <= old(self)@.0.len() ==> final(self)@.2 <= old(self)@.0.len(),
            old(self)@.2 < old(self)@.0.len() ==> old(self)@.2 < final(self)@.2,
            items_from(old(self)@.0, old(self)@.1, old(self)@.2) == match r {
                Some(item) => seq![item] + items_from(final(self)@.0, final(self)@.1, final(self)@.2),
                None => Seq::<LineValueItem>::empty(),
            },
            r is None ==> items_from(final(self)@.0, final(self)@.1, final(self)@.2).len() == 0,
    {
        while self.index < self.values.offsets.len()
            invariant
                self.values == old(self).values,
                old(self).index <= self.index,
                old(self).index <= self.values.offsets@.len() ==> self.index <= self.values.offsets@.len(),
                items_from(old(self)@.0, old(self)@.1, old(self)@.2) == items_from(
                    self@.0,
                    self@.1,
                    self@.2,
                ),
            decreases self.values.offsets@.len() - self.index,
        {
            let i = self.index;
            self.index = i + 1;
            if let Some(value) = self.values.value_of_index(i) {
                return Some(LineValueItem { offset: self.values.offsets[i], value });
            }
        }
        None
    }
}

/// Index `i` is what some item's offset first occurs at in `offsets`.
pub open spec fn set_mask_has(offsets: Seq<u32>, items: Seq<LineValueItem>, i: int) -> bool {
    exists|k: int| 0 <= k < items.len() && #[trigger] first_index(offsets, items[k].offset) == Some(i)
}

/// Index `i` is what some item with a non-zero value first occurs at.
pub open spec fn set_bits_has(offsets: Seq<u32>, items: Seq<LineValueItem>, i: int) -> bool {
    exists|k: int|
        0 <= k < items.len() && #[trigger] first_index(offsets, items[k].offset) == Some(i)
            && items[k].value != 0
}

/// The lines of a granted request, with the operations that turn offsets into
/// the request's masks and values records back into offsets.
#[derive(Debug)]
pub struct LineHandle {
    offsets: Vec<u32>,
}

impl View for LineHandle {
    type V = Seq<u32>;

    closed spec fn view(&self) -> Seq<u32> {
        self.offsets@
    }
}

impl LineHandle {
    #[verifier::type_invariant]
    spec fn inv(&self) -> bool {
        self.offsets@.len() <= GPIO_V2_LINES_MAX
    }

    /// The lines that the kernel granted for `request`, in request order.
    pub fn from_request(request: &LineRequest) -> (r: LineHandle)
        ensures
            r@ == request_offsets(request@),
    {
        LineHandle { offsets: slice_to_vec(request.offsets()) }
    }

    /// The granted offsets, in request order.
    pub fn offsets(&self) -> (r: &[u32])
        ensures
            r@ == self@,
            r@.len() <= GPIO_V2_LINES_MAX,
    {
        proof {
            use_type_invariant(self);
        }
        self.offsets.as_slice()
    }

    /// The record that reads every line of the request.
    pub fn get_values_query(&self) -> (r: GpioV2LineValues)
        ensures
            is_full_mask(r.mask, self@.len() as int),
            r.bits == 0,
    {
        proof {
            use_type_invariant(self);
        }
        GpioV2LineValues { bits: 0, mask: full_mask(self.offsets.len()) }
    }

    /// The record that reads the lines among `offsets`; offsets that are not
    /// in the request are ignored.
    pub fn get_values_by_offsets_query(&self, offsets: &[u32]) -> (r: GpioV2LineValues)
        ensures
            mask_indices(r.mask) == matched_indices(self@, offsets@),
            r.bits == 0,
    {
        proof {
            use_type_invariant(self);
        }
        GpioV2LineValues { bits: 0, mask: offsets_to_mask(self.offsets.as_slice(), offsets) }
    }

    /// The record that sets the lines of `items`: each item whose offset is
    /// in the request marks that line's index, active when its value is not
    /// zero; items with other offsets are ignored.
    pub fn set_values_query(&self, items: &[LineValueItem]) -> (r: GpioV2LineValues)
        ensures
            forall|i: u64| i < 64 ==> (has_bit(r.mask, i) <==> set_mask_has(self@, items@, i as int)),
            forall|i: u64| i < 64 ==> (has_bit(r.bits, i) <==> set_bits_has(self@, items@, i as int)),
    {
        proof {
            use_type_invariant(self);
        }
        let mut mask: u64 = 0;
        let mut bits: u64 = 0;
        let mut k: usize = 0;
        proof {
            assert forall|i: u64| i < 64 implies !has_bit(0u64, i) by {
                lemma_zero_mask(i);
            }
        }
        while k < items.len()
            invariant
                k <= items@.len(),
                self.offsets@.len() <= 64,
                forall|i: u64|
                    i < 64 ==> (has_bit(mask, i) <==> set_mask_has(self@, items@.take(k as int), i as int)),
                forall|i: u64|
                    i < 64 ==> (has_bit(bits, i) <==> set_bits_has(self@, items@.take(k as int), i as int)),
            decreases items.len() - k,
        {
            let item = items[k];
            let ghost prev = items@.take(k as int);
            let ghost next = items@.take(k + 1);
            let ghost old_mask = mask;
            let ghost old_bits = bits;
            assert(next == prev.push(item)) by {
                assert(next =~= prev.push(item));
            }
            let found = position_of(self.offsets.as_slice(), item.offset);
            match found {
                Some(index) => {
                    let flag = 1u64 << (index as u64);
                    mask = mask | flag;
                    if item.value != 0 {
                        bits = bits | flag;
                    }
                    proof {
                        assert forall|i: u64| i < 64 implies (has_bit(mask, i) <==> set_mask_has(
                            self@,
                            next,
                            i as int,
                        )) by {
                            lemma_set_bit(old_mask, index as u64, i);
                            if set_mask_has(self@, next, i as int) && i != index as u64 {
                                let w = choose|w: int|
                                    0 <= w < next.len() && #[trigger] first_index(
                                        self@,
                                        next[w].offset,
                                    ) == Some(i as int);
                                assert(w < prev.len() && prev[w] == next[w]);
                            }
                            if has_bit(old_mask, i) {
                                let w = choose|w: int|
                                    0 <= w < prev.len() && #[trigger] first_index(
                                        self@,
                                        prev[w].offset,
                                    ) == Some(i as int);
                                assert(next[w] == prev[w]);
                            }
                            if i == index as u64 {
                                assert(first_index(self@, next[k as int].offset) == Some(i as int));
                            }
                        }
                        assert forall|i: u64| i < 64 implies (has_bit(bits, i) <==> set_bits_has(
                            self@,
                            next,
                            i as int,
                        )) by {
                            if item.value != 0 {
                                lemma_set_bit(old_bits, index as u64, i);
                            }
                            if set_bits_has(self@, next, i as int) && (i != index as u64
                                || item.value == 0) {
                                let w = choose|w: int|
                                    0 <= w < next.len() && #[trigger] first_index(
                                        self@,
                                        next[w].offset,
                                    ) == Some(i as int) && next[w].value != 0;
                                assert(w < prev.len() && prev[w] == next[w]);
                            }
                            if has_bit(old_bits, i) {
                                let w = choose|w: int|
                                    0 <= w < prev.len() && #[trigger] first_index(
                                        self@,
                                        prev[w].offset,
                                    ) == Some(i as int) && prev[w].value != 0;
                                assert(next[w] == prev[w]);
                            }
                            if i == index as u64 && item.value != 0 {
                                assert(first_index(self@, next[k as int].offset) == Some(i as int));
                            }
                        }
                    }
                },
                None => {
                    proof {
                        assert forall|i: u64| i < 64 implies (has_bit(mask, i) <==> set_mask_has(
                            self@,
                            next,
                            i as int,
                        )) by {
                            if set_mask_has(self@, next, i as int) {
                                let w = choose|w: int|
                                    0 <= w < next.len() && #[trigger] first_index(
                                        self@,
                                        next[w].offset,
                                    ) == Some(i as int);
                                assert(w < prev.len() && prev[w] == next[w]);
                            }
                            if has_bit(old_mask, i) {
                                let w = choose|w: int|
                                    0 <= w < prev.len() && #[trigger] first_index(
                                        self@,
                                        prev[w].offset,
                                    ) == Some(i as int);
                                assert(next[w] == prev[w]);
                            }
                        }
                        assert forall|i: u64| i < 64 implies (has_bit(bits, i) <==> set_bits_has(
                            self@,
                            next,
                            i as int,
                        )) by {
                            if set_bits_has(self@, next, i as int) {
                                let w = choose|w: int|
                                    0 <= w < next.len() && #[trigger] first_index(
                                        self@,
                                        next[w].offset,
                                    ) == Some(i as int) && next[w].value != 0;
                                assert(w < prev.len() && prev[w] == next[w]);
                            }
                            if has_bit(old_bits, i) {
                                let w = choose|w: int|
                                    0 <= w < prev.len() && #[trigger] first_index(
                                        self@,
                                        prev[w].offset,
                                    ) == Some(i as int) && prev[w].value != 0;
                                assert(next[w] == prev[w]);
                            }
                        }
                    }
                },
            }
            k += 1;
        }
        assert(items@.take(k as int) =~= items@);
        GpioV2LineValues { bits, mask }
    }

    /// The snapshot of this request's lines after a read sent as `query`:
    /// the kernel fills in the values `bits`, and the lines held are those
    /// the query's mask asked for.
    pub fn decode_values(&self, query: GpioV2LineValues, bits: u64) -> (r: LineValue)
        ensures
            r@ == (self@, GpioV2LineValues { bits, mask: query.mask }),
    {
        LineValue::new(self.offsets.as_slice(), GpioV2LineValues { bits, mask: query.mask })
    }
}

/// Reading every line of a request, whatever values the kernel reports,
/// gives one value per requested line, in request order, each 0 or 1.
pub proof fn lemma_get_values_in_request_order(offsets: Seq<u32>, query: GpioV2LineValues, bits: u64)
    requires
        offsets.len() <= GPIO_V2_LINES_MAX,
        is_full_mask(query.mask, offsets.len() as int),
    ensures
        items_from(offsets, GpioV2LineValues { bits, mask: query.mask }, 0).map_values(
            |x: LineValueItem| x.offset,
        ) == offsets,
        forall|j: int|
            0 <= j < items_from(offsets, GpioV2LineValues { bits, mask: query.mask }, 0).len()
                ==> #[trigger] items_from(
                offsets,
                GpioV2LineValues { bits, mask: query.mask },
                0,
            )[j].value <= 1,
{
    lemma_all_values_in_request_order(offsets, GpioV2LineValues { bits, mask: query.mask });
}

/// Setting values through an offset that is not in the request changes
/// neither the mask nor the values sent: no tracked line is affected.
pub proof fn lemma_unknown_offset_ignored(
    offsets: Seq<u32>,
    items: Seq<LineValueItem>,
    extra: LineValueItem,
)
    requires
        !offsets.contains(extra.offset),
    ensures
        forall|i: int| set_mask_has(offsets, items.push(extra), i) == set_mask_has(offsets, items, i),
        forall|i: int| set_bits_has(offsets, items.push(extra), i) == set_bits_has(offsets, items, i),
{
    lemma_first_index(offsets, extra.offset);
    let next = items.push(extra);
    assert forall|i: int| set_mask_has(offsets, next, i) == set_mask_has(offsets, items, i) by {
        if set_mask_has(offsets, next, i) {
            let w = choose|w: int| 0 <= w < next.len() && #[trigger] first_index(offsets, next[w].offset) == Some(i);
            assert(w < items.len() && items[w] == next[w]);
        }
        if set_mask_has(offsets, items, i) {
            let w = choose|w: int| 0 <= w < items.len() && #[trigger] first_index(offsets, items[w].offset) == Some(i);
            assert(next[w] == items[w]);
        }
    }
    assert forall|i: int| set_bits_has(offsets, next, i) == set_bits_has(offsets, items, i) by {
        if set_bits_has(offsets, next, i) {
            let w = choose|w: int|
                0 <= w < next.len() && #[trigger] first_index(offsets, next[w].offset) == Some(i)
                    && next[w].value != 0;
            assert(w < items.len() && items[w] == next[w]);
        }
        if set_bits_has(offsets, items, i) {
            let w = choose|w: int|
                0 <= w < items.len() && #[trigger] first_index(offsets, items[w].offset) == Some(i)
                    && items[w].value != 0;
            assert(next[w] == items[w]);
        }
    }
}

/// Reading every line of a request gives one value per requested line, in
/// request order, each 0 or 1.
pub proof fn lemma_all_values_in_request_order(offsets: Seq<u32>, rec: GpioV2LineValues)
    requires
        offsets.len() <= GPIO_V2_LINES_MAX,
        is_full_mask(rec.mask, offsets.len() as int),
    ensures
        items_from(offsets, rec, 0).map_values(|x: LineValueItem| x.offset) == offsets,
        forall|j: int|
            0 <= j < items_from(offsets, rec, 0).len() ==> #[trigger] items_from(
                offsets,
                rec,
                0,
            )[j].value <= 1,
{
    lemma_items_from_full(offsets, rec, 0);
    assert(offsets.skip(0) =~= offsets);
}

proof fn lemma_items_from_full(offsets: Seq<u32>, rec: GpioV2LineValues, start: int)
    requires
        offsets.len() <= GPIO_V2_LINES_MAX,
        is_full_mask(rec.mask, offsets.len() as int),
        0 <= start <= offsets.len(),
    ensures
        items_from(offsets, rec, start).map_values(|x: LineValueItem| x.offset) == offsets.skip(
            start,
        ),
        forall|j: int|
            0 <= j < items_from(offsets, rec, start).len() ==> #[trigger] items_from(
                offsets,
                rec,
                start,
            )[j].value <= 1,
    decreases offsets.len() - start,
{
    if start < offsets.len() {
        lemma_items_from_full(offsets, rec, start + 1);
        assert(has_bit(rec.mask, start as u64));
        let rest = items_from(offsets, rec, start + 1);
        let item = LineValueItem {
            offset: offsets[start],
            value: if has_bit(rec.bits, start as u64) { 1u8 } else { 0u8 },
        };
        assert(items_from(offsets, rec, start) == seq![item] + rest);
        assert((seq![item] + rest).map_values(|x: LineValueItem| x.offset) =~= offsets.skip(
            start,
        )) by {
            assert(offsets.skip(start) =~= seq![offsets[start]] + offsets.skip(start + 1));
        }
        assert forall|j: int| 0 <= j < (seq![item] + rest).len() implies #[trigger] (seq![item]
            + rest)[j].value <= 1 by {
            if j > 0 {
                assert((seq![item] + rest)[j] == rest[j - 1]);
            }
        }
    } else {
        assert(offsets.skip(start) =~= Seq::<u32>::empty());
    }
}

/// A request for a single line.
#[derive(Clone, Copy, Debug)]
pub struct OffsetRequest {
    line_request: LineRequest,
}

impl View for OffsetRequest {
    type V = GpioV2LineRequest;

    closed spec fn view(&self) -> GpioV2LineRequest {
        self.line_request@
    }
}

impl OffsetRequest {
    #[verifier::type_invariant]
    spec fn inv(&self) -> bool {
        request_offsets(self.line_request@).len() == 1
    }

    /// A request for the line at `offset` with default flags `flags`, default
    /// output `default_value` (as 0 or 1) and consumer label `consumer`.
    pub fn new(offset: u32, flags: HandleFlags, default_value: u8, consumer: &str) -> (r:
        OffsetRequest)
        ensures
            request_offsets(r@) == seq![offset],
            request_attrs(r@) == seq![
                GpioV2LineConfigAttribute {
                    attr: encode_attribute(OffsetAttribute::Value(default_value), 0),
                    mask: 1,
                },
            ],
            r@.config.flags == flags.bits,
            r@.consumer.bytes@ == encoded_label(consumer.spec_bytes()),
    {
        let mut attrs: Vec<OffsetAttribute> = Vec::new();
        attrs.push(OffsetAttribute::Value(default_value));
        let mut configs: Vec<OffsetConfig> = Vec::new();
        configs.push(OffsetConfig::new(offset, attrs));
        let builder = LineRequestBuilder::new().set_flags(flags).set_consumer(consumer);
        let builder = builder.set_offsets(configs.as_slice());
        proof {
            let c = configs@;
            assert(pack(c, 0) == (Seq::<u32>::empty(), Seq::<GpioV2LineConfigAttribute>::empty(), false));
            assert(1u64 << 0u64 == 1u64) by (bit_vector);
            assert(packed(c).0 =~= seq![offset]);
            assert(packed(c).1 =~= seq![
                GpioV2LineConfigAttribute {
                    attr: encode_attribute(OffsetAttribute::Value(default_value), 0),
                    mask: 1,
                },
            ]);
        }
        match builder.build() {
            Ok(line_request) => OffsetRequest { line_request },
            Err(_) => {
                proof {
                    assert(false);
                }
                OffsetRequest { line_request: LineRequest { inner: GpioV2LineRequest::zeroed() } }
            },
        }
    }

    /// The requested line's offset.
    pub fn offset(&self) -> (r: u32)
        ensures
            seq![r] == request_offsets(self@),
    {
        proof {
            use_type_invariant(self);
        }
        let offsets = self.line_request.offsets();
        assert(offsets@ =~= seq![offsets@[0]]);
        offsets[0]
    }

    /// The consumer label.
    pub fn consumer(&self) -> (r: String)
        ensures
            r@ == lossy_utf8(until_nul(self@.consumer.bytes@)),
            valid_utf8(until_nul(self@.consumer.bytes@)) ==> r@ == decode_utf8(until_nul(self@.consumer.bytes@)),
    {
        self.line_request.consumer()
    }

    /// The requested flags.
    pub fn flags(&self) -> (r: HandleFlags)
        ensures
            r.bits == self@.config.flags,
    {
        self.line_request.flags()
    }

    /// The default output of the line, as 0 or 1, when the request sets one.
    pub fn default_value(&self) -> (r: Option<u8>)
        ensures
            r == value_override(request_attrs(self@), 0),
    {
        let offset = self.offset();
        proof {
            lemma_first_index(request_offsets(self@), offset);
            assert(is_first_index(request_offsets(self@), offset, 0));
        }
        self.line_request.default_value_of_offset(offset)
    }

    /// The request for the line.
    pub fn line_request(&self) -> (r: LineRequest)
        ensures
            r@ == self@,
    {
        self.line_request
    }
}

impl LineRequest {
    /// The handle of a submitted request, when the kernel granted it: its
    /// lines are the request's offsets, in order. When the kernel refused,
    /// its refusal as an error and no handle.
    pub fn granted(&self, outcome: core::result::Result<i32, i32>) -> (r: IoctlResult<LineHandle>)
        ensures
            outcome is Ok ==> (r matches Ok(h) && h@ == request_offsets(self@)),
            outcome matches Err(e) ==> r == Err::<LineHandle, Error>(
                Error::Ioctl { kind: IoctlKind::GetLine, errno: e },
            ),
    {
        match classify(IoctlKind::GetLine, outcome) {
            Ok(_) => Ok(LineHandle::from_request(self)),
            Err(e) => Err(e),
        }
    }
}

} // verus!
