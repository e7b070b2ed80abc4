//! A thinner view of the same records: each accessor reports a field of the
//! kernel record as it stands.
use vstd::prelude::*;
use vstd::utf8::{decode_utf8, valid_utf8};
use vstd::slice::slice_subrange;
use vstd::string::StringSliceAdditionalSpecFns;
use crate::abi_v2::{
    attr_id_of, GpioV2LineAttrId, GpioV2LineAttribute, GpioV2LineConfig,
    GpioV2LineConfigAttribute, GpioV2LineInfo, GpioV2LineRequest, GpioV2LineValues,
    GPIO_V2_LINE_NUM_ATTRS_MAX,
};
use crate::cstring::{encoded_label, lossy_utf8, until_nul, CString};
use crate::error::Error;
use crate::line::{request_offsets, used_prefix, LineFlags};
use crate::mask::{full_mask, is_full_mask, GPIO_V2_LINES_MAX};

verus! {

/// The flags a request's configuration carries.
pub type LineFlag = LineFlags;

/// The value of an attribute, read through the arm its discriminant selects.
#[derive(Clone, Copy, Debug, PartialEq, Eq, Structural)]
pub enum LineAttributeValue {
    Flags(u64),
    Values(u64),
    DebouncePeriodUs(u32),
}

/// The value of attribute record `a` (the debounce arm for a discriminant out
/// of range).
pub open spec fn attribute_value(a: GpioV2LineAttribute) -> LineAttributeValue {
    match attr_id_of(a.id) {
        GpioV2LineAttrId::Flags => LineAttributeValue::Flags(a.value),
        GpioV2LineAttrId::OutputValues => LineAttributeValue::Values(a.value),
        GpioV2LineAttrId::Debounce => LineAttributeValue::DebouncePeriodUs(a.value as u32),
    }
}

/// An attribute record.
#[derive(Clone, Copy, Debug)]
pub struct LineAttribute {
    inner: GpioV2LineAttribute,
}

impl View for LineAttribute {
    type V = GpioV2LineAttribute;

    closed spec fn view(&self) -> GpioV2LineAttribute {
        self.inner
    }
}

impl LineAttribute {
    /// The attribute's value, read only through the arm its discriminant
    /// selects.
    pub fn get_value(&self) -> (r: LineAttributeValue)
        ensures
            r == attribute_value(self@),
    {
        match GpioV2LineAttrId::from_u32(self.inner.id) {
            GpioV2LineAttrId::Flags => LineAttributeValue::Flags(self.inner.value),
            GpioV2LineAttrId::OutputValues => LineAttributeValue::Values(self.inner.value),
            GpioV2LineAttrId::Debounce => LineAttributeValue::DebouncePeriodUs(
                self.inner.value as u32,
            ),
        }
    }
}

/// A configuration attribute: an attribute and the lines it applies to.
#[derive(Clone, Copy, Debug)]
pub struct LineConfigAttribute {
    inner: GpioV2LineConfigAttribute,
}

impl View for LineConfigAttribute {
    type V = GpioV2LineConfigAttribute;

    closed spec fn view(&self) -> GpioV2LineConfigAttribute {
        self.inner
    }
}

impl LineConfigAttribute {
    /// The lines, by index into the request, that the attribute applies to.
    pub fn mask(&self) -> (r: u64)
        ensures
            r == self@.mask,
    {
        self.inner.mask
    }

    /// The attribute.
    pub fn attr(&self) -> (r: LineAttribute)
        ensures
            r@ == self@.attr,
    {
        LineAttribute { inner: self.inner.attr }
    }
}

/// The configuration of a request.
#[derive(Clone, Copy, Debug)]
pub struct LineConfig {
    inner: GpioV2LineConfig,
}

impl View for LineConfig {
    type V = GpioV2LineConfig;

    closed spec fn view(&self) -> GpioV2LineConfig {
        self.inner
    }
}

impl LineConfig {
    /// The default flags of every line.
    pub fn flags(&self) -> (r: LineFlag)
        ensures
            r.bits == self@.flags,
    {
        LineFlags::from_bits_retain(self.inner.flags)
    }

    /// How many attributes are in use.
    pub fn num_attrs(&self) -> (r: u32)
        ensures
            r == self@.num_attrs,
    {
        self.inner.num_attrs
    }

    /// The attributes in use (none when the count is beyond the array).
    pub fn attrs(&self) -> (r: Vec<LineConfigAttribute>)
        ensures
            r@.len() == used_prefix(self@.attrs@, self@.num_attrs as int).len(),
            forall|i: int|
                0 <= i < r@.len() ==> #[trigger] r@[i]@ == used_prefix(
                    self@.attrs@,
                    self@.num_attrs as int,
                )[i],
    {
        let n: usize = if (self.inner.num_attrs as usize) <= GPIO_V2_LINE_NUM_ATTRS_MAX {
            self.inner.num_attrs as usize
        } else {
            0
        };
        let mut out: Vec<LineConfigAttribute> = Vec::new();
        let mut i: usize = 0;
        while i < n
            invariant
                i <= n <= 10,
                n == used_prefix(self@.attrs@, self@.num_attrs as int).len(),
                self@ == self.inner,
                out@.len() == i,
                forall|j: int|
                    0 <= j < i ==> #[trigger] out@[j]@ == used_prefix(
                        self@.attrs@,
                        self@.num_attrs as int,
                    )[j],
            decreases n - i,
        {
            out.push(LineConfigAttribute { inner: self.inner.attrs[i] });
            i += 1;
        }
        out
    }
}

/// A request record.
#[derive(Clone, Copy, Debug)]
pub struct LineRequest {
    inner: GpioV2LineRequest,
}

impl View for LineRequest {
    type V = GpioV2LineRequest;

    closed spec fn view(&self) -> GpioV2LineRequest {
        self.inner
    }
}

impl LineRequest {
    /// The record to hand to the kernel.
    pub fn record(&self) -> (r: GpioV2LineRequest)
        ensures
            r == self@,
    {
        self.inner
    }

    /// The number of requested lines.
    pub fn num_lines(&self) -> (r: u32)
        ensures
            r == self@.num_lines,
    {
        self.inner.num_lines
    }

    /// The requested offsets (none when the count is beyond the array).
    pub fn offsets(&self) -> (r: &[u32])
        ensures
            r@ == request_offsets(self@),
    {
        let n = self.inner.num_lines as usize;
        let m: usize = if n <= GPIO_V2_LINES_MAX { n } else { 0 };
        let r = slice_subrange(self.inner.offsets.as_slice(), 0, m);
        assert(r@ =~= request_offsets(self@));
        r
    }

    /// The consumer label.
    pub fn consumer(&self) -> (r: String)
        ensures
            r@ == lossy_utf8(until_nul(self@.consumer.bytes@)),
            valid_utf8(until_nul(self@.consumer.bytes@)) ==> r@ == decode_utf8(until_nul(self@.consumer.bytes@)),
    {
        self.inner.consumer.to_string_lossy()
    }

    /// The suggested number of edge events for the kernel to buffer.
    pub fn event_buffer_size(&self) -> (r: u32)
        ensures
            r == self@.event_buffer_size,
    {
        self.inner.event_buffer_size
    }

    /// The descriptor field, which the kernel fills on success.
    pub fn fd(&self) -> (r: i32)
        ensures
            r == self@.fd,
    {
        self.inner.fd
    }

    /// The request's configuration.
    pub fn config(&self) -> (r: LineConfig)
        ensures
            r@ == self@.config,
    {
        LineConfig { inner: self.inner.config }
    }

    /// Records what the kernel wrote back into the request on success: the
    /// descriptor of the granted lines.
    pub fn set_fd(&mut self, fd: i32)
        ensures
            final(self)@ == (GpioV2LineRequest { fd, ..old(self)@ }),
    {
        self.inner.fd = fd;
    }
}

/// What the kernel reports of one line.
#[derive(Clone, Copy, Debug)]
pub struct LineInfo {
    inner: GpioV2LineInfo,
}

impl View for LineInfo {
    type V = GpioV2LineInfo;

    closed spec fn view(&self) -> GpioV2LineInfo {
        self.inner
    }
}

impl LineInfo {
    /// Wraps a record that the kernel filled.
    pub fn from_record(inner: GpioV2LineInfo) -> (r: LineInfo)
        ensures
            r@ == inner,
    {
        LineInfo { inner }
    }

    /// The line's name.
    pub fn name(&self) -> (r: String)
        ensures
            r@ == lossy_utf8(until_nul(self@.name.bytes@)),
            valid_utf8(until_nul(self@.name.bytes@)) ==> r@ == decode_utf8(until_nul(self@.name.bytes@)),
    {
        self.inner.name.to_string_lossy()
    }

    /// The label of the line's consumer.
    pub fn consumer(&self) -> (r: String)
        ensures
            r@ == lossy_utf8(until_nul(self@.consumer.bytes@)),
            valid_utf8(until_nul(self@.consumer.bytes@)) ==> r@ == decode_utf8(until_nul(self@.consumer.bytes@)),
    {
        self.inner.consumer.to_string_lossy()
    }

    /// The line's offset on its chip.
    pub fn offset(&self) -> (r: u32)
        ensures
            r == self@.offset,
    {
        self.inner.offset
    }

    /// How many attributes the kernel reported.
    pub fn num_attrs(&self) -> (r: u32)
        ensures
            r == self@.num_attrs,
    {
        self.inner.num_attrs
    }

    /// The line's flags bitmask.
    pub fn flags(&self) -> (r: u64)
        ensures
            r == self@.flags,
    {
        self.inner.flags
    }

    /// The attributes in use (none when the count is beyond the array).
    pub fn attrs(&self) -> (r: Vec<LineAttribute>)
        ensures
            r@.len() == used_prefix(self@.attrs@, self@.num_attrs as int).len(),
            forall|i: int|
                0 <= i < r@.len() ==> #[trigger] r@[i]@ == used_prefix(
                    self@.attrs@,
                    self@.num_attrs as int,
                )[i],
    {
        let n: usize = if (self.inner.num_attrs as usize) <= GPIO_V2_LINE_NUM_ATTRS_MAX {
            self.inner.num_attrs as usize
        } else {
            0
        };
        let mut out: Vec<LineAttribute> = Vec::new();
        let mut i: usize = 0;
        while i < n
            invariant
                i <= n <= 10,
                n == used_prefix(self@.attrs@, self@.num_attrs as int).len(),
                self@ == self.inner,
                out@.len() == i,
                forall|j: int|
                    0 <= j < i ==> #[trigger] out@[j]@ == used_prefix(
                        self@.attrs@,
                        self@.num_attrs as int,
                    )[j],
            decreases n - i,
        {
            out.push(LineAttribute { inner: self.inner.attrs[i] });
            i += 1;
        }
        out
    }
}

/// The lines of a granted request, as one mask over the request's indices.
#[derive(Clone, Copy, Debug)]
pub struct LineHandle {
    mask: u64,
}

impl LineHandle {
    /// The handle of a granted request: every requested index.
    pub fn from_request(request: &LineRequest) -> (r: LineHandle)
        ensures
            is_full_mask(r.mask(), request_offsets(request@).len() as int),
    {
        let n = request.offsets().len();
        LineHandle { mask: full_mask(n) }
    }

    /// The mask of the granted lines.
    pub closed spec fn spec_mask(&self) -> u64 {
        self.mask
    }

    /// The mask of the granted lines.
    #[verifier::when_used_as_spec(spec_mask)]
    pub fn mask(&self) -> (r: u64)
        ensures
            r == self.spec_mask(),
    {
        self.mask
    }

    /// The record that reads all granted lines.
    pub fn get_bites_query(&self) -> (r: GpioV2LineValues)
        ensures
            r.mask == self.mask(),
            r.bits == 0,
    {
        GpioV2LineValues { bits: 0, mask: self.mask }
    }

    /// The record that sets all granted lines to `bites`.
    pub fn set_bites_query(&self, bites: u64) -> (r: GpioV2LineValues)
        ensures
            r.mask == self.mask(),
            r.bits == bites,
    {
        GpioV2LineValues { bits: bites, mask: self.mask }
    }

    /// The record that sets the granted lines within `mask` inactive.
    pub fn set_bites_with_submask_query(&self, mask: u64) -> (r: GpioV2LineValues)
        ensures
            r.mask == self.mask() & mask,
            r.bits == 0,
    {
        GpioV2LineValues { bits: 0, mask: self.mask & mask }
    }
}

/// Builds a request record.
#[derive(Clone, Copy, Debug)]
pub struct LineRequestBuilder {
    inner: GpioV2LineRequest,
}

impl View for LineRequestBuilder {
    type V = GpioV2LineRequest;

    closed spec fn view(&self) -> GpioV2LineRequest {
        self.inner
    }
}

impl LineRequestBuilder {
    /// A request for the first 64 of `offsets` (the rest are dropped), with
    /// default flags `flags` and consumer label `consumer` cut after 31 bytes.
    pub fn new(offsets: &[u32], flags: LineFlag, consumer: &str) -> (r: LineRequestBuilder)
        ensures
            request_offsets(r@) == offsets@.take(
                if offsets@.len() < 64 { offsets@.len() as int } else { 64 },
            ),
            r@.config.flags == flags.bits,
            r@.num_lines == if offsets@.len() < 64 { offsets@.len() as int } else { 64 },
            r@.config.num_attrs == 0,
            r@.consumer.bytes@ == encoded_label(consumer.spec_bytes()),
            forall|i: int| 0 <= i < 5 ==> r@.config.padding@[i] == 0,
            forall|i: int| 0 <= i < 5 ==> r@.padding@[i] == 0,
            r@.event_buffer_size == 0,
    {
        let n: usize = if offsets.len() < GPIO_V2_LINES_MAX {
            offsets.len()
        } else {
            GPIO_V2_LINES_MAX
        };
        let mut inner = GpioV2LineRequest::zeroed();
        inner.config.flags = flags.bits();
        let mut slots = inner.offsets;
        let mut i: usize = 0;
        while i < n
            invariant
                i <= n <= 64,
                n <= offsets@.len(),
                slots@.len() == 64,
                forall|j: int| 0 <= j < i ==> slots@[j] == offsets@[j],
            decreases n - i,
        {
            slots[i] = offsets[i];
            i += 1;
        }
        inner.offsets = slots;
        inner.num_lines = n as u32;
        inner.consumer = CString::new(consumer);
        assert(request_offsets(inner) =~= offsets@.take(n as int));
        LineRequestBuilder { inner }
    }

    /// The request as configured; the kernel judges it on submission.
    pub fn build(self) -> (r: Result<LineRequest, Error>)
        ensures
            r matches Ok(req) && req@ == self@,
    {
        Ok(LineRequest { inner: self.inner })
    }
}

} // verus!
