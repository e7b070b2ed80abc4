//! Line requests over the first interface version: one default output byte
//! per line and a byte per line in value records.
use vstd::prelude::*;
use vstd::utf8::{decode_utf8, valid_utf8};
use vstd::slice::{slice_subrange, slice_to_vec};
use vstd::string::StringSliceAdditionalSpecFns;
use crate::abi_v1::{GpioHandleData, GpioHandleRequest, GPIOHANDLES_MAX};
use crate::cstring::{encoded_label, lossy_utf8, until_nul, CString};
use crate::error::{classify, Error, IoctlKind, Result as IoctlResult};
use crate::line::used_prefix;
use crate::mask::{first_index, index_of_offset as position_of, is_first_index, lemma_first_index};

verus! {

/// The offsets in use in a handle request.
pub open spec fn handle_offsets(r: GpioHandleRequest) -> Seq<u32> {
    used_prefix(r.lineoffsets@, r.lines as int)
}

/// The default values in use in a handle request.
pub open spec fn handle_defaults(r: GpioHandleRequest) -> Seq<u8> {
    used_prefix(r.default_values@, r.lines as int)
}

/// One line to request: its offset and, for an output, its default value.
#[derive(Clone, Copy, Debug, PartialEq, Eq, Structural)]
pub struct OffsetConfig {
    pub offset: u32,
    pub default_value: Option<u8>,
}

/// The default value a configuration contributes (0 when it gives none).
pub open spec fn default_of(c: OffsetConfig) -> u8 {
    match c.default_value {
        Some(v) => v,
        None => 0,
    }
}

/// A built handle request.
#[derive(Clone, Copy, Debug)]
pub struct LineRequest {
    inner: GpioHandleRequest,
}

impl View for LineRequest {
    type V = GpioHandleRequest;

    closed spec fn view(&self) -> GpioHandleRequest {
        self.inner
    }
}

impl LineRequest {
    /// The record to hand to the kernel.
    pub fn record(&self) -> (r: GpioHandleRequest)
        ensures
            r == self@,
    {
        self.inner
    }

    /// The requested offsets, in request order.
    pub fn offsets(&self) -> (r: &[u32])
        ensures
            r@ == handle_offsets(self@),
    {
        let n = self.inner.lines as usize;
        let m: usize = if n <= GPIOHANDLES_MAX { n } else { 0 };
        let r = slice_subrange(self.inner.lineoffsets.as_slice(), 0, m);
        assert(r@ =~= handle_offsets(self@));
        r
    }

    /// The default output value of each requested line, in request order.
    pub fn default_values(&self) -> (r: &[u8])
        ensures
            r@ == handle_defaults(self@),
    {
        let n = self.inner.lines as usize;
        let m: usize = if n <= GPIOHANDLES_MAX { n } else { 0 };
        let r = slice_subrange(self.inner.default_values.as_slice(), 0, m);
        assert(r@ =~= handle_defaults(self@));
        r
    }

    /// The consumer label.
    pub fn consumer(&self) -> (r: String)
        ensures
            r@ == lossy_utf8(until_nul(self@.consumer_label.bytes@)),
            valid_utf8(until_nul(self@.consumer_label.bytes@)) ==> r@ == decode_utf8(until_nul(self@.consumer_label.bytes@)),
    {
        self.inner.consumer_label.to_string_lossy()
    }

    /// The request flags.
    pub fn flags(&self) -> (r: u32)
        ensures
            r == self@.flags,
    {
        self.inner.flags
    }

    /// The number of requested lines.
    pub fn num_lines(&self) -> (r: u32)
        ensures
            r == self@.lines,
    {
        self.inner.lines
    }

    /// The position of `offset` among the requested offsets.
    pub fn index_of_offset(&self, offset: u32) -> (r: Option<usize>)
        ensures
            r matches Some(i) ==> first_index(handle_offsets(self@), offset) == Some(i as int),
            r is None ==> first_index(handle_offsets(self@), offset) is None,
    {
        position_of(self.offsets(), offset)
    }

    /// The default output value of line `offset`; `None` when it is not
    /// requested. The line's direction is not consulted.
    pub fn default_value_of_offset(&self, offset: u32) -> (r: Option<u8>)
        ensures
            r == match first_index(handle_offsets(self@), offset) {
                Some(i) => Some(handle_defaults(self@)[i]),
                None => None,
            },
    {
        let index = self.index_of_offset(offset)?;
        proof {
            lemma_first_index(handle_offsets(self@), offset);
            assert(is_first_index(handle_offsets(self@), offset, index as int));
        }
        let defaults = self.default_values();
        Some(defaults[index])
    }

    /// The handle of a submitted request, when the kernel granted it; its
    /// refusal as an error otherwise.
    pub fn granted(&self, outcome: core::result::Result<i32, i32>) -> (r: IoctlResult<LineHandle>)
        ensures
            outcome is Ok ==> (r matches Ok(h) && h@ == handle_offsets(self@)),
            outcome matches Err(e) ==> r == Err::<LineHandle, Error>(
                Error::Ioctl { kind: IoctlKind::GetLine, errno: e },
            ),
    {
        match classify(IoctlKind::GetLine, outcome) {
            Ok(_) => Ok(LineHandle { offsets: slice_to_vec(self.offsets()) }),
            Err(e) => Err(e),
        }
    }
}

/// Accumulates a handle request.
#[derive(Clone, Copy, Debug)]
pub struct LineRequestBuilder {
    inner: GpioHandleRequest,
}

impl View for LineRequestBuilder {
    type V = GpioHandleRequest;

    closed spec fn view(&self) -> GpioHandleRequest {
        self.inner
    }
}

impl LineRequestBuilder {
    /// An empty request.
    pub fn new() -> (r: LineRequestBuilder)
        ensures
            r@.lines == 0,
            r@.flags == 0,
    {
        LineRequestBuilder { inner: GpioHandleRequest::zeroed() }
    }

    /// Sets the consumer label, cut after 31 bytes.
    pub fn set_consumer(self, consumer: &str) -> (r: LineRequestBuilder)
        ensures
            r@.consumer_label.bytes@ == encoded_label(consumer.spec_bytes()),
            r@ == (GpioHandleRequest { consumer_label: r@.consumer_label, ..self@ }),
    {
        let mut rec = self.inner;
        rec.consumer_label = CString::new(consumer);
        LineRequestBuilder { inner: rec }
    }

    /// Sets the request flags.
    pub fn set_flags(self, flags: u32) -> (r: LineRequestBuilder)
        ensures
            r@ == (GpioHandleRequest { flags, ..self@ }),
    {
        let mut rec = self.inner;
        rec.flags = flags;
        LineRequestBuilder { inner: rec }
    }

    /// Sets the lines to request, in order, with their default values (0
    /// where none is given). Lines beyond the 64th are silently dropped.
    pub fn set_offsets(self, configs: &[OffsetConfig]) -> (r: LineRequestBuilder)
        ensures
            handle_offsets(r@) == configs@.map_values(|c: OffsetConfig| c.offset).take(
                r@.lines as int,
            ),
            handle_defaults(r@) == configs@.map_values(|c: OffsetConfig| default_of(c)).take(
                r@.lines as int,
            ),
            r@.lines == if configs@.len() < 64 { configs@.len() as int } else { 64 },
            r@.flags == self@.flags,
            r@.consumer_label == self@.consumer_label,
            r@.fd == self@.fd,
    {
        let mut rec = self.inner;
        let n: usize = if configs.len() < GPIOHANDLES_MAX {
            configs.len()
        } else {
            GPIOHANDLES_MAX
        };
        let mut offsets = rec.lineoffsets;
        let mut defaults = rec.default_values;
        let mut i: usize = 0;
        while i < n
            invariant
                i <= n <= 64,
                n <= configs@.len(),
                offsets@.len() == 64,
                defaults@.len() == 64,
                forall|j: int| 0 <= j < i ==> offsets@[j] == configs@[j].offset,
                forall|j: int| 0 <= j < i ==> defaults@[j] == default_of(configs@[j]),
            decreases n - i,
        {
            offsets[i] = configs[i].offset;
            defaults[i] = match configs[i].default_value {
                Some(v) => v,
                None => 0,
            };
            i += 1;
        }
        rec.lineoffsets = offsets;
        rec.default_values = defaults;
        rec.lines = n as u32;
        assert(handle_offsets(rec) =~= configs@.map_values(|c: OffsetConfig| c.offset).take(
            n as int,
        ));
        assert(handle_defaults(rec) =~= configs@.map_values(|c: OffsetConfig| default_of(c)).take(
            n as int,
        ));
        LineRequestBuilder { inner: rec }
    }

    /// The request as configured; the kernel judges it on submission.
    pub fn build(self) -> (r: Result<LineRequest, Error>)
        ensures
            r matches Ok(req) && req@ == self@,
    {
        Ok(LineRequest { inner: self.inner })
    }
}

/// The lines of a granted handle request.
#[derive(Debug)]
pub struct LineHandle {
    offsets: Vec<u32>,
}

impl View for LineHandle {
    type V = Seq<u32>;

    closed spec fn view(&self) -> Seq<u32> {
        self.offsets@
    }
}

impl LineHandle {
    /// The granted offsets, in request order.
    pub fn offsets(&self) -> (r: &[u32])
        ensures
            r@ == self@,
    {
        self.offsets.as_slice()
    }

    /// The record that drives the lines among `active` high and every other
    /// line of the handle low; offsets not in the handle are ignored.
    pub fn set_values_query(&self, active: &[u32]) -> (r: GpioHandleData)
        ensures
            forall|i: int|
                0 <= i < 64 ==> r.values@[i] == if #[trigger] marked_by(self@, active@, i) {
                    1u8
                } else {
                    0u8
                },
    {
        let mut data = GpioHandleData::zeroed();
        let mut values = data.values;
        let mut k: usize = 0;
        while k < active.len()
            invariant
                k <= active@.len(),
                values@.len() == 64,
                forall|i: int|
                    0 <= i < 64 ==> values@[i] == if exists|w: int|
                        0 <= w < k && #[trigger] first_index(self@, active@[w]) == Some(i) {
                        1u8
                    } else {
                        0u8
                    },
            decreases active.len() - k,
        {
            let ghost old_values = values@;
            proof {
                lemma_first_index(self@, active@[k as int]);
            }
            if let Some(index) = position_of(self.offsets.as_slice(), active[k]) {
                if index < GPIOHANDLES_MAX {
                    values[index] = 1;
                }
            }
            proof {
                assert forall|i: int| 0 <= i < 64 implies values@[i] == if exists|w: int|
                    0 <= w < k + 1 && #[trigger] first_index(self@, active@[w]) == Some(i) {
                    1u8
                } else {
                    0u8
                } by {
                    if exists|w: int| 0 <= w < k + 1 && #[trigger] first_index(self@, active@[w]) == Some(i) {
                        let w = choose|w: int| 0 <= w < k + 1 && #[trigger] first_index(self@, active@[w]) == Some(i);
                        if w < k {
                            assert(old_values[i] == 1u8);
                        }
                    }
                    if exists|w: int| 0 <= w < k && #[trigger] first_index(self@, active@[w]) == Some(i) {
                        let w = choose|w: int| 0 <= w < k && #[trigger] first_index(self@, active@[w]) == Some(i);
                        assert(w < k + 1);
                    }
                }
            }
            k += 1;
        }
        data.values = values;
        data
    }

    /// The value of the line at index `index` in a values record the kernel
    /// filled: `None` beyond the record.
    pub fn value_of_index(data: &GpioHandleData, index: usize) -> (r: Option<u8>)
        ensures
            index < 64 ==> r == Some(data.values@[index as int]),
            index >= 64 ==> r is None,
    {
        if index < GPIOHANDLES_MAX {
            Some(data.values[index])
        } else {
            None
        }
    }
}

/// Some offset of `active` first occurs in `offsets` at index `i`.
pub open spec fn marked_by(offsets: Seq<u32>, active: Seq<u32>, i: int) -> bool {
    exists|k: int| 0 <= k < active.len() && #[trigger] first_index(offsets, active[k]) == Some(i)
}

/// When the handle's offsets are distinct, as a request's offsets are meant
/// to be, the values record drives high exactly the lines whose offset is
/// among `active`: an offset that is not in the handle changes no entry.
pub proof fn lemma_set_values_distinct(offsets: Seq<u32>, active: Seq<u32>)
    requires
        offsets.no_duplicates(),
    ensures
        forall|i: int|
            0 <= i < 64 ==> (#[trigger] marked_by(offsets, active, i) <==> (i < offsets.len()
                && active.contains(offsets[i]))),
{
    assert forall|i: int| 0 <= i < 64 implies (#[trigger] marked_by(offsets, active, i) <==> (i
        < offsets.len() && active.contains(offsets[i]))) by {
        if marked_by(offsets, active, i) {
            let k = choose|k: int|
                0 <= k < active.len() && #[trigger] first_index(offsets, active[k]) == Some(i);
            lemma_first_index(offsets, active[k]);
            assert(is_first_index(offsets, active[k], i));
            assert(active[k] == offsets[i]);
        }
        if i < offsets.len() && active.contains(offsets[i]) {
            let k = choose|k: int| 0 <= k < active.len() && active[k] == offsets[i];
            lemma_first_index(offsets, active[k]);
            assert(is_first_index(offsets, active[k], i));
            assert(first_index(offsets, active[k]) == Some(i));
        }
    }
}

} // verus!
