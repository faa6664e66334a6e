//! READ records and the shared counter-read value types.

use vstd::prelude::*;
use crate::endian::Endian;
use crate::error::ErrorKind;
use crate::error::ParseError;
use crate::flags::has_flags;
use crate::flags::ReadFormat;
use crate::flags::PERF_FORMAT_ALL;
use crate::flags::PERF_FORMAT_GROUP;
use crate::flags::PERF_FORMAT_ID;
use crate::flags::PERF_FORMAT_LOST;
use crate::flags::PERF_FORMAT_TOTAL_TIME_ENABLED;
use crate::flags::PERF_FORMAT_TOTAL_TIME_RUNNING;
use crate::parse::fail_post;
use crate::parse::lemma_step;
use crate::parse::u32_at;
use crate::parse::u64_at;
use crate::parse::Parse;
use crate::parse::ParseBuf;
use crate::parse::ParseConfig;
use crate::parse::ParseResult;
use crate::parse::Parser;

verus! {

/// Whether a read format asks for something this library does not
/// understand: any flag outside the supported set. Decoding under such a
/// format would silently misplace fields, so it is refused instead.
pub open spec fn read_format_unsupported(rf: u64) -> bool {
    rf & !PERF_FORMAT_ALL != 0
}

/// Byte offset of `time_enabled` within a single counter-read block.
pub open spec fn single_read_off_te(rf: u64) -> int {
    8
}

/// Byte offset of `time_running` within a single counter-read block.
pub open spec fn single_read_off_tr(rf: u64) -> int {
    single_read_off_te(rf) + if has_flags(rf, PERF_FORMAT_TOTAL_TIME_ENABLED) {
        8int
    } else {
        0int
    }
}

/// Byte offset of `id` within a single counter-read block.
pub open spec fn single_read_off_id(rf: u64) -> int {
    single_read_off_tr(rf) + if has_flags(rf, PERF_FORMAT_TOTAL_TIME_RUNNING) {
        8int
    } else {
        0int
    }
}

/// Byte offset of `lost` within a single counter-read block.
pub open spec fn single_read_off_lost(rf: u64) -> int {
    single_read_off_id(rf) + if has_flags(rf, PERF_FORMAT_ID) {
        8int
    } else {
        0int
    }
}

/// How many 64-bit words each per-counter block of a group occupies.
pub open spec fn group_elem_len(rf: u64) -> int {
    1 + (if has_flags(rf, PERF_FORMAT_ID) {
        1int
    } else {
        0int
    }) + (if has_flags(rf, PERF_FORMAT_LOST) {
        1int
    } else {
        0int
    })
}

/// Size in bytes of a group read's fixed head: the count and the
/// optional times.
pub open spec fn group_head_len(rf: u64) -> int {
    8 + (if has_flags(rf, PERF_FORMAT_TOTAL_TIME_ENABLED) {
        8int
    } else {
        0int
    }) + (if has_flags(rf, PERF_FORMAT_TOTAL_TIME_RUNNING) {
        8int
    } else {
        0int
    })
}

/// Whether a declared group count can be addressed at all: its total
/// word count must not overflow the machine's size type.
pub open spec fn group_count_fits(rf: u64, nr: u64) -> bool {
    (nr as usize) as int <= usize::MAX as int / group_elem_len(rf)
}

/// The number of 64-bit data words a declared count implies; a count
/// that cannot be addressed implies none, since the decode refuses it
/// before reading any.
pub open spec fn group_data_words(rf: u64, nr: u64) -> int {
    if group_count_fits(rf, nr) {
        (nr as usize) as int * group_elem_len(rf)
    } else {
        0int
    }
}

/// Total size in bytes of a single counter-read block.
pub open spec fn single_read_len(rf: u64) -> int {
    single_read_off_lost(rf) + if has_flags(rf, PERF_FORMAT_LOST) {
        8int
    } else {
        0int
    }
}

/// Data read from a single counter.
///
/// The optional fields are only meaningful when the corresponding
/// read-format flag was requested; the accessors return `None` otherwise.
#[derive(Copy, Clone, Debug)]
pub struct ReadValue {
    read_format: ReadFormat,
    value: u64,
    time_enabled: u64,
    time_running: u64,
    id: u64,
    lost: u64,
}

impl ReadValue {
    /// The read format this value was decoded under.
    pub closed spec fn spec_read_format(&self) -> u64 {
        self.read_format.bits
    }

    /// The raw counter value.
    pub closed spec fn spec_value(&self) -> u64 {
        self.value
    }

    /// The raw `time_enabled` field; zero when not requested.
    pub closed spec fn spec_time_enabled(&self) -> u64 {
        self.time_enabled
    }

    /// The raw `time_running` field; zero when not requested.
    pub closed spec fn spec_time_running(&self) -> u64 {
        self.time_running
    }

    /// The raw `id` field; zero when not requested.
    pub closed spec fn spec_id(&self) -> u64 {
        self.id
    }

    /// The raw `lost` field; zero when not requested.
    pub closed spec fn spec_lost(&self) -> u64 {
        self.lost
    }

    /// Create a `ReadValue` from a `ReadGroup` and an entry within it.
    pub fn from_group_and_entry(group: &ReadGroup, entry: &GroupEntry) -> (r: ReadValue)
        ensures
            r.spec_read_format() == group.spec_read_format() & !PERF_FORMAT_GROUP,
            r.spec_value() == entry.spec_value(),
            r.spec_time_enabled() == group.spec_time_enabled_raw(),
            r.spec_time_running() == group.spec_time_running_raw(),
            r.spec_id() == entry.spec_id_raw(),
            r.spec_lost() == entry.spec_lost_raw(),
    {
        ReadValue {
            read_format: group.read_format().difference(
                ReadFormat { bits: PERF_FORMAT_GROUP },
            ),
            value: entry.value(),
            time_enabled: group.time_enabled_raw(),
            time_running: group.time_running_raw(),
            id: entry.id_raw(),
            lost: entry.lost_raw(),
        }
    }

    /// The value of the counter.
    pub fn value(&self) -> (r: u64)
        ensures
            r == self.spec_value(),
    {
        self.value
    }

    /// The duration for which this event was enabled, in nanoseconds.
    pub fn time_enabled(&self) -> (r: Option<u64>)
        ensures
            r == if has_flags(self.spec_read_format(), PERF_FORMAT_TOTAL_TIME_ENABLED) {
                Some(self.spec_time_enabled())
            } else {
                None::<u64>
            },
    {
        if self.read_format.bits & PERF_FORMAT_TOTAL_TIME_ENABLED
            == PERF_FORMAT_TOTAL_TIME_ENABLED {
            Some(self.time_enabled)
        } else {
            None
        }
    }

    /// The duration for which this event was running, in nanoseconds.
    ///
    /// This will be less than `time_enabled` if the kernel had to
    /// multiplex multiple counters on the CPU.
    pub fn time_running(&self) -> (r: Option<u64>)
        ensures
            r == if has_flags(self.spec_read_format(), PERF_FORMAT_TOTAL_TIME_RUNNING) {
                Some(self.spec_time_running())
            } else {
                None::<u64>
            },
    {
        if self.read_format.bits & PERF_FORMAT_TOTAL_TIME_RUNNING
            == PERF_FORMAT_TOTAL_TIME_RUNNING {
            Some(self.time_running)
        } else {
            None
        }
    }

    /// The kernel-assigned unique ID for the counter.
    pub fn id(&self) -> (r: Option<u64>)
        ensures
            r == if has_flags(self.spec_read_format(), PERF_FORMAT_ID) {
                Some(self.spec_id())
            } else {
                None::<u64>
            },
    {
        if self.read_format.bits & PERF_FORMAT_ID == PERF_FORMAT_ID {
            Some(self.id)
        } else {
            None
        }
    }

    /// The number of lost samples of this event.
    pub fn lost(&self) -> (r: Option<u64>)
        ensures
            r == if has_flags(self.spec_read_format(), PERF_FORMAT_LOST) {
                Some(self.spec_lost())
            } else {
                None::<u64>
            },
    {
        if self.read_format.bits & PERF_FORMAT_LOST == PERF_FORMAT_LOST {
            Some(self.lost)
        } else {
            None
        }
    }
}

/// A single counter-read block: the value, then `time_enabled`,
/// `time_running`, `id` and `lost`, each present exactly when its flag is
/// in the read format. A format with the GROUP flag, or with any flag
/// this library does not know, is refused with `UnsupportedConfig`.
pub open spec fn read_value_post<E: Endian>(
    cfg: ParseConfig<E>,
    pre: Seq<u8>,
    post: Seq<u8>,
    reliable: bool,
    r: ParseResult<ReadValue>,
) -> bool {
    let e = cfg.spec_endian();
    let rf = cfg.spec_read_format();
    let bad = has_flags(rf, PERF_FORMAT_GROUP) || read_format_unsupported(rf);
    let total = single_read_len(rf);
    match r {
        Ok(v) => {
            &&& !bad
            &&& pre.len() >= total
            &&& post == pre.skip(total)
            &&& v.spec_read_format() == rf
            &&& u64_at(e, pre, 0, v.spec_value())
            &&& if has_flags(rf, PERF_FORMAT_TOTAL_TIME_ENABLED) {
                u64_at(e, pre, single_read_off_te(rf), v.spec_time_enabled())
            } else {
                v.spec_time_enabled() == 0
            }
            &&& if has_flags(rf, PERF_FORMAT_TOTAL_TIME_RUNNING) {
                u64_at(e, pre, single_read_off_tr(rf), v.spec_time_running())
            } else {
                v.spec_time_running() == 0
            }
            &&& if has_flags(rf, PERF_FORMAT_ID) {
                u64_at(e, pre, single_read_off_id(rf), v.spec_id())
            } else {
                v.spec_id() == 0
            }
            &&& if has_flags(rf, PERF_FORMAT_LOST) {
                u64_at(e, pre, single_read_off_lost(rf), v.spec_lost())
            } else {
                v.spec_lost() == 0
            }
        },
        Err(err) => {
            &&& (bad ==> err.spec_kind() == ErrorKind::UnsupportedConfig && post == pre)
            &&& (!bad ==> fail_post(reliable, err, pre.len() as int, post.len() as int, total))
        },
    }
}

impl<E: Endian> Parse<E> for ReadValue {
    open spec fn parse_post(
        cfg: ParseConfig<E>,
        pre: Seq<u8>,
        post: Seq<u8>,
        reliable: bool,
        r: ParseResult<ReadValue>,
    ) -> bool {
        read_value_post(cfg, pre, post, reliable, r)
    }

    fn parse<B: ParseBuf>(p: &mut Parser<B, E>) -> (r: ParseResult<ReadValue>) {
        let read_format = p.config().read_format();
        if read_format.contains(ReadFormat { bits: PERF_FORMAT_GROUP }) {
            return Err(ParseError::new(ErrorKind::UnsupportedConfig));
        }
        if read_format.has_unsupported_bits() {
            return Err(ParseError::new(ErrorKind::UnsupportedConfig));
        }
        let ghost pre = p.bytes();
        let ghost rf = p.cfg().spec_read_format();
        let value = p.parse_u64()?;
        proof {
            lemma_step(pre, 0, 8);
        }
        let mut time_enabled: u64 = 0;
        if read_format.contains(ReadFormat { bits: PERF_FORMAT_TOTAL_TIME_ENABLED }) {
            time_enabled = p.parse_u64()?;
            proof {
                lemma_step(pre, single_read_off_te(rf), 8);
            }
        }
        let mut time_running: u64 = 0;
        if read_format.contains(ReadFormat { bits: PERF_FORMAT_TOTAL_TIME_RUNNING }) {
            time_running = p.parse_u64()?;
            proof {
                lemma_step(pre, single_read_off_tr(rf), 8);
            }
        }
        let mut id: u64 = 0;
        if read_format.contains(ReadFormat { bits: PERF_FORMAT_ID }) {
            id = p.parse_u64()?;
            proof {
                lemma_step(pre, single_read_off_id(rf), 8);
            }
        }
        let mut lost: u64 = 0;
        if read_format.contains(ReadFormat { bits: PERF_FORMAT_LOST }) {
            lost = p.parse_u64()?;
            proof {
                lemma_step(pre, single_read_off_lost(rf), 8);
            }
        }
        Ok(ReadValue { read_format, value, time_enabled, time_running, id, lost })
    }
}

/// The values read from a group of counters.
#[derive(Clone, Debug)]
pub struct ReadGroup {
    read_format: ReadFormat,
    time_enabled: u64,
    time_running: u64,
    data: Vec<u64>,
}

/// The values read from a single perf event counter within a group.
#[derive(Copy, Clone, Debug)]
pub struct GroupEntry {
    read_format: ReadFormat,
    value: u64,
    id: u64,
    lost: u64,
}

impl GroupEntry {
    /// The read format this entry was decoded under.
    pub closed spec fn spec_read_format(&self) -> u64 {
        self.read_format.bits
    }

    /// The raw counter value.
    pub closed spec fn spec_value(&self) -> u64 {
        self.value
    }

    /// The raw `id` field; zero when not requested.
    pub closed spec fn spec_id_raw(&self) -> u64 {
        self.id
    }

    /// The raw `lost` field; zero when not requested.
    pub closed spec fn spec_lost_raw(&self) -> u64 {
        self.lost
    }

    /// The value of the counter.
    pub fn value(&self) -> (r: u64)
        ensures
            r == self.spec_value(),
    {
        self.value
    }

    /// The raw `id` field, zero when not requested.
    pub fn id_raw(&self) -> (r: u64)
        ensures
            r == self.spec_id_raw(),
    {
        self.id
    }

    /// The raw `lost` field, zero when not requested.
    pub fn lost_raw(&self) -> (r: u64)
        ensures
            r == self.spec_lost_raw(),
    {
        self.lost
    }

    /// The kernel-assigned unique ID for the counter.
    pub fn id(&self) -> (r: Option<u64>)
        ensures
            r == if has_flags(self.spec_read_format(), PERF_FORMAT_ID) {
                Some(self.spec_id_raw())
            } else {
                None::<u64>
            },
    {
        if self.read_format.bits & PERF_FORMAT_ID == PERF_FORMAT_ID {
            Some(self.id)
        } else {
            None
        }
    }

    /// The number of lost samples of this event.
    pub fn lost(&self) -> (r: Option<u64>)
        ensures
            r == if has_flags(self.spec_read_format(), PERF_FORMAT_LOST) {
                Some(self.spec_lost_raw())
            } else {
                None::<u64>
            },
    {
        if self.read_format.bits & PERF_FORMAT_LOST == PERF_FORMAT_LOST {
            Some(self.lost)
        } else {
            None
        }
    }
}

impl ReadGroup {
    /// The read format this group was decoded under.
    pub closed spec fn spec_read_format(&self) -> u64 {
        self.read_format.bits
    }

    /// The raw `time_enabled` field; zero when not requested.
    pub closed spec fn spec_time_enabled_raw(&self) -> u64 {
        self.time_enabled
    }

    /// The raw `time_running` field; zero when not requested.
    pub closed spec fn spec_time_running_raw(&self) -> u64 {
        self.time_running
    }

    /// The raw 64-bit words of the per-counter blocks.
    pub closed spec fn spec_data(&self) -> Seq<u64> {
        self.data@
    }

    /// How many 64-bit words each per-counter block occupies.
    pub open spec fn spec_element_len(&self) -> int {
        1 + (if has_flags(self.spec_read_format(), PERF_FORMAT_ID) {
            1int
        } else {
            0int
        }) + (if has_flags(self.spec_read_format(), PERF_FORMAT_LOST) {
            1int
        } else {
            0int
        })
    }

    /// The number of whole per-counter blocks held.
    pub open spec fn spec_len(&self) -> int {
        self.spec_data().len() as int / self.spec_element_len()
    }

    /// Does `g` hold exactly what block `index` of this group carries:
    /// the value, then the id and the lost count where requested, with
    /// the unrequested fields zero?
    pub open spec fn entry_matches(&self, index: int, g: GroupEntry) -> bool {
        let base = index * self.spec_element_len();
        &&& g.spec_read_format() == self.spec_read_format()
        &&& g.spec_value() == self.spec_data()[base]
        &&& g.spec_id_raw() == if has_flags(self.spec_read_format(), PERF_FORMAT_ID) {
            self.spec_data()[base + 1]
        } else {
            0u64
        }
        &&& g.spec_lost_raw() == if has_flags(self.spec_read_format(), PERF_FORMAT_LOST) {
            self.spec_data()[base + 1 + (if has_flags(self.spec_read_format(), PERF_FORMAT_ID) {
                1int
            } else {
                0int
            })]
        } else {
            0u64
        }
    }

    /// The read format this group was decoded under.
    pub fn read_format(&self) -> (r: ReadFormat)
        ensures
            r.bits == self.spec_read_format(),
    {
        self.read_format
    }

    /// The raw `time_enabled` field, zero when not requested.
    pub fn time_enabled_raw(&self) -> (r: u64)
        ensures
            r == self.spec_time_enabled_raw(),
    {
        self.time_enabled
    }

    /// The raw `time_running` field, zero when not requested.
    pub fn time_running_raw(&self) -> (r: u64)
        ensures
            r == self.spec_time_running_raw(),
    {
        self.time_running
    }

    /// The duration for which this event was enabled, in nanoseconds.
    pub fn time_enabled(&self) -> (r: Option<u64>)
        ensures
            r == if has_flags(self.spec_read_format(), PERF_FORMAT_TOTAL_TIME_ENABLED) {
                Some(self.spec_time_enabled_raw())
            } else {
                None::<u64>
            },
    {
        if self.read_format.bits & PERF_FORMAT_TOTAL_TIME_ENABLED
            == PERF_FORMAT_TOTAL_TIME_ENABLED {
            Some(self.time_enabled)
        } else {
            None
        }
    }

    /// The duration for which this event was running, in nanoseconds.
    pub fn time_running(&self) -> (r: Option<u64>)
        ensures
            r == if has_flags(self.spec_read_format(), PERF_FORMAT_TOTAL_TIME_RUNNING) {
                Some(self.spec_time_running_raw())
            } else {
                None::<u64>
            },
    {
        if self.read_format.bits & PERF_FORMAT_TOTAL_TIME_RUNNING
            == PERF_FORMAT_TOTAL_TIME_RUNNING {
            Some(self.time_running)
        } else {
            None
        }
    }

    /// The number of counters contained within this group.
    pub fn len(&self) -> (r: usize)
        ensures
            r == self.spec_len(),
    {
        self.data.len() / self.read_format.element_len()
    }

    /// Whether this group has any counters at all.
    pub fn is_empty(&self) -> (r: bool)
        ensures
            r == (self.spec_len() == 0),
    {
        self.len() == 0
    }

    /// Convert all the borrowed data in this `ReadGroup` into owned data.
    pub fn into_owned(self) -> (r: ReadGroup)
        ensures
            r == self,
    {
        self
    }

    /// Get a group entry by its index.
    pub fn get(&self, index: usize) -> (r: Option<GroupEntry>)
        ensures
            match r {
                Some(v) => index < self.spec_len() && self.entry_matches(index as int, v),
                None => index >= self.spec_len(),
            },
    {
        let elem = self.read_format.element_len();
        let count = self.data.len() / elem;
        if index >= count {
            return None;
        }
        let dlen = self.data.len();
        proof {
            let bigl = dlen as int;
            let el = elem as int;
            let i = index as int;
            vstd::arithmetic::div_mod::lemma_fundamental_div_mod(bigl, el);
            vstd::arithmetic::div_mod::lemma_mod_bound(bigl, el);
            assert(i * el + el <= bigl && 0 <= i * el) by (nonlinear_arith)
                requires
                    i + 1 <= bigl / el,
                    bigl == el * (bigl / el) + bigl % el,
                    0 <= bigl % el,
                    1 <= el,
                    0 <= i,
            ;
        }
        let base = index * elem;
        let value = self.data[base];
        let mut next = base + 1;
        let id = if self.read_format.bits & PERF_FORMAT_ID == PERF_FORMAT_ID {
            let v = self.data[next];
            next = next + 1;
            v
        } else {
            0
        };
        let lost = if self.read_format.bits & PERF_FORMAT_LOST == PERF_FORMAT_LOST {
            self.data[next]
        } else {
            0
        };
        Some(GroupEntry { read_format: self.read_format, value, id, lost })
    }

    /// The id word block `i` carries on the wire.
    pub open spec fn spec_wire_id(&self, i: int) -> u64 {
        self.spec_data()[i * self.spec_element_len() + 1]
    }

    /// Get the first group entry, in wire order, whose counter id is
    /// `id`. Entries carry no id unless the ID flag is in the read
    /// format, so without it there is nothing to find.
    pub fn get_by_id(&self, id: u64) -> (r: Option<GroupEntry>)
        ensures
            match r {
                Some(v) => has_flags(self.spec_read_format(), PERF_FORMAT_ID) && exists|i: int|
                    0 <= i < self.spec_len() && #[trigger] self.entry_matches(i, v)
                        && v.spec_id_raw() == id && (forall|k: int|
                        0 <= k < i ==> #[trigger] self.spec_wire_id(k) != id),
                None => !has_flags(self.spec_read_format(), PERF_FORMAT_ID) || (forall|k: int|
                    0 <= k < self.spec_len() ==> #[trigger] self.spec_wire_id(k) != id),
            },
    {
        if self.read_format.bits & PERF_FORMAT_ID != PERF_FORMAT_ID {
            return None;
        }
        let count = self.len();
        let mut i: usize = 0;
        while i < count
            invariant
                count == self.spec_len(),
                has_flags(self.spec_read_format(), PERF_FORMAT_ID),
                forall|k: int| 0 <= k < i ==> #[trigger] self.spec_wire_id(k) != id,
            decreases count - i,
        {
            let entry = self.get(i).unwrap();
            if entry.id_raw() == id {
                return Some(entry);
            }
            i = i + 1;
        }
        None
    }

    /// All the entries contained within this group, in order.
    pub fn entries(&self) -> (r: Vec<GroupEntry>)
        ensures
            r@.len() == self.spec_len(),
            forall|i: int| 0 <= i < r@.len() ==> self.entry_matches(i, #[trigger] r@[i]),
    {
        let count = self.len();
        let mut out: Vec<GroupEntry> = Vec::new();
        let mut i: usize = 0;
        while i < count
            invariant
                count == self.spec_len(),
                out@.len() == i,
                i <= count,
                forall|j: int| 0 <= j < i ==> self.entry_matches(j, #[trigger] out@[j]),
            decreases count - i,
        {
            let entry = self.get(i).unwrap();
            out.push(entry);
            i = i + 1;
        }
        out
    }

    /// Wrap a single counter's value block as a one-entry group: the
    /// inverse of [`try_into_single`](ReadGroup::try_into_single).
    pub fn from_single(value: &ReadValue) -> (r: ReadGroup)
        ensures
            r.spec_read_format() == value.spec_read_format() | PERF_FORMAT_GROUP,
            r.spec_time_enabled_raw() == value.spec_time_enabled(),
            r.spec_time_running_raw() == value.spec_time_running(),
            r.spec_data() == seq![value.spec_value()] + (if has_flags(
                value.spec_read_format(),
                PERF_FORMAT_ID,
            ) {
                seq![value.spec_id()]
            } else {
                Seq::<u64>::empty()
            }) + (if has_flags(value.spec_read_format(), PERF_FORMAT_LOST) {
                seq![value.spec_lost()]
            } else {
                Seq::<u64>::empty()
            }),
    {
        let mut data: Vec<u64> = Vec::new();
        data.push(value.value());
        if value.read_format.bits & PERF_FORMAT_ID == PERF_FORMAT_ID {
            data.push(value.id);
        }
        if value.read_format.bits & PERF_FORMAT_LOST == PERF_FORMAT_LOST {
            data.push(value.lost);
        }
        proof {
            assert(data@ =~= seq![value.spec_value()] + (if has_flags(
                value.spec_read_format(),
                PERF_FORMAT_ID,
            ) {
                seq![value.spec_id()]
            } else {
                Seq::<u64>::empty()
            }) + (if has_flags(value.spec_read_format(), PERF_FORMAT_LOST) {
                seq![value.spec_lost()]
            } else {
                Seq::<u64>::empty()
            }));
        }
        ReadGroup {
            read_format: value.read_format.union(ReadFormat { bits: PERF_FORMAT_GROUP }),
            time_enabled: value.time_enabled,
            time_running: value.time_running,
            data,
        }
    }

    /// Extract the single entry of a one-entry group as a [`ReadValue`];
    /// groups with zero or several entries are refused.
    pub fn try_into_single(&self) -> (r: Result<ReadValue, TryFromGroupError>)
        ensures
            match r {
                Ok(v) => {
                    &&& self.spec_len() == 1
                    &&& v.spec_read_format() == self.spec_read_format() & !PERF_FORMAT_GROUP
                    &&& v.spec_time_enabled() == self.spec_time_enabled_raw()
                    &&& v.spec_time_running() == self.spec_time_running_raw()
                    &&& exists|g: GroupEntry|
                        {
                            &&& #[trigger] self.entry_matches(0, g)
                            &&& v.spec_value() == g.spec_value()
                            &&& v.spec_id() == g.spec_id_raw()
                            &&& v.spec_lost() == g.spec_lost_raw()
                        }
                },
                Err(_) => self.spec_len() != 1,
            },
    {
        let count = self.len();
        if count != 1 {
            return Err(TryFromGroupError::new());
        }
        let entry = self.get(0).unwrap();
        Ok(ReadValue::from_group_and_entry(self, &entry))
    }
}

/// Error when attempting to convert a [`ReadGroup`] to a [`ReadValue`]:
/// only groups with exactly one entry convert.
#[derive(Copy, Clone, Debug, PartialEq, Eq, Structural)]
pub struct TryFromGroupError {
    dummy: bool,
}

impl TryFromGroupError {
    /// Create the error value.
    pub fn new() -> TryFromGroupError {
        TryFromGroupError { dummy: false }
    }

    /// A short human-readable description of the error.
    pub fn description(&self) -> &'static str {
        "can only convert groups with a single element to ReadValues"
    }
}

/// A counter-group block: a count, the optional times, then one block per
/// counter. A format without the GROUP flag, or with any flag this
/// library does not know, is refused with `UnsupportedConfig`; a count
/// whose total word size overflows is an invalid record.
pub open spec fn read_group_post<E: Endian>(
    cfg: ParseConfig<E>,
    pre: Seq<u8>,
    post: Seq<u8>,
    reliable: bool,
    r: ParseResult<ReadGroup>,
) -> bool {
    let e = cfg.spec_endian();
    let rf = cfg.spec_read_format();
    let bad = !has_flags(rf, PERF_FORMAT_GROUP) || read_format_unsupported(rf);
    let off_tr = 8 + (if has_flags(rf, PERF_FORMAT_TOTAL_TIME_ENABLED) {
        8int
    } else {
        0int
    });
    let head = group_head_len(rf);
    match r {
        Ok(g) => {
            &&& !bad
            &&& g.spec_read_format() == rf
            &&& exists|nr: u64|
                #[trigger] u64_at(e, pre, 0, nr) && g.spec_data().len() == (nr as usize) as int
                    * g.spec_element_len()
            &&& if has_flags(rf, PERF_FORMAT_TOTAL_TIME_ENABLED) {
                u64_at(e, pre, 8, g.spec_time_enabled_raw())
            } else {
                g.spec_time_enabled_raw() == 0
            }
            &&& if has_flags(rf, PERF_FORMAT_TOTAL_TIME_RUNNING) {
                u64_at(e, pre, off_tr, g.spec_time_running_raw())
            } else {
                g.spec_time_running_raw() == 0
            }
            &&& pre.len() >= head + 8 * g.spec_data().len()
            &&& post == pre.skip(head + 8 * g.spec_data().len())
            &&& forall|i: int|
                0 <= i < g.spec_data().len() ==> u64_at(
                    e,
                    pre,
                    head + 8 * i,
                    #[trigger] g.spec_data()[i],
                )
        },
        Err(err) => {
            &&& (bad ==> err.spec_kind() == ErrorKind::UnsupportedConfig && post == pre)
            &&& (!bad ==> {
                &&& (err.spec_kind() == ErrorKind::Eof || err.spec_kind() == ErrorKind::External
                    || err.spec_kind() == ErrorKind::InvalidRecord)
                &&& (err.spec_kind() == ErrorKind::Eof ==> post.len() == 0 && (pre.len() < 8
                    || exists|nr: u64|
                    #[trigger] u64_at(e, pre, 0, nr) && pre.len() < group_head_len(rf) + 8
                        * group_data_words(rf, nr)))
                &&& (err.spec_kind() == ErrorKind::InvalidRecord ==> pre.len() >= 8 && exists|
                    nr: u64,
                |
                    #[trigger] u64_at(e, pre, 0, nr) && !group_count_fits(rf, nr))
                &&& (reliable ==> err.spec_kind() == ErrorKind::Eof || err.spec_kind()
                    == ErrorKind::InvalidRecord)
            })
        },
    }
}

impl<E: Endian> Parse<E> for ReadGroup {
    open spec fn parse_post(
        cfg: ParseConfig<E>,
        pre: Seq<u8>,
        post: Seq<u8>,
        reliable: bool,
        r: ParseResult<ReadGroup>,
    ) -> bool {
        read_group_post(cfg, pre, post, reliable, r)
    }

    fn parse<B: ParseBuf>(p: &mut Parser<B, E>) -> (r: ParseResult<ReadGroup>) {
        let read_format = p.config().read_format();
        if !read_format.contains(ReadFormat { bits: PERF_FORMAT_GROUP }) {
            return Err(ParseError::new(ErrorKind::UnsupportedConfig));
        }
        if read_format.has_unsupported_bits() {
            return Err(ParseError::new(ErrorKind::UnsupportedConfig));
        }
        let ghost pre = p.bytes();
        let ghost rf = p.cfg().spec_read_format();
        let nr64 = match p.parse_u64() {
            Ok(v) => v,
            Err(e) => {
                return Err(e);
            },
        };
        proof {
            lemma_step(pre, 0, 8);
            assert(pre.take(8) =~= pre.subrange(0, 8));
            assert(u64_at(p.cfg().spec_endian(), pre, 0, nr64));
        }
        let nr = nr64 as usize;
        let mut time_enabled: u64 = 0;
        if read_format.contains(ReadFormat { bits: PERF_FORMAT_TOTAL_TIME_ENABLED }) {
            time_enabled = p.parse_u64()?;
            proof {
                lemma_step(pre, 8, 8);
            }
        }
        let ghost off_tr = 8 + (if has_flags(rf, PERF_FORMAT_TOTAL_TIME_ENABLED) {
            8int
        } else {
            0int
        });
        let mut time_running: u64 = 0;
        if read_format.contains(ReadFormat { bits: PERF_FORMAT_TOTAL_TIME_RUNNING }) {
            time_running = p.parse_u64()?;
            proof {
                lemma_step(pre, off_tr, 8);
            }
        }
        let element_len = read_format.element_len();
        if nr > usize::MAX / element_len {
            // The declared element count cannot even be addressed; the
            // record is structurally invalid.
            proof {
                assert(!group_count_fits(rf, nr64));
            }
            return Err(ParseError::new(ErrorKind::InvalidRecord));
        }
        proof {
            let m = usize::MAX as int;
            let el = element_len as int;
            let n = nr as int;
            vstd::arithmetic::div_mod::lemma_fundamental_div_mod(m, el);
            vstd::arithmetic::mul::lemma_mul_inequality(n, m / el, el);
            vstd::arithmetic::mul::lemma_mul_is_commutative(m / el, el);
            vstd::arithmetic::mul::lemma_mul_is_commutative(n, el);
            assert(m % el >= 0) by {
                vstd::arithmetic::div_mod::lemma_mod_bound(m, el);
            }
        }
        let data_len = nr * element_len;
        let ghost head = p.bytes();
        let data = p.parse_u64_vec(data_len)?;
        proof {
            let ghost hoff = off_tr + (if has_flags(rf, PERF_FORMAT_TOTAL_TIME_RUNNING) {
                8int
            } else {
                0int
            });
            assert forall|i: int| 0 <= i < data@.len() implies u64_at(
                p.cfg().spec_endian(),
                pre,
                hoff + 8 * i,
                #[trigger] data@[i],
            ) by {
                assert(head.subrange(8 * i, 8 * i + 8) =~= pre.subrange(
                    hoff + 8 * i,
                    hoff + 8 * i + 8,
                ));
            }
            assert(head.skip(8 * data_len as int) =~= pre.skip(hoff + 8 * data@.len()));
            assert(u64_at(p.cfg().spec_endian(), pre, 0, nr64) && data@.len() == (nr64 as usize)
                as int * (1 + (if has_flags(rf, PERF_FORMAT_ID) {
                1int
            } else {
                0int
            }) + (if has_flags(rf, PERF_FORMAT_LOST) {
                1int
            } else {
                0int
            })));
        }
        Ok(ReadGroup { read_format, time_enabled, time_running, data })
    }
}

/// READ events happen when the kernel records the counters on its own,
/// which only happens when `inherit_stat` is enabled.
#[derive(Clone, Debug)]
pub struct Read {
    /// The process ID.
    pub pid: u32,
    /// The thread ID.
    pub tid: u32,
    /// The value read from the counter during task switch.
    pub values: ReadValue,
}

/// A READ body is two 32-bit words followed by a single counter-read
/// block.
pub open spec fn read_post<E: Endian>(
    cfg: ParseConfig<E>,
    pre: Seq<u8>,
    post: Seq<u8>,
    reliable: bool,
    r: ParseResult<Read>,
) -> bool {
    match r {
        Ok(x) => {
            &&& pre.len() >= 8
            &&& u32_at(cfg.spec_endian(), pre, 0, x.pid)
            &&& u32_at(cfg.spec_endian(), pre, 4, x.tid)
            &&& read_value_post(cfg, pre.skip(8), post, reliable, Ok(x.values))
        },
        Err(e) => fail_post(reliable, e, pre.len() as int, post.len() as int, 8) || (pre.len() >= 8
            && read_value_post(cfg, pre.skip(8), post, reliable, Err::<ReadValue, _>(e))),
    }
}

impl<E: Endian> Parse<E> for Read {
    open spec fn parse_post(
        cfg: ParseConfig<E>,
        pre: Seq<u8>,
        post: Seq<u8>,
        reliable: bool,
        r: ParseResult<Read>,
    ) -> bool {
        read_post(cfg, pre, post, reliable, r)
    }

    fn parse<B: ParseBuf>(p: &mut Parser<B, E>) -> (r: ParseResult<Read>) {
        let ghost pre = p.bytes();
        let pid = p.parse_u32()?;
        let tid = p.parse_u32()?;
        proof {
            lemma_step(pre, 0, 4);
            lemma_step(pre, 4, 4);
        }
        let values = ReadValue::parse(p)?;
        Ok(Read { pid, tid, values })
    }
}

/// Counter-read data in either of its two wire forms: a single counter's
/// block, or a count-prefixed group of blocks. Which form is on the wire
/// is decided by the GROUP flag of the read format.
#[derive(Clone, Debug)]
pub enum ReadData {
    /// A single counter value.
    Single(ReadValue),
    /// A group of counter values.
    Group(ReadGroup),
}

/// Counter-read data takes the group form exactly when the GROUP flag is
/// in the read format.
pub open spec fn read_data_post<E: Endian>(
    cfg: ParseConfig<E>,
    pre: Seq<u8>,
    post: Seq<u8>,
    reliable: bool,
    r: ParseResult<ReadData>,
) -> bool {
    if has_flags(cfg.spec_read_format(), PERF_FORMAT_GROUP) {
        match r {
            Ok(d) => match d {
                ReadData::Group(g) => read_group_post(cfg, pre, post, reliable, Ok(g)),
                ReadData::Single(_) => false,
            },
            Err(e) => read_group_post(cfg, pre, post, reliable, Err::<ReadGroup, _>(e)),
        }
    } else {
        match r {
            Ok(d) => match d {
                ReadData::Single(v) => read_value_post(cfg, pre, post, reliable, Ok(v)),
                ReadData::Group(_) => false,
            },
            Err(e) => read_value_post(cfg, pre, post, reliable, Err::<ReadValue, _>(e)),
        }
    }
}

impl<E: Endian> Parse<E> for ReadData {
    open spec fn parse_post(
        cfg: ParseConfig<E>,
        pre: Seq<u8>,
        post: Seq<u8>,
        reliable: bool,
        r: ParseResult<ReadData>,
    ) -> bool {
        read_data_post(cfg, pre, post, reliable, r)
    }

    fn parse<B: ParseBuf>(p: &mut Parser<B, E>) -> (r: ParseResult<ReadData>) {
        if p.config().read_format().contains(ReadFormat { bits: PERF_FORMAT_GROUP }) {
            match ReadGroup::parse(p) {
                Ok(g) => Ok(ReadData::Group(g)),
                Err(e) => Err(e),
            }
        } else {
            match ReadValue::parse(p) {
                Ok(v) => Ok(ReadData::Single(v)),
                Err(e) => Err(e),
            }
        }
    }
}

} // verus!
