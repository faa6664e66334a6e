//! The decoding engine: reads primitive integers and byte sequences from a
//! [`ParseBuf`] honoring endianness, and orchestrates header parsing and
//! record dispatch.

use vstd::prelude::*;
use crate::endian::Endian;
pub use crate::error::ErrorKind;
pub use crate::error::ParseError;
use crate::records::sample_id_fields_ok;
use crate::records::sample_id_is_empty;
use crate::records::sample_id_len;
use crate::records::Aux;
use crate::records::AuxOutputHwId;
use crate::records::BpfEvent;
use crate::records::CGroup;
use crate::records::Comm;
use crate::records::Exit;
use crate::records::ITraceStart;
use crate::records::KSymbol;
use crate::records::Lost;
use crate::records::LostSamples;
use crate::records::Mmap;
use crate::records::Mmap2;
use crate::records::Namespaces;
use crate::records::Read;
use crate::records::Sample;
use crate::records::SampleId;
use crate::records::SwitchCpuWide;
use crate::records::TextPoke;
use crate::records::Throttle;
use crate::records::PERF_RECORD_AUX;
use crate::records::PERF_RECORD_AUX_OUTPUT_HW_ID;
use crate::records::PERF_RECORD_BPF_EVENT;
use crate::records::PERF_RECORD_CGROUP;
use crate::records::PERF_RECORD_COMM;
use crate::records::PERF_RECORD_EXIT;
use crate::records::PERF_RECORD_FORK;
use crate::records::PERF_RECORD_ITRACE_START;
use crate::records::PERF_RECORD_KSYMBOL;
use crate::records::PERF_RECORD_LOST;
use crate::records::PERF_RECORD_LOST_SAMPLES;
use crate::records::PERF_RECORD_MMAP;
use crate::records::PERF_RECORD_MMAP2;
use crate::records::PERF_RECORD_NAMESPACES;
use crate::records::PERF_RECORD_READ;
use crate::records::PERF_RECORD_SAMPLE;
use crate::records::PERF_RECORD_SWITCH;
use crate::records::PERF_RECORD_SWITCH_CPU_WIDE;
use crate::records::PERF_RECORD_TEXT_POKE;
use crate::records::PERF_RECORD_THROTTLE;
use crate::records::PERF_RECORD_UNTHROTTLE;
use crate::visitor::RecordMetadata;
use crate::visitor::Visitor;

pub use crate::config::ParseConfig;
pub use crate::error::ParseResult;
pub use crate::parsebuf::ParseBuf;
pub use crate::parsebuf::ParseBufChunk;
pub use crate::parsebuf::ParseBufCursor;
pub use crate::parsebuf::SliceBuf;
pub use crate::parsebuf::ChunkBuf;

verus! {

/// `s` with every trailing NUL byte removed.
pub open spec fn trim_nuls(s: Seq<u8>) -> Seq<u8>
    decreases s.len(),
{
    if s.len() > 0 && s.last() == 0 {
        trim_nuls(s.drop_last())
    } else {
        s
    }
}

/// The standard failure clause of a decode step that needs `need` bytes:
/// an end-of-input failure can only happen when fewer than `need` bytes
/// were left and only once the input is fully drained, and a reliable
/// source fails in no other way. The drained clause is what rules out a
/// body that reports end of input without doing the work: it may only say
/// so with nothing left to read.
pub open spec fn fail_post(reliable: bool, e: ParseError, pre_len: int, post_len: int, need: int) -> bool {
    &&& e.spec_kind() == ErrorKind::Eof || e.spec_kind() == ErrorKind::External
    &&& (e.spec_kind() == ErrorKind::Eof ==> pre_len < need && post_len == 0)
    &&& (reliable ==> e.spec_kind() == ErrorKind::Eof)
}

/// Stepping a decode by `w` bytes at offset `a`: what the next step sees
/// as its first `w` bytes, and what remains after it.
pub proof fn lemma_step(pre: Seq<u8>, a: int, w: int)
    requires
        0 <= a,
        0 <= w,
        a + w <= pre.len(),
    ensures
        pre.skip(a).take(w) == pre.subrange(a, a + w),
        pre.skip(a).skip(w) == pre.skip(a + w),
{
    assert(pre.skip(a).take(w) =~= pre.subrange(a, a + w));
    assert(pre.skip(a).skip(w) =~= pre.skip(a + w));
}

/// The 16-bit word at byte offset `off` of `bytes` decodes to `v` under `e`.
pub open spec fn u16_at<E: Endian>(e: E, bytes: Seq<u8>, off: int, v: u16) -> bool {
    e.convert_ok(bytes.subrange(off, off + 2), v as nat)
}

/// The 32-bit word at byte offset `off` of `bytes` decodes to `v` under `e`.
pub open spec fn u32_at<E: Endian>(e: E, bytes: Seq<u8>, off: int, v: u32) -> bool {
    e.convert_ok(bytes.subrange(off, off + 4), v as nat)
}

/// The 64-bit word at byte offset `off` of `bytes` decodes to `v` under `e`.
pub open spec fn u64_at<E: Endian>(e: E, bytes: Seq<u8>, off: int, v: u64) -> bool {
    e.convert_ok(bytes.subrange(off, off + 8), v as nat)
}

/// The fixed 8-byte frame that starts every record on the wire:
/// a type tag, per-record misc flags, and the total record size
/// (frame included).
#[derive(Copy, Clone, Debug, PartialEq, Eq, Structural)]
pub struct RecordHeader {
    /// The record type tag.
    pub ty: u32,
    /// Miscellaneous flags set by the kernel.
    pub misc: u16,
    /// The size of the record in bytes, the 8-byte frame included.
    pub size: u16,
}

/// A type that can be parsed out of a [`Parser`].
///
/// Every implementation fixes its own exact relation
/// [`parse_post`](Parse::parse_post) between the bytes before the call, the
/// bytes after it, and the result; [`parse`](Parse::parse) is then proved
/// against that relation, and generic callers inherit it.
pub trait Parse<E: Endian>: Sized {
    /// The exact decode relation of this type: `cfg` is the active
    /// configuration, `pre` and `post` the remaining bytes before and after
    /// the call, `reliable` whether the buffer only ever fails at true end
    /// of input, and `r` the result.
    spec fn parse_post(
        cfg: ParseConfig<E>,
        pre: Seq<u8>,
        post: Seq<u8>,
        reliable: bool,
        r: ParseResult<Self>,
    ) -> bool;

    /// Parse `Self` using the provided [`Parser`] instance.
    fn parse<B: ParseBuf>(p: &mut Parser<B, E>) -> (r: ParseResult<Self>)
        ensures
            final(p).cfg() == old(p).cfg(),
            final(p).reliable() == old(p).reliable(),
            final(p).bytes().len() <= old(p).bytes().len(),
            Self::parse_post(old(p).cfg(), old(p).bytes(), final(p).bytes(), old(p).reliable(), r),
    ;
}

/// The `elems` were parsed back to back: `states` are the remaining
/// bytes before and after each element, and every element stands in its
/// type's decode relation between its two states.
pub open spec fn parse_chain<E: Endian, P: Parse<E>>(
    cfg: ParseConfig<E>,
    states: Seq<Seq<u8>>,
    elems: Seq<P>,
    reliable: bool,
) -> bool {
    &&& states.len() == elems.len() + 1
    &&& forall|i: int|
        0 <= i < elems.len() ==> P::parse_post(
            cfg,
            #[trigger] states[i],
            states[i + 1],
            reliable,
            Ok(elems[i]),
        )
}

/// A [`ParseConfig`] combined with a [`ParseBuf`]: the base on which all
/// parsing in this library occurs.
pub struct Parser<B, E> {
    config: ParseConfig<E>,
    data: B,
}

impl<B: ParseBuf, E: Endian> Parser<B, E> {
    /// The bytes this parser has not consumed yet.
    pub closed spec fn bytes(&self) -> Seq<u8> {
        self.data.data()
    }

    /// The configuration this parser carries.
    pub closed spec fn cfg(&self) -> ParseConfig<E> {
        self.config
    }

    /// Whether the underlying buffer only ever fails at true end of input.
    pub closed spec fn reliable(&self) -> bool {
        self.data.reliable()
    }

    /// Create a new parser over a byte source.
    pub fn new(data: B, config: ParseConfig<E>) -> (r: Parser<B, E>)
        ensures
            r.bytes() == data.data(),
            r.cfg() == config,
            r.reliable() == data.reliable(),
    {
        Parser { config, data }
    }

    /// Get the [`ParseConfig`] instance for this `Parser`.
    pub fn config(&self) -> (r: &ParseConfig<E>)
        ensures
            *r == self.cfg(),
    {
        &self.config
    }

    /// Get the endian configuration value.
    pub fn endian(&self) -> (r: &E)
        ensures
            *r == self.cfg().spec_endian(),
    {
        self.config.endian()
    }

    /// Directly take the next `len` bytes out of the input buffer.
    ///
    /// Exactly the first `len` remaining bytes are returned and consumed.
    /// If the source runs out first, its end-of-input error is returned; a
    /// reliable source fails exactly when fewer than `len` bytes remain.
    pub fn parse_bytes(&mut self, len: usize) -> (r: ParseResult<Vec<u8>>)
        ensures
            final(self).cfg() == old(self).cfg(),
            final(self).reliable() == old(self).reliable(),
            final(self).bytes().len() <= old(self).bytes().len(),
            match r {
                Ok(v) => {
                    &&& old(self).bytes().len() >= len
                    &&& v@ == old(self).bytes().take(len as int)
                    &&& final(self).bytes() == old(self).bytes().skip(len as int)
                },
                Err(e) => fail_post(old(self).reliable(), e, old(self).bytes().len() as int, final(self).bytes().len() as int, len as int),
            },
    {
        let mut out: Vec<u8> = Vec::new();
        proof {
            assert(out@ =~= old(self).bytes().take(0));
            assert(self.bytes() =~= old(self).bytes().skip(0));
        }
        while out.len() < len
            invariant
                out@.len() <= len,
                out@.len() <= old(self).bytes().len(),
                out@ == old(self).bytes().take(out@.len() as int),
                self.bytes() == old(self).bytes().skip(out@.len() as int),
                self.cfg() == old(self).cfg(),
                self.reliable() == old(self).reliable(),
            decreases len - out.len(),
        {
            let got = out.len();
            let c = match self.data.chunk() {
                Ok(c) => c,
                Err(e) => {
                    return Err(e);
                },
            };
            let mut cv = c.into_vec();
            let clen = cv.len();
            let need = len - got;
            let take = if clen < need {
                clen
            } else {
                need
            };
            cv.truncate(take);
            self.data.advance(take);
            proof {
                let base = old(self).bytes();
                assert(cv@ =~= base.subrange(got as int, got + take));
                assert(base.take(got as int) + base.subrange(got as int, got + take) =~= base.take(
                    got + take,
                ));
                assert(base.skip(got as int).skip(take as int) =~= base.skip(got + take));
            }
            out.append(&mut cv);
        }
        Ok(out)
    }

    /// Parse a type.
    pub fn parse<P: Parse<E>>(&mut self) -> (r: ParseResult<P>)
        ensures
            final(self).cfg() == old(self).cfg(),
            final(self).reliable() == old(self).reliable(),
            final(self).bytes().len() <= old(self).bytes().len(),
            P::parse_post(
                old(self).cfg(),
                old(self).bytes(),
                final(self).bytes(),
                old(self).reliable(),
                r,
            ),
    {
        P::parse(self)
    }

    /// Parse a type only if `parse` is true; otherwise consume nothing and
    /// return `None`.
    pub fn parse_if<P: Parse<E>>(&mut self, parse: bool) -> (r: ParseResult<Option<P>>)
        ensures
            final(self).cfg() == old(self).cfg(),
            final(self).reliable() == old(self).reliable(),
            final(self).bytes().len() <= old(self).bytes().len(),
            !parse ==> r == Ok::<Option<P>, ParseError>(None) && final(self).bytes() == old(self).bytes(),
            parse ==> match r {
                Ok(opt) => match opt {
                    Some(v) => P::parse_post(
                        old(self).cfg(),
                        old(self).bytes(),
                        final(self).bytes(),
                        old(self).reliable(),
                        Ok(v),
                    ),
                    None => false,
                },
                Err(e) => P::parse_post(
                    old(self).cfg(),
                    old(self).bytes(),
                    final(self).bytes(),
                    old(self).reliable(),
                    Err(e),
                ),
            },
    {
        if parse {
            match P::parse(self) {
                Ok(v) => Ok(Some(v)),
                Err(e) => Err(e),
            }
        } else {
            Ok(None)
        }
    }

    /// Parse a single byte out of the source buffer.
    pub fn parse_u8(&mut self) -> (r: ParseResult<u8>)
        ensures
            final(self).cfg() == old(self).cfg(),
            final(self).reliable() == old(self).reliable(),
            final(self).bytes().len() <= old(self).bytes().len(),
            match r {
                Ok(v) => old(self).bytes().len() >= 1 && v == old(self).bytes()[0] && final(self).bytes() == old(self).bytes().skip(1),
                Err(e) => fail_post(old(self).reliable(), e, old(self).bytes().len() as int, final(self).bytes().len() as int, 1),
            },
    {
        let v = self.parse_bytes(1)?;
        Ok(v[0])
    }

    /// Parse a `u16` out of the source data.
    pub fn parse_u16(&mut self) -> (r: ParseResult<u16>)
        ensures
            final(self).cfg() == old(self).cfg(),
            final(self).reliable() == old(self).reliable(),
            final(self).bytes().len() <= old(self).bytes().len(),
            match r {
                Ok(v) => old(self).bytes().len() >= 2 && final(self).bytes() == old(self).bytes().skip(2) && old(self).cfg().spec_endian().convert_ok(
                    old(self).bytes().take(2),
                    v as nat,
                ),
                Err(e) => fail_post(old(self).reliable(), e, old(self).bytes().len() as int, final(self).bytes().len() as int, 2),
            },
    {
        let v = self.parse_bytes(2)?;
        let arr = [v[0], v[1]];
        proof {
            assert(arr@ =~= v@);
        }
        Ok(self.config.endian().convert_u16(arr))
    }

    /// Parse a `u32` out of the source data.
    pub fn parse_u32(&mut self) -> (r: ParseResult<u32>)
        ensures
            final(self).cfg() == old(self).cfg(),
            final(self).reliable() == old(self).reliable(),
            final(self).bytes().len() <= old(self).bytes().len(),
            match r {
                Ok(v) => old(self).bytes().len() >= 4 && final(self).bytes() == old(self).bytes().skip(4) && old(self).cfg().spec_endian().convert_ok(
                    old(self).bytes().take(4),
                    v as nat,
                ),
                Err(e) => fail_post(old(self).reliable(), e, old(self).bytes().len() as int, final(self).bytes().len() as int, 4),
            },
    {
        let v = self.parse_bytes(4)?;
        let arr = [v[0], v[1], v[2], v[3]];
        proof {
            assert(arr@ =~= v@);
        }
        Ok(self.config.endian().convert_u32(arr))
    }

    /// Parse a `u64` out of the source data.
    pub fn parse_u64(&mut self) -> (r: ParseResult<u64>)
        ensures
            final(self).cfg() == old(self).cfg(),
            final(self).reliable() == old(self).reliable(),
            final(self).bytes().len() <= old(self).bytes().len(),
            match r {
                Ok(v) => old(self).bytes().len() >= 8 && final(self).bytes() == old(self).bytes().skip(8) && old(self).cfg().spec_endian().convert_ok(
                    old(self).bytes().take(8),
                    v as nat,
                ),
                Err(e) => fail_post(old(self).reliable(), e, old(self).bytes().len() as int, final(self).bytes().len() as int, 8),
            },
    {
        let v = self.parse_bytes(8)?;
        let arr = [v[0], v[1], v[2], v[3], v[4], v[5], v[6], v[7]];
        proof {
            assert(arr@ =~= v@);
        }
        Ok(self.config.endian().convert_u64(arr))
    }

    /// Consume the rest of the buffer and return it.
    pub fn parse_rest(&mut self) -> (r: ParseResult<Vec<u8>>)
        ensures
            final(self).cfg() == old(self).cfg(),
            final(self).reliable() == old(self).reliable(),
            final(self).bytes().len() <= old(self).bytes().len(),
            match r {
                Ok(v) => v@ == old(self).bytes() && final(self).bytes().len() == 0,
                Err(e) => e.spec_kind() == ErrorKind::External && !old(self).reliable(),
            },
    {
        let mut out: Vec<u8> = Vec::new();
        proof {
            assert(out@ =~= old(self).bytes().take(0));
            assert(self.bytes() =~= old(self).bytes().skip(0));
        }
        loop
            invariant
                out@.len() <= old(self).bytes().len(),
                out@ == old(self).bytes().take(out@.len() as int),
                self.bytes() == old(self).bytes().skip(out@.len() as int),
                self.cfg() == old(self).cfg(),
                self.reliable() == old(self).reliable(),
            ensures
                out@ == old(self).bytes(),
                self.bytes().len() == 0,
                self.cfg() == old(self).cfg(),
                self.reliable() == old(self).reliable(),
            decreases self.bytes().len(),
        {
            let got = out.len();
            match self.data.chunk() {
                Ok(c) => {
                    let mut cv = c.into_vec();
                    let clen = cv.len();
                    self.data.advance(clen);
                    proof {
                        let base = old(self).bytes();
                        assert(cv@ =~= base.subrange(got as int, got + clen));
                        assert(base.take(got as int) + base.subrange(got as int, got + clen)
                            =~= base.take(got + clen));
                        assert(base.skip(got as int).skip(clen as int) =~= base.skip(got + clen));
                    }
                    out.append(&mut cv);
                },
                Err(e) => {
                    if e.kind() == ErrorKind::Eof {
                        proof {
                            assert(out@ =~= old(self).bytes());
                        }
                        break ;
                    } else {
                        return Err(e);
                    }
                },
            }
        }
        Ok(out)
    }

    /// Parse the rest of the bytes in the buffer but trim trailing NUL
    /// bytes, as C-string-style fields such as filenames are padded with
    /// them on the wire.
    pub fn parse_rest_trim_nul(&mut self) -> (r: ParseResult<Vec<u8>>)
        ensures
            final(self).cfg() == old(self).cfg(),
            final(self).reliable() == old(self).reliable(),
            final(self).bytes().len() <= old(self).bytes().len(),
            match r {
                Ok(v) => v@ == trim_nuls(old(self).bytes()) && final(self).bytes().len() == 0,
                Err(e) => e.spec_kind() == ErrorKind::External && !old(self).reliable(),
            },
    {
        let mut v = self.parse_rest()?;
        while v.len() > 0 && v[v.len() - 1] == 0
            invariant
                trim_nuls(v@) == trim_nuls(old(self).bytes()),
            decreases v@.len(),
        {
            let ghost prev = v@;
            v.pop();
            proof {
                assert(v@ =~= prev.drop_last());
            }
        }
        proof {
            assert(trim_nuls(v@) == v@);
        }
        Ok(v)
    }

    /// Parse a sequence of `len` 64-bit words.
    pub fn parse_u64_vec(&mut self, len: usize) -> (r: ParseResult<Vec<u64>>)
        ensures
            final(self).cfg() == old(self).cfg(),
            final(self).reliable() == old(self).reliable(),
            final(self).bytes().len() <= old(self).bytes().len(),
            match r {
                Ok(v) => {
                    &&& old(self).bytes().len() >= 8 * len
                    &&& v@.len() == len
                    &&& final(self).bytes() == old(self).bytes().skip(8 * len as int)
                    &&& forall|i: int|
                        0 <= i < len ==> old(self).cfg().spec_endian().convert_ok(
                            old(self).bytes().subrange(8 * i, 8 * i + 8),
                            (#[trigger] v@[i]) as nat,
                        )
                },
                Err(e) => fail_post(old(self).reliable(), e, old(self).bytes().len() as int, final(self).bytes().len() as int, 8 * len as int,
                ),
            },
    {
        let mut out: Vec<u64> = Vec::new();
        let mut i: usize = 0;
        proof {
            assert(self.bytes() =~= old(self).bytes().skip(0));
        }
        while i < len
            invariant
                i <= len,
                out@.len() == i,
                8 * i <= old(self).bytes().len(),
                self.bytes() == old(self).bytes().skip(8 * i as int),
                self.cfg() == old(self).cfg(),
                self.reliable() == old(self).reliable(),
                forall|j: int|
                    0 <= j < i ==> old(self).cfg().spec_endian().convert_ok(
                        old(self).bytes().subrange(8 * j, 8 * j + 8),
                        (#[trigger] out@[j]) as nat,
                    ),
            decreases len - i,
        {
            let ghost pre_loop = self.bytes();
            let w = match self.parse_u64() {
                Ok(w) => w,
                Err(e) => {
                    proof {
                        if e.spec_kind() == ErrorKind::Eof {
                            assert(old(self).bytes().skip(8 * i as int).len() < 8);
                        }
                    }
                    return Err(e);
                },
            };
            proof {
                let base = old(self).bytes();
                assert(pre_loop.take(8) =~= base.subrange(8 * i as int, 8 * i as int + 8));
                assert(base.skip(8 * i as int).skip(8) =~= base.skip(8 * (i + 1) as int));
            }
            out.push(w);
            i = i + 1;
        }
        Ok(out)
    }

    /// Parse a sequence of `len` instances of a typed value.
    pub fn parse_repeated<P: Parse<E>>(&mut self, len: usize) -> (r: ParseResult<Vec<P>>)
        ensures
            final(self).cfg() == old(self).cfg(),
            final(self).reliable() == old(self).reliable(),
            final(self).bytes().len() <= old(self).bytes().len(),
            match r {
                Ok(v) => v@.len() == len && exists|states: Seq<Seq<u8>>|
                    {
                        &&& (#[trigger] states[0]) == old(self).bytes()
                        &&& parse_chain(old(self).cfg(), states, v@, old(self).reliable())
                        &&& states.last() == final(self).bytes()
                    },
                Err(e) => exists|states: Seq<Seq<u8>>, elems: Seq<P>|
                    {
                        &&& #[trigger] parse_chain(
                            old(self).cfg(),
                            states,
                            elems,
                            old(self).reliable(),
                        )
                        &&& states[0] == old(self).bytes()
                        &&& elems.len() < len
                        &&& P::parse_post(
                            old(self).cfg(),
                            states.last(),
                            final(self).bytes(),
                            old(self).reliable(),
                            Err(e),
                        )
                    },
            },
    {
        let mut out: Vec<P> = Vec::new();
        let mut i: usize = 0;
        let ghost mut states: Seq<Seq<u8>> = seq![self.bytes()];
        while i < len
            invariant
                i <= len,
                out@.len() == i,
                self.cfg() == old(self).cfg(),
                self.reliable() == old(self).reliable(),
                self.bytes().len() <= old(self).bytes().len(),
                parse_chain(old(self).cfg(), states, out@, old(self).reliable()),
                states[0] == old(self).bytes(),
                states.last() == self.bytes(),
            decreases len - i,
        {
            let ghost prev_states = states;
            let ghost prev_out = out@;
            let v = match P::parse(self) {
                Ok(v) => v,
                Err(e) => {
                    return Err(e);
                },
            };
            proof {
                states = states.push(self.bytes());
                assert forall|k: int| 0 <= k < prev_out.len() + 1 implies P::parse_post(
                    old(self).cfg(),
                    #[trigger] states[k],
                    states[k + 1],
                    old(self).reliable(),
                    Ok(prev_out.push(v)[k]),
                ) by {
                    if k < prev_out.len() {
                        assert(states[k] == prev_states[k]);
                        assert(states[k + 1] == prev_states[k + 1]);
                        assert(prev_out.push(v)[k] == prev_out[k]);
                    } else {
                        assert(states[k] == prev_states.last());
                        assert(states[k + 1] == self.bytes());
                        assert(prev_out.push(v)[k] == v);
                    }
                }
            }
            out.push(v);
            i = i + 1;
        }
        Ok(out)
    }
}

impl<E: Endian> Parse<E> for u8 {
    open spec fn parse_post(
        cfg: ParseConfig<E>,
        pre: Seq<u8>,
        post: Seq<u8>,
        reliable: bool,
        r: ParseResult<u8>,
    ) -> bool {
        match r {
            Ok(v) => pre.len() >= 1 && v == pre[0] && post == pre.skip(1),
            Err(e) => fail_post(reliable, e, pre.len() as int, post.len() as int, 1),
        }
    }

    fn parse<B: ParseBuf>(p: &mut Parser<B, E>) -> (r: ParseResult<u8>) {
        p.parse_u8()
    }
}

impl<E: Endian> Parse<E> for u16 {
    open spec fn parse_post(
        cfg: ParseConfig<E>,
        pre: Seq<u8>,
        post: Seq<u8>,
        reliable: bool,
        r: ParseResult<u16>,
    ) -> bool {
        match r {
            Ok(v) => pre.len() >= 2 && post == pre.skip(2) && cfg.spec_endian().convert_ok(
                pre.take(2),
                v as nat,
            ),
            Err(e) => fail_post(reliable, e, pre.len() as int, post.len() as int, 2),
        }
    }

    fn parse<B: ParseBuf>(p: &mut Parser<B, E>) -> (r: ParseResult<u16>) {
        p.parse_u16()
    }
}

impl<E: Endian> Parse<E> for u32 {
    open spec fn parse_post(
        cfg: ParseConfig<E>,
        pre: Seq<u8>,
        post: Seq<u8>,
        reliable: bool,
        r: ParseResult<u32>,
    ) -> bool {
        match r {
            Ok(v) => pre.len() >= 4 && post == pre.skip(4) && cfg.spec_endian().convert_ok(
                pre.take(4),
                v as nat,
            ),
            Err(e) => fail_post(reliable, e, pre.len() as int, post.len() as int, 4),
        }
    }

    fn parse<B: ParseBuf>(p: &mut Parser<B, E>) -> (r: ParseResult<u32>) {
        p.parse_u32()
    }
}

impl<E: Endian> Parse<E> for u64 {
    open spec fn parse_post(
        cfg: ParseConfig<E>,
        pre: Seq<u8>,
        post: Seq<u8>,
        reliable: bool,
        r: ParseResult<u64>,
    ) -> bool {
        match r {
            Ok(v) => pre.len() >= 8 && post == pre.skip(8) && cfg.spec_endian().convert_ok(
                pre.take(8),
                v as nat,
            ),
            Err(e) => fail_post(reliable, e, pre.len() as int, post.len() as int, 8),
        }
    }

    fn parse<B: ParseBuf>(p: &mut Parser<B, E>) -> (r: ParseResult<u64>) {
        p.parse_u64()
    }
}

/// Where the header's fields sit on the wire: type tag in the first four
/// bytes, misc in the next two, size in the last two.
pub open spec fn record_header_post<E: Endian>(
    cfg: ParseConfig<E>,
    pre: Seq<u8>,
    post: Seq<u8>,
    reliable: bool,
    r: ParseResult<RecordHeader>,
) -> bool {
    match r {
        Ok(h) => {
            &&& pre.len() >= 8
            &&& post == pre.skip(8)
            &&& cfg.spec_endian().convert_ok(pre.subrange(0, 4), h.ty as nat)
            &&& cfg.spec_endian().convert_ok(pre.subrange(4, 6), h.misc as nat)
            &&& cfg.spec_endian().convert_ok(pre.subrange(6, 8), h.size as nat)
        },
        Err(e) => fail_post(reliable, e, pre.len() as int, post.len() as int, 8),
    }
}

impl<E: Endian> Parse<E> for RecordHeader {
    open spec fn parse_post(
        cfg: ParseConfig<E>,
        pre: Seq<u8>,
        post: Seq<u8>,
        reliable: bool,
        r: ParseResult<RecordHeader>,
    ) -> bool {
        record_header_post(cfg, pre, post, reliable, r)
    }

    fn parse<B: ParseBuf>(p: &mut Parser<B, E>) -> (r: ParseResult<RecordHeader>) {
        let ghost pre = p.bytes();
        let ty = p.parse_u32()?;
        let ghost mid1 = p.bytes();
        let misc = match p.parse_u16() {
            Ok(m) => m,
            Err(e) => {
                proof {
                    if e.spec_kind() == ErrorKind::Eof {
                        assert(pre.skip(4).len() < 2);
                    }
                }
                return Err(e);
            },
        };
        let ghost mid2 = p.bytes();
        let size = match p.parse_u16() {
            Ok(s) => s,
            Err(e) => {
                proof {
                    if e.spec_kind() == ErrorKind::Eof {
                        assert(pre.skip(4).skip(2).len() < 2);
                    }
                }
                return Err(e);
            },
        };
        proof {
            assert(pre.take(4) =~= pre.subrange(0, 4));
            assert(mid1.take(2) =~= pre.subrange(4, 6));
            assert(mid2.take(2) =~= pre.subrange(6, 8));
            assert(mid2.skip(2) =~= pre.skip(8));
        }
        Ok(RecordHeader { ty, misc, size })
    }
}


/// What carving a record's body out of the stream yields, given its
/// header: the body as a bounded sub-parser, and the record's metadata.
///
/// A header too small to contain its own 8-byte frame is an invalid
/// record. For record types other than MMAP and SAMPLE, the trailer
/// implied by the configuration is split off the end of the body and
/// decoded; a declared body too short to hold that trailer is an invalid
/// record too. The trailer width is computed purely from the
/// configuration, never read from the stream.
pub open spec fn metadata_post<E: Endian>(
    cfg: ParseConfig<E>,
    header: RecordHeader,
    pre: Seq<u8>,
    post: Seq<u8>,
    reliable: bool,
    r: ParseResult<(Parser<ParseBufCursor, E>, RecordMetadata)>,
) -> bool {
    let bl = header.size as int - 8;
    let bare = header.ty == PERF_RECORD_MMAP || header.ty == PERF_RECORD_SAMPLE;
    let tlen = if bare {
        0int
    } else {
        sample_id_len(cfg)
    };
    match r {
        Ok((p2, md)) => {
            &&& header.size >= 8
            &&& pre.len() >= bl
            &&& post == pre.skip(bl)
            &&& md.spec_ty() == header.ty
            &&& md.spec_misc() == header.misc
            &&& p2.cfg() == cfg
            &&& p2.reliable()
            &&& bl >= tlen
            &&& p2.bytes() == pre.take(bl - tlen)
            &&& if bare || !cfg.spec_sample_id_all() {
                sample_id_is_empty(md.spec_sample_id())
            } else {
                sample_id_fields_ok(cfg, pre.subrange(bl - tlen, bl), md.spec_sample_id())
            }
        },
        Err(e) => {
            &&& (e.spec_kind() == ErrorKind::Eof || e.spec_kind() == ErrorKind::External
                || e.spec_kind() == ErrorKind::InvalidRecord)
            &&& (header.size < 8 ==> e.spec_kind() == ErrorKind::InvalidRecord)
            &&& (e.spec_kind() == ErrorKind::Eof ==> header.size >= 8 && pre.len() < bl)
            &&& (e.spec_kind() == ErrorKind::InvalidRecord ==> header.size < 8 || (!bare
                && pre.len() >= bl && bl < sample_id_len(cfg)))
            &&& (reliable ==> e.spec_kind() != ErrorKind::External)
        },
    }
}

impl<B: ParseBuf, E: Endian> Parser<B, E> {
    /// Advance the current parser past `offset` bytes and return a new
    /// parser holding exactly those bytes.
    pub(crate) fn split_at(&mut self, offset: usize) -> (r: ParseResult<
        Parser<ParseBufCursor, E>,
    >)
        ensures
            final(self).cfg() == old(self).cfg(),
            final(self).reliable() == old(self).reliable(),
            final(self).bytes().len() <= old(self).bytes().len(),
            match r {
                Ok(p2) => {
                    &&& old(self).bytes().len() >= offset
                    &&& p2.bytes() == old(self).bytes().take(offset as int)
                    &&& final(self).bytes() == old(self).bytes().skip(offset as int)
                    &&& p2.cfg() == old(self).cfg()
                    &&& p2.reliable()
                },
                Err(e) => fail_post(old(self).reliable(), e, old(self).bytes().len() as int, final(self).bytes().len() as int, offset as int,
                ),
            },
    {
        let cursor = ParseBufCursor::new(&mut self.data, offset)?;
        Ok(Parser::new(cursor, self.config))
    }

    /// Parse the record frame and carve the record's body out of the
    /// stream: the body as a bounded sub-parser, plus the record's
    /// metadata with its decoded trailer.
    pub fn parse_metadata_with_header(&mut self, header: RecordHeader) -> (r: ParseResult<
        (Parser<ParseBufCursor, E>, RecordMetadata),
    >)
        ensures
            final(self).cfg() == old(self).cfg(),
            final(self).reliable() == old(self).reliable(),
            final(self).bytes().len() <= old(self).bytes().len(),
            metadata_post(
                old(self).cfg(),
                header,
                old(self).bytes(),
                final(self).bytes(),
                old(self).reliable(),
                r,
            ),
    {
        if header.size < 8 {
            // The declared size includes the frame itself, so anything
            // smaller cannot be a record at all.
            return Err(ParseError::new(ErrorKind::InvalidRecord));
        }
        let data_len = (header.size - 8) as usize;
        let ghost pre = self.bytes();
        let mut rp = self.split_at(data_len)?;
        if header.ty == PERF_RECORD_MMAP || header.ty == PERF_RECORD_SAMPLE {
            let metadata = RecordMetadata::new(header, SampleId::default());
            proof {
                assert(rp.bytes() == pre.take(data_len as int));
            }
            return Ok((rp, metadata));
        }
        let trailer_len = SampleId::estimate_len(rp.config());
        if data_len < trailer_len {
            // The configuration implies a trailer this body cannot hold.
            return Err(ParseError::new(ErrorKind::InvalidRecord));
        }
        let body = rp.split_at(data_len - trailer_len)?;
        let ghost trailer_pre = rp.bytes();
        let sid = SampleId::parse(&mut rp)?;
        proof {
            assert(body.bytes() =~= pre.take(data_len - trailer_len));
            assert(trailer_pre =~= pre.subrange(
                data_len - trailer_len,
                data_len as int,
            ));
        }
        let metadata = RecordMetadata::new(header, sid);
        Ok((body, metadata))
    }

    /// Parse record metadata and return a parser for the bytes of the
    /// record.
    pub fn parse_metadata(&mut self) -> (r: ParseResult<
        (Parser<ParseBufCursor, E>, RecordMetadata),
    >)
        ensures
            final(self).cfg() == old(self).cfg(),
            final(self).reliable() == old(self).reliable(),
            final(self).bytes().len() <= old(self).bytes().len(),
            match r {
                Ok(_) => exists|h: RecordHeader|
                    #[trigger] record_header_post(
                        old(self).cfg(),
                        old(self).bytes(),
                        old(self).bytes().skip(8),
                        old(self).reliable(),
                        Ok(h),
                    ) && metadata_post(
                        old(self).cfg(),
                        h,
                        old(self).bytes().skip(8),
                        final(self).bytes(),
                        old(self).reliable(),
                        r,
                    ),
                Err(e) => (e.spec_kind() == ErrorKind::Eof || e.spec_kind() == ErrorKind::External
                    || e.spec_kind() == ErrorKind::InvalidRecord) && (fail_post(
                    old(self).reliable(),
                    e,
                    old(self).bytes().len() as int,
                    final(self).bytes().len() as int,
                    8,
                ) || (old(self).bytes().len() >= 8 && exists|h: RecordHeader|
                    #[trigger] record_header_post(
                        old(self).cfg(),
                        old(self).bytes(),
                        old(self).bytes().skip(8),
                        old(self).reliable(),
                        Ok(h),
                    ) && metadata_post(
                        old(self).cfg(),
                        h,
                        old(self).bytes().skip(8),
                        final(self).bytes(),
                        old(self).reliable(),
                        Err::<(Parser<ParseBufCursor, E>, RecordMetadata), ParseError>(e),
                    ))),
            },
    {
        let ghost pre = self.bytes();
        let header = RecordHeader::parse(self)?;
        proof {
            assert(record_header_post(
                old(self).cfg(),
                pre,
                pre.skip(8),
                old(self).reliable(),
                Ok(header),
            ));
        }
        let r = match self.parse_metadata_with_header(header) {
            Ok(r) => r,
            Err(e) => {
                proof {
                    assert(metadata_post(
                        old(self).cfg(),
                        header,
                        pre.skip(8),
                        self.bytes(),
                        old(self).reliable(),
                        Err::<(Parser<ParseBufCursor, E>, RecordMetadata), ParseError>(e),
                    ));
                }
                return Err(e);
            },
        };
        Ok(r)
    }

    /// The same parser, its configuration carrying the given record's
    /// `misc` value: what dispatch does on entering a record's body.
    pub(crate) fn enter_record(self, misc: u16) -> (r: Parser<B, E>)
        ensures
            r.bytes() == self.bytes(),
            r.reliable() == self.reliable(),
            crate::records::cfg_like_with_misc(self.cfg(), r.cfg(), misc),
    {
        let Parser { config, data } = self;
        Parser { config: config.with_misc(misc), data }
    }

    /// Decode the record body held by this parser and hand the decoded
    /// record to the matching method of `visitor`; a type tag this
    /// library does not know goes to the catch-all with the raw bytes.
    fn parse_record_impl<V: Visitor>(self, visitor: V, metadata: RecordMetadata) -> (r: ParseResult<
        V::Output,
    >)
        ensures
            match r {
                Ok(_) => true,
                Err(e) => {
                    &&& (e.spec_kind() == ErrorKind::Eof || e.spec_kind() == ErrorKind::External
                        || e.spec_kind() == ErrorKind::InvalidRecord || e.spec_kind()
                        == ErrorKind::UnsupportedConfig)
                    &&& (e.spec_kind() == ErrorKind::UnsupportedConfig ==> metadata.spec_ty()
                        == PERF_RECORD_READ || metadata.spec_ty() == PERF_RECORD_SAMPLE)
                    &&& (e.spec_kind() == ErrorKind::InvalidRecord ==> metadata.spec_ty()
                        == PERF_RECORD_MMAP2 || metadata.spec_ty() == PERF_RECORD_SAMPLE)
                    &&& (self.reliable() ==> e.spec_kind() != ErrorKind::External)
                },
            },
    {
        let mut p = self.enter_record(metadata.misc());
        let ty = metadata.ty();
        if ty == PERF_RECORD_MMAP {
            let rec = Mmap::parse(&mut p)?;
            Ok(visitor.visit_mmap(rec, metadata))
        } else if ty == PERF_RECORD_LOST {
            let rec = Lost::parse(&mut p)?;
            Ok(visitor.visit_lost(rec, metadata))
        } else if ty == PERF_RECORD_COMM {
            let rec = Comm::parse(&mut p)?;
            Ok(visitor.visit_comm(rec, metadata))
        } else if ty == PERF_RECORD_EXIT {
            let rec = Exit::parse(&mut p)?;
            Ok(visitor.visit_exit(rec, metadata))
        } else if ty == PERF_RECORD_THROTTLE {
            let rec = Throttle::parse(&mut p)?;
            Ok(visitor.visit_throttle(rec, metadata))
        } else if ty == PERF_RECORD_UNTHROTTLE {
            let rec = Throttle::parse(&mut p)?;
            Ok(visitor.visit_unthrottle(rec, metadata))
        } else if ty == PERF_RECORD_FORK {
            let rec = Exit::parse(&mut p)?;
            Ok(visitor.visit_fork(rec, metadata))
        } else if ty == PERF_RECORD_READ {
            let rec = Read::parse(&mut p)?;
            Ok(visitor.visit_read(rec, metadata))
        } else if ty == PERF_RECORD_SAMPLE {
            let rec = Sample::parse(&mut p)?;
            Ok(visitor.visit_sample(rec, metadata))
        } else if ty == PERF_RECORD_MMAP2 {
            let rec = Mmap2::parse(&mut p)?;
            Ok(visitor.visit_mmap2(rec, metadata))
        } else if ty == PERF_RECORD_AUX {
            let rec = Aux::parse(&mut p)?;
            Ok(visitor.visit_aux(rec, metadata))
        } else if ty == PERF_RECORD_ITRACE_START {
            let rec = ITraceStart::parse(&mut p)?;
            Ok(visitor.visit_itrace_start(rec, metadata))
        } else if ty == PERF_RECORD_LOST_SAMPLES {
            let rec = LostSamples::parse(&mut p)?;
            Ok(visitor.visit_lost_samples(rec, metadata))
        } else if ty == PERF_RECORD_SWITCH {
            Ok(visitor.visit_switch(metadata))
        } else if ty == PERF_RECORD_SWITCH_CPU_WIDE {
            let rec = SwitchCpuWide::parse(&mut p)?;
            Ok(visitor.visit_switch_cpu_wide(rec, metadata))
        } else if ty == PERF_RECORD_NAMESPACES {
            let rec = Namespaces::parse(&mut p)?;
            Ok(visitor.visit_namespaces(rec, metadata))
        } else if ty == PERF_RECORD_KSYMBOL {
            let rec = KSymbol::parse(&mut p)?;
            Ok(visitor.visit_ksymbol(rec, metadata))
        } else if ty == PERF_RECORD_BPF_EVENT {
            let rec = BpfEvent::parse(&mut p)?;
            Ok(visitor.visit_bpf_event(rec, metadata))
        } else if ty == PERF_RECORD_CGROUP {
            let rec = CGroup::parse(&mut p)?;
            Ok(visitor.visit_cgroup(rec, metadata))
        } else if ty == PERF_RECORD_TEXT_POKE {
            let rec = TextPoke::parse(&mut p)?;
            Ok(visitor.visit_text_poke(rec, metadata))
        } else if ty == PERF_RECORD_AUX_OUTPUT_HW_ID {
            let rec = AuxOutputHwId::parse(&mut p)?;
            Ok(visitor.visit_aux_output_hw_id(rec, metadata))
        } else {
            let rest = p.parse_rest()?;
            Ok(visitor.visit_unknown(rest, metadata))
        }
    }

    /// Same as [`parse_record`](Self::parse_record) but with the record
    /// frame already parsed.
    pub fn parse_record_with_header<V: Visitor>(&mut self, visitor: V, header: RecordHeader) -> (r:
        ParseResult<V::Output>)
        ensures
            final(self).cfg() == old(self).cfg(),
            final(self).reliable() == old(self).reliable(),
            final(self).bytes().len() <= old(self).bytes().len(),
            match r {
                Ok(_) => header.size >= 8 && old(self).bytes().len() >= header.size - 8
                    && final(self).bytes() == old(self).bytes().skip(header.size - 8),
                Err(e) => {
                    &&& (e.spec_kind() == ErrorKind::Eof || e.spec_kind() == ErrorKind::External
                        || e.spec_kind() == ErrorKind::InvalidRecord || e.spec_kind()
                        == ErrorKind::UnsupportedConfig)
                    &&& (header.size < 8 ==> e.spec_kind() == ErrorKind::InvalidRecord)
                    &&& (old(self).reliable() && header.size >= 8 && old(self).bytes().len()
                        < header.size - 8 ==> e.spec_kind() == ErrorKind::Eof)
                    &&& (e.spec_kind() == ErrorKind::UnsupportedConfig ==> header.ty
                        == PERF_RECORD_READ || header.ty == PERF_RECORD_SAMPLE)
                    &&& (e.spec_kind() == ErrorKind::InvalidRecord ==> header.size < 8 || (
                    header.ty != PERF_RECORD_MMAP && header.ty != PERF_RECORD_SAMPLE
                        && header.size - 8 < sample_id_len(old(self).cfg())) || header.ty
                        == PERF_RECORD_MMAP2 || header.ty == PERF_RECORD_SAMPLE)
                    &&& (old(self).reliable() ==> e.spec_kind() != ErrorKind::External)
                },
            },
    {
        let (p2, metadata) = self.parse_metadata_with_header(header)?;
        p2.parse_record_impl(visitor, metadata)
    }

    /// Parse a record: the decoded record kind is visited by `visitor`.
    pub fn parse_record<V: Visitor>(&mut self, visitor: V) -> (r: ParseResult<V::Output>)
        ensures
            final(self).cfg() == old(self).cfg(),
            final(self).reliable() == old(self).reliable(),
            final(self).bytes().len() <= old(self).bytes().len(),
            match r {
                Ok(_) => old(self).bytes().len() >= 8 && exists|h: RecordHeader|
                    #[trigger] record_header_post(
                        old(self).cfg(),
                        old(self).bytes(),
                        old(self).bytes().skip(8),
                        old(self).reliable(),
                        Ok(h),
                    ) && h.size >= 8 && old(self).bytes().len() >= h.size && final(self).bytes()
                        == old(self).bytes().skip(h.size as int),
                Err(e) => {
                    &&& (e.spec_kind() == ErrorKind::Eof || e.spec_kind() == ErrorKind::External
                        || e.spec_kind() == ErrorKind::InvalidRecord || e.spec_kind()
                        == ErrorKind::UnsupportedConfig)
                    &&& (old(self).reliable() ==> e.spec_kind() != ErrorKind::External)
                    &&& (fail_post(
                        old(self).reliable(),
                        e,
                        old(self).bytes().len() as int,
                        final(self).bytes().len() as int,
                        8,
                    ) || (old(self).bytes().len() >= 8 && exists|h: RecordHeader|
                        #[trigger] record_header_post(
                            old(self).cfg(),
                            old(self).bytes(),
                            old(self).bytes().skip(8),
                            old(self).reliable(),
                            Ok(h),
                        ) && (h.size < 8 ==> e.spec_kind() == ErrorKind::InvalidRecord) && (old(
                            self,
                        ).reliable() && h.size >= 8 && old(self).bytes().len() - 8 < h.size - 8
                            ==> e.spec_kind() == ErrorKind::Eof) && (e.spec_kind()
                            == ErrorKind::UnsupportedConfig ==> h.ty == PERF_RECORD_READ || h.ty
                            == PERF_RECORD_SAMPLE) && (e.spec_kind() == ErrorKind::InvalidRecord
                            ==> h.size < 8 || (h.ty != PERF_RECORD_MMAP && h.ty
                            != PERF_RECORD_SAMPLE && h.size - 8 < sample_id_len(old(self).cfg()))
                            || h.ty == PERF_RECORD_MMAP2 || h.ty == PERF_RECORD_SAMPLE)))
                },
            },
    {
        let ghost pre = self.bytes();
        let header = RecordHeader::parse(self)?;
        proof {
            assert(record_header_post(
                old(self).cfg(),
                pre,
                pre.skip(8),
                old(self).reliable(),
                Ok(header),
            ));
        }
        let r = match self.parse_record_with_header(visitor, header) {
            Ok(r) => r,
            Err(e) => {
                return Err(e);
            },
        };
        proof {
            assert(pre.skip(8).skip(header.size - 8) =~= pre.skip(header.size as int));
        }
        Ok(r)
    }
}

} // verus!
