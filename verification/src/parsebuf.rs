//! The abstract input-buffer model: byte sources hand out chunks and commit
//! past them, and a cursor carves a bounded sub-view out of a longer stream.

use vstd::prelude::*;
use crate::error::ErrorKind;
use crate::error::ParseError;
use crate::error::ParseResult;

verus! {

/// The views of a list of byte chunks.
pub open spec fn chunks_view(chunks: Seq<Vec<u8>>) -> Seq<Seq<u8>> {
    chunks.map_values(|v: Vec<u8>| v@)
}

/// The bytes of `chunks` read back to front: the last chunk comes first.
/// This is the model of buffers that keep their chunks in reverse order so
/// that consumed chunks can be removed from the tail.
pub open spec fn cat_rev(chunks: Seq<Seq<u8>>) -> Seq<u8>
    decreases chunks.len(),
{
    if chunks.len() == 0 {
        Seq::empty()
    } else {
        chunks.last() + cat_rev(chunks.drop_last())
    }
}

/// The bytes of `chunks` read front to back.
pub open spec fn cat_fwd(chunks: Seq<Seq<u8>>) -> Seq<u8>
    decreases chunks.len(),
{
    if chunks.len() == 0 {
        Seq::empty()
    } else {
        chunks[0] + cat_fwd(chunks.skip(1))
    }
}

pub proof fn lemma_cat_rev_push(s: Seq<Seq<u8>>, x: Seq<u8>)
    ensures
        cat_rev(s.push(x)) == x + cat_rev(s),
{
    assert(s.push(x).drop_last() =~= s);
    assert(s.push(x).last() == x);
}

pub proof fn lemma_cat_fwd_drop_last(s: Seq<Seq<u8>>)
    requires
        s.len() > 0,
    ensures
        cat_fwd(s) == cat_fwd(s.drop_last()) + s.last(),
    decreases s.len(),
{
    if s.len() == 1 {
        assert(s.drop_last().len() == 0);
        assert(s.skip(1).len() == 0);
        assert(cat_fwd(s.skip(1)) == Seq::<u8>::empty());
        assert(cat_fwd(s.drop_last()) == Seq::<u8>::empty());
        assert(cat_fwd(s) == s[0] + Seq::<u8>::empty());
        assert(s[0] + Seq::<u8>::empty() =~= s[0]);
        assert(Seq::<u8>::empty() + s.last() =~= s[0]);
    } else {
        lemma_cat_fwd_drop_last(s.skip(1));
        assert(s.skip(1).drop_last() =~= s.drop_last().skip(1));
        assert(s.skip(1).last() == s.last());
        assert(s.drop_last()[0] == s[0]);
        assert(cat_fwd(s) == s[0] + cat_fwd(s.skip(1)));
        assert(s.drop_last().len() > 0);
        assert(cat_fwd(s.drop_last()) == s.drop_last()[0] + cat_fwd(s.drop_last().skip(1)));
        assert((s[0] + (cat_fwd(s.drop_last().skip(1)) + s.last())) =~= ((s[0] + cat_fwd(
        s.drop_last().skip(1))) + s.last()));
    }
}

/// A continuous chunk of data read from a [`ParseBuf`].
///
/// The two variants distinguish data that is only valid until the buffer is
/// advanced from data borrowed from the ultimate source. This library holds
/// every chunk as an owned byte vector, so the distinction is kept only as
/// a tag; either variant is always safe to retain.
#[derive(Clone, Debug)]
pub enum ParseBufChunk {
    /// Data owned by the current [`ParseBuf`] instance.
    Temporary(Vec<u8>),
    /// Data that outlives the [`ParseBuf`] instance.
    External(Vec<u8>),
}

impl View for ParseBufChunk {
    type V = Seq<u8>;

    open spec fn view(&self) -> Seq<u8> {
        match self {
            ParseBufChunk::Temporary(v) => v@,
            ParseBufChunk::External(v) => v@,
        }
    }
}

impl ParseBufChunk {
    /// How many bytes the chunk holds.
    pub fn len(&self) -> (r: usize)
        ensures
            r == self@.len(),
    {
        match self {
            ParseBufChunk::Temporary(v) => v.len(),
            ParseBufChunk::External(v) => v.len(),
        }
    }

    /// Keep only the first `len` bytes.
    pub fn truncate(&mut self, len: usize)
        ensures
            old(self)@.len() <= len ==> final(self)@ == old(self)@,
            len < old(self)@.len() ==> final(self)@ == old(self)@.subrange(0, len as int),
    {
        match self {
            ParseBufChunk::Temporary(v) => v.truncate(len),
            ParseBufChunk::External(v) => v.truncate(len),
        }
    }

    /// The chunk's bytes as an owned vector.
    pub fn into_vec(self) -> (r: Vec<u8>)
        ensures
            r@ == self@,
    {
        match self {
            ParseBufChunk::Temporary(v) => v,
            ParseBufChunk::External(v) => v,
        }
    }
}

/// A data source from which [`Parser`](crate::parse::Parser) can parse data.
///
/// A buffer models the sequence of bytes it has not yet committed past,
/// given by the spec function [`data`](ParseBuf::data). [`chunk`] returns a
/// non-empty prefix of those bytes without consuming anything, and
/// [`advance`] commits past a count of them.
///
/// A buffer whose spec function [`reliable`](ParseBuf::reliable) holds never
/// fails except with an end-of-input error once its bytes are gone; the
/// in-memory implementations of this crate are all of that kind. A buffer
/// backed by fallible input reports `reliable() == false` and may return an
/// external error at any point.
///
/// [`chunk`]: ParseBuf::chunk
/// [`advance`]: ParseBuf::advance
pub trait ParseBuf: Sized {
    /// The bytes remaining in this buffer.
    spec fn data(&self) -> Seq<u8>;

    /// Whether this buffer only ever fails with `Eof`, and only when empty.
    spec fn reliable(&self) -> bool;

    /// How many bytes the next chunk holds. Successive chunks are the
    /// same until [`advance`](ParseBuf::advance) commits past bytes, so
    /// repeated calls return the same data.
    spec fn chunk_size(&self) -> int;

    /// Returns a chunk starting at the current position.
    ///
    /// This method never returns an empty chunk: if no bytes are left it
    /// returns an error of kind [`ErrorKind::Eof`] instead, and it keeps
    /// returning the same data until [`advance`](ParseBuf::advance) is
    /// called to move past it.
    fn chunk(&mut self) -> (r: ParseResult<ParseBufChunk>)
        ensures
            final(self).data() == old(self).data(),
            final(self).reliable() == old(self).reliable(),
            final(self).chunk_size() == old(self).chunk_size(),
            match r {
                Ok(c) => 0 < c@.len() <= old(self).data().len() && c@.len() == old(
                    self,
                ).chunk_size() && c@ == old(self).data().subrange(
                    0,
                    c@.len() as int,
                ),
                Err(e) => (e.spec_kind() == ErrorKind::Eof || e.spec_kind()
                    == ErrorKind::External) && (e.spec_kind() == ErrorKind::Eof ==> old(
                self,
                ).data().len() == 0) && (old(self).reliable() ==> e.spec_kind() == ErrorKind::Eof
                    && old(self).data().len() == 0),
            },
    ;

    /// Advance this buffer past `count` bytes.
    ///
    /// Advancing past the end of the buffer is a programming error, not a
    /// recoverable condition, so callers must show `count` bytes remain.
    fn advance(&mut self, count: usize)
        requires
            count <= old(self).data().len(),
        ensures
            final(self).data() == old(self).data().skip(count as int),
            final(self).reliable() == old(self).reliable(),
    ;

    /// An indicator of how many bytes are left, if supported.
    ///
    /// If `Some` is returned the value is exact.
    fn remaining_hint(&self) -> (r: Option<usize>)
        ensures
            match r {
                Some(n) => n == self.data().len(),
                None => true,
            },
    ;
}

/// An in-memory byte source: the whole input is available as one slice of
/// bytes, every chunk is borrowed from it, and the remaining length is
/// always known exactly.
#[derive(Debug)]
pub struct SliceBuf {
    data: Vec<u8>,
    pos: usize,
}

impl SliceBuf {
    #[verifier::type_invariant]
    spec fn wf(self) -> bool {
        self.pos <= self.data@.len()
    }

    /// Wrap a byte vector as a buffer positioned at its start.
    pub fn new(data: Vec<u8>) -> (r: SliceBuf)
        ensures
            r.data() == data@,
            r.reliable(),
    {
        let r = SliceBuf { data, pos: 0 };
        proof {
            assert(r.data@.skip(0) =~= r.data@);
        }
        r
    }
}

impl ParseBuf for SliceBuf {
    closed spec fn data(&self) -> Seq<u8> {
        self.data@.skip(self.pos as int)
    }

    closed spec fn reliable(&self) -> bool {
        true
    }

    closed spec fn chunk_size(&self) -> int {
        if self.pos <= self.data@.len() {
            self.data@.len() - self.pos
        } else {
            0
        }
    }

    fn chunk(&mut self) -> (r: ParseResult<ParseBufChunk>) {
        proof {
            use_type_invariant(&*self);
        }
        if self.pos == self.data.len() {
            return Err(ParseError::eof());
        }
        let mut v: Vec<u8> = Vec::new();
        let mut i: usize = self.pos;
        while i < self.data.len()
            invariant
                self.pos <= i <= self.data@.len(),
                v@ == self.data@.subrange(self.pos as int, i as int),
            decreases self.data@.len() - i,
        {
            v.push(self.data[i]);
            proof {
                assert(v@ =~= self.data@.subrange(self.pos as int, i + 1 as int));
            }
            i = i + 1;
        }
        proof {
            assert(v@ =~= self.data().subrange(0, v@.len() as int));
        }
        Ok(ParseBufChunk::External(v))
    }

    fn advance(&mut self, count: usize) {
        proof {
            use_type_invariant(&*self);
        }
        let n = self.data.len();
        proof {
            assert(old(self).data().len() == n - self.pos as int);
        }
        self.pos = self.pos + count;
        proof {
            assert(self.data@.skip(self.pos as int) =~= old(self).data().skip(count as int));
        }
    }

    fn remaining_hint(&self) -> (r: Option<usize>) {
        proof {
            use_type_invariant(&*self);
        }
        Some(self.data.len() - self.pos)
    }
}

/// A byte source split over several in-memory chunks, which are handed out
/// one at a time. It reports no length hint, like a streaming source would.
#[derive(Debug)]
pub struct ChunkBuf {
    /// The chunks not yet fully consumed, in reverse order: the chunk that
    /// comes next is the last one. None of them is empty.
    chunks: Vec<Vec<u8>>,
    /// How much of the next chunk is already consumed.
    off: usize,
}

impl ChunkBuf {
    #[verifier::type_invariant]
    spec fn wf(self) -> bool {
        &&& forall|i: int|
            0 <= i < self.chunks@.len() ==> (#[trigger] self.chunks@[i])@.len() > 0
        &&& self.chunks@.len() > 0 ==> self.off < self.chunks@.last()@.len()
        &&& self.chunks@.len() == 0 ==> self.off == 0
    }

    /// Wrap a list of byte chunks as a buffer that yields their bytes in
    /// order, one chunk at a time. Empty chunks contribute nothing and are
    /// dropped.
    pub fn new(pieces: Vec<Vec<u8>>) -> (r: ChunkBuf)
        ensures
            r.data() == cat_fwd(chunks_view(pieces@)),
            r.reliable(),
    {
        let ghost orig = pieces@;
        let mut pieces = pieces;
        let mut chunks: Vec<Vec<u8>> = Vec::new();
        while pieces.len() > 0
            invariant
                cat_fwd(chunks_view(orig)) =~= cat_fwd(chunks_view(pieces@)) + cat_rev(
                    chunks_view(chunks@),
                ),
                forall|i: int| 0 <= i < chunks@.len() ==> (#[trigger] chunks@[i])@.len() > 0,
            decreases pieces.len(),
        {
            let ghost prev = pieces@;
            let p = pieces.pop().unwrap();
            proof {
                lemma_cat_fwd_drop_last(chunks_view(prev));
                assert(chunks_view(prev).drop_last() =~= chunks_view(pieces@));
                assert(chunks_view(prev).last() == p@);
            }
            if p.len() > 0 {
                let ghost cprev = chunks@;
                proof {
                    lemma_cat_rev_push(chunks_view(cprev), p@);
                }
                chunks.push(p);
                proof {
                    assert(chunks_view(cprev.push(p)) =~= chunks_view(cprev).push(p@));
                    assert((cat_fwd(chunks_view(pieces@)) + p@) + cat_rev(chunks_view(cprev)) =~=
                    cat_fwd(chunks_view(pieces@)) + (p@ + cat_rev(chunks_view(cprev))));
                }
            } else {
                proof {
                    assert((cat_fwd(chunks_view(pieces@)) + p@) =~= cat_fwd(chunks_view(pieces@)));
                }
            }
        }
        proof {
            assert(chunks_view(pieces@).len() == 0);
            assert(Seq::<u8>::empty() + cat_rev(chunks_view(chunks@)) =~= cat_rev(
                chunks_view(chunks@),
            ));
        }
        let r = ChunkBuf { chunks, off: 0 };
        proof {
            assert(r.data() =~= cat_rev(chunks_view(r.chunks@)));
        }
        r
    }
}

impl ParseBuf for ChunkBuf {
    closed spec fn data(&self) -> Seq<u8> {
        cat_rev(chunks_view(self.chunks@)).skip(self.off as int)
    }

    closed spec fn reliable(&self) -> bool {
        true
    }

    closed spec fn chunk_size(&self) -> int {
        if self.chunks@.len() == 0 {
            0
        } else if self.off <= self.chunks@.last()@.len() {
            self.chunks@.last()@.len() - self.off
        } else {
            0
        }
    }

    fn chunk(&mut self) -> (r: ParseResult<ParseBufChunk>) {
        proof {
            use_type_invariant(&*self);
        }
        let n = self.chunks.len();
        if n == 0 {
            proof {
                assert(self.data() =~= Seq::<u8>::empty());
            }
            return Err(ParseError::eof());
        }
        let last = &self.chunks[n - 1];
        let mut v: Vec<u8> = Vec::new();
        let mut i: usize = self.off;
        while i < last.len()
            invariant
                self.off <= i <= last@.len(),
                v@ == last@.subrange(self.off as int, i as int),
            decreases last@.len() - i,
        {
            v.push(last[i]);
            proof {
                assert(v@ =~= last@.subrange(self.off as int, i + 1 as int));
            }
            i = i + 1;
        }
        proof {
            let cv = chunks_view(self.chunks@);
            assert(cv.last() == last@);
            assert(cat_rev(cv) == last@ + cat_rev(cv.drop_last()));
            assert(self.data() =~= last@.subrange(self.off as int, last@.len() as int) + cat_rev(
                cv.drop_last(),
            ));
            assert(v@ =~= self.data().subrange(0, v@.len() as int));
        }
        Ok(ParseBufChunk::External(v))
    }

    fn advance(&mut self, count: usize) {
        proof {
            use_type_invariant(&*self);
        }
        let ghost target = self.data().skip(count as int);
        let mut tmp = ChunkBuf { chunks: Vec::new(), off: 0 };
        core::mem::swap(self, &mut tmp);
        let ChunkBuf { chunks: mut chunks, off: mut off } = tmp;
        let mut rem = count;
        proof {
            assert(cat_rev(chunks_view(chunks@)).skip(off as int).skip(rem as int) =~= cat_rev(
                chunks_view(chunks@),
            ).skip(off + rem));
        }
        while rem > 0
            invariant
                forall|i: int| 0 <= i < chunks@.len() ==> (#[trigger] chunks@[i])@.len() > 0,
                chunks@.len() > 0 ==> off < chunks@.last()@.len(),
                chunks@.len() == 0 ==> off == 0 && rem == 0,
                off + rem <= cat_rev(chunks_view(chunks@)).len(),
                cat_rev(chunks_view(chunks@)).skip(off + rem) == target,
            decreases rem,
        {
            let ghost cv = chunks_view(chunks@);
            let nlast = chunks.len() - 1;
            let lastlen = chunks[nlast].len();
            let avail = lastlen - off;
            proof {
                assert(cat_rev(cv) == cv.last() + cat_rev(cv.drop_last()));
            }
            if rem < avail {
                off = off + rem;
                rem = 0;
            } else {
                chunks.pop();
                proof {
                    assert(chunks_view(chunks@) =~= cv.drop_last());
                    assert((cv.last() + cat_rev(cv.drop_last())).skip(off + rem) =~= cat_rev(
                        cv.drop_last(),
                    ).skip(off + rem - lastlen));
                }
                rem = rem - avail;
                off = 0;
            }
        }
        *self = ChunkBuf { chunks, off };
        proof {
            assert(self.data() =~= target);
        }
    }

    fn remaining_hint(&self) -> (r: Option<usize>) {
        None
    }
}

/// A bounded sub-view of exactly `N` bytes carved out of a parent buffer.
///
/// Creating a cursor pulls chunks from the parent greedily until the wanted
/// byte count has been collected, and advances the parent past exactly
/// those bytes; the cursor then serves them out through the same buffer
/// interface, and always knows exactly how many remain.
#[derive(Debug)]
pub struct ParseBufCursor {
    buf: ChunkBuf,
    len: usize,
}

impl ParseBufCursor {
    #[verifier::type_invariant]
    spec fn wf(self) -> bool {
        self.len == self.buf.data().len()
    }

    /// Carve the next `len` bytes out of `buf` into a cursor of its own.
    ///
    /// On success the cursor holds exactly the first `len` bytes that were
    /// remaining in `buf`, and `buf` has been advanced past exactly those
    /// bytes. If `buf` runs out before `len` bytes are collected, the
    /// source's error is returned; a reliable source fails exactly when it
    /// held fewer than `len` bytes.
    pub fn new<B: ParseBuf>(buf: &mut B, len: usize) -> (r: ParseResult<ParseBufCursor>)
        ensures
            final(buf).reliable() == old(buf).reliable(),
            final(buf).data().len() <= old(buf).data().len(),
            match r {
                Ok(cur) => {
                    &&& old(buf).data().len() >= len
                    &&& cur.data() == old(buf).data().take(len as int)
                    &&& final(buf).data() == old(buf).data().skip(len as int)
                    &&& cur.reliable()
                },
                Err(e) => {
                    &&& (e.spec_kind() == ErrorKind::Eof || e.spec_kind() == ErrorKind::External)
                    &&& (e.spec_kind() == ErrorKind::Eof ==> old(buf).data().len() < len
                        && final(buf).data().len() == 0)
                    &&& (old(buf).reliable() ==> e.spec_kind() == ErrorKind::Eof)
                },
            },
    {
        let mut pieces: Vec<Vec<u8>> = Vec::new();
        let mut got: usize = 0;
        while got < len
            invariant
                got <= len,
                got <= old(buf).data().len(),
                buf.data() == old(buf).data().skip(got as int),
                buf.reliable() == old(buf).reliable(),
                cat_fwd(chunks_view(pieces@)) == old(buf).data().take(got as int),
            decreases len - got,
        {
            let c = match buf.chunk() {
                Ok(c) => c,
                Err(e) => {
                    proof {
                        if e.spec_kind() == ErrorKind::Eof {
                            assert(old(buf).data().skip(got as int).len() == 0);
                        }
                    }
                    return Err(e);
                },
            };
            let mut cv = c.into_vec();
            let clen = cv.len();
            let need = len - got;
            let take = if clen < need {
                clen
            } else {
                need
            };
            cv.truncate(take);
            buf.advance(take);
            let ghost pprev = pieces@;
            pieces.push(cv);
            proof {
                lemma_cat_fwd_drop_last(chunks_view(pieces@));
                assert(chunks_view(pieces@).drop_last() =~= chunks_view(pprev));
                assert(chunks_view(pieces@).last() == cv@);
                let base = old(buf).data();
                assert(cv@ =~= base.subrange(got as int, got + take));
                assert(base.take(got as int) + base.subrange(got as int, got + take) =~= base.take(
                    got + take,
                ));
                assert(base.skip(got as int).skip(take as int) =~= base.skip(got + take));
            }
            got = got + take;
        }
        let cbuf = ChunkBuf::new(pieces);
        proof {
            assert(old(buf).data().take(len as int).len() == len);
        }
        Ok(ParseBufCursor { buf: cbuf, len })
    }
}

impl ParseBuf for ParseBufCursor {
    closed spec fn data(&self) -> Seq<u8> {
        self.buf.data()
    }

    closed spec fn reliable(&self) -> bool {
        true
    }

    closed spec fn chunk_size(&self) -> int {
        self.buf.chunk_size()
    }

    fn chunk(&mut self) -> (r: ParseResult<ParseBufChunk>) {
        proof {
            use_type_invariant(&*self);
        }
        let mut tmp = ParseBufCursor { buf: ChunkBuf { chunks: Vec::new(), off: 0 }, len: 0 };
        core::mem::swap(self, &mut tmp);
        let ParseBufCursor { buf: mut b, len: l } = tmp;
        let r = b.chunk();
        *self = ParseBufCursor { buf: b, len: l };
        r
    }

    fn advance(&mut self, count: usize) {
        proof {
            use_type_invariant(&*self);
        }
        let mut tmp = ParseBufCursor { buf: ChunkBuf { chunks: Vec::new(), off: 0 }, len: 0 };
        core::mem::swap(self, &mut tmp);
        let ParseBufCursor { buf: mut b, len: l } = tmp;
        b.advance(count);
        *self = ParseBufCursor { buf: b, len: l - count };
    }

    fn remaining_hint(&self) -> (r: Option<usize>) {
        proof {
            use_type_invariant(&*self);
        }
        Some(self.len)
    }
}

} // verus!
