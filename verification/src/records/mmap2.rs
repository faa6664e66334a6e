//! MMAP2 records.

use vstd::prelude::*;
use crate::endian::Endian;
use crate::error::ErrorKind;
use crate::error::ParseError;
use crate::parse::lemma_step;
use crate::parse::trim_nuls;
use crate::parse::u32_at;
use crate::parse::u64_at;
use crate::parse::Parse;
use crate::parse::ParseBuf;
use crate::parse::ParseConfig;
use crate::parse::ParseResult;
use crate::parse::Parser;
use crate::records::mmap::Mmap;
use crate::records::PERF_RECORD_MISC_MMAP_BUILD_ID;

verus! {

/// The variable middle section of an MMAP2 record: either device and
/// inode info, or a build id, depending on a misc bit.
#[derive(Clone, Debug)]
pub enum MmapDetail {
    /// Device and inode information about the mapped file.
    Default {
        /// The major ID of the underlying device.
        maj: u32,
        /// The minor ID of the underlying device.
        min: u32,
        /// The inode number.
        ino: u64,
        /// The inode generation.
        ino_generation: u64,
    },
    /// The build id of the mapped binary.
    BuildId {
        /// The build id bytes.
        build_id: Vec<u8>,
    },
}

/// MMAP2 events record memory mappings with extra info compared to MMAP
/// records: either the device and inode of the mapped file, or, if the
/// record's misc flags say so, the build id of the mapped binary.
#[derive(Clone, Debug)]
pub struct Mmap2 {
    /// The process ID.
    pub pid: u32,
    /// The thread ID.
    pub tid: u32,
    /// The address the mapping was placed at in the process address space.
    pub addr: u64,
    /// The length, in bytes, of the allocated memory.
    pub len: u64,
    /// The page offset of the memory mapping.
    pub pgoff: u64,
    /// Protection information for the mapping.
    pub prot: u32,
    /// Flags used when creating the mapping.
    pub flags: u32,
    /// The path to the file that is being mapped, if there is one, with
    /// padding NUL bytes stripped.
    pub filename: Vec<u8>,
    /// Either device and inode info or a build id, depending on the
    /// record's misc flags.
    pub detail: MmapDetail,
}

impl Mmap2 {
    /// The major ID of the underlying device, unless the record carries a
    /// build id instead.
    pub closed spec fn spec_maj(&self) -> Option<u32> {
        match self.detail {
            MmapDetail::Default { maj, .. } => Some(maj),
            MmapDetail::BuildId { .. } => None,
        }
    }

    /// The minor ID of the underlying device, unless the record carries a
    /// build id instead.
    pub closed spec fn spec_min(&self) -> Option<u32> {
        match self.detail {
            MmapDetail::Default { min, .. } => Some(min),
            MmapDetail::BuildId { .. } => None,
        }
    }

    /// The inode number, unless the record carries a build id instead.
    pub closed spec fn spec_ino(&self) -> Option<u64> {
        match self.detail {
            MmapDetail::Default { ino, .. } => Some(ino),
            MmapDetail::BuildId { .. } => None,
        }
    }

    /// The inode generation, unless the record carries a build id instead.
    pub closed spec fn spec_ino_generation(&self) -> Option<u64> {
        match self.detail {
            MmapDetail::Default { ino_generation, .. } => Some(ino_generation),
            MmapDetail::BuildId { .. } => None,
        }
    }

    /// The build id bytes, if the record carries them.
    pub closed spec fn spec_build_id(&self) -> Option<Seq<u8>> {
        match self.detail {
            MmapDetail::Default { .. } => None,
            MmapDetail::BuildId { build_id } => Some(build_id@),
        }
    }

    /// The major ID of the underlying device of the fd being mapped.
    pub fn maj(&self) -> (r: Option<u32>)
        ensures
            r == self.spec_maj(),
    {
        match &self.detail {
            MmapDetail::Default { maj, .. } => Some(*maj),
            MmapDetail::BuildId { .. } => None,
        }
    }

    /// The minor ID of the underlying device of the fd being mapped.
    pub fn min(&self) -> (r: Option<u32>)
        ensures
            r == self.spec_min(),
    {
        match &self.detail {
            MmapDetail::Default { min, .. } => Some(*min),
            MmapDetail::BuildId { .. } => None,
        }
    }

    /// The inode number.
    pub fn ino(&self) -> (r: Option<u64>)
        ensures
            r == self.spec_ino(),
    {
        match &self.detail {
            MmapDetail::Default { ino, .. } => Some(*ino),
            MmapDetail::BuildId { .. } => None,
        }
    }

    /// The inode generation.
    pub fn ino_generation(&self) -> (r: Option<u64>)
        ensures
            r == self.spec_ino_generation(),
    {
        match &self.detail {
            MmapDetail::Default { ino_generation, .. } => Some(*ino_generation),
            MmapDetail::BuildId { .. } => None,
        }
    }

    /// The build id of the binary being mapped, generated only if the
    /// counter was configured to collect build ids.
    pub fn build_id(&self) -> (r: Option<&Vec<u8>>)
        ensures
            match r {
                Some(v) => self.spec_build_id() == Some(v@),
                None => self.spec_build_id() is None,
            },
    {
        match &self.detail {
            MmapDetail::Default { .. } => None,
            MmapDetail::BuildId { build_id } => Some(build_id),
        }
    }

    /// Convert this record to an [`Mmap`] record, dropping the fields
    /// that only MMAP2 carries.
    pub fn into_mmap(self) -> (r: Mmap)
        ensures
            r.pid == self.pid,
            r.tid == self.tid,
            r.addr == self.addr,
            r.len == self.len,
            r.pgoff == self.pgoff,
            r.filename@ == self.filename@,
    {
        Mmap {
            pid: self.pid,
            tid: self.tid,
            addr: self.addr,
            len: self.len,
            pgoff: self.pgoff,
            filename: self.filename,
        }
    }

    /// Convert this record to an [`Mmap`] record without consuming it.
    pub fn to_mmap(&self) -> (r: Mmap)
        ensures
            r.pid == self.pid,
            r.tid == self.tid,
            r.addr == self.addr,
            r.len == self.len,
            r.pgoff == self.pgoff,
            r.filename@ == self.filename@,
    {
        let filename = self.filename.clone();
        proof {
            assert(filename@ =~= self.filename@);
        }
        Mmap {
            pid: self.pid,
            tid: self.tid,
            addr: self.addr,
            len: self.len,
            pgoff: self.pgoff,
            filename,
        }
    }

    /// Convert all the borrowed data in this `Mmap2` into owned data.
    pub fn into_owned(self) -> (r: Mmap2)
        ensures
            r == self,
    {
        self
    }
}

/// An MMAP2 body is two 32-bit words, three 64-bit words, 24 bytes of
/// device/inode info or build id, two more 32-bit words, and the
/// NUL-padded filename. Which shape the middle section takes is chosen by
/// a bit of the record's misc flags; a build id longer than its 20-byte
/// field is an invalid record.
pub open spec fn mmap2_post<E: Endian>(
    cfg: ParseConfig<E>,
    pre: Seq<u8>,
    post: Seq<u8>,
    reliable: bool,
    r: ParseResult<Mmap2>,
) -> bool {
    let e = cfg.spec_endian();
    let build_id_mode = cfg.spec_misc() & PERF_RECORD_MISC_MMAP_BUILD_ID != 0;
    match r {
        Ok(x) => {
            &&& pre.len() >= 64
            &&& post.len() == 0
            &&& u32_at(e, pre, 0, x.pid)
            &&& u32_at(e, pre, 4, x.tid)
            &&& u64_at(e, pre, 8, x.addr)
            &&& u64_at(e, pre, 16, x.len)
            &&& u64_at(e, pre, 24, x.pgoff)
            &&& if build_id_mode {
                &&& pre[32] <= 20
                &&& x.spec_build_id() == Some(pre.subrange(36, 36 + pre[32]))
                &&& x.spec_maj() is None
                &&& x.spec_min() is None
                &&& x.spec_ino() is None
                &&& x.spec_ino_generation() is None
            } else {
                &&& x.spec_build_id() is None
                &&& match (x.spec_maj(), x.spec_min(), x.spec_ino(), x.spec_ino_generation()) {
                    (Some(maj), Some(min), Some(ino), Some(ino_generation)) => {
                        &&& u32_at(e, pre, 32, maj)
                        &&& u32_at(e, pre, 36, min)
                        &&& u64_at(e, pre, 40, ino)
                        &&& u64_at(e, pre, 48, ino_generation)
                    },
                    _ => false,
                }
            }
            &&& u32_at(e, pre, 56, x.prot)
            &&& u32_at(e, pre, 60, x.flags)
            &&& x.filename@ == trim_nuls(pre.skip(64))
        },
        Err(err) => {
            &&& (err.spec_kind() == ErrorKind::Eof || err.spec_kind() == ErrorKind::External
                || err.spec_kind() == ErrorKind::InvalidRecord)
            &&& (err.spec_kind() == ErrorKind::Eof ==> pre.len() < 64 && post.len() == 0)
            &&& (err.spec_kind() == ErrorKind::InvalidRecord ==> build_id_mode && pre.len() >= 33
                && pre[32] > 20)
            &&& (reliable ==> err.spec_kind() == ErrorKind::Eof || err.spec_kind()
                == ErrorKind::InvalidRecord)
        },
    }
}

impl<E: Endian> Parse<E> for Mmap2 {
    open spec fn parse_post(
        cfg: ParseConfig<E>,
        pre: Seq<u8>,
        post: Seq<u8>,
        reliable: bool,
        r: ParseResult<Mmap2>,
    ) -> bool {
        mmap2_post(cfg, pre, post, reliable, r)
    }

    fn parse<B: ParseBuf>(p: &mut Parser<B, E>) -> (r: ParseResult<Mmap2>) {
        let ghost pre = p.bytes();
        let pid = p.parse_u32()?;
        let tid = p.parse_u32()?;
        let addr = p.parse_u64()?;
        let len = p.parse_u64()?;
        let pgoff = p.parse_u64()?;
        proof {
            lemma_step(pre, 0, 4);
            lemma_step(pre, 4, 4);
            lemma_step(pre, 8, 8);
            lemma_step(pre, 16, 8);
            lemma_step(pre, 24, 8);
        }
        let detail = if p.config().misc() & PERF_RECORD_MISC_MMAP_BUILD_ID != 0 {
            let bid_len = p.parse_u8()?;
            let _ = p.parse_u8()?;
            let _ = p.parse_u16()?;
            let ghost at_bid = p.bytes();
            let mut build_id = p.parse_bytes(20)?;
            if bid_len > 20 {
                return Err(ParseError::new(ErrorKind::InvalidRecord));
            }
            build_id.truncate(bid_len as usize);
            proof {
                lemma_step(pre, 32, 1);
                lemma_step(pre, 33, 1);
                lemma_step(pre, 34, 2);
                lemma_step(pre, 36, 20);
                assert(at_bid.take(20).subrange(0, bid_len as int) =~= pre.subrange(
                    36,
                    36 + pre[32],
                ));
            }
            MmapDetail::BuildId { build_id }
        } else {
            let maj = p.parse_u32()?;
            let min = p.parse_u32()?;
            let ino = p.parse_u64()?;
            let ino_generation = p.parse_u64()?;
            proof {
                lemma_step(pre, 32, 4);
                lemma_step(pre, 36, 4);
                lemma_step(pre, 40, 8);
                lemma_step(pre, 48, 8);
            }
            MmapDetail::Default { maj, min, ino, ino_generation }
        };
        let prot = p.parse_u32()?;
        let flags = p.parse_u32()?;
        let filename = p.parse_rest_trim_nul()?;
        proof {
            lemma_step(pre, 56, 4);
            lemma_step(pre, 60, 4);
        }
        Ok(Mmap2 { pid, tid, addr, len, pgoff, prot, flags, filename, detail })
    }
}

} // verus!
