//! NAMESPACES records.

use vstd::prelude::*;
use crate::endian::Endian;
use crate::error::ErrorKind;
use crate::parse::fail_post;
use crate::parse::lemma_step;
use crate::parse::u32_at;
use crate::parse::u64_at;
use crate::parse::Parse;
use crate::parse::ParseBuf;
use crate::parse::ParseConfig;
use crate::parse::ParseResult;
use crate::parse::Parser;

verus! {

/// Index of the network namespace entry.
pub const NET_NS_INDEX: usize = 0;

/// Index of the UTS namespace entry.
pub const UTS_NS_INDEX: usize = 1;

/// Index of the IPC namespace entry.
pub const IPC_NS_INDEX: usize = 2;

/// Index of the PID namespace entry.
pub const PID_NS_INDEX: usize = 3;

/// Index of the user namespace entry.
pub const USER_NS_INDEX: usize = 4;

/// Index of the mount namespace entry.
pub const MNT_NS_INDEX: usize = 5;

/// Index of the cgroup namespace entry.
pub const CGROUP_NS_INDEX: usize = 6;

/// An individual namespace entry.
#[derive(Copy, Clone, Debug, PartialEq, Eq, Hash, Structural)]
pub struct NamespaceEntry {
    /// The device of the namespace file.
    pub dev: u64,
    /// The inode of the namespace file.
    pub inode: u64,
}

/// A namespace entry is two 64-bit words.
pub open spec fn namespace_entry_post<E: Endian>(
    cfg: ParseConfig<E>,
    pre: Seq<u8>,
    post: Seq<u8>,
    reliable: bool,
    r: ParseResult<NamespaceEntry>,
) -> bool {
    match r {
        Ok(x) => {
            &&& pre.len() >= 16
            &&& post == pre.skip(16)
            &&& u64_at(cfg.spec_endian(), pre, 0, x.dev)
            &&& u64_at(cfg.spec_endian(), pre, 8, x.inode)
        },
        Err(e) => fail_post(reliable, e, pre.len() as int, post.len() as int, 16),
    }
}

impl<E: Endian> Parse<E> for NamespaceEntry {
    open spec fn parse_post(
        cfg: ParseConfig<E>,
        pre: Seq<u8>,
        post: Seq<u8>,
        reliable: bool,
        r: ParseResult<NamespaceEntry>,
    ) -> bool {
        namespace_entry_post(cfg, pre, post, reliable, r)
    }

    fn parse<B: ParseBuf>(p: &mut Parser<B, E>) -> (r: ParseResult<NamespaceEntry>) {
        let ghost pre = p.bytes();
        let dev = p.parse_u64()?;
        let inode = p.parse_u64()?;
        proof {
            lemma_step(pre, 0, 8);
            lemma_step(pre, 8, 8);
        }
        Ok(NamespaceEntry { dev, inode })
    }
}

/// NAMESPACES records include namespace information of a process.
///
/// Specific namespaces have fixed indices within the entry list; the
/// accessors return the entry at the corresponding index, if present.
#[derive(Clone, Debug)]
pub struct Namespaces {
    /// Process ID.
    pub pid: u32,
    /// Thread ID.
    pub tid: u32,
    /// Entries for the various namespaces.
    pub namespaces: Vec<NamespaceEntry>,
}

impl Namespaces {
    /// The entry at `index`, if the record has that many entries.
    pub fn get(&self, index: usize) -> (r: Option<&NamespaceEntry>)
        ensures
            match r {
                Some(v) => index < self.namespaces@.len() && *v == self.namespaces@[index as int],
                None => index >= self.namespaces@.len(),
            },
    {
        if index < self.namespaces.len() {
            Some(&self.namespaces[index])
        } else {
            None
        }
    }

    /// Network namespace.
    pub fn network(&self) -> (r: Option<&NamespaceEntry>) {
        self.get(NET_NS_INDEX)
    }

    /// UTS namespace.
    pub fn uts(&self) -> (r: Option<&NamespaceEntry>) {
        self.get(USER_NS_INDEX)
    }

    /// IPC namespace.
    pub fn ipc(&self) -> (r: Option<&NamespaceEntry>) {
        self.get(IPC_NS_INDEX)
    }

    /// PID namespace.
    pub fn pid_ns(&self) -> (r: Option<&NamespaceEntry>) {
        self.get(PID_NS_INDEX)
    }

    /// User namespace.
    pub fn user(&self) -> (r: Option<&NamespaceEntry>) {
        self.get(USER_NS_INDEX)
    }

    /// Cgroup namespace.
    pub fn cgroup(&self) -> (r: Option<&NamespaceEntry>) {
        self.get(CGROUP_NS_INDEX)
    }
}

/// A NAMESPACES body is two 32-bit words, a 64-bit entry count, and that
/// many 16-byte entries.
pub open spec fn namespaces_post<E: Endian>(
    cfg: ParseConfig<E>,
    pre: Seq<u8>,
    post: Seq<u8>,
    reliable: bool,
    r: ParseResult<Namespaces>,
) -> bool {
    match r {
        Ok(x) => {
            let n = x.namespaces@.len() as int;
            &&& pre.len() >= 16 + 16 * n
            &&& post == pre.skip(16 + 16 * n)
            &&& u32_at(cfg.spec_endian(), pre, 0, x.pid)
            &&& u32_at(cfg.spec_endian(), pre, 4, x.tid)
            &&& exists|c: u64|
                #[trigger] u64_at(cfg.spec_endian(), pre, 8, c) && x.namespaces@.len() == c as usize
            &&& forall|i: int|
                0 <= i < n ==> u64_at(
                    cfg.spec_endian(),
                    pre,
                    16 + 16 * i,
                    (#[trigger] x.namespaces@[i]).dev,
                ) && u64_at(cfg.spec_endian(), pre, 16 + 16 * i + 8, x.namespaces@[i].inode)
        },
        Err(e) => {
            &&& e.spec_kind() == ErrorKind::Eof || e.spec_kind() == ErrorKind::External
            &&& (e.spec_kind() == ErrorKind::Eof ==> post.len() == 0)
            &&& (reliable ==> e.spec_kind() == ErrorKind::Eof)
        },
    }
}

impl<E: Endian> Parse<E> for Namespaces {
    open spec fn parse_post(
        cfg: ParseConfig<E>,
        pre: Seq<u8>,
        post: Seq<u8>,
        reliable: bool,
        r: ParseResult<Namespaces>,
    ) -> bool {
        namespaces_post(cfg, pre, post, reliable, r)
    }

    fn parse<B: ParseBuf>(p: &mut Parser<B, E>) -> (r: ParseResult<Namespaces>) {
        let ghost pre = p.bytes();
        let pid = p.parse_u32()?;
        let tid = p.parse_u32()?;
        let count = p.parse_u64()?;
        proof {
            lemma_step(pre, 0, 4);
            lemma_step(pre, 4, 4);
            lemma_step(pre, 8, 8);
        }
        let len = count as usize;
        let mut entries: Vec<NamespaceEntry> = Vec::new();
        let mut i: usize = 0;
        while i < len
            invariant
                i <= len,
                entries@.len() == i,
                pre == old(p).bytes(),
                16 + 16 * i as int <= pre.len(),
                p.bytes() == pre.skip(16 + 16 * i as int),
                p.cfg() == old(p).cfg(),
                p.reliable() == old(p).reliable(),
                forall|j: int|
                    0 <= j < i ==> u64_at(
                        old(p).cfg().spec_endian(),
                        pre,
                        16 + 16 * j,
                        (#[trigger] entries@[j]).dev,
                    ) && u64_at(old(p).cfg().spec_endian(), pre, 16 + 16 * j + 8, entries@[j].inode),
            decreases len - i,
        {
            let ghost cur = p.bytes();
            let entry = match NamespaceEntry::parse(p) {
                Ok(v) => v,
                Err(e) => {
                    return Err(e);
                },
            };
            proof {
                lemma_step(pre, 16 + 16 * i as int, 8);
                lemma_step(pre, 16 + 16 * i as int + 8, 8);
                assert(cur.subrange(0, 8) =~= pre.skip(16 + 16 * i as int).take(8));
                assert(cur.subrange(8, 16) =~= pre.subrange(
                    16 + 16 * i as int + 8,
                    16 + 16 * i as int + 16,
                ));
                assert(cur.skip(16) =~= pre.skip(16 + 16 * (i + 1) as int));
            }
            entries.push(entry);
            i = i + 1;
        }
        proof {
            assert(u64_at(old(p).cfg().spec_endian(), pre, 8, count) && entries@.len()
                == count as usize);
        }
        Ok(Namespaces { pid, tid, namespaces: entries })
    }
}

} // verus!
