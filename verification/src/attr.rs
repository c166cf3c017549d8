use vstd::prelude::*;

verus! {

/// The freshness window, in seconds, attached to every attribute reply.
/// The dispatcher may treat returned attributes as valid for this long
/// before re-querying.
pub const ATTR_TTL_SECS: u64 = 1;

/// The fixed block size reported for every entry.
pub const BLOCK_SIZE: u32 = 512;

/// The kind of a filesystem entry. The flat model knows only these two:
/// anything the host does not report as a directory (symlinks, devices,
/// sockets) is treated as a regular file.
#[derive(Clone, Copy, Debug, PartialEq, Eq, Structural)]
pub enum FileKind {
    RegularFile,
    Directory,
}

/// Host metadata for one entry, as plain values: exactly the fields of a
/// host metadata record that the core reads. The surrounding process fills
/// this in from a fresh metadata query and hands it to the core.
#[derive(Clone, Copy, Debug, PartialEq, Eq, Structural)]
pub struct HostMetadata {
    /// The host filesystem's inode number for the entry.
    pub ino: u64,
    /// Size of the entry in bytes.
    pub size: u64,
    /// Number of blocks allocated to the entry.
    pub blocks: u64,
    /// The host mode bits (file type and permissions).
    pub mode: u32,
    /// Owning user id.
    pub uid: u32,
    /// Owning group id.
    pub gid: u32,
    /// Whether the host reports the entry as a directory.
    pub is_dir: bool,
}

/// The attribute record the protocol requires, derived from fresh host
/// metadata on every request and never cached by the core.
///
/// All timestamp fields of the protocol's attribute record are fixed to the
/// epoch, so they do not appear here; the boundary fills them in as such.
/// The hard-link count is always reported as 1, a documented divergence
/// from the host.
#[derive(Clone, Copy, Debug, PartialEq, Eq, Structural)]
pub struct Attributes {
    pub ino: u64,
    pub size: u64,
    pub blocks: u64,
    pub kind: FileKind,
    /// The low sixteen host mode bits.
    pub perm: u16,
    /// Always 1, regardless of the host's real hard-link count.
    pub nlink: u32,
    pub uid: u32,
    pub gid: u32,
    /// Always [`BLOCK_SIZE`].
    pub blksize: u32,
}

/// The kind an entry is presented as: a directory where the host says so,
/// a regular file in every other case.
pub open spec fn kind_from_flag(is_dir: bool) -> FileKind {
    if is_dir {
        FileKind::Directory
    } else {
        FileKind::RegularFile
    }
}

/// The kind of an entry, read off its host metadata.
pub open spec fn kind_of(md: HostMetadata) -> FileKind {
    kind_from_flag(md.is_dir)
}

/// What the attribute translator produces: inode, size, block count, owner
/// and group copied verbatim; permissions from the low mode bits; kind from
/// the directory flag; link count fixed to 1; block size fixed to 512.
pub open spec fn translate_spec(md: HostMetadata) -> Attributes {
    Attributes {
        ino: md.ino,
        size: md.size,
        blocks: md.blocks,
        kind: kind_of(md),
        perm: (md.mode % 0x10000) as u16,
        nlink: 1,
        uid: md.uid,
        gid: md.gid,
        blksize: BLOCK_SIZE,
    }
}

impl HostMetadata {
    /// The kind this entry is presented as.
    pub fn file_type(&self) -> (kind: FileKind)
        ensures
            kind == kind_of(*self),
    {
        if self.is_dir {
            FileKind::Directory
        } else {
            FileKind::RegularFile
        }
    }

    /// The attribute translator: a pure function from host metadata to the
    /// protocol's attribute record.
    pub fn file_attributes(&self) -> (attr: Attributes)
        ensures
            attr == translate_spec(*self),
    {
        Attributes {
            ino: self.ino,
            size: self.size,
            blocks: self.blocks,
            kind: self.file_type(),
            perm: (self.mode % 0x10000) as u16,
            nlink: 1,
            uid: self.uid,
            gid: self.gid,
            blksize: BLOCK_SIZE,
        }
    }
}

} // verus!
