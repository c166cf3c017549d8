use vstd::map::*;
use vstd::prelude::*;
use vstd::string::StringExecFns;

use crate::attr::{translate_spec, Attributes, HostMetadata};
use crate::error::FsError;
use crate::handle::HandleTable;
use crate::inode::{register_spec, InodeTable, ROOT_INODE};

verus! {

/// The host path an entry name resolves to: the source directory, a
/// separator, and the relative name.
pub open spec fn local_path_spec(dir: Seq<char>, name: Seq<char>) -> Seq<char> {
    dir + "/"@ + name
}

/// What a lookup returns, as a function of the parent inode and the host
/// metadata observation: any parent other than the virtual root is refused
/// as `NotSupported` (the filesystem exposes exactly one directory level);
/// under the root, a successful metadata query yields the translated
/// attributes and a host error yields `NotFound`.
pub open spec fn lookup_outcome(parent: u64, md: Option<HostMetadata>) -> Result<
    Attributes,
    FsError,
> {
    if parent != ROOT_INODE {
        Err(FsError::NotSupported)
    } else {
        match md {
            Some(m) => Ok(translate_spec(m)),
            None => Err(FsError::NotFound),
        }
    }
}

/// What a lookup does to the inode table: only a successful lookup under
/// the root registers a mapping, from the host's inode number to the name
/// that was looked up.
pub open spec fn lookup_table(
    t: Map<u64, Seq<char>>,
    parent: u64,
    name: Seq<char>,
    md: Option<HostMetadata>,
) -> Map<u64, Seq<char>> {
    match md {
        Some(m) => if parent == ROOT_INODE {
            register_spec(t, m.ino, name)
        } else {
            t
        },
        None => t,
    }
}

/// What a read returns, as a function of the two tables: an unknown inode
/// is `NotFound`, a known inode with an unknown handle is `InvalidHandle`,
/// and otherwise the read goes against exactly the resource the handle was
/// opened with.
pub open spec fn read_outcome<R>(
    inodes: Map<u64, Seq<char>>,
    handles: Map<u64, R>,
    ino: u64,
    fh: u64,
) -> Result<R, FsError> {
    if !inodes.contains_key(ino) {
        Err(FsError::NotFound)
    } else if !handles.contains_key(fh) {
        Err(FsError::InvalidHandle)
    } else {
        Ok(handles[fh])
    }
}

/// The read-only flat filesystem core: the source directory it mirrors,
/// the inode table, and the table of open read sessions.
///
/// The core is generic in the resource an open session owns; the
/// surrounding process instantiates it with its open file type and
/// performs all host I/O, handing the observed plain values to the methods
/// below.
pub struct SimpleFS<R> {
    source_dir: String,
    inodes: InodeTable,
    file_handles: HandleTable<R>,
}

impl<R> SimpleFS<R> {
    /// The source directory this mount mirrors.
    pub closed spec fn spec_source_dir(&self) -> Seq<char> {
        self.source_dir@
    }

    /// The inode table's model.
    pub closed spec fn inode_map(&self) -> Map<u64, Seq<char>> {
        self.inodes@
    }

    /// The handle table's model.
    pub closed spec fn handle_map(&self) -> Map<u64, R> {
        self.file_handles@
    }

    /// The next handle identifier the counter will hand out.
    pub closed spec fn next_handle_id(&self) -> u64 {
        self.file_handles.spec_next_id()
    }

    /// Both tables obey their disciplines: the root mapping is in place,
    /// and every live handle lies strictly between the reserved root
    /// identifier and the counter.
    pub open spec fn wf(&self) -> bool {
        &&& self.inodes_wf()
        &&& self.handles_wf()
    }

    /// The inode table's root invariant.
    pub closed spec fn inodes_wf(&self) -> bool {
        self.inodes.wf()
    }

    /// The handle table's counter discipline.
    pub closed spec fn handles_wf(&self) -> bool {
        self.file_handles.wf()
    }

    /// A fresh core over the given source directory: the inode table holds
    /// only the reserved root, no handle is open, and the handle counter
    /// starts just above the root identifier.
    pub fn new(source_dir: String) -> (fs: Self)
        ensures
            fs.spec_source_dir() == source_dir@,
            fs.inode_map() == Map::<u64, Seq<char>>::empty().insert(ROOT_INODE, "."@),
            fs.handle_map() == Map::<u64, R>::empty(),
            fs.next_handle_id() == ROOT_INODE + 1,
            fs.wf(),
    {
        SimpleFS { source_dir, inodes: InodeTable::new(), file_handles: HandleTable::new() }
    }

    /// Draws the next handle identifier: monotonically increasing, never
    /// reused, and always above the reserved root identifier.
    pub fn next_fh_id(&mut self) -> (id: u64)
        requires
            old(self).wf(),
            old(self).next_handle_id() < u64::MAX,
        ensures
            final(self).wf(),
            id == old(self).next_handle_id(),
            id > ROOT_INODE,
            !old(self).handle_map().contains_key(id),
            final(self).next_handle_id() == old(self).next_handle_id() + 1,
            final(self).handle_map() == old(self).handle_map(),
            final(self).inode_map() == old(self).inode_map(),
            final(self).spec_source_dir() == old(self).spec_source_dir(),
    {
        self.file_handles.alloc_id()
    }

    /// The handle counter's current value, for callers that must ensure
    /// headroom before an open.
    pub fn fh_counter(&self) -> (id: u64)
        ensures
            id == self.next_handle_id(),
    {
        self.file_handles.counter_value()
    }

    /// The source directory path, as it was handed to the core.
    pub fn source_dir(&self) -> (dir: &String)
        ensures
            dir@ == self.spec_source_dir(),
    {
        &self.source_dir
    }

    /// Joins the source directory with a relative name to produce the
    /// concrete host path.
    pub fn local_path(&self, name: &str) -> (p: String)
        ensures
            p@ == local_path_spec(self.spec_source_dir(), name@),
    {
        let mut p = self.source_dir.clone();
        p.append("/");
        p.append(name);
        p
    }

    /// The first half of a lookup: decides whether the parent is supported
    /// and, if so, which host path must be queried for metadata. Every
    /// parent other than the virtual root fails `NotSupported`.
    pub fn lookup_path(&self, parent: u64, name: &str) -> (r: Result<String, FsError>)
        ensures
            match r {
                Ok(p) => parent == ROOT_INODE && p@ == local_path_spec(
                    self.spec_source_dir(),
                    name@,
                ),
                Err(e) => parent != ROOT_INODE && e == FsError::NotSupported,
            },
    {
        if parent != ROOT_INODE {
            Err(FsError::NotSupported)
        } else {
            Ok(self.local_path(name))
        }
    }

    /// The second half of a lookup: takes the host metadata observation
    /// for the queried path (`None` for a host error) and produces the
    /// reply, registering the inode mapping on success. Registration is
    /// committed before the reply is returned and is idempotent for an
    /// unchanged file, since the inode number is host-stable.
    pub fn resolve_or_register(&mut self, parent: u64, name: &str, md: Option<HostMetadata>) -> (r:
        Result<Attributes, FsError>)
        requires
            old(self).wf(),
        ensures
            final(self).wf(),
            r == lookup_outcome(parent, md),
            final(self).inode_map() == lookup_table(old(self).inode_map(), parent, name@, md),
            final(self).handle_map() == old(self).handle_map(),
            final(self).next_handle_id() == old(self).next_handle_id(),
            final(self).spec_source_dir() == old(self).spec_source_dir(),
    {
        if parent != ROOT_INODE {
            return Err(FsError::NotSupported);
        }
        match md {
            Some(m) => {
                let attr = m.file_attributes();
                self.inodes.register(attr.ino, name.to_owned());
                Ok(attr)
            },
            None => Err(FsError::NotFound),
        }
    }

    /// Resolves a previously seen inode back to the host path it was
    /// registered under; an unknown inode fails `NotFound`. Pure: no table
    /// is mutated.
    pub fn path_for(&self, ino: u64) -> (r: Result<String, FsError>)
        ensures
            match r {
                Ok(p) => self.inode_map().contains_key(ino) && p@ == local_path_spec(
                    self.spec_source_dir(),
                    self.inode_map()[ino],
                ),
                Err(e) => !self.inode_map().contains_key(ino) && e == FsError::NotFound,
            },
    {
        match self.inodes.path_of(ino) {
            Some(name) => {
                let name_owned = name.clone();
                Ok(self.local_path(name_owned.as_str()))
            },
            None => Err(FsError::NotFound),
        }
    }

    /// Commits a successful open: stores the freshly opened resource under
    /// the next handle identifier and returns that identifier. The
    /// identifier was never live before and will never be handed out
    /// again.
    pub fn open_commit(&mut self, resource: R) -> (fh: u64)
        requires
            old(self).wf(),
            old(self).next_handle_id() < u64::MAX,
        ensures
            final(self).wf(),
            fh == old(self).next_handle_id(),
            fh > ROOT_INODE,
            !old(self).handle_map().contains_key(fh),
            final(self).handle_map() == old(self).handle_map().insert(fh, resource),
            final(self).next_handle_id() == old(self).next_handle_id() + 1,
            final(self).inode_map() == old(self).inode_map(),
            final(self).spec_source_dir() == old(self).spec_source_dir(),
    {
        self.file_handles.store(resource)
    }

    /// Looks up the open resource a positioned read must go against,
    /// after checking the inode and the handle. An unknown inode fails
    /// `NotFound`; a handle that was never returned by an open, or was
    /// already released, fails `InvalidHandle`.
    pub fn read_resource(&self, ino: u64, fh: u64) -> (r: Result<&R, FsError>)
        ensures
            match r {
                Ok(res) => read_outcome(self.inode_map(), self.handle_map(), ino, fh) == Ok::<
                    R,
                    FsError,
                >(*res),
                Err(e) => read_outcome(self.inode_map(), self.handle_map(), ino, fh) == Err::<
                    R,
                    FsError,
                >(e),
            },
    {
        match self.inodes.path_of(ino) {
            None => Err(FsError::NotFound),
            Some(_) => match self.file_handles.get(fh) {
                None => Err(FsError::InvalidHandle),
                Some(res) => Ok(res),
            },
        }
    }

    /// Releases a handle: removes its entry, if present, and hands the
    /// resource back to the caller to be closed. Releasing an absent
    /// handle is not an error, and the counter never moves backwards, so a
    /// released identifier is never reused.
    pub fn release(&mut self, fh: u64) -> (r: Option<R>)
        requires
            old(self).wf(),
        ensures
            final(self).wf(),
            final(self).handle_map() == old(self).handle_map().remove(fh),
            final(self).next_handle_id() == old(self).next_handle_id(),
            final(self).inode_map() == old(self).inode_map(),
            final(self).spec_source_dir() == old(self).spec_source_dir(),
            match r {
                Some(res) => old(self).handle_map().contains_key(fh) && res == old(
                    self,
                ).handle_map()[fh],
                None => !old(self).handle_map().contains_key(fh),
            },
    {
        self.file_handles.remove(fh)
    }
}

/// The reply to a positioned read. The surrounding process asked the host
/// for up to `buf.len()` bytes into the front of `buf`; `outcome` is how
/// many the host delivered, or `None` if the host read failed. Exactly the
/// delivered bytes are returned: fewer than asked is a valid end-of-file
/// outcome, not an error, while a failed host read surfaces as `IoError`.
pub fn read_reply(buf: Vec<u8>, outcome: Option<usize>) -> (r: Result<Vec<u8>, FsError>)
    requires
        match outcome {
            Some(n) => n <= buf@.len(),
            None => true,
        },
    ensures
        match outcome {
            Some(n) => match r {
                Ok(bytes) => bytes@ == buf@.take(n as int),
                Err(_) => false,
            },
            None => r == Err::<Vec<u8>, FsError>(FsError::IoError),
        },
{
    match outcome {
        Some(n) => {
            let mut bytes = buf;
            bytes.truncate(n);
            Ok(bytes)
        },
        None => Err(FsError::IoError),
    }
}

/// Every lookup under a parent other than the reserved root fails
/// `NotSupported`, whatever the host would have said about the name.
pub proof fn lemma_lookup_non_root(parent: u64, md: Option<HostMetadata>)
    requires
        parent != ROOT_INODE,
    ensures
        lookup_outcome(parent, md) == Err::<Attributes, FsError>(FsError::NotSupported),
{
}

/// Idempotence of inode assignment: a lookup of an unchanged file returns
/// attributes carrying the host's stable inode number, so repeated lookups
/// return the identical inode value, and the table a second lookup leaves
/// behind is exactly the table the first one left.
pub proof fn lemma_lookup_idempotent(t: Map<u64, Seq<char>>, name: Seq<char>, md: HostMetadata)
    ensures
        lookup_outcome(ROOT_INODE, Some(md)) == Ok::<Attributes, FsError>(translate_spec(md)),
        translate_spec(md).ino == md.ino,
        lookup_table(
            lookup_table(t, ROOT_INODE, name, Some(md)),
            ROOT_INODE,
            name,
            Some(md),
        ) == lookup_table(t, ROOT_INODE, name, Some(md)),
{
    crate::inode::lemma_register_idempotent(t, md.ino, name);
}

/// A read against a handle the table does not hold fails `InvalidHandle`:
/// an identifier the counter never handed out (at or above it, or at or
/// below the reserved root), as well as one already released and so no
/// longer in the table.
pub proof fn lemma_stale_handle_read<R>(fs: SimpleFS<R>, ino: u64, fh: u64)
    requires
        fs.wf(),
        fs.inode_map().contains_key(ino),
        fh >= fs.next_handle_id() || fh <= ROOT_INODE || !fs.handle_map().contains_key(fh),
    ensures
        read_outcome(fs.inode_map(), fs.handle_map(), ino, fh) == Err::<R, FsError>(
            FsError::InvalidHandle,
        ),
{
}

/// Releasing a handle is idempotent: a second release of the same
/// identifier leaves the handle table exactly where the first left it.
pub proof fn lemma_release_idempotent<R>(handles: Map<u64, R>, fh: u64)
    ensures
        handles.remove(fh).remove(fh) == handles.remove(fh),
{
    assert_maps_equal!(handles.remove(fh).remove(fh), handles.remove(fh));
}

/// Open read sessions are independent: a read is determined by its own
/// handle's entry alone, so after two opens stored under distinct
/// identifiers, each read returns the resource its own open stored,
/// untouched by the other session.
pub proof fn lemma_sessions_independent<R>(
    inodes: Map<u64, Seq<char>>,
    handles: Map<u64, R>,
    ino1: u64,
    ino2: u64,
    fh1: u64,
    fh2: u64,
    r1: R,
    r2: R,
)
    requires
        inodes.contains_key(ino1),
        inodes.contains_key(ino2),
        fh1 != fh2,
    ensures
        read_outcome(inodes, handles.insert(fh1, r1).insert(fh2, r2), ino1, fh1) == Ok::<R, FsError>(
            r1,
        ),
        read_outcome(inodes, handles.insert(fh1, r1).insert(fh2, r2), ino2, fh2) == Ok::<R, FsError>(
            r2,
        ),
{
}

} // verus!
