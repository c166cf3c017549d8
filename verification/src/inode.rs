use std::collections::HashMap;
use vstd::map::*;
use vstd::prelude::*;

verus! {

broadcast use vstd::std_specs::hash::group_hash_axioms;

/// The inode number permanently reserved for the virtual root directory.
pub const ROOT_INODE: u64 = 1;

/// What registering a mapping does to the table's model: a mapping for any
/// inode other than the reserved root is inserted (overwriting an earlier
/// one); the reserved root is never a regular mapping target, so a
/// registration under it leaves the table unchanged.
pub open spec fn register_spec(t: Map<u64, Seq<char>>, ino: u64, name: Seq<char>) -> Map<
    u64,
    Seq<char>,
> {
    if ino == ROOT_INODE {
        t
    } else {
        t.insert(ino, name)
    }
}

/// The bidirectional association between an inode number and the relative
/// path of an entry previously observed under the root.
///
/// Entries are created on the first successful lookup of a name and never
/// explicitly deleted; they accumulate for the life of the mount.
pub struct InodeTable {
    map: HashMap<u64, String>,
}

impl InodeTable {
    /// The model: each known inode number, mapped to the relative path it
    /// was registered under.
    pub closed spec fn view(&self) -> Map<u64, Seq<char>> {
        self.map@.map_values(|s: String| s@)
    }

    /// The root invariant: the reserved root inode is always present and
    /// maps to `"."`, the source directory itself.
    pub open spec fn wf(&self) -> bool {
        &&& self@.contains_key(ROOT_INODE)
        &&& self@[ROOT_INODE] == "."@
    }

    /// A fresh table, holding only the reserved root mapping.
    pub fn new() -> (t: Self)
        ensures
            t@ == Map::<u64, Seq<char>>::empty().insert(ROOT_INODE, "."@),
            t.wf(),
    {
        let mut map: HashMap<u64, String> = HashMap::new();
        map.insert(ROOT_INODE, ".".to_owned());
        let t = InodeTable { map };
        proof {
            assert_maps_equal!(t@, Map::<u64, Seq<char>>::empty().insert(ROOT_INODE, "."@));
        }
        t
    }

    /// Pure lookup of the relative path a previously seen inode resolves
    /// back to; no mutation.
    pub fn path_of(&self, ino: u64) -> (r: Option<&String>)
        ensures
            match r {
                Some(name) => self@.contains_key(ino) && name@ == self@[ino],
                None => !self@.contains_key(ino),
            },
    {
        self.map.get(&ino)
    }

    /// Inserts or overwrites the mapping `ino -> name`. Registration is
    /// idempotent for an unchanged file, since the inode number is
    /// host-stable; the reserved root is never overwritten.
    pub fn register(&mut self, ino: u64, name: String)
        requires
            old(self).wf(),
        ensures
            final(self)@ == register_spec(old(self)@, ino, name@),
            final(self).wf(),
    {
        if ino != ROOT_INODE {
            self.map.insert(ino, name);
            proof {
                assert_maps_equal!(self@, old(self)@.insert(ino, name@));
            }
        }
    }
}

/// Idempotence of inode registration: registering the same mapping twice
/// leaves the table exactly as one registration does, so repeated lookups
/// of an unchanged file converge to one mapping.
pub proof fn lemma_register_idempotent(t: Map<u64, Seq<char>>, ino: u64, name: Seq<char>)
    ensures
        register_spec(register_spec(t, ino, name), ino, name) == register_spec(t, ino, name),
{
    if ino != ROOT_INODE {
        assert_maps_equal!(t.insert(ino, name).insert(ino, name), t.insert(ino, name));
    }
}

} // verus!
