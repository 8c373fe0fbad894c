use vstd::prelude::*;
use crate::security::is_within;
use crate::security::path_within;

verus! {

/// A directory the user allowed, as written and as its path components.
/// Two entries name the same directory when their components agree, as with
/// `PathBuf` equality.
pub struct DirPath {
    pub text: String,
    pub components: Vec<String>,
}

impl DirPath {
    pub open spec fn parts(&self) -> Seq<Seq<char>> {
        self.components@.map_values(|c: String| c@)
    }
}

pub open spec fn parts_of(components: Seq<String>) -> Seq<Seq<char>> {
    components.map_values(|c: String| c@)
}

/// Some entry names the directory with these components.
pub open spec fn lists(dirs: Seq<DirPath>, key: Seq<Seq<char>>) -> bool {
    exists|j: int| 0 <= j < dirs.len() && (#[trigger] dirs[j]).parts() == key
}

/// The entries that do not name the directory with these components, in order.
pub open spec fn without(dirs: Seq<DirPath>, key: Seq<Seq<char>>) -> Seq<DirPath> {
    dirs.filter(|d: DirPath| d.parts() != key)
}

/// The two component lists are equal.
pub fn same_components(a: &Vec<String>, b: &Vec<String>) -> (r: bool)
    ensures
        r == (parts_of(a@) == parts_of(b@)),
{
    if a.len() != b.len() {
        assert(parts_of(a@).len() != parts_of(b@).len());
        return false;
    }
    let r = path_within(a, b);
    assert(parts_of(a@).subrange(0, parts_of(b@).len() as int) =~= parts_of(a@));
    r
}

/// Adds a directory unless an entry already names it; says whether it was added.
pub fn add_allowed_directory(dirs: &mut Vec<DirPath>, dir: DirPath) -> (added: bool)
    ensures
        added == !lists(old(dirs)@, dir.parts()),
        added ==> final(dirs)@ == old(dirs)@.push(dir),
        !added ==> final(dirs)@ == old(dirs)@,
{
    let mut i: usize = 0;
    while i < dirs.len()
        invariant
            dirs@ == old(dirs)@,
            i <= dirs@.len(),
            forall|j: int| 0 <= j < i ==> (#[trigger] dirs@[j]).parts() != dir.parts(),
        decreases dirs@.len() - i,
    {
        if same_components(&dirs[i].components, &dir.components) {
            assert(dirs@[i as int].parts() == dir.parts());
            return false;
        }
        i = i + 1;
    }
    dirs.push(dir);
    true
}

/// Removes every entry that names the directory with these components, keeping
/// the order of the others.
pub fn remove_allowed_directory(dirs: &mut Vec<DirPath>, components: &Vec<String>)
    ensures
        final(dirs)@ == without(old(dirs)@, parts_of(components@)),
{
    let ghost orig = dirs@;
    let ghost key = parts_of(components@);
    let ghost pred = |d: DirPath| d.parts() != key;
    let ghost mut j: int = 0;
    let mut i: usize = 0;
    proof {
        reveal(Seq::filter);
        assert(orig.subrange(0, 0) =~= Seq::<DirPath>::empty());
        assert(dirs@ =~= orig.subrange(0, 0).filter(pred) + orig.subrange(0, orig.len() as int));
    }
    while i < dirs.len()
        invariant
            0 <= j <= orig.len(),
            pred == (|d: DirPath| d.parts() != key),
            key == parts_of(components@),
            i == orig.subrange(0, j).filter(pred).len(),
            dirs@ == orig.subrange(0, j).filter(pred) + orig.subrange(j, orig.len() as int),
        decreases dirs@.len() - i,
    {
        proof {
            reveal(Seq::filter);
            assert(orig.subrange(0, j + 1).drop_last() =~= orig.subrange(0, j));
            assert(orig.subrange(0, j + 1).last() == orig[j]);
            assert(dirs@[i as int] == orig[j]);
        }
        if same_components(&dirs[i].components, components) {
            dirs.remove(i);
            proof {
                assert(dirs@ =~= orig.subrange(0, j + 1).filter(pred) + orig.subrange(
                    j + 1,
                    orig.len() as int,
                ));
                j = j + 1;
            }
        } else {
            proof {
                assert(dirs@ =~= orig.subrange(0, j + 1).filter(pred) + orig.subrange(
                    j + 1,
                    orig.len() as int,
                ));
                j = j + 1;
            }
            i = i + 1;
        }
    }
    proof {
        assert(orig.subrange(j, orig.len() as int).len() == 0);
        assert(j == orig.len());
        assert(orig.subrange(0, j) =~= orig);
        assert(dirs@ =~= orig.filter(pred));
    }
}

} // verus!
