//! The repeated search for cameras.

use crate::table::Key;
use vstd::prelude::*;

verus! {

/// How many empty searches in a row are overlooked. A camera that another
/// program takes over for a moment is not found, and must not vanish from the
/// window for that.
pub const CAMERA_GRACE: u8 = 2;

/// Whether cameras are looked for now: not while there is no window to show them
/// in, so that a program without one costs nothing.
pub fn looks_for_cameras(no_window: bool) -> (looks: bool)
    ensures
        looks == !no_window,
{
    !no_window
}

/// The cameras found, and how often in a row none was found since.
#[derive(Debug)]
pub struct CameraScan<C> {
    /// The cameras that are shown.
    pub cameras: Vec<C>,
    /// Empty searches in a row that were overlooked.
    pub misses: u8,
}

/// A search that found `found` cameras is overlooked.
pub open spec fn overlooked(found: nat, shown: nat, misses: int) -> bool {
    found == 0 && shown > 0 && misses < CAMERA_GRACE
}

/// What the cameras of a list stand for, in their order.
pub open spec fn views_of<C: Key>(cameras: Seq<C>) -> Seq<C::V> {
    cameras.map_values(|c: C| c@)
}

/// Whether a search found other cameras than those that are shown, or the same
/// in another order.
pub fn cameras_differ<C: Key>(found: &Vec<C>, shown: &Vec<C>) -> (differs: bool)
    ensures
        differs == (views_of(found@) != views_of(shown@)),
{
    if found.len() != shown.len() {
        assert(views_of(found@).len() != views_of(shown@).len());
        return true;
    }
    let mut i: usize = 0;
    while i < found.len()
        invariant
            i <= found@.len() == shown@.len(),
            forall|j: int| 0 <= j < i ==> (#[trigger] found@[j])@ == shown@[j]@,
        decreases found@.len() - i,
    {
        if !found[i].same(&shown[i]) {
            assert(views_of(found@)[i as int] != views_of(shown@)[i as int]);
            return true;
        }
        i += 1;
    }
    assert(views_of(found@) =~= views_of(shown@));
    false
}

impl<C: Key> CameraScan<C> {
    /// The memory after the first search.
    pub fn new(cameras: Vec<C>) -> (scan: CameraScan<C>)
        ensures
            scan.cameras == cameras,
            scan.misses == 0,
            scan.valid(),
    {
        CameraScan { cameras, misses: 0 }
    }

    /// No more searches were overlooked in a row than may be.
    pub open spec fn valid(self) -> bool {
        self.misses <= CAMERA_GRACE
    }

    /// Takes a search in. Says whether the list that is shown was replaced,
    /// which is so where the search counts and found other cameras.
    pub fn on_scan(&mut self, found: Vec<C>) -> (replaced: bool)
        ensures
            final(self).valid(),
            ({
                let over = overlooked(
                    found@.len(),
                    old(self).cameras@.len(),
                    old(self).misses as int,
                );
                &&& replaced == (!over && views_of(found@) != views_of(old(self).cameras@))
                &&& final(self).misses == if over {
                    old(self).misses + 1
                } else {
                    0
                }
                &&& final(self).cameras == if replaced {
                    found
                } else {
                    old(self).cameras
                }
            }),
    {
        if found.len() == 0 && self.cameras.len() > 0 && self.misses < CAMERA_GRACE {
            self.misses = self.misses + 1;
            false
        } else {
            self.misses = 0;
            if cameras_differ(&found, &self.cameras) {
                self.cameras = found;
                true
            } else {
                false
            }
        }
    }
}

/// How many searches were overlooked after `n` empty ones in a row.
pub open spec fn misses_after(shown: nat, misses: int, n: nat) -> int
    decreases n,
{
    if n == 0 {
        misses
    } else {
        let before = misses_after(shown, misses, (n - 1) as nat);
        if overlooked(0, shown, before) {
            before + 1
        } else {
            0
        }
    }
}

/// After a search that found something, exactly [`CAMERA_GRACE`] empty searches
/// in a row are overlooked; the next one counts.
pub proof fn grace_is_exact(shown: nat, n: nat)
    requires
        shown > 0,
        n <= CAMERA_GRACE,
    ensures
        misses_after(shown, 0, n) == n,
        overlooked(0, shown, misses_after(shown, 0, n)) <==> n < CAMERA_GRACE,
    decreases n,
{
    if n > 0 {
        grace_is_exact(shown, (n - 1) as nat);
    }
}

} // verus!
