//! The operator-supplied configuration of one batch pass.

use vstd::prelude::*;

use crate::text::{text_eq, views_of};

verus! {

/// Configuration constructed once at startup and passed into the driver.
pub struct Args {
    /// Do not authenticate by default.
    pub no_login: bool,
    /// Pacing interval between targets, in seconds.
    pub sleep: u64,
    /// Ignore the temporary-skip sentinel on this pass.
    pub ignore_skip_file: bool,
    /// Directory names excluded from the pass by the operator.
    pub skip_dirs: Vec<String>,
}

/// `name` occurs in the skip list.
pub open spec fn skip_list_contains(list: Seq<Seq<char>>, name: Seq<char>) -> bool {
    exists|i: int| 0 <= i < list.len() && list[i] == name
}

impl Args {
    /// Whether the operator's skip list excludes this directory name.
    pub fn skips(&self, name: &str) -> (r: bool)
        ensures
            r == skip_list_contains(views_of(self.skip_dirs@), name@),
    {
        let ghost list: Seq<Seq<char>> = views_of(self.skip_dirs@);
        let n = self.skip_dirs.len();
        let mut i: usize = 0;
        while i < n
            invariant
                i <= n,
                n == self.skip_dirs@.len(),
                list == views_of(self.skip_dirs@),
                forall|j: int| 0 <= j < i ==> list[j] != name@,
            decreases n - i,
        {
            proof {
                assert(list[i as int] == self.skip_dirs@[i as int]@);
            }
            if text_eq(self.skip_dirs[i].as_str(), name) {
                return true;
            }
            i += 1;
        }
        false
    }
}

} // verus!
