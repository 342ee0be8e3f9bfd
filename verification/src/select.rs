//! The shader selection cursor: an ordered, non-empty list of candidate
//! shader paths with a current-selection index that wraps modulo the list
//! length in both directions, and the decision of when a selection change
//! repoints the watcher.

use crate::watch::FileReloadSetPath;
use vstd::arithmetic::div_mod::{
    lemma_add_mod_noop, lemma_mod_add_multiples_vanish, lemma_mod_division_less_than_divisor,
    lemma_mod_self_0, lemma_mod_twice, lemma_small_mod,
};
use vstd::prelude::*;

verus! {

/// The paths of a candidate list, as sequences of characters.
pub open spec fn paths_view(paths: Seq<String>) -> Seq<Seq<char>> {
    paths.map_values(|p: String| p@)
}

/// One wrapping step of the cursor: the new index after moving by
/// `direction` (+1 or -1) over a list of length `len`.
pub open spec fn wrap_step(i: int, direction: int, len: int) -> int {
    (i + direction + len) % len
}

/// The cursor after `n` wrapping steps by `direction` from `i`.
pub open spec fn advance_times(i: int, direction: int, len: int, n: nat) -> int
    decreases n,
{
    if n == 0 {
        i
    } else {
        advance_times(wrap_step(i, direction, len), direction, len, (n - 1) as nat)
    }
}

/// An ordered, non-empty list of candidate shader paths, fixed for the
/// process lifetime, with the current-selection cursor.
pub struct ShaderCandidateList {
    paths: Vec<String>,
    index: usize,
}

impl ShaderCandidateList {
    /// The candidate paths, in order.
    pub closed spec fn paths(&self) -> Seq<Seq<char>> {
        paths_view(self.paths@)
    }

    /// The current-selection cursor.
    pub closed spec fn cursor(&self) -> int {
        self.index as int
    }

    /// The list is non-empty and the cursor points into it.
    pub open spec fn well_formed(&self) -> bool {
        0 < self.paths().len() && 0 <= self.cursor() < self.paths().len()
    }

    /// A list over the given paths with the cursor on the first one; an
    /// empty list of candidates is rejected.
    pub fn new(paths: Vec<String>) -> (r: Option<ShaderCandidateList>)
        ensures
            r is Some <==> paths@.len() > 0,
            r matches Some(l) ==> l.well_formed() && l.paths() == paths_view(paths@)
                && l.cursor() == 0,
    {
        if paths.len() == 0 {
            None
        } else {
            Some(ShaderCandidateList { paths, index: 0 })
        }
    }

    /// How many candidates the list holds.
    pub fn len(&self) -> (n: usize)
        ensures
            n == self.paths().len(),
    {
        self.paths.len()
    }

    /// The cursor's current value.
    pub fn current_index(&self) -> (i: usize)
        ensures
            i == self.cursor(),
    {
        self.index
    }

    /// The currently selected path.
    pub fn current_path(&self) -> (p: &String)
        requires
            self.well_formed(),
        ensures
            p@ == self.paths()[self.cursor()],
    {
        &self.paths[self.index]
    }

    /// Move the cursor to `index`, wrapped into range modulo the list
    /// length.
    pub fn select(&mut self, index: usize)
        requires
            old(self).well_formed(),
        ensures
            final(self).well_formed(),
            final(self).paths() == old(self).paths(),
            final(self).cursor() == index as int % old(self).paths().len() as int,
    {
        proof {
            lemma_mod_division_less_than_divisor(index as int, self.paths@.len() as int);
        }
        self.index = index % self.paths.len();
    }

    /// Move the cursor one step forward (`direction` +1) or backward
    /// (`direction` -1), wrapping around either end of the list.
    pub fn advance(&mut self, direction: i32)
        requires
            old(self).well_formed(),
            direction == 1i32 || direction == -1i32,
        ensures
            final(self).well_formed(),
            final(self).paths() == old(self).paths(),
            final(self).cursor() == wrap_step(
                old(self).cursor(),
                direction as int,
                old(self).paths().len() as int,
            ),
    {
        let len = self.paths.len();
        let ghost i = self.index as int;
        let ghost l = len as int;
        if direction == 1 {
            proof {
                if i + 1 == l {
                    lemma_mod_add_multiples_vanish(l, l);
                    lemma_mod_self_0(l);
                } else {
                    lemma_mod_add_multiples_vanish(i + 1, l);
                    lemma_small_mod((i + 1) as nat, l as nat);
                }
            }
            if self.index + 1 == len {
                self.index = 0;
            } else {
                self.index = self.index + 1;
            }
        } else {
            proof {
                if i == 0 {
                    lemma_small_mod((l - 1) as nat, l as nat);
                } else {
                    lemma_mod_add_multiples_vanish(i - 1, l);
                    lemma_small_mod((i - 1) as nat, l as nat);
                }
            }
            if self.index == 0 {
                self.index = len - 1;
            } else {
                self.index = self.index - 1;
            }
        }
    }
}

/// The retarget decision made after a selection's rebuild: the watcher is
/// pointed at a path only when that path's rebuild succeeded, so a shader
/// that fails to compile is not watched under its own path.
pub fn retarget_after_rebuild(path: &String, rebuild_ok: bool) -> (r: Option<FileReloadSetPath>)
    ensures
        r is Some <==> rebuild_ok,
        r matches Some(cmd) ==> cmd.0@ == path@,
{
    if rebuild_ok {
        Some(FileReloadSetPath(path.clone()))
    } else {
        None
    }
}

/// Stepping forward `n` times from a valid cursor lands on `(i + n) % len`.
proof fn lemma_advance_times_is_mod(i: int, len: int, n: nat)
    requires
        0 <= i < len,
    ensures
        advance_times(i, 1, len, n) == (i + n) % len,
    decreases n,
{
    if n == 0 {
        lemma_small_mod(i as nat, len as nat);
    } else {
        let i2 = wrap_step(i, 1, len);
        lemma_mod_division_less_than_divisor(i + 1 + len, len);
        lemma_advance_times_is_mod(i2, len, (n - 1) as nat);
        lemma_add_mod_noop(i2, n - 1, len);
        lemma_mod_twice(i + 1 + len, len);
        lemma_add_mod_noop(i + 1 + len, n - 1, len);
        lemma_mod_add_multiples_vanish(i + n, len);
    }
}

/// Law: stepping forward as many times as the list is long returns the
/// cursor to where it started, from any valid starting index.
pub proof fn lemma_advance_full_cycle(i: int, len: int)
    requires
        0 <= i < len,
    ensures
        advance_times(i, 1, len, len as nat) == i,
{
    lemma_advance_times_is_mod(i, len, len as nat);
    lemma_mod_add_multiples_vanish(i, len);
    lemma_small_mod(i as nat, len as nat);
}

/// Law: stepping backward from the first index lands on the last one.
pub proof fn lemma_advance_back_from_zero(len: int)
    requires
        1 <= len,
    ensures
        wrap_step(0, -1, len) == len - 1,
{
    lemma_small_mod((len - 1) as nat, len as nat);
}

} // verus!
