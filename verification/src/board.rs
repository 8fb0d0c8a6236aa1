//! The records on the board together with the selected row.
use vstd::prelude::*;
use vstd::arithmetic::div_mod::{
    lemma_add_mod_noop_right, lemma_fundamental_div_mod, lemma_mod_multiples_vanish,
    lemma_mod_pos_bound,
};

use crate::state::BoxRecord;

verus! {

/// The selection after moving `d` rows from `cur` on a board of `n` rows,
/// wrapping around at either end.
pub open spec fn step_selection(cur: int, d: int, n: int) -> int {
    (cur + d) % n
}

/// The selection after the board reloads with `n` rows: none on an empty
/// board, else the previous row (the first when there was none), kept within
/// the board.
pub open spec fn reload_selection(prev: Option<int>, n: int) -> Option<int> {
    if n == 0 {
        None
    } else {
        let cur = match prev {
            Some(i) => i,
            None => 0,
        };
        Some(if cur < n - 1 {
            cur
        } else {
            n - 1
        })
    }
}

/// The records on the board and the selected row: a row is selected exactly
/// when the board is not empty.
pub struct BoxList {
    boxes: Vec<BoxRecord>,
    selected: Option<usize>,
}

impl BoxList {
    #[verifier::type_invariant]
    spec fn well_formed(self) -> bool {
        &&& self.selected is Some <==> self.boxes@.len() > 0
        &&& self.selected matches Some(i) ==> i < self.boxes@.len()
    }

    /// The records, top to bottom.
    pub closed spec fn records(self) -> Seq<BoxRecord> {
        self.boxes@
    }

    /// The selected row.
    pub closed spec fn selection(self) -> Option<int> {
        match self.selected {
            Some(i) => Some(i as int),
            None => None,
        }
    }

    /// An empty board.
    pub fn new() -> (r: BoxList)
        ensures
            r.records() == Seq::<BoxRecord>::empty(),
            r.selection() is None,
    {
        BoxList { boxes: Vec::new(), selected: None }
    }

    /// The records, top to bottom.
    pub fn boxes(&self) -> (r: &Vec<BoxRecord>)
        ensures
            r@ == self.records(),
    {
        &self.boxes
    }

    /// The selected row; there is one exactly when the board is not empty.
    pub fn selected(&self) -> (r: Option<usize>)
        ensures
            r is Some <==> self.records().len() > 0,
            r matches Some(i) ==> i < self.records().len(),
            match r {
                Some(i) => self.selection() == Some(i as int),
                None => self.selection() is None,
            },
    {
        proof {
            use_type_invariant(self);
        }
        self.selected
    }

    /// Replaces the records with `boxes`, keeping the selected row where the
    /// board still reaches it.
    pub fn reload(&mut self, boxes: Vec<BoxRecord>)
        ensures
            final(self).records() == boxes@,
            final(self).selection() == reload_selection(old(self).selection(), boxes@.len() as int),
    {
        let n = boxes.len();
        let selected = if n == 0 {
            None
        } else {
            let cur = match self.selected {
                Some(i) => i,
                None => 0,
            };
            Some(if cur < n - 1 {
                cur
            } else {
                n - 1
            })
        };
        *self = BoxList { boxes, selected };
    }

    /// Moves the selection `d` rows down (up for negative `d`), wrapping
    /// around at either end; nothing happens on an empty board.
    pub fn move_by(&mut self, d: isize)
        ensures
            final(self).records() == old(self).records(),
            old(self).records().len() == 0 ==> final(self).selection() == old(self).selection(),
            old(self).records().len() > 0 ==> final(self).selection() == Some(
                step_selection(
                    match old(self).selection() {
                        Some(i) => i,
                        None => 0,
                    },
                    d as int,
                    old(self).records().len() as int,
                ),
            ),
    {
        proof {
            use_type_invariant(&*self);
        }
        let n = self.boxes.len();
        if n == 0 {
            return;
        }
        let cur = match self.selected {
            Some(i) => i,
            None => 0,
        };
        let m: u128 = n as u128;
        let dm: u128 = if d >= 0 {
            (d as u128) % m
        } else {
            let e: u128 = (-(d as i128)) as u128;
            let a: u128 = e % m;
            (m - a) % m
        };
        let r: u128 = (cur as u128 + dm) % m;
        proof {
            let ni = n as int;
            lemma_mod_pos_bound(cur + dm, ni);
            if d >= 0 {
                lemma_add_mod_noop_right(cur as int, d as int, ni);
            } else {
                let e = -(d as int);
                let q = e / ni;
                let a = e % ni;
                lemma_fundamental_div_mod(e, ni);
                lemma_mod_pos_bound(e, ni);
                lemma_add_mod_noop_right(cur as int, ni - a, ni);
                assert(ni * (q + 1) == ni * q + ni) by (nonlinear_arith);
                assert(cur + (ni - a) == ni * (q + 1) + (cur + d));
                lemma_mod_multiples_vanish(q + 1, cur + d, ni);
            }
        }
        self.selected = Some(r as usize);
    }

    /// The selected record, if any.
    pub fn sel(&self) -> (r: Option<&BoxRecord>)
        ensures
            match self.selection() {
                Some(i) => r matches Some(b) && *b == self.records()[i],
                None => r is None,
            },
            r matches Some(_) ==> self.selection() matches Some(i) && 0 <= i < self.records().len(),
    {
        proof {
            use_type_invariant(self);
        }
        match self.selected {
            Some(i) => Some(&self.boxes[i]),
            None => None,
        }
    }
}

/// Moving back by as many rows as one moved returns to the row one started
/// from.
pub proof fn lemma_move_back(cur: int, d: int, n: int)
    requires
        0 <= cur < n,
    ensures
        step_selection(step_selection(cur, d, n), -d, n) == cur,
{
    let x = cur + d;
    lemma_fundamental_div_mod(x, n);
    lemma_mod_pos_bound(cur, n);
    let q = x / n;
    assert(x % n + (-d) == n * (-q) + cur) by (nonlinear_arith)
        requires
            x == n * q + x % n,
            x == cur + d,
    ;
    lemma_mod_multiples_vanish(-q, cur, n);
    assert(cur % n == cur) by {
        vstd::arithmetic::div_mod::lemma_small_mod(cur as nat, n as nat);
    }
}

/// A move always lands on a row of the board.
pub proof fn lemma_step_in_range(cur: int, d: int, n: int)
    requires
        n > 0,
    ensures
        0 <= step_selection(cur, d, n) < n,
{
    vstd::arithmetic::div_mod::lemma_mod_bound(cur + d, n);
}

/// Reloading keeps the selected row wherever the board still reaches it: a
/// row `i` that is still on a board of `n` rows stays selected; a row past
/// the end becomes the last row; the first row is selected when none was;
/// an empty board has no selection.
pub proof fn lemma_reload_keeps_selection(prev: Option<int>, n: int)
    requires
        n >= 0,
        prev matches Some(i) ==> i >= 0,
    ensures
        n == 0 ==> reload_selection(prev, n) is None,
        n > 0 && prev is None ==> reload_selection(prev, n) == Some(0int),
        n > 0 && prev is Some && prev->0 < n ==> reload_selection(prev, n) == prev,
        n > 0 && prev is Some && prev->0 >= n ==> reload_selection(prev, n) == Some(n - 1),
        reload_selection(reload_selection(prev, n), n) == reload_selection(prev, n),
{
}

} // verus!
