//! Ascending-by-primary-key ordering of the served records.
//!
//! Each list endpoint serves its rows ordered ascending by `id`; the sort
//! here pins that down: the result is sorted and is a permutation of the
//! input.
use crate::model::{Project, Task, User};
use vstd::multiset::Multiset;
use vstd::prelude::*;

verus! {

broadcast use vstd::seq_lib::group_to_multiset_ensures;

/// A record keyed by an integer primary key.
pub trait IdRecord {
    /// The record's primary key.
    spec fn spec_id(&self) -> int;

    /// Read the primary key.
    fn id_value(&self) -> (k: i32)
        ensures
            k as int == self.spec_id(),
    ;
}

impl IdRecord for User {
    open spec fn spec_id(&self) -> int {
        self.id as int
    }

    fn id_value(&self) -> (k: i32) {
        self.id
    }
}

impl IdRecord for Project {
    open spec fn spec_id(&self) -> int {
        self.id as int
    }

    fn id_value(&self) -> (k: i32) {
        self.id
    }
}

impl IdRecord for Task {
    open spec fn spec_id(&self) -> int {
        self.id as int
    }

    fn id_value(&self) -> (k: i32) {
        self.id
    }
}

/// The records stand in ascending order of primary key.
pub open spec fn sorted_by_id<T: IdRecord>(l: Seq<T>) -> bool {
    forall|i: int, j: int| 0 <= i <= j < l.len() ==> l[i].spec_id() <= l[j].spec_id()
}

/// Sort records ascending by primary key. The result is sorted and holds
/// exactly the input's records (a permutation).
pub fn sort_by_id<T: IdRecord>(v: Vec<T>) -> (r: Vec<T>)
    ensures
        sorted_by_id(r@),
        r@.to_multiset() == v@.to_multiset(),
{
    let mut rest = v;
    let mut out: Vec<T> = Vec::new();
    proof {
        assert(out@.to_multiset().add(rest@.to_multiset()) =~= rest@.to_multiset());
    }
    let ghost all: Seq<T> = rest@;
    while rest.len() > 0
        invariant
            sorted_by_id(out@),
            out@.to_multiset().add(rest@.to_multiset()) == all.to_multiset(),
        decreases rest.len(),
    {
        let ghost rest_pre: Seq<T> = rest@;
        let ghost out_pre: Seq<T> = out@;
        let x = rest.pop().unwrap();
        proof {
            assert(rest_pre =~= rest@.push(x));
            assert(rest@.push(x).to_multiset() == rest@.to_multiset().insert(x));
        }
        let key = x.id_value();
        let mut i: usize = 0;
        while i < out.len()
            invariant_except_break
                i <= out@.len(),
                forall|j: int| 0 <= j < i ==> out@[j].spec_id() <= key as int,
            ensures
                i <= out@.len(),
                forall|j: int| 0 <= j < i ==> out@[j].spec_id() <= key as int,
                i < out@.len() ==> out@[i as int].spec_id() > key as int,
            decreases out@.len() - i,
        {
            if out[i].id_value() > key {
                break ;
            }
            i = i + 1;
        }
        out.insert(i, x);
        proof {
            out_pre.insert_ensures(i as int, x);
            assert forall|p: int, q: int|
                0 <= p <= q < out@.len() implies out@[p].spec_id() <= out@[q].spec_id() by {
                if q < i {
                    assert(out@[p] == out_pre[p]);
                    assert(out@[q] == out_pre[q]);
                } else if q == i {
                    if p < i {
                        assert(out@[p] == out_pre[p]);
                        assert(out@[q] == x);
                    }
                } else {
                    // q > i: the element now at q stood at q - 1, at or past
                    // the stop position, so its key is above the inserted one
                    assert(out@[q] == out_pre[q - 1]);
                    assert(out_pre[i as int].spec_id() > key as int);
                    assert(out_pre[i as int].spec_id() <= out_pre[q - 1].spec_id());
                    if p < i {
                        assert(out@[p] == out_pre[p]);
                    } else if p == i {
                        assert(out@[p] == x);
                    } else {
                        assert(out@[p] == out_pre[p - 1]);
                    }
                }
            }
            assert(out@.to_multiset() == out_pre.to_multiset().insert(x));
            assert(out@.to_multiset().add(rest@.to_multiset()) =~= out_pre.to_multiset().add(
                rest_pre.to_multiset(),
            ));
        }
    }
    proof {
        assert(rest@.to_multiset().len() == 0);
        assert(rest@.to_multiset() =~= Multiset::<T>::empty());
        assert(out@.to_multiset().add(rest@.to_multiset()) =~= out@.to_multiset());
    }
    out
}

} // verus!
