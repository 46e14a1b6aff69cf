//! A set of system permission kinds.

use crate::permissions::sys_kind::{SysKind, SystemsPermissionKind};
use vstd::prelude::*;

verus! {

/// A finite set of [`SystemsPermissionKind`], told apart by their values.
///
/// It holds each of its kinds once.
#[derive(Debug)]
pub struct KindSet {
    items: Vec<SystemsPermissionKind>,
}

/// Whether no kind occurs twice in a sequence.
pub open spec fn each_once(items: Seq<SystemsPermissionKind>) -> bool {
    forall|i: int, j: int| 0 <= i < j < items.len() ==> items[i]@ != items[j]@
}

/// The kinds that occur in a sequence.
pub open spec fn kinds_of(items: Seq<SystemsPermissionKind>) -> Set<SysKind> {
    Set::new(|k: SysKind| exists|i: int| 0 <= i < items.len() && (#[trigger] items[i])@ == k)
}

impl View for KindSet {
    type V = Set<SysKind>;

    closed spec fn view(&self) -> Set<SysKind> {
        kinds_of(self.items@)
    }
}

/// Appending an item adds its kind.
proof fn lemma_kinds_push(items: Seq<SystemsPermissionKind>, item: SystemsPermissionKind)
    ensures
        kinds_of(items.push(item)) == kinds_of(items).insert(item@),
{
    let longer = items.push(item);
    assert forall|k: SysKind| kinds_of(longer).contains(k) <==> kinds_of(items).insert(
        item@,
    ).contains(k) by {
        if kinds_of(items).contains(k) {
            let i = choose|i: int| 0 <= i < items.len() && (#[trigger] items[i])@ == k;
            assert(longer[i]@ == k);
        }
        if k == item@ {
            assert(longer[items.len() as int]@ == k);
        }
    }
}

/// Taking the item at `at` out, with the last item moved into its place,
/// takes its kind out where no kind occurs twice.
proof fn lemma_kinds_swap_remove(items: Seq<SystemsPermissionKind>, at: int)
    requires
        0 <= at < items.len(),
        each_once(items),
    ensures
        each_once(items.update(at, items.last()).drop_last()),
        kinds_of(items.update(at, items.last()).drop_last()) == kinds_of(items).remove(
            items[at]@,
        ),
{
    let last = items.len() - 1;
    let shorter = items.update(at, items.last()).drop_last();
    assert forall|i: int, j: int| 0 <= i < j < shorter.len() implies shorter[i]@
        != shorter[j]@ by {
        let from_i = if i == at { last } else { i };
        let from_j = if j == at { last } else { j };
        assert(shorter[i] == items[from_i] && shorter[j] == items[from_j]);
    }
    assert forall|k: SysKind| kinds_of(shorter).contains(k) <==> kinds_of(items).remove(
        items[at]@,
    ).contains(k) by {
        if kinds_of(items).contains(k) && k != items[at]@ {
            let i = choose|i: int| 0 <= i < items.len() && (#[trigger] items[i])@ == k;
            if i == last {
                assert(shorter[at]@ == k);
            } else {
                assert(shorter[i]@ == k);
            }
        }
    }
}

impl KindSet {
    #[verifier::type_invariant]
    spec fn holds_each_once(self) -> bool {
        each_once(self.items@)
    }

    /// The empty set.
    pub fn new() -> (set: Self)
        ensures
            set@ == Set::<SysKind>::empty(),
    {
        KindSet { items: Vec::new() }
    }

    /// Where `kind` lies in the set, if it is there.
    fn position(&self, kind: &SystemsPermissionKind) -> (at: Option<usize>)
        ensures
            at is Some <==> self@.contains(kind@),
            at matches Some(i) ==> i < self.items@.len() && self.items@[i as int]@ == kind@,
    {
        let n: usize = self.items.len();
        let mut i: usize = 0;
        while i < n
            invariant
                i <= n,
                n == self.items@.len(),
                forall|j: int| 0 <= j < i ==> (#[trigger] self.items@[j])@ != kind@,
            decreases n - i,
        {
            if self.items[i] == *kind {
                return Some(i);
            }
            i += 1;
        }
        None
    }

    /// Whether `kind` is in the set.
    pub fn contains(&self, kind: &SystemsPermissionKind) -> (found: bool)
        ensures
            found == self@.contains(kind@),
    {
        self.position(kind).is_some()
    }

    /// Puts `kind` into the set.
    pub fn insert(&mut self, kind: SystemsPermissionKind)
        ensures
            final(self)@ == old(self)@.insert(kind@),
    {
        if self.position(&kind).is_none() {
            proof {
                use_type_invariant(&*self);
                lemma_kinds_push(self.items@, kind);
                assert(each_once(self.items@.push(kind)));
            }
            let mut items: Vec<SystemsPermissionKind> = Vec::new();
            core::mem::swap(&mut self.items, &mut items);
            items.push(kind);
            core::mem::swap(&mut self.items, &mut items);
        }
    }

    /// Takes `kind` out of the set.
    pub fn remove(&mut self, kind: &SystemsPermissionKind)
        ensures
            final(self)@ == old(self)@.remove(kind@),
    {
        if let Some(at) = self.position(kind) {
            proof {
                use_type_invariant(&*self);
                lemma_kinds_swap_remove(self.items@, at as int);
            }
            let mut items: Vec<SystemsPermissionKind> = Vec::new();
            core::mem::swap(&mut self.items, &mut items);
            items.swap_remove(at);
            core::mem::swap(&mut self.items, &mut items);
        }
    }
}

} // verus!
