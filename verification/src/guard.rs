//! A guard against infinite recursion of representations.
use crate::machine::{VirtualMachine, VmView};
use crate::object::PyObjectRef;
use vstd::prelude::*;

verus! {

broadcast use vstd::std_specs::hash::group_hash_axioms;

/// The state with a guard on the object with an id.
pub open spec fn guarded(vm: VmView, id: usize) -> VmView {
    VmView { repr_guards: vm.repr_guards.insert(id), ..vm }
}

/// The state without a guard on the object with an id.
pub open spec fn released(vm: VmView, id: usize) -> VmView {
    VmView { repr_guards: vm.repr_guards.remove(id), ..vm }
}

/// A guard to protect repr methods from recursion into itself. It is held until
/// `release` is called; to drop it does not release it.
#[must_use]
pub struct ReprGuard {
    id: usize,
}

impl ReprGuard {
    /// The id of the object that is guarded.
    pub closed spec fn id(&self) -> usize {
        self.id
    }

    /// Returns None if the guard against `obj` is still held otherwise returns the
    /// guard. The guard is held until it is released.
    pub fn enter(vm: &mut VirtualMachine, obj: PyObjectRef) -> (guard: Option<ReprGuard>)
        ensures
            old(vm)@.repr_guards.contains(obj.id) ==> guard is None && final(vm)@ == old(vm)@,
            !old(vm)@.repr_guards.contains(obj.id) ==> {
                &&& guard is Some
                &&& guard->0.id() == obj.id
                &&& final(vm)@ == guarded(old(vm)@, obj.id)
            },
    {
        let id: usize = obj.get_id();
        if vm.repr_guards.contains(&id) {
            return None;
        }
        vm.repr_guards.insert(id);
        Some(ReprGuard { id })
    }

    /// Releases the guard.
    pub fn release(self, vm: &mut VirtualMachine)
        ensures
            final(vm)@ == released(old(vm)@, self.id()),
    {
        vm.repr_guards.remove(&self.id);
    }
}

} // verus!
