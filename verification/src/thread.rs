//! Which machines a thread is inside of.
use crate::machine::VirtualMachine;
use crate::object::{class_of, is_subclass, Heap, PyObjectRef};
use itertools::Itertools;
use vstd::prelude::*;

verus! {

/// `Itertools::exactly_one` on the elements of `vms`: the element if there is
/// exactly one. Otherwise the iterator in the error yields all the elements, in
/// their order.
#[verifier::external_body]
fn exactly_one(vms: &Vec<usize>) -> (res: Result<usize, Vec<usize>>)
    ensures
        match res {
            Ok(vm) => vms@ == seq![vm],
            Err(others) => vms@.len() != 1 && others@ == vms@,
        },
{
    match vms.iter().copied().exactly_one() {
        Ok(vm) => Ok(vm),
        Err(others) => Err(others.collect()),
    }
}

/// The machines that a thread is inside of, the latest last. The host knows each
/// by a number.
pub struct VmStack {
    pub vms: Vec<usize>,
}

impl View for VmStack {
    type V = Seq<usize>;

    open spec fn view(&self) -> Seq<usize> {
        self.vms@
    }
}

/// Whether `vm` is the first machine in `vms` that owns an object.
pub open spec fn is_first_owner<F: Fn(usize) -> bool>(vms: Seq<usize>, owns: F, vm: usize) -> bool {
    exists|i: int|
        #![trigger vms[i]]
        0 <= i < vms.len() && vms[i] == vm && call_ensures(owns, (vm,), true) && (forall|j: int|
            0 <= j < i ==> call_ensures(owns, (#[trigger] vms[j],), false))
}

/// Whether no machine in `vms` owns an object.
pub open spec fn has_no_owner<F: Fn(usize) -> bool>(vms: Seq<usize>, owns: F) -> bool {
    forall|j: int| 0 <= j < vms.len() ==> call_ensures(owns, (#[trigger] vms[j],), false)
}

impl VmStack {
    /// A thread that is inside of no machine.
    pub fn new() -> (stack: VmStack)
        ensures
            stack@ == Seq::<usize>::empty(),
    {
        VmStack { vms: Vec::new() }
    }

    /// The thread enters a machine.
    pub fn enter_vm(&mut self, vm: usize)
        ensures
            final(self)@ == old(self)@.push(vm),
    {
        self.vms.push(vm);
    }

    /// The thread leaves the machine that it entered last.
    pub fn leave_vm(&mut self) -> (vm: Option<usize>)
        ensures
            old(self)@.len() == 0 ==> vm is None && final(self)@ == old(self)@,
            old(self)@.len() > 0 ==> vm == Some(old(self)@.last()) && final(self)@ == old(
                self,
            )@.drop_last(),
    {
        self.vms.pop()
    }

    /// The machine to use for an object: the only one, or else the first that owns
    /// the object.
    pub fn with_vm<F: Fn(usize) -> bool>(&self, owns: F) -> (vm: Option<usize>)
        requires
            forall|x: usize| call_requires(owns, (x,)),
        ensures
            self@.len() == 1 ==> vm == Some(self@[0]),
            self@.len() != 1 ==> match vm {
                Some(vm) => is_first_owner(self@, owns, vm),
                None => has_no_owner(self@, owns),
            },
    {
        match exactly_one(&self.vms) {
            Ok(vm) => Some(vm),
            Err(others) => {
                let mut i: usize = 0;
                while i < others.len()
                    invariant
                        i <= others.len(),
                        others@ == self@,
                        forall|x: usize| call_requires(owns, (x,)),
                        forall|j: int|
                            0 <= j < i ==> call_ensures(owns, (#[trigger] self@[j],), false),
                    decreases others.len() - i,
                {
                    let vm = others[i];
                    if owns(vm) {
                        assert(self@[i as int] == vm);
                        return Some(vm);
                    }
                    i = i + 1;
                }
                None
            },
        }
    }
}

impl VirtualMachine {
    /// Whether an object belongs to this machine: its class derives from the
    /// machine's `object`.
    pub fn owns(&self, heap: &Heap, obj: PyObjectRef) -> (b: bool)
        ensures
            b == is_subclass(heap@, class_of(heap@, obj), self.ctx.types.object_type),
    {
        heap.is_subclass(heap.class_of(obj), self.ctx.types.object_type)
    }
}

} // verus!
