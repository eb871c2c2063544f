//! The registry of tests, for when the test runner cannot be handed all of them.
use vstd::prelude::*;

use crate::descriptor::DatatestTestDesc;
use crate::descriptor::TestDescriptor;
use crate::harness::Harness;

verus! {

/// A registered test, linked to the one registered before it.
#[verifier::reject_recursive_types(H)]
pub struct RegistrationNode<'a, H: Harness> {
    pub descriptor: &'a dyn TestDescriptor<H>,
    pub next: Option<&'a RegistrationNode<'a, H>>,
}

/// The descriptors of a chain of registered tests.
pub open spec fn chain<'a, H: Harness>(first: Option<&'a RegistrationNode<'a, H>>) -> Seq<
    DatatestTestDesc<'a, H>,
>
    decreases first,
{
    match first {
        Some(node) => seq![node.descriptor.datatest_desc()] + chain(node.next),
        None => Seq::empty(),
    }
}

/// The tests registered so far, and whether a runner has looked at them.
#[verifier::reject_recursive_types(H)]
pub struct Registry<'a, H: Harness> {
    pub head: Option<&'a RegistrationNode<'a, H>>,
    pub used: bool,
}

impl<'a, H: Harness> Registry<'a, H> {
    /// The descriptors of the registered tests, the last one first.
    pub open spec fn descriptors(&self) -> Seq<DatatestTestDesc<'a, H>> {
        chain(self.head)
    }

    /// A registry without tests, at which no runner has looked.
    pub fn new() -> (registry: Self)
        ensures
            registry.head is None,
            registry.descriptors() == Seq::<DatatestTestDesc<'a, H>>::empty(),
            !registry.used,
    {
        Registry { head: None, used: false }
    }

    /// Looks at the registered tests: lists their descriptors, the last one first, and remembers that
    /// they were looked at.
    pub fn look(&mut self) -> (descriptors: Vec<DatatestTestDesc<'a, H>>)
        ensures
            descriptors@ == old(self).descriptors(),
            final(self).head == old(self).head,
            final(self).used,
    {
        self.used = true;
        let mut descriptors: Vec<DatatestTestDesc<'a, H>> = Vec::new();
        let mut current: Option<&'a RegistrationNode<'a, H>> = self.head;
        loop
            invariant
                self.head == old(self).head,
                self.used,
                descriptors@ + chain(current) == chain(old(self).head),
            decreases current,
        {
            match current {
                Some(node) => {
                    let ghost before = descriptors@;
                    let desc = node.descriptor.as_datatest_desc();
                    descriptors.push(desc);
                    assert(before + (seq![desc] + chain(node.next)) == descriptors@ + chain(
                        node.next,
                    ));
                    current = node.next;
                },
                None => {
                    assert(descriptors@ + chain(current) == descriptors@);
                    return descriptors;
                },
            }
        }
    }
}

/// The node once it is registered in front of `head`.
pub open spec fn linked<'a, H: Harness>(
    node: RegistrationNode<'a, H>,
    head: Option<&'a RegistrationNode<'a, H>>,
) -> RegistrationNode<'a, H> {
    RegistrationNode { next: head, ..node }
}

/// Registers a test, in front of those that are registered already.
pub fn register<'a, H: Harness>(
    registry: &mut Registry<'a, H>,
    new: &'a mut RegistrationNode<'a, H>,
)
    ensures
        *final(new) == linked(*old(new), old(registry).head),
        final(registry).head == Some(&*final(new)),
        final(registry).descriptors() == seq![old(new).descriptor.datatest_desc()]
            + old(registry).descriptors(),
        final(registry).used == old(registry).used,
{
    new.next = registry.head;
    registry.head = Some(new);
}

/// Makes sure that the registered tests were looked at: else no test runner was plugged in, neither
/// by replacing the harness nor by overriding its runner, and the tests would silently not run.
pub fn check_test_runner<'a, H: Harness>(registry: &Registry<'a, H>) -> (result: Result<
    (),
    &'static str,
>)
    ensures
        match result {
            Ok(_) => registry.used,
            Err(message) => !registry.used && message@ == "test runner was not configured!"@,
        },
{
    if registry.used {
        Ok(())
    } else {
        Err("test runner was not configured!")
    }
}

} // verus!
