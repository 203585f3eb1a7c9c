use vstd::prelude::*;

verus! {

/// The continuation protocol that lets builders nest: a consumer that accepts
/// a finished artifact of type `A` and produces some caller-defined result.
///
/// An enclosing builder implements `Invoke` to resume its own chain once a
/// nested builder completes; `Identity` closes a chain by handing the
/// artifact straight back. `invoke_ens` is the implementor's contract: it
/// relates the consumed artifact to the produced result, and every result of
/// `invoke` is proved to satisfy it.
pub trait Invoke<A>: Sized {
    /// What the continuation produces.
    type Output;

    /// The relation every result of `invoke` satisfies.
    spec fn invoke_ens(self, arg: A, out: Self::Output) -> bool;

    /// Consumes `arg` and produces the continuation's result.
    fn invoke(self, arg: A) -> (out: Self::Output)
        ensures
            self.invoke_ens(arg, out),
    ;
}

/// The identity continuation: finishing a build hands the artifact itself
/// back to the caller.
#[derive(Clone, Copy, PartialEq, Eq, Structural, Debug)]
pub struct Identity;

impl<A> Invoke<A> for Identity {
    type Output = A;

    open spec fn invoke_ens(self, arg: A, out: A) -> bool {
        out == arg
    }

    fn invoke(self, arg: A) -> (out: A) {
        arg
    }
}

} // verus!
