use vstd::prelude::*;
use crate::operation::Operation;

verus! {

/// One of an operation's output edge slots: the operation together with
/// the slot's zero-based position. It borrows the operation's graph and
/// must not outlive it. A slot handle is only constructed through the
/// counted iteration of `Operation::outputs`, so its position is in range
/// by contract rather than by a runtime guard.
#[derive(Clone, Copy)]
pub struct Output<'a> {
    operation: Operation<'a>,
    index: usize,
}

impl<'a> Output<'a> {
    /// The operation this slot belongs to.
    pub closed spec fn operation_spec(self) -> Operation<'a> {
        self.operation
    }

    /// The slot's zero-based position among the operation's outputs.
    pub closed spec fn index_spec(self) -> int {
        self.index as int
    }

    pub(crate) fn new(operation: Operation<'a>, index: usize) -> (r: Output<'a>)
        requires
            index < operation.record().num_outputs,
        ensures
            r.operation_spec() == operation,
            r.index_spec() == index,
    {
        Output { operation, index }
    }

    /// The operation this slot belongs to.
    pub fn operation(&self) -> (r: Operation<'a>)
        ensures
            r == self.operation_spec(),
    {
        self.operation
    }

    /// The slot's zero-based position among the operation's outputs.
    pub fn index(&self) -> (r: usize)
        ensures
            r == self.index_spec(),
    {
        self.index
    }
}

} // verus!
