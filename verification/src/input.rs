use vstd::prelude::*;
use crate::operation::Operation;

verus! {

/// One of an operation's input edge slots: the operation together with
/// the slot's zero-based position. It borrows the operation's graph and
/// must not outlive it. A slot handle is only constructed through the
/// counted iteration of `Operation::inputs`, so its position is in range
/// by contract rather than by a runtime guard.
#[derive(Clone, Copy)]
pub struct Input<'a> {
    operation: Operation<'a>,
    index: usize,
}

impl<'a> Input<'a> {
    /// The operation this slot belongs to.
    pub closed spec fn operation_spec(self) -> Operation<'a> {
        self.operation
    }

    /// The slot's zero-based position among the operation's inputs.
    pub closed spec fn index_spec(self) -> int {
        self.index as int
    }

    pub(crate) fn new(operation: Operation<'a>, index: usize) -> (r: Input<'a>)
        requires
            index < operation.record().num_inputs,
        ensures
            r.operation_spec() == operation,
            r.index_spec() == index,
    {
        Input { operation, index }
    }

    /// The operation this slot belongs to.
    pub fn operation(&self) -> (r: Operation<'a>)
        ensures
            r == self.operation_spec(),
    {
        self.operation
    }

    /// The slot's zero-based position among the operation's inputs.
    pub fn index(&self) -> (r: usize)
        ensures
            r == self.index_spec(),
    {
        self.index
    }
}

} // verus!
