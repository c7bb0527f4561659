use vstd::prelude::*;
use crate::graph::{Graph, OpRecord};
use crate::input::Input;
use crate::output::Output;

verus! {

/// A read-only view of one operation in a graph's catalog. It owns
/// nothing: it names a position in the catalog of the graph it borrows,
/// and so can never outlive that graph.
#[derive(Clone, Copy)]
pub struct Operation<'a> {
    graph: &'a Graph,
    index: usize,
}

impl<'a> Operation<'a> {
    /// A position in a catalog is only ever taken from that catalog's own
    /// enumeration or lookup, so it is always in range.
    #[verifier::type_invariant]
    spec fn inv(self) -> bool {
        self.index < self.graph@.len()
    }

    /// The catalog of the graph this operation belongs to.
    pub closed spec fn parent(self) -> Seq<OpRecord> {
        self.graph@
    }

    /// The operation's position in its graph's catalog.
    pub closed spec fn idx(self) -> int {
        self.index as int
    }

    /// The catalog record this operation names.
    pub open spec fn record(self) -> OpRecord {
        self.parent()[self.idx()]
    }

    pub(crate) fn new(graph: &'a Graph, index: usize) -> (r: Operation<'a>)
        requires
            index < graph@.len(),
        ensures
            r.parent() == graph@,
            r.idx() == index,
    {
        Operation { graph, index }
    }

    /// The operation's registered name.
    pub fn name(&self) -> (r: &'a str)
        ensures
            r@ == self.record().name@,
    {
        proof {
            use_type_invariant(&*self);
        }
        self.graph.record_at(self.index).name.as_str()
    }

    /// The operation's kind tag.
    pub fn op_type(&self) -> (r: &'a str)
        ensures
            r@ == self.record().op_type@,
    {
        proof {
            use_type_invariant(&*self);
        }
        self.graph.record_at(self.index).op_type.as_str()
    }

    /// The device the operation is assigned to; empty when unset.
    pub fn device(&self) -> (r: &'a str)
        ensures
            r@ == self.record().device@,
    {
        proof {
            use_type_invariant(&*self);
        }
        self.graph.record_at(self.index).device.as_str()
    }

    /// One handle per input edge slot, in declaration order.
    pub fn inputs(&self) -> (r: Vec<Input<'a>>)
        ensures
            r@.len() == self.record().num_inputs,
            forall|i: int|
                0 <= i < r@.len() ==> (#[trigger] r@[i]).operation_spec() == *self
                    && r@[i].index_spec() == i,
    {
        proof {
            use_type_invariant(&*self);
        }
        let cnt = self.graph.record_at(self.index).num_inputs;
        let mut slots: Vec<Input<'a>> = Vec::new();
        let mut i: usize = 0;
        while i < cnt
            invariant
                i <= cnt,
                cnt == self.record().num_inputs,
                slots@.len() == i,
                forall|j: int|
                    0 <= j < i ==> (#[trigger] slots@[j]).operation_spec() == *self
                        && slots@[j].index_spec() == j,
            decreases cnt - i,
        {
            slots.push(Input::new(*self, i));
            i += 1;
        }
        slots
    }

    /// One handle per output edge slot, in declaration order.
    pub fn outputs(&self) -> (r: Vec<Output<'a>>)
        ensures
            r@.len() == self.record().num_outputs,
            forall|i: int|
                0 <= i < r@.len() ==> (#[trigger] r@[i]).operation_spec() == *self
                    && r@[i].index_spec() == i,
    {
        proof {
            use_type_invariant(&*self);
        }
        let cnt = self.graph.record_at(self.index).num_outputs;
        let mut slots: Vec<Output<'a>> = Vec::new();
        let mut i: usize = 0;
        while i < cnt
            invariant
                i <= cnt,
                cnt == self.record().num_outputs,
                slots@.len() == i,
                forall|j: int|
                    0 <= j < i ==> (#[trigger] slots@[j]).operation_spec() == *self
                        && slots@[j].index_spec() == j,
            decreases cnt - i,
        {
            slots.push(Output::new(*self, i));
            i += 1;
        }
        slots
    }
}

} // verus!
