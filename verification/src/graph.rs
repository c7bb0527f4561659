use vstd::prelude::*;
use vstd::string::StrSliceExecFns;
use crate::error::{Error, Status, TF_OK, spec_code_from};
use crate::operation::Operation;

verus! {

/// What the native catalog records of one operation, as plain values: its
/// registered name, its kind tag, its assigned device (empty when unset),
/// and how many input and output edge slots it declares. The runtime glue
/// reads these off the native operation handles after an import; a graph
/// is a read-only catalog of them.
pub struct OpRecord {
    pub name: String,
    pub op_type: String,
    pub device: String,
    pub num_inputs: usize,
    pub num_outputs: usize,
}

/// An imported graph: the read-only catalog of its operations. Nothing
/// mutates a graph after import; operations are handed out only as
/// borrowed views that cannot outlive it.
pub struct Graph {
    ops: Vec<OpRecord>,
}

impl View for Graph {
    type V = Seq<OpRecord>;

    closed spec fn view(&self) -> Seq<OpRecord> {
        self.ops@
    }
}

impl Graph {
    /// Catalog names reach this layer from C strings, which cannot carry
    /// an embedded NUL.
    pub open spec fn wf(&self) -> bool {
        forall|i: int| 0 <= i < self@.len() ==> !(#[trigger] self@[i]).name@.contains('\0')
    }

    /// Decides an import: the native import call ran over the serialized
    /// bytes and left `status`; `records` is the catalog it built. On a
    /// success status, ownership of that catalog passes to the returned
    /// graph; on any other status the catalog is released and the
    /// translated error is returned instead, so no partially valid graph
    /// escapes.
    pub fn from_import(status: &Status, records: Vec<OpRecord>) -> (r: Result<Graph, Error>)
        ensures
            r is Ok <==> status.code == TF_OK,
            r is Ok ==> r->Ok_0@ == records@,
            r is Err ==> (r->Err_0 matches Error::TFError(e)
                && Some(e.code_spec()) == spec_code_from(status.code)
                && e.message_spec() == status.message@),
    {
        match status.to_result() {
            Ok(()) => Ok(Graph { ops: records }),
            Err(err) => Err(Error::TFError(err)),
        }
    }

    pub(crate) fn record_at(&self, index: usize) -> (r: &OpRecord)
        requires
            index < self@.len(),
        ensures
            *r == self@[index as int],
    {
        &self.ops[index]
    }

    /// The operation with the given name, if the catalog holds one. A name
    /// with an embedded NUL is incompatible with the native C-string
    /// convention and never matches.
    pub fn operation_by_name<'a>(&'a self, name: &str) -> (r: Option<Operation<'a>>)
        ensures
            r is Some <==> (!name@.contains('\0') && (exists|i: int|
                0 <= i < self@.len() && (#[trigger] self@[i]).name@ == name@)),
            r is Some ==> ({
                let op = r->Some_0;
                &&& op.parent() == self@
                &&& 0 <= op.idx() < self@.len()
                &&& op.record().name@ == name@
                &&& forall|j: int| 0 <= j < op.idx() ==> (#[trigger] self@[j]).name@ != name@
            }),
    {
        let len = name.unicode_len();
        let mut i: usize = 0;
        while i < len
            invariant
                len == name@.len(),
                i <= len,
                forall|j: int| 0 <= j < i ==> name@[j] != '\0',
            decreases len - i,
        {
            if name.get_char(i) == '\0' {
                assert(name@.contains('\0'));
                return None;
            }
            i += 1;
        }
        assert(!name@.contains('\0'));

        let query = name.to_owned();
        let count = self.ops.len();
        let mut k: usize = 0;
        while k < count
            invariant
                count == self@.len(),
                k <= count,
                query@ == name@,
                !name@.contains('\0'),
                forall|j: int| 0 <= j < k ==> (#[trigger] self@[j]).name@ != name@,
            decreases count - k,
        {
            if self.ops[k].name.eq(&query) {
                assert(self@[k as int].name@ == name@);
                return Some(Operation::new(self, k));
            }
            k += 1;
        }
        None
    }

    /// Every operation in the catalog, one borrowed view per record, in
    /// the catalog's own enumeration order. Each call starts a fresh
    /// enumeration from position zero.
    pub fn operations<'a>(&'a self) -> (r: Vec<Operation<'a>>)
        ensures
            r@.len() == self@.len(),
            forall|i: int|
                0 <= i < r@.len() ==> (#[trigger] r@[i]).parent() == self@ && r@[i].idx() == i,
    {
        let count = self.ops.len();
        let mut all: Vec<Operation<'a>> = Vec::new();
        let mut k: usize = 0;
        while k < count
            invariant
                count == self@.len(),
                k <= count,
                all@.len() == k,
                forall|i: int|
                    0 <= i < k ==> (#[trigger] all@[i]).parent() == self@ && all@[i].idx() == i,
            decreases count - k,
        {
            all.push(Operation::new(self, k));
            k += 1;
        }
        all
    }
}

/// A name lookup in a graph finds an operation exactly when the graph's
/// enumeration holds an operation of that name. The left side is the
/// condition under which `operation_by_name` returns a match; with
/// catalog names free of embedded NUL, its NUL guard refuses only names
/// that no catalog entry can carry, so the guard never breaks the
/// equivalence.
pub proof fn lemma_lookup_iff_enumerated(g: Graph, name: Seq<char>)
    requires
        g.wf(),
    ensures
        (!name.contains('\0') && (exists|i: int|
            0 <= i < g@.len() && (#[trigger] g@[i]).name@ == name)) <==> (exists|i: int|
            0 <= i < g@.len() && (#[trigger] g@[i]).name@ == name),
{
    if exists|i: int| 0 <= i < g@.len() && (#[trigger] g@[i]).name@ == name {
        let i = choose|i: int| 0 <= i < g@.len() && (#[trigger] g@[i]).name@ == name;
        assert(!g@[i].name@.contains('\0'));
    }
}

} // verus!
