//! The session lifecycle: Building, then Open, then Closed, then Deleted,
//! one type per state, each transition consuming its value so no state can
//! be used twice. Each fallible transition is decided here from the status
//! the native call left behind; the runtime glue performs that call and
//! hands the status in. Every state borrows the graph the session was
//! built over, so none of them can outlive it.

use vstd::prelude::*;
use crate::error::{Error, Status, TF_OK, spec_code_from};
use crate::graph::{Graph, OpRecord};

verus! {

/// A builder bound to one graph, existing only to become a session.
pub struct SessionBuilder<'a> {
    graph: &'a Graph,
}

/// An open session bound to the graph it was built over.
pub struct Session<'a> {
    graph: &'a Graph,
}

/// A session after a successful close, kept only so that the final delete
/// can be asked for explicitly and its error observed.
pub struct ClosedSession<'a> {
    graph: &'a Graph,
}

impl<'a> SessionBuilder<'a> {
    /// The catalog of the graph this builder is bound to.
    pub closed spec fn graph_ops(&self) -> Seq<OpRecord> {
        self.graph@
    }

    /// Binds a builder to a graph. `options_allocated` reports whether the
    /// native session-options allocation yielded a handle; a null handle
    /// is refused as an object-creation failure, the one failure the
    /// native side signals without a status.
    pub fn with_graph(graph: &'a Graph, options_allocated: bool) -> (r: Result<
        SessionBuilder<'a>,
        Error,
    >)
        ensures
            r is Ok <==> options_allocated,
            r is Ok ==> r->Ok_0.graph_ops() == graph@,
            r is Err ==> r->Err_0 is ObjectCreationFailure,
    {
        if options_allocated {
            Ok(SessionBuilder { graph })
        } else {
            Err(Error::ObjectCreationFailure)
        }
    }

    /// Consumes the builder and decides the session creation from the
    /// status the native call left: on a success status an open session
    /// over the same graph, otherwise the translated error. Either way the
    /// builder is gone, and its native options are released by the glue on
    /// both paths.
    pub fn build(self, status: &Status) -> (r: Result<Session<'a>, Error>)
        ensures
            r is Ok <==> status.code == TF_OK,
            r is Ok ==> r->Ok_0.graph_ops() == self.graph_ops(),
            r is Err ==> (r->Err_0 matches Error::TFError(e)
                && Some(e.code_spec()) == spec_code_from(status.code)
                && e.message_spec() == status.message@),
    {
        match status.to_result() {
            Ok(()) => Ok(Session { graph: self.graph }),
            Err(err) => Err(Error::TFError(err)),
        }
    }

    /// The graph this builder is bound to.
    pub fn graph(&self) -> (r: &'a Graph)
        ensures
            r@ == self.graph_ops(),
    {
        self.graph
    }
}

impl<'a> Session<'a> {
    /// The catalog of the graph this session is bound to.
    pub closed spec fn graph_ops(&self) -> Seq<OpRecord> {
        self.graph@
    }

    /// Consumes the session and decides the close from the status the
    /// native close call left: on a success status the closed session,
    /// still bound to the same graph and awaiting its delete; otherwise
    /// the translated error, the glue having deleted the native handle at
    /// once so that no second teardown can touch it. The session is
    /// unusable either way.
    pub fn close(self, status: &Status) -> (r: Result<ClosedSession<'a>, Error>)
        ensures
            r is Ok <==> status.code == TF_OK,
            r is Ok ==> r->Ok_0.graph_ops() == self.graph_ops(),
            r is Err ==> (r->Err_0 matches Error::TFError(e)
                && Some(e.code_spec()) == spec_code_from(status.code)
                && e.message_spec() == status.message@),
    {
        match status.to_result() {
            Ok(()) => Ok(ClosedSession { graph: self.graph }),
            Err(err) => Err(Error::TFError(err)),
        }
    }

    /// The graph this session is bound to.
    pub fn graph(&self) -> (r: &'a Graph)
        ensures
            r@ == self.graph_ops(),
    {
        self.graph
    }
}

impl<'a> ClosedSession<'a> {
    /// The catalog of the graph this session was bound to.
    pub closed spec fn graph_ops(&self) -> Seq<OpRecord> {
        self.graph@
    }

    /// Consumes the closed session and decides the delete from the status
    /// the native delete call left: success on a success status, the
    /// translated error otherwise. The handle is gone regardless of the
    /// result.
    pub fn delete(self, status: &Status) -> (r: Result<(), Error>)
        ensures
            r is Ok <==> status.code == TF_OK,
            r is Err ==> (r->Err_0 matches Error::TFError(e)
                && Some(e.code_spec()) == spec_code_from(status.code)
                && e.message_spec() == status.message@),
    {
        match status.to_result() {
            Ok(()) => Ok(()),
            Err(err) => Err(Error::TFError(err)),
        }
    }

    /// The graph this session was bound to.
    pub fn graph(&self) -> (r: &'a Graph)
        ensures
            r@ == self.graph_ops(),
    {
        self.graph
    }
}

} // verus!
