//! The model context: one handle for each operation of the protocol, built
//! once and read many times.
//!
//! The graph itself is imported and searched by the caller. The builder here
//! decides what follows from each answer: whether to go on, which name to
//! look up next, when the context is complete, and which error ends the
//! construction. A context exists only when the import succeeded and every
//! name was found.

use crate::protocol::Operation;
use crate::protocol::OPERATION_COUNT;
use vstd::prelude::*;

verus! {

/// Why no context could be built.
#[derive(Clone, Copy, Debug, PartialEq, Eq, Structural)]
pub enum ModelError {
    /// The bytes of the graph could not be imported.
    GraphImport,
    /// The graph has no operation of the name that the protocol asks for.
    MissingOperation(Operation),
}

/// The handles of all operations of the protocol, in resolution order.
#[derive(Debug)]
pub struct ModelContext<H> {
    handles: Vec<H>,
}

/// A context under construction: the import succeeded, and the handles of
/// the first operations have been found, but not yet of all.
#[derive(Debug)]
pub struct ContextBuilder<H> {
    resolved: Vec<H>,
}

/// What a builder has become after one more handle.
#[derive(Debug)]
pub enum Build<H> {
    /// More names are to be looked up.
    Pending(ContextBuilder<H>),
    /// Every name was found.
    Ready(ModelContext<H>),
}

impl<H> View for ModelContext<H> {
    type V = Seq<H>;

    closed spec fn view(&self) -> Seq<H> {
        self.handles@
    }
}

impl<H> View for ContextBuilder<H> {
    type V = Seq<H>;

    closed spec fn view(&self) -> Seq<H> {
        self.resolved@
    }
}

impl<H> ModelContext<H> {
    #[verifier::type_invariant]
    spec fn complete(self) -> bool {
        self.handles.len() == OPERATION_COUNT
    }

    /// The handle of an operation.
    pub fn handle(&self, operation: Operation) -> (handle: &H)
        ensures
            self@.len() == OPERATION_COUNT,
            *handle == self@[operation.index_spec()],
    {
        proof {
            use_type_invariant(self);
        }
        &self.handles[operation.index()]
    }
}

impl<H> ContextBuilder<H> {
    #[verifier::type_invariant]
    spec fn incomplete(self) -> bool {
        self.resolved.len() < OPERATION_COUNT
    }

    /// The operation whose name is to be looked up next.
    pub open spec fn pending_spec(self) -> Operation {
        Operation::at_spec(self@.len() as int)->Some_0
    }

    /// Starts the construction from the outcome of the import. A graph that
    /// could not be imported ends it at once.
    pub fn begin(imported: bool) -> (outcome: Result<ContextBuilder<H>, ModelError>)
        ensures
            imported ==> outcome is Ok && outcome->Ok_0@ == Seq::<H>::empty(),
            !imported ==> outcome == Err::<ContextBuilder<H>, ModelError>(ModelError::GraphImport),
    {
        if imported {
            Ok(ContextBuilder { resolved: Vec::new() })
        } else {
            Err(ModelError::GraphImport)
        }
    }

    /// The operation whose name is to be looked up next. There always is one.
    pub fn pending(&self) -> (operation: Operation)
        ensures
            self@.len() < OPERATION_COUNT,
            operation == self.pending_spec(),
            operation.index_spec() == self@.len(),
    {
        proof {
            use_type_invariant(self);
        }
        match Operation::at(self.resolved.len()) {
            Some(operation) => operation,
            None => Operation::MinSize,
        }
    }

    /// Takes the answer to the lookup of the pending operation. A name that
    /// was not found ends the construction. A handle is kept, and the builder
    /// either waits for the next name or, with the last handle, turns into
    /// the context.
    pub fn resolve(self, found: Option<H>) -> (outcome: Result<Build<H>, ModelError>)
        ensures
            self@.len() < OPERATION_COUNT,
            match outcome {
                Ok(Build::Pending(builder)) => {
                    &&& found is Some
                    &&& builder@ == self@.push(found->Some_0)
                    &&& builder@.len() < OPERATION_COUNT
                },
                Ok(Build::Ready(context)) => {
                    &&& found is Some
                    &&& context@ == self@.push(found->Some_0)
                    &&& context@.len() == OPERATION_COUNT
                },
                Err(error) => {
                    &&& found is None
                    &&& error == ModelError::MissingOperation(self.pending_spec())
                },
            },
    {
        proof {
            use_type_invariant(&self);
        }
        let pending = self.pending();
        match found {
            None => Err(ModelError::MissingOperation(pending)),
            Some(handle) => {
                let mut resolved = self.resolved;
                resolved.push(handle);
                if resolved.len() == OPERATION_COUNT {
                    Ok(Build::Ready(ModelContext { handles: resolved }))
                } else {
                    Ok(Build::Pending(ContextBuilder { resolved }))
                }
            },
        }
    }
}

} // verus!
