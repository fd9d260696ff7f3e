use vstd::prelude::*;

verus! {

/// A failure reported by a storage backend, surfaced opaquely: the
/// dispatch layer never inspects the message, it only carries it into
/// an error response.
#[derive(Debug, PartialEq)]
pub struct StorageError {
    pub message: String,
}

impl View for StorageError {
    type V = Seq<char>;

    open spec fn view(&self) -> Seq<char> {
        self.message@
    }
}

/// The error taxonomy of the dispatch layer: a requested key absent on a
/// fetch, a malformed or empty request, an unhandled command variant, or
/// a backend failure carried through opaquely.
#[derive(Debug, PartialEq)]
pub enum KvError {
    /// The requested key is absent from the named table (table, key).
    NotFound(String, String),
    /// The request is malformed or carries no command.
    InvalidCommand(String),
    /// A recognized but unimplemented command variant.
    Internal(String),
    /// A backend-specific failure, surfaced with its message.
    Storage(String),
}

/// Mathematical image of a `KvError`.
pub enum ErrView {
    NotFound(Seq<char>, Seq<char>),
    InvalidCommand(Seq<char>),
    Internal(Seq<char>),
    Storage(Seq<char>),
}

impl View for KvError {
    type V = ErrView;

    open spec fn view(&self) -> ErrView {
        match self {
            KvError::NotFound(t, k) => ErrView::NotFound(t@, k@),
            KvError::InvalidCommand(m) => ErrView::InvalidCommand(m@),
            KvError::Internal(m) => ErrView::Internal(m@),
            KvError::Storage(m) => ErrView::Storage(m@),
        }
    }
}

} // verus!
