use vstd::prelude::*;
use crate::error::StorageError;
use crate::model::{model_del, model_get, model_set, table_of, StoreModel};
use crate::pb::{pairs_distinct, pairs_view, Kvpair, Value, ValueView};

verus! {

/// The image of an optional stored value.
pub open spec fn opt_value_view(o: Option<Value>) -> Option<ValueView> {
    match o {
        Some(v) => Some(v@),
        None => None,
    }
}

/// The capability contract every storage backend must satisfy: get, set,
/// delete and scan-all over named tables. The dispatch layer is written
/// only against this contract, never against a concrete backend.
///
/// A backend describes itself through three spec functions: `wf` is the
/// internal well-formedness its operations keep, `contents` is the store
/// it currently represents, and `infallible` says whether its operations
/// are owed success. A backend that can fail (a disk, a remote proxy)
/// answers errors through the `Result`; a missing key is never such an
/// error, it is an explicit absent outcome.
pub trait Storage: Sized {
    /// The backend's internal well-formedness; every operation keeps it.
    spec fn wf(&self) -> bool;

    /// The store this backend currently represents.
    spec fn contents(&self) -> StoreModel;

    /// Whether this backend's operations are owed success. A backend
    /// with no failure mode (an in-memory table) answers `true`, and its
    /// operations then never return an error.
    spec fn infallible(&self) -> bool;

    /// The stored value, or an explicit absent outcome when the key does
    /// not exist; an error only for a backend-level failure.
    fn get(&self, table: &String, key: &String) -> (r: Result<Option<Value>, StorageError>)
        requires
            self.wf(),
        ensures
            self.infallible() ==> r is Ok,
            r matches Ok(o) ==> opt_value_view(o) == model_get(self.contents(), table@, key@),
    ;

    /// Every pair of the named table exactly once, in backend-defined
    /// order; an empty or absent table is a success with no pairs.
    fn get_all(&self, table: &String) -> (r: Result<Vec<Kvpair>, StorageError>)
        requires
            self.wf(),
        ensures
            self.infallible() ==> r is Ok,
            r matches Ok(v) ==> pairs_view(v@) == table_of(self.contents(), table@)
                && pairs_distinct(v@),
    ;

    /// Inserts or overwrites; returns the previous value if one existed,
    /// `None` on a fresh insert. On an error the store is unchanged.
    fn set(&mut self, table: &String, key: String, value: Value) -> (r: Result<
        Option<Value>,
        StorageError,
    >)
        requires
            old(self).wf(),
        ensures
            final(self).wf(),
            final(self).infallible() == old(self).infallible(),
            old(self).infallible() ==> r is Ok,
            match r {
                Ok(o) => final(self).contents() == model_set(old(self).contents(), table@, key@, value@)
                    && opt_value_view(o) == model_get(old(self).contents(), table@, key@),
                Err(_) => final(self).contents() == old(self).contents(),
            },
    ;

    /// Removes the key if present and returns the removed value, `None`
    /// when it was absent (absence is not an error). On an error the
    /// store is unchanged.
    fn del(&mut self, table: &String, key: &String) -> (r: Result<Option<Value>, StorageError>)
        requires
            old(self).wf(),
        ensures
            final(self).wf(),
            final(self).infallible() == old(self).infallible(),
            old(self).infallible() ==> r is Ok,
            match r {
                Ok(o) => final(self).contents() == model_del(old(self).contents(), table@, key@)
                    && opt_value_view(o) == model_get(old(self).contents(), table@, key@),
                Err(_) => final(self).contents() == old(self).contents(),
            },
    ;
}

} // verus!
