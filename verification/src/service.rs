use vstd::prelude::*;
use std::sync::Arc;
use vstd::rwlock::RwLock;
use crate::command_service::CommandService;
use crate::error::{ErrView, KvError};
use crate::memtable::MemTable;
use crate::model::{dispatch_model, reaches_storage, StoreModel};
use crate::pb::{
    is_storage_err, pairs_distinct, CommandRequest, CommandResponse, ReqDataView, RequestData,
    RespView, ValueView,
};
use crate::storage::Storage;

verus! {

/// Decodes the discriminant of a request, routes it to the matching
/// handler and answers its response. Dispatch is total: a request with
/// no command answers `InvalidCommand`, one with an unrecognized
/// command answers `Internal`, and no request is ever dropped.
///
/// On an error-free run the store left behind and the response are
/// exactly `dispatch_model` of the request and the store found; only a
/// backend failure departs from that, surfaces as an error response,
/// and leaves the store unchanged. A backend that is owed success
/// (`infallible`) never takes that branch.
pub fn dispatch<S: Storage>(cmd: CommandRequest, store: &mut S) -> (r: CommandResponse)
    requires
        old(store).wf(),
    ensures
        final(store).wf(),
        final(store).infallible() == old(store).infallible(),
        old(store).infallible() ==> !is_storage_err(r@),
        !reaches_storage(cmd@) ==> !is_storage_err(r@),
        r matches CommandResponse::Pairs(ps) ==> pairs_distinct(ps@),
        if is_storage_err(r@) {
            final(store).contents() == old(store).contents()
        } else {
            (final(store).contents(), r@) == dispatch_model(cmd@, old(store).contents())
        },
{
    match cmd.request_data {
        Some(RequestData::Hget(param)) => param.execute(store),
        Some(RequestData::Hgetall(param)) => param.execute(store),
        Some(RequestData::Hset(param)) => param.execute(store),
        Some(RequestData::Hdel(param)) => param.execute(store),
        Some(RequestData::Unrecognized) => CommandResponse::Error(
            KvError::Internal("Not implemented".to_owned()),
        ),
        None => CommandResponse::Error(KvError::InvalidCommand("Request has no data".to_owned())),
    }
}

/// The state a service shares: one storage instance behind a lock whose
/// invariant carries the backend's well-formedness and failure policy.
#[verifier::reject_recursive_types(Store)]
pub struct ServiceInner<Store> {
    store: RwLock<Store, spec_fn(Store) -> bool>,
    infallible: Ghost<bool>,
}

/// A shared, cloneable facade over one storage instance. Cloning shares
/// the same underlying store, so concurrent callers each hold an
/// independent handle to the same logical store; the lock arbitrates
/// their access, and `execute` is the sole entry point.
#[verifier::reject_recursive_types(Store)]
pub struct Service<Store = MemTable> {
    inner: Arc<ServiceInner<Store>>,
}

impl<Store: Storage> Service<Store> {
    /// Whether the shared backend is owed success; fixed when the
    /// service is built.
    pub closed spec fn infallible(&self) -> bool {
        self.inner.infallible@
    }

    /// The facade's well-formedness: the lock holds exactly the
    /// well-formed stores of the recorded failure policy.
    pub closed spec fn wf(&self) -> bool {
        forall|s: Store|
            #[trigger] self.inner.store.inv(s) <==> (s.wf() && s.infallible()
                == self.inner.infallible@)
    }

    /// Wraps one storage instance into a shareable service.
    pub fn new(store: Store) -> (r: Self)
        requires
            store.wf(),
        ensures
            r.wf(),
            r.infallible() == store.infallible(),
    {
        let ghost fallible = store.infallible();
        let lock = RwLock::new(
            store,
            Ghost(|s: Store| s.wf() && s.infallible() == fallible),
        );
        Service { inner: Arc::new(ServiceInner { store: lock, infallible: Ghost(fallible) }) }
    }

    /// The sole public entry point: delegates the request to the
    /// dispatcher under the lock. Every request is answered with
    /// exactly one response, and the response is one that `dispatch`
    /// answers on some state of the shared store — another handle may
    /// run between any two calls, so no more is promised of the state.
    /// A service over an infallible backend never answers a backend
    /// error.
    pub fn execute(&self, cmd: CommandRequest) -> (r: CommandResponse)
        requires
            self.wf(),
        ensures
            self.infallible() ==> !is_storage_err(r@),
            !reaches_storage(cmd@) ==> !is_storage_err(r@),
            !is_storage_err(r@) ==> exists|s: StoreModel| r@ == dispatch_model(cmd@, s).1,
            r matches CommandResponse::Pairs(ps) ==> pairs_distinct(ps@),
            cmd@ is None ==> r@ == RespView::Error(
                ErrView::InvalidCommand("Request has no data"@),
            ),
            cmd@ == Some(ReqDataView::Unrecognized) ==> r@ == RespView::Error(
                ErrView::Internal("Not implemented"@),
            ),
            (cmd@ matches Some(ReqDataView::Hset { table: _, pair: None })) ==> r@
                == RespView::Value(ValueView::Null),
    {
        let (mut store, handle) = self.inner.store.acquire_write();
        let ghost found = store.contents();
        let result = dispatch(cmd, &mut store);
        proof {
            if !is_storage_err(result@) {
                assert(result@ == dispatch_model(cmd@, found).1);
            }
        }
        handle.release_write(store);
        result
    }
}

impl<Store> Clone for Service<Store> {
    /// Cloning shares the same underlying storage instance, not a copy
    /// of its contents.
    fn clone(&self) -> (r: Self)
        ensures
            r == *self,
    {
        Service { inner: Arc::clone(&self.inner) }
    }
}

} // verus!
