use vstd::prelude::*;
use crate::error::KvError;
use crate::model::{hdel_model, hget_model, hgetall_model, hset_model, StoreModel};
use crate::pb::{
    is_storage_err, pairs_distinct, CommandResponse, Hdel, Hget, Hgetall, Hset, RespView, Value,
};
use crate::storage::Storage;

verus! {

/// One handler per command kind: a pure transformation from the
/// command's parameters and the storage handle to a response.
///
/// `step` is the handler's whole meaning on an error-free store: the
/// store it leaves and the response it answers. `execute` either
/// realizes `step` exactly, or — only when the backend itself failed —
/// surfaces that failure as an error response and leaves the store as
/// it was. A handler never panics and never drops a request.
pub trait CommandService: Sized {
    /// What this command does to an error-free store, and what it
    /// answers.
    spec fn step(&self, s: StoreModel) -> (StoreModel, RespView);

    /// Whether this command reaches the storage backend at all. One
    /// that does not (a store with no payload) can never surface a
    /// backend error: it is an explicit no-op, not a storage call.
    spec fn touches_storage(&self) -> bool;

    /// Runs the command against the storage handle.
    fn execute<S: Storage>(self, store: &mut S) -> (r: CommandResponse)
        requires
            old(store).wf(),
        ensures
            final(store).wf(),
            final(store).infallible() == old(store).infallible(),
            old(store).infallible() ==> !is_storage_err(r@),
            !self.touches_storage() ==> !is_storage_err(r@),
            r matches CommandResponse::Pairs(ps) ==> pairs_distinct(ps@),
            if is_storage_err(r@) {
                final(store).contents() == old(store).contents()
            } else {
                (final(store).contents(), r@) == self.step(old(store).contents())
            },
    ;
}

impl CommandService for Hget {
    open spec fn step(&self, s: StoreModel) -> (StoreModel, RespView) {
        (s, hget_model(s, self.table@, self.key@))
    }

    open spec fn touches_storage(&self) -> bool {
        true
    }

    fn execute<S: Storage>(self, store: &mut S) -> (r: CommandResponse) {
        match store.get(&self.table, &self.key) {
            Ok(Some(value)) => CommandResponse::Value(value),
            Ok(None) => CommandResponse::Error(KvError::NotFound(self.table, self.key)),
            Err(e) => CommandResponse::Error(KvError::Storage(e.message)),
        }
    }
}

impl CommandService for Hgetall {
    open spec fn step(&self, s: StoreModel) -> (StoreModel, RespView) {
        (s, hgetall_model(s, self.table@))
    }

    open spec fn touches_storage(&self) -> bool {
        true
    }

    fn execute<S: Storage>(self, store: &mut S) -> (r: CommandResponse) {
        match store.get_all(&self.table) {
            Ok(pairs) => CommandResponse::Pairs(pairs),
            Err(e) => CommandResponse::Error(KvError::Storage(e.message)),
        }
    }
}

impl CommandService for Hset {
    open spec fn step(&self, s: StoreModel) -> (StoreModel, RespView) {
        hset_model(
            s,
            self.table@,
            match &self.pair {
                Some(pair) => Some(pair@),
                None => None,
            },
        )
    }

    open spec fn touches_storage(&self) -> bool {
        self.pair is Some
    }

    fn execute<S: Storage>(self, store: &mut S) -> (r: CommandResponse) {
        match self.pair {
            Some(pair) => match store.set(&self.table, pair.key, pair.value) {
                Ok(Some(value)) => CommandResponse::Value(value),
                Ok(None) => CommandResponse::Value(Value::default()),
                Err(e) => CommandResponse::Error(KvError::Storage(e.message)),
            },
            None => CommandResponse::Value(Value::default()),
        }
    }
}

impl CommandService for Hdel {
    open spec fn step(&self, s: StoreModel) -> (StoreModel, RespView) {
        hdel_model(s, self.table@, self.key@)
    }

    open spec fn touches_storage(&self) -> bool {
        true
    }

    fn execute<S: Storage>(self, store: &mut S) -> (r: CommandResponse) {
        match store.del(&self.table, &self.key) {
            Ok(Some(value)) => CommandResponse::Value(value),
            Ok(None) => CommandResponse::Value(Value::default()),
            Err(e) => CommandResponse::Error(KvError::Storage(e.message)),
        }
    }
}

} // verus!
