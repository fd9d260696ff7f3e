use vstd::prelude::*;
use crate::error::ErrView;
use crate::pb::{ReqDataView, RespView, ValueView};

verus! {

/// The mathematical content of a store: which value each key of each
/// table carries. A key is addressed by the pair (table name, key name);
/// keys are unique within a table, and a table with no keys is the same
/// as an absent table.
pub type StoreModel = Map<(Seq<char>, Seq<char>), ValueView>;

/// The value stored under `key` in `table`, or `None` when absent.
/// Absence of the whole table reads the same as absence of the key.
pub open spec fn model_get(s: StoreModel, table: Seq<char>, key: Seq<char>) -> Option<ValueView> {
    if s.contains_key((table, key)) {
        Some(s[(table, key)])
    } else {
        None
    }
}

/// The named table of a store, as its own key-to-value map.
pub open spec fn table_of(s: StoreModel, table: Seq<char>) -> Map<Seq<char>, ValueView> {
    Map::new(|key: Seq<char>| s.contains_key((table, key)), |key: Seq<char>| s[(table, key)])
}

/// The store after inserting or overwriting one key.
pub open spec fn model_set(
    s: StoreModel,
    table: Seq<char>,
    key: Seq<char>,
    v: ValueView,
) -> StoreModel {
    s.insert((table, key), v)
}

/// The store after removing one key; removing an absent key changes
/// nothing.
pub open spec fn model_del(s: StoreModel, table: Seq<char>, key: Seq<char>) -> StoreModel {
    s.remove((table, key))
}

/// The previous value an overwrite or a delete hands back: the stored
/// value if the key was present, the default/empty value if not.
pub open spec fn prev_or_default(o: Option<ValueView>) -> ValueView {
    match o {
        Some(v) => v,
        None => ValueView::Null,
    }
}

/// What fetching one key answers: the value on a hit, `NotFound` on a
/// miss. A miss on a fetch is the one absence that is an error.
pub open spec fn hget_model(s: StoreModel, table: Seq<char>, key: Seq<char>) -> RespView {
    match model_get(s, table, key) {
        Some(v) => RespView::Value(v),
        None => RespView::Error(ErrView::NotFound(table, key)),
    }
}

/// What fetching a whole table answers: all its pairs, possibly none.
/// An empty or absent table is a success with no pairs, never an error.
pub open spec fn hgetall_model(s: StoreModel, table: Seq<char>) -> RespView {
    RespView::Pairs(table_of(s, table))
}

/// What storing one pair does and answers: without a payload it is an
/// explicit no-op succeeding with the default value; with one it
/// overwrites and answers the previous value (default on a fresh
/// insert).
pub open spec fn hset_model(
    s: StoreModel,
    table: Seq<char>,
    pair: Option<(Seq<char>, ValueView)>,
) -> (StoreModel, RespView) {
    match pair {
        None => (s, RespView::Value(ValueView::Null)),
        Some((key, v)) => (
            model_set(s, table, key, v),
            RespView::Value(prev_or_default(model_get(s, table, key))),
        ),
    }
}

/// What deleting one key does and answers: the removed value on a hit,
/// the default value on a miss — absence of a key to delete is not an
/// error, uniformly with the store-without-payload no-op.
pub open spec fn hdel_model(s: StoreModel, table: Seq<char>, key: Seq<char>) -> (
    StoreModel,
    RespView,
) {
    (model_del(s, table, key), RespView::Value(prev_or_default(model_get(s, table, key))))
}

/// Whether a request reaches the storage backend at all: a request
/// with no command, one with an unrecognized command, and a store with
/// no payload are answered without touching storage, so they can never
/// surface a backend error.
pub open spec fn reaches_storage(req: Option<ReqDataView>) -> bool {
    match req {
        Some(ReqDataView::Hset { table: _, pair }) => pair is Some,
        Some(ReqDataView::Unrecognized) => false,
        None => false,
        Some(_) => true,
    }
}

/// The whole dispatch table as one function: for every request and
/// every error-free store, the store it leaves and the response it
/// answers. Dispatch is total: a request with no command and a request
/// with an unrecognized command both get an error response, never a
/// dropped request.
pub open spec fn dispatch_model(req: Option<ReqDataView>, s: StoreModel) -> (
    StoreModel,
    RespView,
) {
    match req {
        Some(ReqDataView::Hget { table, key }) => (s, hget_model(s, table, key)),
        Some(ReqDataView::Hgetall { table }) => (s, hgetall_model(s, table)),
        Some(ReqDataView::Hset { table, pair }) => hset_model(s, table, pair),
        Some(ReqDataView::Hdel { table, key }) => hdel_model(s, table, key),
        Some(ReqDataView::Unrecognized) => (
            s,
            RespView::Error(ErrView::Internal("Not implemented"@)),
        ),
        None => (s, RespView::Error(ErrView::InvalidCommand("Request has no data"@))),
    }
}

} // verus!
