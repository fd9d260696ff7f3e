use vstd::prelude::*;
use crate::error::ErrView;
use crate::model::{
    dispatch_model, model_del, model_get, prev_or_default, table_of, StoreModel,
};
use crate::pb::{is_success, pairs_view, Kvpair, ReqDataView, RespView, ValueView};

verus! {

/// Dispatch is total over the command space, and for every recognized
/// variant the success/error tag of the response follows the handler
/// contract exactly: a fetch hit answers the value and a miss answers
/// `NotFound`; a scan answers the table's pairs; a store and a delete
/// answer the previous value, with the default value standing in where
/// none existed; an unrecognized command answers `Internal`; a request
/// with no command answers `InvalidCommand`. No request is left
/// without a response.
pub proof fn lemma_dispatch_total(req: Option<ReqDataView>, s: StoreModel)
    ensures
        ({
            let r = dispatch_model(req, s).1;
            match req {
                Some(ReqDataView::Hget { table, key }) => is_success(r) == (
                model_get(s, table, key) is Some),
                Some(ReqDataView::Unrecognized) => !is_success(r),
                None => !is_success(r),
                Some(_) => is_success(r),
            }
        }),
        ({
            let r = dispatch_model(req, s).1;
            match req {
                Some(ReqDataView::Hget { table, key }) => {
                    &&& (model_get(s, table, key) matches Some(v) ==> r == RespView::Value(v))
                    &&& (model_get(s, table, key) is None ==> r == RespView::Error(
                        ErrView::NotFound(table, key),
                    ))
                },
                Some(ReqDataView::Hgetall { table }) => r == RespView::Pairs(table_of(s, table)),
                Some(ReqDataView::Hset { table, pair }) => r == RespView::Value(
                    match pair {
                        Some((key, _)) => prev_or_default(model_get(s, table, key)),
                        None => ValueView::Null,
                    },
                ),
                Some(ReqDataView::Hdel { table, key }) => r == RespView::Value(
                    prev_or_default(model_get(s, table, key)),
                ),
                Some(ReqDataView::Unrecognized) => r == RespView::Error(
                    ErrView::Internal("Not implemented"@),
                ),
                None => r == RespView::Error(ErrView::InvalidCommand("Request has no data"@)),
            }
        }),
{
}

/// A request with no command answers `InvalidCommand`, and a request
/// with an unrecognized variant answers `Internal`; neither touches
/// the store.
pub proof fn lemma_invalid_and_unrecognized(s: StoreModel)
    ensures
        dispatch_model(None, s) == (
            s,
            RespView::Error(ErrView::InvalidCommand("Request has no data"@)),
        ),
        dispatch_model(Some(ReqDataView::Unrecognized), s) == (
            s,
            RespView::Error(ErrView::Internal("Not implemented"@)),
        ),
{
}

/// Round trip: storing a pair and then fetching its key answers
/// exactly the stored value.
pub proof fn lemma_store_then_fetch(
    s: StoreModel,
    table: Seq<char>,
    key: Seq<char>,
    v: ValueView,
)
    ensures
        ({
            let (s1, _) = dispatch_model(
                Some(ReqDataView::Hset { table, pair: Some((key, v)) }),
                s,
            );
            let (s2, r) = dispatch_model(Some(ReqDataView::Hget { table, key }), s1);
            &&& r == RespView::Value(v)
            &&& s2 == s1
        }),
{
}

/// Deleting a present key answers that key's last stored value, and a
/// subsequent fetch of the key answers `NotFound`.
pub proof fn lemma_delete_then_fetch(s: StoreModel, table: Seq<char>, key: Seq<char>)
    requires
        model_get(s, table, key) is Some,
    ensures
        ({
            let (s1, r1) = dispatch_model(Some(ReqDataView::Hdel { table, key }), s);
            let (s2, r2) = dispatch_model(Some(ReqDataView::Hget { table, key }), s1);
            &&& (model_get(s, table, key) matches Some(v) ==> r1 == RespView::Value(v))
            &&& r2 == RespView::Error(ErrView::NotFound(table, key))
            &&& s2 == s1
        }),
{
}

/// Deleting an absent key is a success answering the default value,
/// not an error, and leaves the store untouched.
pub proof fn lemma_delete_absent(s: StoreModel, table: Seq<char>, key: Seq<char>)
    requires
        model_get(s, table, key) is None,
    ensures
        dispatch_model(Some(ReqDataView::Hdel { table, key }), s) == (
            s,
            RespView::Value(ValueView::Null),
        ),
{
    assert(model_del(s, table, key) =~= s);
}

/// Storing without a payload is an explicit no-op: a success answering
/// the default value, with the store untouched.
pub proof fn lemma_store_without_payload(s: StoreModel, table: Seq<char>)
    ensures
        dispatch_model(Some(ReqDataView::Hset { table, pair: None }), s) == (
            s,
            RespView::Value(ValueView::Null),
        ),
{
}

/// Fetching all pairs of an empty or never-written table is a success
/// with no pairs, not an error.
pub proof fn lemma_fetch_all_empty_table(s: StoreModel, table: Seq<char>)
    requires
        forall|key: Seq<char>| !s.contains_key((table, key)),
    ensures
        dispatch_model(Some(ReqDataView::Hgetall { table }), s) == (
            s,
            RespView::Pairs(Map::<Seq<char>, ValueView>::empty()),
        ),
{
    assert(table_of(s, table) =~= Map::<Seq<char>, ValueView>::empty());
}

/// A pair sequence that reads as the empty table holds no pairs at
/// all: an empty answer really is an empty sequence.
pub proof fn lemma_empty_pairs_means_no_pairs(ps: Seq<Kvpair>)
    ensures
        pairs_view(ps) == Map::<Seq<char>, ValueView>::empty() ==> ps.len() == 0,
{
    if ps.len() > 0 {
        assert(pairs_view(ps).contains_key(ps.last().key@));
    }
}

} // verus!
