use vstd::prelude::*;
use crate::error::{ErrView, KvError};

verus! {

/// A stored cell: a tagged union over a small set of primitive
/// representations, with `Null` as the default/empty variant returned
/// when an operation has no meaningful value to hand back.
#[derive(Debug, PartialEq)]
pub enum Value {
    /// The default/empty value.
    Null,
    Str(String),
    Int(i64),
    /// An IEEE-754 double, held as its bit pattern: the dispatch layer
    /// never computes with it, it only stores and returns it.
    Float(u64),
    Bool(bool),
    Bytes(Vec<u8>),
}

/// Mathematical image of a `Value`.
pub enum ValueView {
    Null,
    Str(Seq<char>),
    Int(i64),
    Float(u64),
    Bool(bool),
    Bytes(Seq<u8>),
}

impl View for Value {
    type V = ValueView;

    open spec fn view(&self) -> ValueView {
        match self {
            Value::Null => ValueView::Null,
            Value::Str(s) => ValueView::Str(s@),
            Value::Int(i) => ValueView::Int(*i),
            Value::Float(bits) => ValueView::Float(*bits),
            Value::Bool(b) => ValueView::Bool(*b),
            Value::Bytes(b) => ValueView::Bytes(b@),
        }
    }
}

impl Clone for Value {
    fn clone(&self) -> (r: Self)
        ensures
            r@ == self@,
    {
        match self {
            Value::Null => Value::Null,
            Value::Str(s) => Value::Str(s.clone()),
            Value::Int(i) => Value::Int(*i),
            Value::Float(bits) => Value::Float(*bits),
            Value::Bool(b) => Value::Bool(*b),
            Value::Bytes(b) => {
                let mut copy: Vec<u8> = Vec::new();
                let mut i: usize = 0;
                while i < b.len()
                    invariant
                        i <= b.len(),
                        copy@ == b@.take(i as int),
                    decreases b.len() - i,
                {
                    copy.push(b[i]);
                    proof {
                        assert(copy@ =~= b@.take(i as int + 1));
                    }
                    i = i + 1;
                }
                proof {
                    assert(copy@ =~= b@);
                }
                Value::Bytes(copy)
            },
        }
    }
}

impl Default for Value {
    /// The default/empty success value.
    fn default() -> (r: Self)
        ensures
            r@ == ValueView::Null,
    {
        Value::Null
    }
}

/// One key-value pair of a table, as carried in commands and responses.
#[derive(Debug, PartialEq)]
pub struct Kvpair {
    pub key: String,
    pub value: Value,
}

impl View for Kvpair {
    type V = (Seq<char>, ValueView);

    open spec fn view(&self) -> (Seq<char>, ValueView) {
        (self.key@, self.value@)
    }
}

impl Clone for Kvpair {
    fn clone(&self) -> (r: Self)
        ensures
            r@ == self@,
    {
        Kvpair { key: self.key.clone(), value: self.value.clone() }
    }
}

/// Fetch one key from a table.
#[derive(Debug, PartialEq)]
pub struct Hget {
    pub table: String,
    pub key: String,
}

/// Fetch every pair of a table.
#[derive(Debug, PartialEq)]
pub struct Hgetall {
    pub table: String,
}

/// Store one pair in a table; a request without a pair is an explicit
/// no-op that succeeds with the default value.
#[derive(Debug, PartialEq)]
pub struct Hset {
    pub table: String,
    pub pair: Option<Kvpair>,
}

/// Delete one key from a table; a missing key is not an error.
#[derive(Debug, PartialEq)]
pub struct Hdel {
    pub table: String,
    pub key: String,
}

/// The discriminated command carried by a request. `Unrecognized`
/// stands for a variant the wire format decoded but no handler
/// implements yet: dispatch must answer it, not drop it.
#[derive(Debug, PartialEq)]
pub enum RequestData {
    Hget(Hget),
    Hgetall(Hgetall),
    Hset(Hset),
    Hdel(Hdel),
    Unrecognized,
}

/// A protocol-level request: exactly one command, or none at all
/// (the malformed-request case dispatch must answer explicitly).
#[derive(Debug, PartialEq)]
pub struct CommandRequest {
    pub request_data: Option<RequestData>,
}

/// Mathematical image of a command.
pub enum ReqDataView {
    Hget { table: Seq<char>, key: Seq<char> },
    Hgetall { table: Seq<char> },
    Hset { table: Seq<char>, pair: Option<(Seq<char>, ValueView)> },
    Hdel { table: Seq<char>, key: Seq<char> },
    Unrecognized,
}

impl View for RequestData {
    type V = ReqDataView;

    open spec fn view(&self) -> ReqDataView {
        match self {
            RequestData::Hget(p) => ReqDataView::Hget { table: p.table@, key: p.key@ },
            RequestData::Hgetall(p) => ReqDataView::Hgetall { table: p.table@ },
            RequestData::Hset(p) => ReqDataView::Hset {
                table: p.table@,
                pair: match &p.pair {
                    Some(pair) => Some(pair@),
                    None => None,
                },
            },
            RequestData::Hdel(p) => ReqDataView::Hdel { table: p.table@, key: p.key@ },
            RequestData::Unrecognized => ReqDataView::Unrecognized,
        }
    }
}

impl View for CommandRequest {
    type V = Option<ReqDataView>;

    open spec fn view(&self) -> Option<ReqDataView> {
        match &self.request_data {
            Some(d) => Some(d@),
            None => None,
        }
    }
}

/// The pairs of a response, read as a table fragment: which value each
/// key carries. The order of the pairs is backend-defined and is not
/// part of the response's meaning.
pub open spec fn pairs_view(s: Seq<Kvpair>) -> Map<Seq<char>, ValueView>
    decreases s.len(),
{
    if s.len() == 0 {
        Map::empty()
    } else {
        pairs_view(s.drop_last()).insert(s.last().key@, s.last().value@)
    }
}

/// No two pairs of the sequence share a key: each key of the table
/// appears at most once in a fetch-all answer.
pub open spec fn pairs_distinct(s: Seq<Kvpair>) -> bool {
    forall|i: int, j: int| 0 <= i < j < s.len() ==> s[i].key@ != s[j].key@
}

/// Every pair's key is a key of the sequence's table reading.
pub proof fn lemma_pairs_view_contains(s: Seq<Kvpair>, i: int)
    requires
        0 <= i < s.len(),
    ensures
        pairs_view(s).contains_key(s[i].key@),
    decreases s.len(),
{
    if i < s.len() - 1 {
        lemma_pairs_view_contains(s.drop_last(), i);
    }
}

/// A protocol-level response: a successful payload (one value, or the
/// pairs of a table) or a structured error.
#[derive(Debug, PartialEq)]
pub enum CommandResponse {
    Value(Value),
    Pairs(Vec<Kvpair>),
    Error(KvError),
}

/// Mathematical image of a response.
pub enum RespView {
    Value(ValueView),
    Pairs(Map<Seq<char>, ValueView>),
    Error(ErrView),
}

impl View for CommandResponse {
    type V = RespView;

    open spec fn view(&self) -> RespView {
        match self {
            CommandResponse::Value(v) => RespView::Value(v@),
            CommandResponse::Pairs(ps) => RespView::Pairs(pairs_view(ps@)),
            CommandResponse::Error(e) => RespView::Error(e@),
        }
    }
}

/// A response succeeds exactly when it is not an error: the
/// success/error tag every handler contract speaks of.
pub open spec fn is_success(r: RespView) -> bool {
    !(r matches RespView::Error(_))
}

/// The response surfaces a backend failure (as opposed to an error the
/// dispatch layer itself decided, such as `NotFound`).
pub open spec fn is_storage_err(r: RespView) -> bool {
    r matches RespView::Error(ErrView::Storage(_))
}

} // verus!
