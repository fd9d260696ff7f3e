pub mod command_service;
pub mod error;
pub mod laws;
pub mod memtable;
pub mod model;
pub mod pb;
pub mod rgrep;
pub mod service;
pub mod storage;

pub use command_service::CommandService;
pub use error::{ErrView, KvError, StorageError};
pub use memtable::MemTable;
pub use pb::{
    is_storage_err, is_success, pairs_view, CommandRequest, CommandResponse, Hdel, Hget, Hgetall,
    Hset, Kvpair, ReqDataView, RequestData, RespView, Value, ValueView,
};
pub use service::{dispatch, Service, ServiceInner};
pub use storage::Storage;
