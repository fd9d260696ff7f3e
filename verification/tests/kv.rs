use kv::rgrep::{decimal_string, format_line, format_line_parts, join_rendered, render_line, Pattern};
use kv::{
    dispatch, CommandRequest, CommandResponse, Hdel, Hget, Hgetall, Hset, KvError, Kvpair,
    MemTable, RequestData, Service, Value,
};

fn req_set(table: &str, key: &str, value: Value) -> CommandRequest {
    CommandRequest {
        request_data: Some(RequestData::Hset(Hset {
            table: table.to_string(),
            pair: Some(Kvpair { key: key.to_string(), value }),
        })),
    }
}

fn req_set_empty(table: &str) -> CommandRequest {
    CommandRequest {
        request_data: Some(RequestData::Hset(Hset { table: table.to_string(), pair: None })),
    }
}

fn req_get(table: &str, key: &str) -> CommandRequest {
    CommandRequest {
        request_data: Some(RequestData::Hget(Hget {
            table: table.to_string(),
            key: key.to_string(),
        })),
    }
}

fn req_get_all(table: &str) -> CommandRequest {
    CommandRequest {
        request_data: Some(RequestData::Hgetall(Hgetall { table: table.to_string() })),
    }
}

fn req_del(table: &str, key: &str) -> CommandRequest {
    CommandRequest {
        request_data: Some(RequestData::Hdel(Hdel {
            table: table.to_string(),
            key: key.to_string(),
        })),
    }
}

#[test]
fn it_works() {
    let result = 2 + 2;
    assert_eq!(result, 4);
}

#[test]
fn format_line_should_work() {
    let result = format_line("Hello, world!", 1000, 7, 10);
    println!("{:?}", result);
}

#[test]
fn scenario_store_fetch_delete() {
    let service = Service::new(MemTable::new());
    let r = service.execute(req_set("users", "alice", Value::Str("active".to_string())));
    assert_eq!(r, CommandResponse::Value(Value::Null));
    let r = service.execute(req_set("users", "alice", Value::Str("banned".to_string())));
    assert_eq!(r, CommandResponse::Value(Value::Str("active".to_string())));
    let r = service.execute(req_get("users", "alice"));
    assert_eq!(r, CommandResponse::Value(Value::Str("banned".to_string())));
    let r = service.execute(req_del("users", "alice"));
    assert_eq!(r, CommandResponse::Value(Value::Str("banned".to_string())));
    let r = service.execute(req_get("users", "alice"));
    assert_eq!(
        r,
        CommandResponse::Error(KvError::NotFound("users".to_string(), "alice".to_string()))
    );
}

#[test]
fn store_then_fetch_round_trip() {
    let mut store = MemTable::new();
    dispatch(req_set("t", "k", Value::Int(42)), &mut store);
    let r = dispatch(req_get("t", "k"), &mut store);
    assert_eq!(r, CommandResponse::Value(Value::Int(42)));
}

#[test]
fn request_without_command_is_invalid() {
    let mut store = MemTable::new();
    let r = dispatch(CommandRequest { request_data: None }, &mut store);
    assert_eq!(
        r,
        CommandResponse::Error(KvError::InvalidCommand("Request has no data".to_string()))
    );
}

#[test]
fn unrecognized_command_is_internal() {
    let mut store = MemTable::new();
    let r = dispatch(CommandRequest { request_data: Some(RequestData::Unrecognized) }, &mut store);
    assert_eq!(r, CommandResponse::Error(KvError::Internal("Not implemented".to_string())));
}

#[test]
fn delete_absent_key_is_default_success() {
    let mut store = MemTable::new();
    let r = dispatch(req_del("t", "missing"), &mut store);
    assert_eq!(r, CommandResponse::Value(Value::Null));
}

#[test]
fn store_without_payload_is_default_success() {
    let mut store = MemTable::new();
    let r = dispatch(req_set_empty("t"), &mut store);
    assert_eq!(r, CommandResponse::Value(Value::Null));
    let r = dispatch(req_get_all("t"), &mut store);
    assert_eq!(r, CommandResponse::Pairs(Vec::new()));
}

#[test]
fn fetch_all_on_fresh_table_is_empty() {
    let mut store = MemTable::new();
    let r = dispatch(req_get_all("empty_table"), &mut store);
    assert_eq!(r, CommandResponse::Pairs(Vec::new()));
}

#[test]
fn fetch_all_returns_only_the_named_table() {
    let mut store = MemTable::new();
    dispatch(req_set("t1", "a", Value::Int(1)), &mut store);
    dispatch(req_set("t1", "b", Value::Int(2)), &mut store);
    dispatch(req_set("t2", "c", Value::Int(3)), &mut store);
    let r = dispatch(req_get_all("t1"), &mut store);
    match r {
        CommandResponse::Pairs(pairs) => {
            assert_eq!(pairs.len(), 2);
            assert!(pairs.contains(&Kvpair { key: "a".to_string(), value: Value::Int(1) }));
            assert!(pairs.contains(&Kvpair { key: "b".to_string(), value: Value::Int(2) }));
        }
        other => panic!("expected pairs, got {:?}", other),
    }
}

#[test]
fn overwrite_returns_previous_value() {
    let mut store = MemTable::new();
    let r = dispatch(req_set("t", "k", Value::Bool(true)), &mut store);
    assert_eq!(r, CommandResponse::Value(Value::Null));
    let r = dispatch(req_set("t", "k", Value::Bool(false)), &mut store);
    assert_eq!(r, CommandResponse::Value(Value::Bool(true)));
}

#[test]
fn tables_do_not_share_keys() {
    let mut store = MemTable::new();
    dispatch(req_set("t1", "k", Value::Int(1)), &mut store);
    let r = dispatch(req_get("t2", "k"), &mut store);
    assert_eq!(
        r,
        CommandResponse::Error(KvError::NotFound("t2".to_string(), "k".to_string()))
    );
}

#[test]
fn float_and_bytes_values_round_trip() {
    let mut store = MemTable::new();
    let bits = 3.25f64.to_bits();
    dispatch(req_set("t", "f", Value::Float(bits)), &mut store);
    let r = dispatch(req_get("t", "f"), &mut store);
    match r {
        CommandResponse::Value(Value::Float(b)) => assert_eq!(f64::from_bits(b), 3.25f64),
        other => panic!("expected a float back, got {:?}", other),
    }
    dispatch(req_set("t", "b", Value::Bytes(vec![1, 2, 3])), &mut store);
    let r = dispatch(req_get("t", "b"), &mut store);
    assert_eq!(r, CommandResponse::Value(Value::Bytes(vec![1, 2, 3])));
}

#[test]
fn cloned_service_shares_the_store() {
    let service = Service::new(MemTable::new());
    let other = service.clone();
    service.execute(req_set("t", "k", Value::Str("shared".to_string())));
    let r = other.execute(req_get("t", "k"));
    assert_eq!(r, CommandResponse::Value(Value::Str("shared".to_string())));
}

#[test]
fn decimal_string_writes_decimal() {
    assert_eq!(decimal_string(0), "0");
    assert_eq!(decimal_string(7), "7");
    assert_eq!(decimal_string(1000), "1000");
    assert_eq!(decimal_string(usize::MAX), usize::MAX.to_string());
}

#[test]
fn format_line_parts_lays_out_exactly() {
    let line = format_line_parts("1000", "8", "Hello, ", "wor", "ld!");
    assert_eq!(line, "  1000:8   Hello, world!");
}

#[test]
fn format_line_without_colors_is_exact() {
    colored::control::set_override(false);
    let line = format_line("Hello, world!", 1000, 7, 10);
    assert_eq!(line, "  1000:8   Hello, world!");
}

#[test]
fn render_line_finds_and_formats() {
    colored::control::set_override(false);
    let pattern = Pattern::new("wor").unwrap();
    let hit = render_line(&pattern, 12, "Hello, world!");
    assert_eq!(hit, Some("    12:8   Hello, world!".to_string()));
    let miss = render_line(&pattern, 1, "nothing here");
    assert_eq!(miss, None);
}

#[test]
fn invalid_pattern_is_an_error() {
    assert!(Pattern::new("(").is_err());
    assert!(Pattern::new("wor").is_ok());
}

#[test]
fn join_rendered_puts_separator_between() {
    let none: Vec<String> = Vec::new();
    assert_eq!(join_rendered(&none, "-"), "");
    let one = vec!["a".to_string()];
    assert_eq!(join_rendered(&one, "-"), "a");
    let three = vec!["a".to_string(), "b".to_string(), "c".to_string()];
    assert_eq!(join_rendered(&three, "-"), "a-b-c");
}

#[test]
fn distinct_services_share_no_state() {
    let first = Service::new(MemTable::new());
    let second = Service::new(MemTable::new());
    first.execute(req_set("t", "k", Value::Int(1)));
    let r = second.execute(req_get("t", "k"));
    assert_eq!(
        r,
        CommandResponse::Error(KvError::NotFound("t".to_string(), "k".to_string()))
    );
}

#[test]
fn stored_null_is_present_not_missing() {
    let mut store = MemTable::new();
    dispatch(req_set("t", "k", Value::Null), &mut store);
    let r = dispatch(req_get("t", "k"), &mut store);
    assert_eq!(r, CommandResponse::Value(Value::Null));
    let r = dispatch(req_del("t", "k"), &mut store);
    assert_eq!(r, CommandResponse::Value(Value::Null));
    let r = dispatch(req_get("t", "k"), &mut store);
    assert_eq!(
        r,
        CommandResponse::Error(KvError::NotFound("t".to_string(), "k".to_string()))
    );
}
