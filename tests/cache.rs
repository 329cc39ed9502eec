use redis_cache::client::RedisClient;
use redis_cache::command::{set_str_plan, Command};
use redis_cache::error::CacheError;
use redis_cache::exchange::{next_step, Step};
use redis_cache::reply::{decode_ack, decode_fields, decode_string, Fault, Reply};

fn text(s: &str) -> Reply {
    Reply::Text(s.to_string())
}

#[test]
fn connect_keeps_database_name() {
    let c = RedisClient::connect("redis://localhost:6379", "sessions").unwrap();
    assert_eq!(c.db_name, "sessions");
    let copy = c.clone();
    assert_eq!(copy.db_name, "sessions");
}

#[test]
fn connect_accepts_database_in_address() {
    assert!(RedisClient::connect("redis://127.0.0.1:6379/2", "jobs").is_ok());
}

#[test]
fn connect_rejects_malformed_address() {
    assert_eq!(RedisClient::connect("not an address", "x").err(), Some(CacheError::Connection));
    assert_eq!(RedisClient::connect("http://localhost:6379", "x").err(), Some(CacheError::Connection));
}

#[test]
fn set_without_ttl_is_one_command() {
    let plan = set_str_plan("k", "v", 0);
    assert_eq!(plan, vec![Command::SetValue { key: "k".to_string(), value: "v".to_string() }]);
    let plan = set_str_plan("k", "v", -3);
    assert_eq!(plan.len(), 1);
}

#[test]
fn set_with_ttl_adds_expiry() {
    let plan = set_str_plan("user:1", "alice", 60);
    assert_eq!(
        plan,
        vec![
            Command::SetValue { key: "user:1".to_string(), value: "alice".to_string() },
            Command::Expire { key: "user:1".to_string(), seconds: 60 },
        ]
    );
}

#[test]
fn string_reply_reads_back() {
    assert_eq!(decode_string(&text("alice")), Ok("alice".to_string()));
    assert_eq!(decode_string(&text("")), Ok(String::new()));
}

#[test]
fn nil_reply_is_not_found() {
    assert_eq!(decode_string(&Reply::Nil), Err(CacheError::NotFound));
}

#[test]
fn wrong_type_is_decode_error() {
    assert_eq!(decode_string(&Reply::Fault(Fault::WrongType)), Err(CacheError::Decode));
    assert_eq!(decode_ack(&Reply::Fault(Fault::WrongType)), Err(CacheError::Decode));
}

#[test]
fn server_error_is_protocol_error() {
    assert_eq!(decode_string(&Reply::Fault(Fault::Refused)), Err(CacheError::Protocol));
    assert_eq!(decode_ack(&Reply::Fault(Fault::Refused)), Err(CacheError::Protocol));
    assert_eq!(decode_fields(&Reply::Fault(Fault::Refused)), Err(CacheError::Protocol));
}

#[test]
fn other_shapes_are_not_strings() {
    assert_eq!(decode_string(&Reply::Int(5)), Err(CacheError::Decode));
    assert_eq!(decode_string(&Reply::Array(vec![text("a")])), Err(CacheError::Decode));
    assert_eq!(decode_string(&Reply::Other), Err(CacheError::Decode));
}

#[test]
fn acks_pass_on_success() {
    assert_eq!(decode_ack(&Reply::Okay), Ok(()));
    assert_eq!(decode_ack(&Reply::Int(0)), Ok(()));
    assert_eq!(decode_ack(&Reply::Int(1)), Ok(()));
}

#[test]
fn flat_field_list_is_paired() {
    let r = Reply::Array(vec![text("name"), text("ann"), text("age"), text("31")]);
    assert_eq!(
        decode_fields(&r),
        Ok(vec![
            ("name".to_string(), "ann".to_string()),
            ("age".to_string(), "31".to_string()),
        ])
    );
}

#[test]
fn map_field_list_is_paired() {
    let r = Reply::Entries(vec![(text("f"), text("v"))]);
    assert_eq!(decode_fields(&r), Ok(vec![("f".to_string(), "v".to_string())]));
}

#[test]
fn missing_hash_reads_as_no_fields() {
    assert_eq!(decode_fields(&Reply::Array(Vec::new())), Ok(Vec::new()));
    assert_eq!(decode_fields(&Reply::Nil), Ok(Vec::new()));
}

#[test]
fn malformed_field_lists_are_decode_errors() {
    assert_eq!(decode_fields(&Reply::Array(vec![text("f")])), Err(CacheError::Decode));
    assert_eq!(decode_fields(&Reply::Array(vec![text("f"), Reply::Int(2)])), Err(CacheError::Decode));
    assert_eq!(decode_fields(&Reply::Entries(vec![(Reply::Nil, text("v"))])), Err(CacheError::Decode));
    assert_eq!(decode_fields(&text("f")), Err(CacheError::Decode));
    assert_eq!(decode_fields(&Reply::Fault(Fault::WrongType)), Err(CacheError::Decode));
}

#[test]
fn exchange_sends_in_order() {
    assert_eq!(next_step(2, &Vec::new()), Step::Send(0));
    assert_eq!(next_step(2, &vec![Reply::Okay]), Step::Send(1));
    assert_eq!(next_step(2, &vec![Reply::Okay, Reply::Int(1)]), Step::Finished(Ok(())));
    assert_eq!(next_step(0, &Vec::new()), Step::Finished(Ok(())));
}

#[test]
fn exchange_stops_at_first_failure() {
    assert_eq!(next_step(2, &vec![Reply::Fault(Fault::Refused)]), Step::Finished(Err(CacheError::Protocol)));
    assert_eq!(
        next_step(2, &vec![Reply::Okay, Reply::Fault(Fault::WrongType)]),
        Step::Finished(Err(CacheError::Decode))
    );
}

#[test]
fn session_with_expiry() {
    let c = RedisClient::connect("redis://localhost:6379", "sessions").unwrap();
    assert_eq!(c.db_name, "sessions");
    let plan = set_str_plan("user:1", "alice", 60);
    assert_eq!(next_step(plan.len(), &Vec::new()), Step::Send(0));
    assert_eq!(next_step(plan.len(), &vec![Reply::Okay]), Step::Send(1));
    assert_eq!(plan[1], Command::Expire { key: "user:1".to_string(), seconds: 60 });
    assert_eq!(next_step(plan.len(), &vec![Reply::Okay, Reply::Int(1)]), Step::Finished(Ok(())));
    assert_eq!(decode_string(&text("alice")), Ok("alice".to_string()));
    // once the key has expired the server answers nil
    assert_eq!(decode_string(&Reply::Nil), Err(CacheError::NotFound));
}
