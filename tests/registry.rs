use mcp_control::registry::rpc_outcome;
use mcp_control::{McpError, SessionRegistry};

#[test]
fn lookup_after_connect_finds_the_handle() {
    let mut reg: SessionRegistry<u32> = SessionRegistry::new();
    assert_eq!(reg.record_connect("alpha".to_string(), Ok(7)), Ok(()));
    assert_eq!(reg.record_connect("beta".to_string(), Ok(9)), Ok(()));
    assert_eq!(reg.lookup("alpha"), Ok(&7));
    assert_eq!(reg.lookup("beta"), Ok(&9));
    assert_eq!(reg.len(), 2);
}

#[test]
fn reconnect_replaces_the_old_handle() {
    let mut reg: SessionRegistry<u32> = SessionRegistry::new();
    reg.insert("s".to_string(), 1);
    reg.insert("s".to_string(), 2);
    assert_eq!(reg.lookup("s"), Ok(&2));
    assert_eq!(reg.len(), 1);
}

#[test]
fn unknown_id_is_not_found() {
    let mut reg: SessionRegistry<u32> = SessionRegistry::new();
    assert_eq!(reg.lookup("missing"), Err(McpError::NotFound));
    reg.insert("present".to_string(), 3);
    assert_eq!(reg.lookup("missing"), Err(McpError::NotFound));
    assert_eq!(reg.lookup("presen"), Err(McpError::NotFound));
    assert_eq!(McpError::NotFound.message(), "Client not found");
}

#[test]
fn failed_connect_leaves_registry_unchanged() {
    let mut reg: SessionRegistry<u32> = SessionRegistry::new();
    reg.insert("a".to_string(), 1);
    let r = reg.record_connect("a".to_string(), Err("connection refused".to_string()));
    assert_eq!(r, Err(McpError::ConnectFailure("connection refused".to_string())));
    assert_eq!(reg.lookup("a"), Ok(&1));
    let r = reg.record_connect("b".to_string(), Err("handshake failed".to_string()));
    assert_eq!(r.unwrap_err().message(), "handshake failed");
    assert_eq!(reg.lookup("b"), Err(McpError::NotFound));
    assert_eq!(reg.len(), 1);
}

#[test]
fn rpc_failures_carry_their_cause() {
    assert_eq!(rpc_outcome::<u8>(Ok(4)), Ok(4));
    let e = rpc_outcome::<u8>(Err("tool exploded".to_string()));
    assert_eq!(e, Err(McpError::RpcFailure("tool exploded".to_string())));
    assert_eq!(e.unwrap_err().message(), "tool exploded");
}

#[test]
fn many_sessions_resolve_to_their_own_handles() {
    let mut reg: SessionRegistry<usize> = SessionRegistry::new();
    for i in 0..20usize {
        reg.insert(format!("session-{}", i), i * 10);
    }
    for i in 0..20usize {
        assert_eq!(reg.lookup(&format!("session-{}", i)), Ok(&(i * 10)));
    }
    assert_eq!(reg.len(), 20);
}

#[test]
fn remove_hands_back_the_handle() {
    let mut reg: SessionRegistry<u32> = SessionRegistry::new();
    reg.insert("a".to_string(), 1);
    reg.insert("b".to_string(), 2);
    reg.insert("c".to_string(), 3);
    assert_eq!(reg.remove("b"), Some(2));
    assert_eq!(reg.remove("b"), None);
    assert_eq!(reg.lookup("b"), Err(McpError::NotFound));
    assert_eq!(reg.lookup("a"), Ok(&1));
    assert_eq!(reg.lookup("c"), Ok(&3));
    assert_eq!(reg.len(), 2);
    assert_eq!(reg.remove("zzz"), None);
    assert_eq!(reg.len(), 2);
}
