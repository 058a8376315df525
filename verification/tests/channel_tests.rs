use crash_helper_client::channel::{IPCChannel, IPCConnector, IPCListener};

#[test]
fn channel_allocates_and_splits_once() {
    let channel = IPCChannel::new().expect("transport allocation should succeed");
    let (listener, server_endpoint, client_endpoint) = channel.deconstruct();
    let listener_token = listener.serialize();
    let server_token = server_endpoint.serialize();
    let client_token = client_endpoint.serialize();
    // The paired connectors are distinct transport resources.
    assert_ne!(server_token, client_token);
    assert!(!listener_token.is_empty());
    listener.close();
    server_endpoint.close();
    client_endpoint.close();
}

#[test]
fn connector_token_round_trips() {
    let channel = IPCChannel::new().expect("transport allocation should succeed");
    let (listener, server_endpoint, client_endpoint) = channel.deconstruct();
    let token = client_endpoint.serialize();
    let rebuilt = IPCConnector::deserialize(&token).expect("a fresh token must parse");
    assert_eq!(rebuilt.serialize(), token);
    listener.close();
    server_endpoint.close();
    client_endpoint.close();
}

#[test]
fn listener_token_round_trips() {
    let channel = IPCChannel::new().expect("transport allocation should succeed");
    let (listener, server_endpoint, client_endpoint) = channel.deconstruct();
    let token = listener.serialize();
    let rebuilt = IPCListener::deserialize(&token).expect("a fresh token must parse");
    assert_eq!(rebuilt.serialize(), token);
    listener.close();
    server_endpoint.close();
    client_endpoint.close();
}

#[test]
fn deserialize_rejects_garbage() {
    assert!(IPCConnector::deserialize(&Vec::new()).is_none());
    assert!(IPCConnector::deserialize(&b"12x".to_vec()).is_none());
    assert!(IPCConnector::deserialize(&b"2147483648".to_vec()).is_none());
    assert!(IPCListener::deserialize(&b"not a token".to_vec()).is_none());
}

#[test]
fn deserialize_accepts_plain_numbers() {
    let c = IPCConnector::deserialize(&b"123".to_vec()).expect("digits must parse");
    assert_eq!(c.serialize(), b"123".to_vec());
}
