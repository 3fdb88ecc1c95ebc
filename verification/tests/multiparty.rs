use std::sync::Arc;

use sessrums::types::error::SessionError;
use sessrums::types::roles::{Client, Server};
use sessrums::types::session_types::multiparty_session::{End, Receive, Send};
use sessrums::types::session_types::{
    MultipartyEnd, MultipartyReceive, MultipartySend, MultipartySession,
};
use sessrums::types::transport::{
    BrokerState, MockMultipartyBroker, MultipartyTransport, RoleIdentifier,
};

// Define simple protocol types for testing
type ClientProtocol = Send<String, Receive<i32, End>>;
type ServerProtocol = Receive<String, Send<i32, End>>;

fn encode_string(s: &str) -> Vec<u8> {
    bincode::serialize(&s.to_string()).unwrap()
}

#[test]
fn test_simple_protocol_execution() -> Result<(), SessionError> {
    let broker = Arc::new(MockMultipartyBroker::new());
    let client_id = RoleIdentifier::new("client");
    let server_id = RoleIdentifier::new("server");
    broker.register_participant(&client_id)?;
    broker.register_participant(&server_id)?;

    let client_channel = broker.create_channel::<Client>(&client_id)?;
    let server_channel = broker.create_channel::<Server>(&server_id)?;

    let client_session = MultipartySession::<Client, ClientProtocol, _>::new(client_channel);
    let server_session = MultipartySession::<Server, ServerProtocol, _>::new(server_channel);

    let _ = client_session.send(&server_id, encode_string("Hello"));
    let _ = server_session.receive(&client_id);
    Ok(())
}

#[test]
fn test_type_safety() {
    let broker = MockMultipartyBroker::new();
    let client_id = RoleIdentifier::new("client");
    let server_id = RoleIdentifier::new("server");
    broker.register_participant(&client_id).unwrap();
    broker.register_participant(&server_id).unwrap();
    let client_channel = broker.create_channel::<Client>(&client_id).unwrap();
    let client_session = MultipartySession::<Client, ClientProtocol, _>::new(client_channel);
    let _ = client_session.send(&server_id, encode_string("Hello"));
}

#[test]
fn test_error_handling() {
    let broker = MockMultipartyBroker::new();
    let client_id = RoleIdentifier::new("client");
    let server_id = RoleIdentifier::new("server");
    broker.register_participant(&client_id).unwrap();
    // Deliberately not registering the server
    let client_channel = broker.create_channel::<Client>(&client_id).unwrap();
    let client_session = MultipartySession::<Client, ClientProtocol, _>::new(client_channel);
    // Sending to a non-existent server should fail
    let result = client_session.send(&server_id, encode_string("Hello"));
    assert!(result.is_err());
}

/// Storage plays the server role type.
type Storage = Server;

// Messages of the three-party protocol, encoded with bincode as their fields
// in order.
struct Request {
    content: String,
}

#[derive(Clone)]
struct Response {
    content: String,
    status: u32,
}

#[derive(Clone)]
struct Log {
    request_id: String,
    timestamp: u64,
    details: String,
}

#[test]
fn test_basic_protocol_execution() -> Result<(), SessionError> {
    let broker = Arc::new(MockMultipartyBroker::new());

    let client_id = RoleIdentifier::new("client");
    let server_id = RoleIdentifier::new("server");
    let storage_id = RoleIdentifier::new("storage");

    broker.register_participant(&client_id)?;
    broker.register_participant(&server_id)?;
    broker.register_participant(&storage_id)?;

    let client_channel = broker.create_channel::<Client>(&client_id)?;
    let server_channel = broker.create_channel::<Server>(&server_id)?;
    let storage_channel = broker.create_channel::<Storage>(&storage_id)?;

    let client_session: MultipartySession<
        Client,
        MultipartySend<Request, MultipartyReceive<Response, MultipartyEnd>>,
        _,
    > = MultipartySession::new(client_channel);
    let server_session: MultipartySession<
        Server,
        MultipartyReceive<Request, MultipartySend<Response, MultipartySend<Log, MultipartyEnd>>>,
        _,
    > = MultipartySession::new(server_channel);
    let storage_session: MultipartySession<Storage, MultipartyReceive<Log, MultipartyEnd>, _> =
        MultipartySession::new(storage_channel);

    // Step 1: Client sends request to Server
    let request = Request { content: "Hello from client".to_string() };
    let client_session =
        client_session.send(&server_id, bincode::serialize(&request.content).unwrap())?;

    // Step 2: Server receives request from Client
    let (bytes, server_session) = server_session.receive(&client_id)?;
    let received_request = Request { content: bincode::deserialize(&bytes).unwrap() };
    assert_eq!(received_request.content, "Hello from client");

    // Step 3: Server sends response to Client
    let response = Response {
        content: format!("Processed: {}", received_request.content),
        status: 200,
    };
    let sent = response.clone();
    let server_session =
        server_session.send(&client_id, bincode::serialize(&(sent.content, sent.status)).unwrap())?;

    // Step 4: Client receives response from Server
    let (bytes, client_session) = client_session.receive(&server_id)?;
    let (content, status): (String, u32) = bincode::deserialize(&bytes).unwrap();
    let received_response = Response { content, status };
    assert_eq!(received_response.content, "Processed: Hello from client");
    assert_eq!(received_response.status, 200);

    // Step 5: Server sends log to Storage
    let log = Log {
        request_id: "req-123456".to_string(),
        timestamp: 1620000000,
        details: "Request processed successfully".to_string(),
    };
    let sent = log.clone();
    let server_session = server_session.send(
        &storage_id,
        bincode::serialize(&(sent.request_id, sent.timestamp, sent.details)).unwrap(),
    )?;

    // Step 6: Storage receives log from Server
    let (bytes, storage_session) = storage_session.receive(&server_id)?;
    let (request_id, timestamp, details): (String, u64, String) =
        bincode::deserialize(&bytes).unwrap();
    let received_log = Log { request_id, timestamp, details };
    assert_eq!(received_log.details, "Request processed successfully");
    assert_eq!(received_log.request_id, "req-123456");
    assert_eq!(received_log.timestamp, log.timestamp);

    let _client_channel = client_session.close()?;
    let _server_channel = server_session.close()?;
    let _storage_channel = storage_session.close()?;
    Ok(())
}

#[test]
fn test_protocol_error_handling() {
    let broker = Arc::new(MockMultipartyBroker::new());
    let client_id = RoleIdentifier::new("client");
    let _server_id = RoleIdentifier::new("server");
    broker.register_participant(&client_id).expect("Failed to register client");
    let client_channel =
        broker.create_channel::<Client>(&client_id).expect("Failed to create client channel");
    let session: MultipartySession<
        Client,
        MultipartySend<Request, MultipartyReceive<Response, MultipartyEnd>>,
        _,
    > = MultipartySession::new(client_channel);
    let request = Request { content: "Hello from client".to_string() };
    let server_id = RoleIdentifier::new("server");
    let result = session.send(&server_id, bincode::serialize(&request.content).unwrap());
    assert!(result.is_err());
    if let Err(err) = result {
        match err {
            SessionError::ProtocolViolation(msg) => {
                assert!(msg.contains("not found"));
            },
            _ => panic!("Expected ProtocolViolation error, got: {:?}", err),
        }
    }
}

#[test]
fn unregistered_participant_gets_no_channel() {
    let broker = MockMultipartyBroker::new();
    let result = broker.create_channel::<Client>(&RoleIdentifier::new("ghost"));
    match result {
        Err(SessionError::ProtocolViolation(msg)) => assert_eq!(msg, "Participant ghost not found"),
        _ => panic!("Expected ProtocolViolation"),
    }
}

#[test]
fn receiving_with_nothing_pending_is_unexpected_close() {
    let broker = MockMultipartyBroker::new();
    let a = RoleIdentifier::new("a");
    let b = RoleIdentifier::new("b");
    broker.register_participant(&a).unwrap();
    broker.register_participant(&b).unwrap();
    let mut channel = broker.create_channel::<Client>(&a).unwrap();
    assert!(matches!(channel.receive_from(&b), Err(SessionError::UnexpectedClose)));
}

#[test]
fn broker_delivers_oldest_message_per_sender() {
    let mut state = BrokerState::new();
    let a = RoleIdentifier::new("a");
    let b = RoleIdentifier::new("b");
    let c = RoleIdentifier::new("c");
    state.register(&a).unwrap();
    state.register(&b).unwrap();
    state.register(&a).unwrap();
    assert!(state.is_registered("a"));
    assert!(!state.is_registered("c"));
    state.deliver(&a, &b, vec![1]).unwrap();
    state.deliver(&c, &b, vec![2]).unwrap();
    state.deliver(&a, &b, vec![3]).unwrap();
    assert!(state.deliver(&a, &c, vec![4]).is_err());
    assert_eq!(state.collect(&b, &c).unwrap(), vec![2]);
    assert_eq!(state.collect(&b, &a).unwrap(), vec![1]);
    assert_eq!(state.collect(&b, &a).unwrap(), vec![3]);
    assert!(matches!(state.collect(&b, &a), Err(SessionError::UnexpectedClose)));
}
