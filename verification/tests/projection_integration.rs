use sessrums::types::roles::{Client, Server};
use sessrums::types::session_types::global::GlobalInteraction;
use sessrums::types::session_types::local::LocalProtocol;
use sessrums::types::projection::project_for_role;

// Message enum for our protocol
#[derive(Clone)]
enum Message {
    Request,
    Query,
    QueryResult,
    Accept,
    Reject,
    Notify,
    Label(String),
}

#[test]
fn test_protocol_type_safety() {
    // This test verifies that the projected protocols are type-safe
    // and can be used with the correct message types
    
    // Define a global protocol: Client -> Server: Request; Server -> Client: Accept; End
    let global = GlobalInteraction::message(
        "client",
        "server",
        GlobalInteraction::message(
            "server",
            "client",
            GlobalInteraction::end(),
        ),
    );
    
    // Project for Client and Server
    let client_local = project_for_role::<Client, Message>(global.clone());
    let server_local = project_for_role::<Server, Message>(global.clone());
    
    // Verify the structure of the projected protocols
    match client_local {
        LocalProtocol::Send { to, cont, .. } => {
            assert_eq!(to.name(), "server");
            match *cont {
                LocalProtocol::Receive { from, cont, .. } => {
                    assert_eq!(from.name(), "server");
                    match *cont {
                        LocalProtocol::End { .. } => {},
                        _ => panic!("Expected End, got something else"),
                    }
                },
                _ => panic!("Expected Receive, got something else"),
            }
        },
        _ => panic!("Expected Send, got something else"),
    }
    
    match server_local {
        LocalProtocol::Receive { from, cont, .. } => {
            assert_eq!(from.name(), "client");
            match *cont {
                LocalProtocol::Send { to, cont, .. } => {
                    assert_eq!(to.name(), "client");
                    match *cont {
                        LocalProtocol::End { .. } => {},
                        _ => panic!("Expected End, got something else"),
                    }
                },
                _ => panic!("Expected Send, got something else"),
            }
        },
        _ => panic!("Expected Receive, got something else"),
    }
    
    println!("Protocol type safety verified");
}