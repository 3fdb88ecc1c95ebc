use sessrums::types::roles::{Client, Server};
use sessrums::types::session_types::local::LocalProtocol;

#[test]
fn test_create_client_protocol() {
    let protocol: LocalProtocol<Client, String> = LocalProtocol::<Client, String>::send(
        "server",
        LocalProtocol::<Client, String>::receive("server", LocalProtocol::<Client, String>::end()),
    );

    if let LocalProtocol::Send { to, cont, .. } = protocol {
        assert_eq!(to.name(), "server");
        if let LocalProtocol::Receive { from, cont, .. } = *cont {
            assert_eq!(from.name(), "server");
            assert!(matches!(*cont, LocalProtocol::End { .. }));
        } else {
            panic!("Expected Receive, got something else");
        }
    } else {
        panic!("Expected Send, got something else");
    }
}

#[test]
fn test_create_server_protocol() {
    let protocol: LocalProtocol<Server, String> = LocalProtocol::<Server, String>::receive(
        "client",
        LocalProtocol::<Server, String>::send("client", LocalProtocol::<Server, String>::end()),
    );

    if let LocalProtocol::Receive { from, cont, .. } = protocol {
        assert_eq!(from.name(), "client");
        if let LocalProtocol::Send { to, cont, .. } = *cont {
            assert_eq!(to.name(), "client");
            assert!(matches!(*cont, LocalProtocol::End { .. }));
        } else {
            panic!("Expected Send, got something else");
        }
    } else {
        panic!("Expected Receive, got something else");
    }
}

#[test]
fn test_create_three_party_client_protocol() {
    let protocol: LocalProtocol<Client, String> = LocalProtocol::<Client, String>::send(
        "server",
        LocalProtocol::<Client, String>::receive("server", LocalProtocol::<Client, String>::end()),
    );

    if let LocalProtocol::Send { to, cont, .. } = protocol {
        assert_eq!(to.name(), "server");
        if let LocalProtocol::Receive { from, cont, .. } = *cont {
            assert_eq!(from.name(), "server");
            assert!(matches!(*cont, LocalProtocol::End { .. }));
        } else {
            panic!("Expected Receive, got something else");
        }
    } else {
        panic!("Expected Send, got something else");
    }
}

#[test]
fn local_offer_keeps_decider_and_labels() {
    let protocol: LocalProtocol<Server, String> = LocalProtocol::offer(
        "client",
        vec![
            ("yes".into(), LocalProtocol::end()),
            ("no".into(), LocalProtocol::var("loop")),
        ],
    );
    if let LocalProtocol::Offer { decider, branches, .. } = protocol.clone() {
        assert_eq!(decider.name(), "client");
        assert_eq!(branches.len(), 2);
        assert_eq!(branches[0].0.name(), "yes");
        assert_eq!(branches[1].0.name(), "no");
        assert!(matches!(*branches[1].1, LocalProtocol::Var { .. }));
    } else {
        panic!("Expected Offer");
    }
}
