use sessrums::types::projection::RoleExt;
use sessrums::types::roles::{Client, Server};
use sessrums::types::session_types::common::{Label, Participant, RecursionLabel, RoleIdentifier};

#[test]
fn test_role_identifier() {
    let id1 = RoleIdentifier::new("client");
    let id2 = RoleIdentifier::from("client");
    let id3: RoleIdentifier = "client".into();

    assert_eq!(id1, id2);
    assert_eq!(id2, id3);
    assert_eq!(id1.name(), "client");
}

#[test]
fn test_participant() {
    let client = Participant::<Client>::new("client");
    let server = Participant::<Server>::new("server");

    assert_eq!(client.identifier.name(), "client");
    assert_eq!(server.identifier.name(), "server");
}

#[test]
fn test_recursion_label() {
    let label1 = RecursionLabel::new("loop");
    let label2 = RecursionLabel::from("loop");
    let label3: RecursionLabel = "loop".into();

    assert_eq!(label1, label2);
    assert_eq!(label2, label3);
    assert_eq!(label1.name(), "loop");
}

#[test]
fn test_label_creation() {
    let label1 = Label::new("option1");
    let label2 = Label::from("option1");
    let label3: Label = "option1".into();

    assert_eq!(label1, label2);
    assert_eq!(label2, label3);
    assert_eq!(label1.name(), "option1");
}

#[test]
fn roles_are_copy() {
    let client = Client;
    let _client_copy = client;
    // Original client still usable
    let _also_client = client;

    let server = Server;
    let _server_copy = server;
    // Original server still usable
    let _also_server = server;
}

#[test]
fn role_identifier_from_string_and_display() {
    let id = RoleIdentifier::from(String::from("server"));
    assert_eq!(id.name(), "server");
    assert_eq!(id.to_display_string(), "server");
    assert_ne!(id, RoleIdentifier::new("client"));
}

#[test]
fn participant_display_and_clone() {
    let p = Participant::<Client>::new("alice");
    assert_eq!(p.to_display_string(), "Participant(alice)");
    let q = p.clone();
    assert_eq!(q.identifier().name(), "alice");
}

#[test]
fn labels_differ_by_name() {
    assert_ne!(Label::new("a"), Label::new("b"));
    assert_ne!(RecursionLabel::new("a"), RecursionLabel::new("b"));
}

#[test]
fn roles_answer_to_their_name_in_any_case() {
    assert!(Client::is_role(&RoleIdentifier::new("client")));
    assert!(Client::is_role(&RoleIdentifier::new("CLIENT")));
    assert!(Client::is_role(&RoleIdentifier::new("Client")));
    assert!(!Client::is_role(&RoleIdentifier::new("server")));
    assert!(Server::is_role(&RoleIdentifier::new("SERVER")));
    assert!(!Server::is_role(&RoleIdentifier::new("storage")));
}
