use sessrums::types::session_types::global::GlobalInteraction;

#[test]
fn test_create_simple_protocol() {
    // Define a simple protocol: client sends a request to server, server responds
    let protocol: GlobalInteraction<String> = GlobalInteraction::message(
        "client",
        "server",
        GlobalInteraction::message("server", "client", GlobalInteraction::end()),
    );

    // Verify the structure of the protocol
    if let GlobalInteraction::Message { from, to, cont, .. } = protocol {
        assert_eq!(from.name(), "client");
        assert_eq!(to.name(), "server");

        if let GlobalInteraction::Message { from, to, cont, .. } = *cont {
            assert_eq!(from.name(), "server");
            assert_eq!(to.name(), "client");

            assert!(matches!(*cont, GlobalInteraction::End));
        } else {
            panic!("Expected Message, got End");
        }
    } else {
        panic!("Expected Message, got End");
    }
}

#[test]
fn test_create_three_party_protocol() {
    let protocol: GlobalInteraction<String> = GlobalInteraction::message(
        "client",
        "server",
        GlobalInteraction::message(
            "server",
            "database",
            GlobalInteraction::message(
                "database",
                "server",
                GlobalInteraction::message("server", "client", GlobalInteraction::end()),
            ),
        ),
    );

    if let GlobalInteraction::Message { from, to, cont, .. } = protocol {
        assert_eq!(from.name(), "client");
        assert_eq!(to.name(), "server");
        if let GlobalInteraction::Message { from, to, cont, .. } = *cont {
            assert_eq!(from.name(), "server");
            assert_eq!(to.name(), "database");
            if let GlobalInteraction::Message { from, to, cont, .. } = *cont {
                assert_eq!(from.name(), "database");
                assert_eq!(to.name(), "server");
                if let GlobalInteraction::Message { from, to, cont, .. } = *cont {
                    assert_eq!(from.name(), "server");
                    assert_eq!(to.name(), "client");
                    assert!(matches!(*cont, GlobalInteraction::End));
                } else {
                    panic!("Expected fourth Message, got End");
                }
            } else {
                panic!("Expected third Message, got End");
            }
        } else {
            panic!("Expected second Message, got End");
        }
    } else {
        panic!("Expected first Message, got End");
    }
}

#[test]
fn test_create_recursive_protocol() {
    // Define a recursive ping-pong protocol
    let protocol: GlobalInteraction<String> = GlobalInteraction::rec(
        "loop",
        GlobalInteraction::message(
            "client",
            "server",
            GlobalInteraction::message("server", "client", GlobalInteraction::var("loop")),
        ),
    );

    // Verify the structure of the protocol
    if let GlobalInteraction::Rec { label, body } = &protocol {
        assert_eq!(label.name(), "loop");
        if let GlobalInteraction::Message { from, to, cont, .. } = &**body {
            assert_eq!(from.name(), "client");
            assert_eq!(to.name(), "server");
            if let GlobalInteraction::Message { from, to, cont, .. } = &**cont {
                assert_eq!(from.name(), "server");
                assert_eq!(to.name(), "client");
                if let GlobalInteraction::Var { label } = &**cont {
                    assert_eq!(label.name(), "loop");
                } else {
                    panic!("Expected Var, got something else");
                }
            } else {
                panic!("Expected Message, got something else");
            }
        } else {
            panic!("Expected Message, got something else");
        }
    } else {
        panic!("Expected Rec, got something else");
    }

    // Verify well-formedness
    assert!(protocol.check_recursion_well_formedness().is_ok());
}

#[test]
fn test_invalid_recursive_protocol() {
    // Define a protocol with an undefined recursion variable
    let protocol: GlobalInteraction<String> =
        GlobalInteraction::message("client", "server", GlobalInteraction::var("undefined"));

    // Verify that well-formedness check fails
    assert!(protocol.check_recursion_well_formedness().is_err());

    // Define a protocol with duplicate recursion labels
    let protocol: GlobalInteraction<String> =
        GlobalInteraction::rec("loop", GlobalInteraction::rec("loop", GlobalInteraction::end()));

    // Verify that well-formedness check fails
    assert!(protocol.check_recursion_well_formedness().is_err());
}

#[test]
fn recursion_check_messages_name_the_label() {
    let undefined: GlobalInteraction<String> = GlobalInteraction::var("x");
    assert_eq!(
        undefined.check_recursion_well_formedness(),
        Err("Reference to undefined recursion label: RecursionLabel(\"x\")".to_string())
    );
    let duplicate: GlobalInteraction<String> =
        GlobalInteraction::rec("l", GlobalInteraction::rec("l", GlobalInteraction::end()));
    assert_eq!(
        duplicate.check_recursion_well_formedness(),
        Err("Duplicate recursion label: RecursionLabel(\"l\")".to_string())
    );
}

#[test]
fn recursion_labels_are_scoped_to_their_path() {
    // The same label on two separate branches is allowed.
    let protocol: GlobalInteraction<String> = GlobalInteraction::choice(
        "client",
        vec![
            ("a".into(), GlobalInteraction::rec("l", GlobalInteraction::var("l"))),
            ("b".into(), GlobalInteraction::rec("l", GlobalInteraction::var("l"))),
        ],
    );
    assert!(protocol.check_recursion_well_formedness().is_ok());
    // A label bound on one branch is not bound on the next.
    let protocol: GlobalInteraction<String> = GlobalInteraction::choice(
        "client",
        vec![
            ("a".into(), GlobalInteraction::rec("l", GlobalInteraction::end())),
            ("b".into(), GlobalInteraction::var("l")),
        ],
    );
    assert!(protocol.check_recursion_well_formedness().is_err());
}

#[test]
fn cloned_protocol_has_the_same_structure() {
    let protocol: GlobalInteraction<String> = GlobalInteraction::choice(
        "client",
        vec![("go".into(), GlobalInteraction::message("client", "server", GlobalInteraction::end()))],
    );
    let copy = protocol.clone();
    if let GlobalInteraction::Choice { decider, branches } = copy {
        assert_eq!(decider.name(), "client");
        assert_eq!(branches.len(), 1);
        assert_eq!(branches[0].0.name(), "go");
    } else {
        panic!("Expected Choice");
    }
}
