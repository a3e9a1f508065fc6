use wamp_core::role::{ClientRole, ServerRole};

#[test]
fn client_role_names() {
    assert_eq!(ClientRole::Caller.to_str(), "caller");
    assert_eq!(ClientRole::Callee.to_str(), "callee");
    assert_eq!(ClientRole::Publisher.to_str(), "publisher");
    assert_eq!(ClientRole::Subscriber.to_str(), "subscriber");
}

#[test]
fn server_role_names() {
    assert_eq!(ServerRole::Router.to_str(), "router");
    assert_eq!(ServerRole::Broker.to_str(), "broker");
}

#[test]
fn client_role_names_are_unique() {
    let roles = [
        ClientRole::Caller,
        ClientRole::Callee,
        ClientRole::Publisher,
        ClientRole::Subscriber,
    ];
    for (i, a) in roles.iter().enumerate() {
        for (j, b) in roles.iter().enumerate() {
            assert_eq!(a.to_str() == b.to_str(), i == j);
            assert_eq!(a == b, i == j);
        }
    }
}

#[test]
fn role_names_are_lowercase_words() {
    let names = [
        ClientRole::Caller.to_str(),
        ClientRole::Callee.to_str(),
        ClientRole::Publisher.to_str(),
        ClientRole::Subscriber.to_str(),
        ServerRole::Router.to_str(),
        ServerRole::Broker.to_str(),
    ];
    for name in names {
        assert!(!name.is_empty());
        assert!(name.chars().all(|c| ('a'..='z').contains(&c)), "{}", name);
    }
}

#[test]
fn server_role_names_are_unique() {
    assert_ne!(ServerRole::Router.to_str(), ServerRole::Broker.to_str());
}

#[test]
fn client_roles_clone_and_hash() {
    let mut held = std::collections::HashSet::new();
    held.insert(ClientRole::Caller);
    held.insert(ClientRole::Caller.clone());
    held.insert(ClientRole::Subscriber);
    assert_eq!(held.len(), 2);
    assert!(held.contains(&ClientRole::Subscriber));
    assert!(!held.contains(&ClientRole::Publisher));
}
