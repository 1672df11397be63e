use github_device_flow::store::{Credential, CredentialStore, KeyringStore, MemoryStore};

#[test]
fn empty_store_misses_without_error() {
    let store = CredentialStore::Memory(MemoryStore::new());
    assert_eq!(store.get("alice"), Ok(None));
}

#[test]
fn put_then_get_round_trips() {
    let mut store = CredentialStore::Memory(MemoryStore::new());
    let put = store.put(Credential {
        identity: "alice".to_string(),
        secret: "tok_abc".to_string(),
    });
    assert_eq!(put, Ok(()));
    assert_eq!(
        store.get("alice"),
        Ok(Some(Credential {
            identity: "alice".to_string(),
            secret: "tok_abc".to_string(),
        }))
    );
    assert_eq!(store.get("bob"), Ok(None));
}

#[test]
fn put_overwrites_silently() {
    let mut store = CredentialStore::Memory(MemoryStore::new());
    store
        .put(Credential {
            identity: "alice".to_string(),
            secret: "old".to_string(),
        })
        .unwrap();
    store
        .put(Credential {
            identity: "alice".to_string(),
            secret: "new".to_string(),
        })
        .unwrap();
    let got = store.get("alice").unwrap().unwrap();
    assert_eq!(got.secret, "new");
}

#[test]
fn distinct_identities_do_not_collide() {
    let mut store = CredentialStore::Memory(MemoryStore::new());
    store
        .put(Credential {
            identity: "alice".to_string(),
            secret: "a".to_string(),
        })
        .unwrap();
    store
        .put(Credential {
            identity: "bob".to_string(),
            secret: "b".to_string(),
        })
        .unwrap();
    assert_eq!(store.get("alice").unwrap().unwrap().secret, "a");
    assert_eq!(store.get("bob").unwrap().unwrap().secret, "b");
}

#[test]
fn keyring_backend_answers_with_a_miss_or_a_typed_error() {
    // What the platform store holds is the machine's business: the only
    // promise is the shape of the answer, and that a hit is filed under
    // the identity that was asked for.
    let store = CredentialStore::Keyring(KeyringStore::new(
        "github_device_flow-test-suite".to_string(),
    ));
    match store.get("nobody-we-ever-wrote") {
        Ok(Some(c)) => assert_eq!(c.identity, "nobody-we-ever-wrote"),
        Ok(None) => {}
        Err(_) => {}
    }
}
