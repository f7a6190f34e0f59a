use ed25519_dalek::SigningKey;
use rand::rngs::OsRng;
use room_state::composable::ComposableState;
use room_state::configuration::{AuthorizedConfigurationV1, Configuration};
use room_state::error::StateError;
use room_state::member::MemberId;
use room_state::room_state::{ChatRoomParametersV1, ChatRoomStateV1};

fn key_pair() -> ([u8; 32], [u8; 32]) {
    let signing_key = SigningKey::generate(&mut OsRng);
    let secret = signing_key.to_bytes();
    let public = ChatRoomParametersV1::from_owner_key(&secret).owner;
    assert_eq!(public, signing_key.verifying_key().to_bytes());
    (secret, public)
}

#[test]
fn test_verify() {
    let (owner_signing_key, owner_verifying_key) = key_pair();
    let configuration = Configuration::default();
    let authorized_configuration =
        AuthorizedConfigurationV1::new(configuration.clone(), &owner_signing_key);

    assert!(authorized_configuration
        .verify_signature(&owner_verifying_key)
        .is_ok());

    let mut parent_state = ChatRoomStateV1::default();
    parent_state.configuration = authorized_configuration.clone();
    let parameters = ChatRoomParametersV1 {
        owner: owner_verifying_key,
    };

    assert!(authorized_configuration
        .verify(&parent_state, &parameters)
        .is_ok());
}

#[test]
fn test_verify_fail() {
    let (owner_signing_key, _owner_verifying_key) = key_pair();
    let configuration = Configuration::default();
    let authorized_configuration =
        AuthorizedConfigurationV1::new(configuration.clone(), &owner_signing_key);

    let (_wrong_owner_signing_key, wrong_owner_verifying_key) = key_pair();

    assert!(authorized_configuration
        .verify_signature(&wrong_owner_verifying_key)
        .is_err());

    let mut parent_state = ChatRoomStateV1::default();
    parent_state.configuration = authorized_configuration.clone();
    let parameters = ChatRoomParametersV1 {
        owner: wrong_owner_verifying_key,
    };

    assert!(authorized_configuration
        .verify(&parent_state, &parameters)
        .is_err());
}

#[test]
fn test_summarize() {
    let (owner_signing_key, owner_verifying_key) = key_pair();
    let configuration = Configuration::default();
    let authorized_configuration =
        AuthorizedConfigurationV1::new(configuration.clone(), &owner_signing_key);

    let mut parent_state = ChatRoomStateV1::default();
    parent_state.configuration = authorized_configuration.clone();
    let parameters = ChatRoomParametersV1 {
        owner: owner_verifying_key,
    };

    assert_eq!(
        authorized_configuration.summarize(&parent_state, &parameters),
        configuration.configuration_version
    );
}

#[test]
fn test_delta_new_version() {
    let (owner_signing_key, owner_verifying_key) = key_pair();
    let configuration = Configuration::default();
    let authorized_configuration =
        AuthorizedConfigurationV1::new(configuration.clone(), &owner_signing_key);

    let mut parent_state = ChatRoomStateV1::default();
    parent_state.configuration = authorized_configuration.clone();
    let parameters = ChatRoomParametersV1 {
        owner: owner_verifying_key,
    };

    let new_configuration = Configuration {
        configuration_version: 2,
        ..configuration.clone()
    };
    let new_authorized_configuration =
        AuthorizedConfigurationV1::new(new_configuration.clone(), &owner_signing_key);

    assert_eq!(
        new_authorized_configuration.delta(&parent_state, &parameters, &1),
        Some(new_authorized_configuration)
    );
}

#[test]
fn test_delta_older_version() {
    let (owner_signing_key, owner_verifying_key) = key_pair();
    let configuration = Configuration::default();
    let authorized_configuration =
        AuthorizedConfigurationV1::new(configuration.clone(), &owner_signing_key);

    let mut parent_state = ChatRoomStateV1::default();
    parent_state.configuration = authorized_configuration.clone();
    let parameters = ChatRoomParametersV1 {
        owner: owner_verifying_key,
    };

    let new_configuration = Configuration {
        configuration_version: 0,
        ..configuration.clone()
    };
    let _new_authorized_configuration =
        AuthorizedConfigurationV1::new(new_configuration.clone(), &owner_signing_key);

    assert_eq!(
        authorized_configuration.delta(&parent_state, &parameters, &1),
        None
    );
}

#[test]
fn test_apply_delta_should_apply() {
    let (owner_signing_key, owner_verifying_key) = key_pair();
    let configuration = Configuration::default();
    let mut authorized_configuration =
        AuthorizedConfigurationV1::new(configuration.clone(), &owner_signing_key);

    let mut parent_state = ChatRoomStateV1::default();
    parent_state.configuration = authorized_configuration.clone();
    let parameters = ChatRoomParametersV1 {
        owner: owner_verifying_key,
    };

    let new_configuration = Configuration {
        configuration_version: 2,
        ..configuration.clone()
    };
    let new_authorized_configuration =
        AuthorizedConfigurationV1::new(new_configuration.clone(), &owner_signing_key);

    authorized_configuration
        .apply_delta(
            &parent_state,
            &parameters,
            &Some(new_authorized_configuration.clone()),
        )
        .unwrap();

    assert_eq!(authorized_configuration, new_authorized_configuration);
}

#[test]
fn test_apply_delta_none() {
    let (owner_signing_key, owner_verifying_key) = key_pair();
    let configuration = Configuration::default();
    let mut authorized_configuration =
        AuthorizedConfigurationV1::new(configuration.clone(), &owner_signing_key);

    let authorized_configuration_orig = authorized_configuration.clone();

    let mut parent_state = ChatRoomStateV1::default();
    parent_state.configuration = authorized_configuration.clone();
    let parameters = ChatRoomParametersV1 {
        owner: owner_verifying_key,
    };

    authorized_configuration
        .apply_delta(&parent_state, &parameters, &None)
        .unwrap();

    assert_eq!(authorized_configuration, authorized_configuration_orig);
}

#[test]
fn test_apply_delta_old_version() {
    let (owner_signing_key, owner_verifying_key) = key_pair();
    let configuration = Configuration::default();
    let mut authorized_configuration =
        AuthorizedConfigurationV1::new(configuration.clone(), &owner_signing_key);

    let orig_authorized_configuration = authorized_configuration.clone();

    let mut parent_state = ChatRoomStateV1::default();
    parent_state.configuration = authorized_configuration.clone();
    let parameters = ChatRoomParametersV1 {
        owner: owner_verifying_key,
    };

    let new_configuration = Configuration {
        configuration_version: 0,
        ..configuration.clone()
    };
    let new_authorized_configuration =
        AuthorizedConfigurationV1::new(new_configuration.clone(), &owner_signing_key);

    authorized_configuration
        .apply_delta(
            &parent_state,
            &parameters,
            &Some(new_authorized_configuration),
        )
        .unwrap();

    assert_eq!(authorized_configuration, orig_authorized_configuration);
}

#[test]
fn default_configuration_values() {
    let c = Configuration::default();
    assert_eq!(c.owner_member_id, MemberId(0));
    assert_eq!(c.configuration_version, 1);
    assert_eq!(c.name, "Default Room");
    assert_eq!(c.max_recent_messages, 100);
    assert_eq!(c.max_user_bans, 10);
    assert_eq!(c.max_message_size, 1000);
    assert_eq!(c.max_nickname_size, 50);
    assert_eq!(c.max_members, 200);
}

#[test]
fn summarize_then_delta_then_apply_renames_room() {
    let (sk, pk) = key_pair();
    let v1 = AuthorizedConfigurationV1::new(Configuration::default(), &sk);
    let mut replica = v1.clone();
    let parent_state = ChatRoomStateV1::new(v1.clone());
    let parameters = ChatRoomParametersV1 { owner: pk };
    let summary = replica.summarize(&parent_state, &parameters);
    assert_eq!(summary, 1);

    let v2 = AuthorizedConfigurationV1::new(
        Configuration {
            configuration_version: 2,
            name: "Renamed".to_string(),
            ..Configuration::default()
        },
        &sk,
    );
    let delta = v2.delta(&parent_state, &parameters, &summary);
    assert_eq!(delta, Some(v2.clone()));
    replica.apply_delta(&parent_state, &parameters, &delta).unwrap();
    assert_eq!(replica, v2);
    assert!(replica.verify(&parent_state, &parameters).is_ok());
}

#[test]
fn older_delta_leaves_newer_replica_unchanged() {
    let (sk, pk) = key_pair();
    let v1 = AuthorizedConfigurationV1::new(Configuration::default(), &sk);
    let v2 = AuthorizedConfigurationV1::new(
        Configuration {
            configuration_version: 2,
            ..Configuration::default()
        },
        &sk,
    );
    let mut replica = v2.clone();
    let parent_state = ChatRoomStateV1::new(v2.clone());
    let parameters = ChatRoomParametersV1 { owner: pk };
    assert_eq!(
        replica.apply_delta(&parent_state, &parameters, &Some(v1)),
        Ok(())
    );
    assert_eq!(replica, v2);
}

#[test]
fn equal_version_delta_is_discarded() {
    let (sk, pk) = key_pair();
    let a = AuthorizedConfigurationV1::new(Configuration::default(), &sk);
    let b = AuthorizedConfigurationV1::new(
        Configuration {
            name: "Other".to_string(),
            ..Configuration::default()
        },
        &sk,
    );
    let mut replica = a.clone();
    let parent_state = ChatRoomStateV1::new(a.clone());
    let parameters = ChatRoomParametersV1 { owner: pk };
    replica.apply_delta(&parent_state, &parameters, &Some(b)).unwrap();
    assert_eq!(replica, a);
    assert_eq!(a.delta(&parent_state, &parameters, &1), None);
}

#[test]
fn applying_a_delta_twice_is_applying_it_once() {
    let (sk, pk) = key_pair();
    let v1 = AuthorizedConfigurationV1::new(Configuration::default(), &sk);
    let v3 = AuthorizedConfigurationV1::new(
        Configuration {
            configuration_version: 3,
            ..Configuration::default()
        },
        &sk,
    );
    let parent_state = ChatRoomStateV1::new(v1.clone());
    let parameters = ChatRoomParametersV1 { owner: pk };
    let delta = Some(v3.clone());
    let mut once = v1.clone();
    once.apply_delta(&parent_state, &parameters, &delta).unwrap();
    let mut twice = v1.clone();
    twice.apply_delta(&parent_state, &parameters, &delta).unwrap();
    twice.apply_delta(&parent_state, &parameters, &delta).unwrap();
    assert_eq!(once, twice);
    assert_eq!(twice, v3);
}

#[test]
fn tampered_configuration_fails_authenticity() {
    let (sk, pk) = key_pair();
    let mut c = AuthorizedConfigurationV1::new(Configuration::default(), &sk);
    c.configuration.max_members = 201;
    assert_eq!(c.verify_signature(&pk), Err(StateError::Authenticity));
}

#[test]
fn configuration_id_is_fast_hash_of_signature() {
    let (sk, _pk) = key_pair();
    let c = AuthorizedConfigurationV1::new(Configuration::default(), &sk);
    let expected = freenet_scaffold::util::fast_hash(&c.signature).0 as i32;
    assert_eq!(c.id(), expected);
    assert_eq!(c.id(), c.id());
}
