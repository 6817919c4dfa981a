use std::time::Duration;

use bb8_tikv::{Config, ConnectRequest, Error, RawProbe, Step, TiKVRawConnectionManager};

fn owned(endpoints: &[&str]) -> Vec<String> {
    endpoints.iter().map(|e| e.to_string()).collect()
}

fn first_connect_step(manager: &TiKVRawConnectionManager) -> ConnectRequest {
    match manager.connect::<u32>(None) {
        Step::Call(request) => request,
        Step::Done(_) => panic!("a connection attempt ended before any call was made"),
    }
}

#[test]
fn raw_new_succeeds_without_config() {
    let pd_servers: Vec<String> = vec!["127.0.0.1:2379".into()];
    assert!(TiKVRawConnectionManager::new(pd_servers, None).is_ok());
}

#[test]
fn raw_new_succeeds_with_config() {
    let config = Config::default().with_timeout(Duration::from_secs(10));
    assert!(TiKVRawConnectionManager::new(vec!["pd0:2379", "pd1:2379"], Some(config)).is_ok());
}

#[test]
fn raw_new_succeeds_on_empty_endpoints() {
    let manager = TiKVRawConnectionManager::new(Vec::<String>::new(), None).unwrap();
    assert_eq!(
        first_connect_step(&manager),
        ConnectRequest::New { pd_endpoints: Vec::new() }
    );
}

#[test]
fn raw_connect_without_config_calls_default_constructor() {
    let manager =
        TiKVRawConnectionManager::new(owned(&["10.0.0.1:2379", "10.0.0.2:2379"]), None).unwrap();
    assert_eq!(
        first_connect_step(&manager),
        ConnectRequest::New { pd_endpoints: owned(&["10.0.0.1:2379", "10.0.0.2:2379"]) }
    );
}

#[test]
fn raw_connect_with_config_calls_config_constructor() {
    let config = Config::default()
        .with_timeout(Duration::from_secs(60))
        .with_security("root.ca", "internal.cert", "internal.key");
    let manager =
        TiKVRawConnectionManager::new(owned(&["10.0.0.1:2379"]), Some(config.clone())).unwrap();
    assert_eq!(
        first_connect_step(&manager),
        ConnectRequest::NewWithConfig { pd_endpoints: owned(&["10.0.0.1:2379"]), config }
    );
}

#[test]
fn raw_connect_with_default_config_still_calls_config_constructor() {
    let manager =
        TiKVRawConnectionManager::new(owned(&["10.0.0.1:2379"]), Some(Config::default())).unwrap();
    assert_eq!(
        first_connect_step(&manager),
        ConnectRequest::NewWithConfig {
            pd_endpoints: owned(&["10.0.0.1:2379"]),
            config: Config::default(),
        }
    );
}

#[test]
fn raw_endpoints_keep_their_order() {
    let given = owned(&["c:3", "a:1", "b:2", "a:1"]);
    let manager = TiKVRawConnectionManager::new(given.clone(), None).unwrap();
    match first_connect_step(&manager) {
        ConnectRequest::New { pd_endpoints } => assert_eq!(pd_endpoints, given),
        ConnectRequest::NewWithConfig { .. } => panic!("no configuration was given"),
    }
}

#[test]
fn raw_endpoints_from_string_slices_keep_their_text() {
    let manager = TiKVRawConnectionManager::new(vec!["pd0:2379", "", "pd2:2379"], None).unwrap();
    assert_eq!(
        first_connect_step(&manager),
        ConnectRequest::New { pd_endpoints: owned(&["pd0:2379", "", "pd2:2379"]) }
    );
}

#[test]
fn raw_every_connection_is_configured_alike() {
    let config = Config::default().with_timeout(Duration::from_millis(1500));
    let manager =
        TiKVRawConnectionManager::new(owned(&["pd0:2379", "pd1:2379"]), Some(config)).unwrap();
    let first = first_connect_step(&manager);
    let second = first_connect_step(&manager);
    assert_eq!(first, second);
    let copy = manager.clone();
    assert_eq!(first_connect_step(&copy), first);
}

#[test]
fn raw_connect_hands_the_connection_on() {
    let manager = TiKVRawConnectionManager::new(owned(&["pd0:2379"]), None).unwrap();
    match manager.connect(Some(Ok(String::from("connection 7")))) {
        Step::Done(Ok(connection)) => assert_eq!(connection, "connection 7"),
        other => panic!("unexpected step {:?}", other),
    }
}

#[test]
fn raw_connect_hands_the_error_on() {
    let manager = TiKVRawConnectionManager::new(owned(&["pd0:2379"]), None).unwrap();
    let failure = Error::StringError("PD cluster failed to respond".to_string());
    match manager.connect::<u32>(Some(Err(failure))) {
        Step::Done(Err(Error::StringError(message))) => {
            assert_eq!(message, "PD cluster failed to respond")
        }
        other => panic!("unexpected step {:?}", other),
    }
}

#[test]
fn raw_is_valid_probes_the_empty_key() {
    let manager = TiKVRawConnectionManager::new(owned(&["pd0:2379"]), None).unwrap();
    match manager.is_valid(None) {
        Step::Call(probe) => assert_eq!(probe, RawProbe::Get { key: String::new() }),
        Step::Done(_) => panic!("a check ended before the probe was sent"),
    }
}

#[test]
fn raw_is_valid_accepts_a_missing_key() {
    let manager = TiKVRawConnectionManager::new(owned(&["pd0:2379"]), None).unwrap();
    assert!(matches!(manager.is_valid(Some(Ok(None))), Step::Done(Ok(()))));
}

#[test]
fn raw_is_valid_accepts_a_value() {
    let manager = TiKVRawConnectionManager::new(owned(&["pd0:2379"]), None).unwrap();
    assert!(matches!(manager.is_valid(Some(Ok(Some(b"111".to_vec())))), Step::Done(Ok(()))));
    assert!(matches!(manager.is_valid(Some(Ok(Some(Vec::new())))), Step::Done(Ok(()))));
}

#[test]
fn raw_is_valid_returns_the_error_unchanged() {
    let manager = TiKVRawConnectionManager::new(owned(&["pd0:2379"]), None).unwrap();
    let failure = Error::RegionForKeyNotFound { key: vec![1, 2, 3] };
    match manager.is_valid(Some(Err(failure))) {
        Step::Done(Err(Error::RegionForKeyNotFound { key })) => assert_eq!(key, vec![1, 2, 3]),
        other => panic!("unexpected step {:?}", other),
    }
    match manager.is_valid(Some(Err(Error::Unimplemented))) {
        Step::Done(Err(Error::Unimplemented)) => {}
        other => panic!("unexpected step {:?}", other),
    }
}

#[test]
fn raw_is_valid_does_not_wrap_io_errors() {
    let manager = TiKVRawConnectionManager::new(owned(&["pd0:2379"]), None).unwrap();
    let refused = std::io::Error::new(std::io::ErrorKind::ConnectionRefused, "refused");
    match manager.is_valid(Some(Err(Error::Io(refused)))) {
        Step::Done(Err(Error::Io(inner))) => {
            assert_eq!(inner.kind(), std::io::ErrorKind::ConnectionRefused);
            assert_eq!(inner.to_string(), "refused");
        }
        other => panic!("unexpected step {:?}", other),
    }
}

#[test]
fn raw_has_broken_is_always_false() {
    let manager = TiKVRawConnectionManager::new(owned(&["pd0:2379"]), None).unwrap();
    let mut connection = String::from("connection");
    assert!(!manager.has_broken(&mut connection));
    assert!(!manager.has_broken(&mut connection));
    assert_eq!(connection, "connection");
}

#[test]
fn raw_has_broken_is_false_after_a_failed_check() {
    let manager = TiKVRawConnectionManager::new(owned(&["pd0:2379"]), None).unwrap();
    let mut connection = 42u64;
    let failure = Error::StringError("connection reset".to_string());
    assert!(matches!(manager.is_valid(Some(Err(failure))), Step::Done(Err(_))));
    assert!(!manager.has_broken(&mut connection));
    assert_eq!(connection, 42);
}

fn shared_between_tasks<T: Send + Sync + 'static>(_value: &T) {}

#[test]
fn raw_manager_can_be_shared_between_tasks() {
    let manager = TiKVRawConnectionManager::new(owned(&["pd0:2379"]), None).unwrap();
    shared_between_tasks(&manager);
}
