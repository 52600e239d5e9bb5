use dap_aggregator::admin::HpkeReceiverConfig;
use dap_aggregator::cache::{
    kv_fill_cached, kv_get_cached, kv_key, kv_key_version, kv_set_if_not_exists, select_receiver,
    CacheLookup, DaphneWorkerIsolateState, HpkeConfigCache, SetIfNotExists, TaskCache,
};
use dap_aggregator::config::HpkeConfig;
use dap_aggregator::messages::{DapVersion, TaskId};

fn task(id: u8) -> TaskId {
    TaskId { bytes: [id; 32] }
}

fn receiver(id: u8) -> HpkeReceiverConfig {
    HpkeReceiverConfig {
        config: HpkeConfig { id, kem_id: 0x20, kdf_id: 1, aead_id: 1, public_key: vec![id] },
        private_key: vec![id, id],
    }
}

#[test]
fn kv_keys_are_prefix_and_identifier() {
    assert_eq!(
        kv_key("config/task", &task(0)),
        b"config/task/AAAAAAAAAAAAAAAAAAAAAAAAAAAAAAAAAAAAAAAAAAA".to_vec()
    );
    assert_eq!(
        kv_key("bearer_token/leader/task", &task(255)),
        b"bearer_token/leader/task/__________________________________________8".to_vec()
    );
    assert_eq!(
        kv_key_version("hpke_receiver_config_set", DapVersion::Draft02),
        b"hpke_receiver_config_set/v02".to_vec()
    );
    assert_eq!(kv_key_version("p", DapVersion::Draft05), b"p/v05".to_vec());
}

#[test]
fn cache_holds_one_value_per_task() {
    let mut cache: TaskCache<String> = TaskCache::new();
    assert_eq!(cache.get(&task(1)), None);
    cache.insert(task(1), String::from("one"));
    cache.insert(task(2), String::from("two"));
    assert_eq!(cache.get(&task(1)), Some(&String::from("one")));
    assert_eq!(cache.get(&task(2)), Some(&String::from("two")));
    assert_eq!(cache.get(&task(3)), None);
    cache.insert(task(1), String::from("uno"));
    assert_eq!(cache.get(&task(1)), Some(&String::from("uno")));
    assert_eq!(cache.get(&task(2)), Some(&String::from("two")));
    cache.clear();
    assert_eq!(cache.get(&task(1)), None);
    assert_eq!(cache.get(&task(2)), None);
}

#[test]
fn lookup_hits_or_names_the_key() {
    let mut cache: TaskCache<u32> = TaskCache::new();
    match kv_get_cached(&cache, "config/task", &task(0)) {
        CacheLookup::Fetch(key) => assert_eq!(key, kv_key("config/task", &task(0))),
        CacheLookup::Hit(_) => panic!("nothing is cached"),
    }
    // Nothing was fetched: the task stays unknown.
    assert!(!kv_fill_cached(&mut cache, &task(0), None));
    assert!(matches!(kv_get_cached(&cache, "config/task", &task(0)), CacheLookup::Fetch(_)));
    // Something was fetched: the next lookup hits.
    assert!(kv_fill_cached(&mut cache, &task(0), Some(5)));
    assert!(matches!(kv_get_cached(&cache, "config/task", &task(0)), CacheLookup::Hit(5)));
    assert!(kv_fill_cached(&mut cache, &task(0), None));
    assert!(kv_fill_cached(&mut cache, &task(0), Some(6)));
    assert!(matches!(kv_get_cached(&cache, "config/task", &task(0)), CacheLookup::Hit(6)));
}

#[test]
fn set_if_not_exists_keeps_what_exists() {
    assert!(matches!(kv_set_if_not_exists(Some(1), 2), SetIfNotExists::Keep(1)));
    assert!(matches!(kv_set_if_not_exists(None, 2), SetIfNotExists::Put(2)));
}

#[test]
fn receiver_is_selected_by_identifier() {
    let list = vec![receiver(3), receiver(7), receiver(3)];
    assert_eq!(select_receiver(&list, 3), Some(0));
    assert_eq!(select_receiver(&list, 7), Some(1));
    assert_eq!(select_receiver(&list, 8), None);
    assert_eq!(select_receiver(&vec![], 0), None);
}

#[test]
fn hpke_configurations_by_version() {
    let mut cache = HpkeConfigCache::new();
    assert!(cache.get(DapVersion::Draft02).is_none());
    cache.insert(DapVersion::Draft02, vec![receiver(1)]);
    cache.insert(DapVersion::Unknown, vec![receiver(9)]);
    assert_eq!(cache.get(DapVersion::Draft02).unwrap().len(), 1);
    assert!(cache.get(DapVersion::Draft05).is_none());
    assert!(cache.get(DapVersion::Unknown).is_none());
    cache.insert(DapVersion::Draft05, vec![receiver(1), receiver(2)]);
    assert_eq!(cache.get(DapVersion::Draft05).unwrap().len(), 2);
    assert_eq!(cache.get(DapVersion::Draft02).unwrap()[0].config.id, 1);
    cache.clear();
    assert!(cache.get(DapVersion::Draft02).is_none());
    assert!(cache.get(DapVersion::Draft05).is_none());
}

#[test]
fn delete_all_empties_every_cache() {
    let mut state = DaphneWorkerIsolateState::new();
    state.hpke_receiver_configs.insert(DapVersion::Draft05, vec![receiver(1)]);
    state.leader_bearer_tokens.insert(task(1), String::from("l"));
    state.collector_bearer_tokens.insert(task(1), String::from("c"));
    state.delete_all();
    assert!(state.hpke_receiver_configs.get(DapVersion::Draft05).is_none());
    assert!(state.leader_bearer_tokens.get(&task(1)).is_none());
    assert!(state.collector_bearer_tokens.get(&task(1)).is_none());
    assert!(state.tasks.get(&task(1)).is_none());
}
