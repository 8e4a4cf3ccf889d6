use account_service::store::{StoreFault, StoreSettings};

#[test]
fn settings_name_the_collection_and_switch_retries_off() {
    let settings = StoreSettings::new();
    assert_eq!(settings.database, "Example");
    assert_eq!(settings.collection, "Accounts");
    assert!(!settings.retry_writes);
    assert!(!settings.retry_reads);
}

#[test]
fn settings_are_the_same_each_time() {
    assert_eq!(StoreSettings::new(), StoreSettings::new());
}

#[test]
fn store_faults_are_all_alike() {
    assert_eq!(StoreFault {}, StoreFault {});
}
