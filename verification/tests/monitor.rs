use peach_web::monitor::{
    get_alerts, get_data, get_thresholds, reset_data, update_store, Alert, Data, Key, Store,
    StoreError, Threshold, Value,
};

#[test]
fn data_defaults_to_zero_when_absent() {
    let store = Store::new();
    assert_eq!(get_data(Ok(store)), Ok(Data { total: 0 }));
}

#[test]
fn thresholds_round_trip_through_the_store() {
    let submitted = Threshold { warn: 1_000, cut: 5_000, warn_flag: true, cut_flag: false };
    let mut store = Store::new();
    store.load(Key::NotifyWarn, Value::Uint(7));
    let updated = update_store(Ok(store), submitted).unwrap();
    assert_eq!(get_thresholds(Ok(updated)), Ok(submitted));
}

#[test]
fn reset_sets_total_to_zero() {
    let mut store = Store::new();
    store.load(Key::TrafficTotal, Value::Uint(123_456));
    let reset = reset_data(Ok(store)).unwrap();
    assert_eq!(reset.writes(), &vec![(Key::TrafficTotal, Value::Uint(0))]);
    assert_eq!(get_data(Ok(reset)), Ok(Data { total: 0 }));
}

#[test]
fn open_failure_is_passed_on() {
    let error = StoreError::Failed { reason: "invalid schema".to_string() };
    assert_eq!(get_data(Err(error.clone())), Err(error));
}

#[test]
fn thresholds_and_alerts_default_when_absent() {
    let store = Store::new();
    assert_eq!(
        get_thresholds(Ok(store.clone())),
        Ok(Threshold { warn: 0, cut: 0, warn_flag: false, cut_flag: false })
    );
    assert_eq!(get_alerts(Ok(store)), Ok(Alert { warn: false, cut: false }));
}

#[test]
fn stored_values_are_read() {
    let mut store = Store::new();
    store.load(Key::TrafficTotal, Value::Uint(u64::MAX));
    store.load(Key::NotifyWarn, Value::Uint(10));
    store.load(Key::NotifyCutFlag, Value::Bool(true));
    store.load(Key::AlertCut, Value::Bool(true));
    assert!(store.writes().is_empty());
    assert_eq!(store.get(Key::NotifyWarn), Some(Value::Uint(10)));
    assert_eq!(store.get(Key::NotifyCut), None);
    assert_eq!(get_data(Ok(store.clone())), Ok(Data { total: u64::MAX }));
    assert_eq!(
        get_thresholds(Ok(store.clone())),
        Ok(Threshold { warn: 10, cut: 0, warn_flag: false, cut_flag: true })
    );
    assert_eq!(get_alerts(Ok(store)), Ok(Alert { warn: false, cut: true }));
}

#[test]
fn update_notes_four_writes_in_order() {
    let submitted = Threshold { warn: 3, cut: 4, warn_flag: false, cut_flag: true };
    let updated = update_store(Ok(Store::new()), submitted).unwrap();
    assert_eq!(
        updated.writes(),
        &vec![
            (Key::NotifyWarn, Value::Uint(3)),
            (Key::NotifyCut, Value::Uint(4)),
            (Key::NotifyWarnFlag, Value::Bool(false)),
            (Key::NotifyCutFlag, Value::Bool(true)),
        ]
    );
    let error = StoreError::Failed { reason: "invalid schema".to_string() };
    assert_eq!(update_store(Err(error.clone()), submitted).unwrap_err(), error);
    assert_eq!(reset_data(Err(error.clone())).unwrap_err(), error);
}

#[test]
fn values_of_another_kind_are_a_mismatch() {
    let mut store = Store::new();
    store.load(Key::TrafficTotal, Value::Other);
    store.load(Key::NotifyCut, Value::Bool(true));
    store.load(Key::NotifyWarnFlag, Value::Uint(1));
    store.load(Key::AlertCut, Value::Uint(0));
    assert_eq!(
        get_data(Ok(store.clone())),
        Err(StoreError::Mismatch { key: Key::TrafficTotal })
    );
    // the first value of another kind is the one reported
    assert_eq!(
        get_thresholds(Ok(store.clone())),
        Err(StoreError::Mismatch { key: Key::NotifyCut })
    );
    assert_eq!(get_alerts(Ok(store.clone())), Err(StoreError::Mismatch { key: Key::AlertCut }));
    assert_eq!(Data::get(&store), Err(StoreError::Mismatch { key: Key::TrafficTotal }));
    assert_eq!(Alert::get(&store), Err(StoreError::Mismatch { key: Key::AlertCut }));
    // storing thresholds makes them readable again
    let submitted = Threshold { warn: 1, cut: 2, warn_flag: true, cut_flag: true };
    let updated = update_store(Ok(store), submitted).unwrap();
    assert_eq!(Threshold::get(&updated), Ok(submitted));
    assert_eq!(Data::get(&updated), Err(StoreError::Mismatch { key: Key::TrafficTotal }));
    let reset = reset_data(Ok(updated)).unwrap();
    assert_eq!(Data::get(&reset), Ok(Data { total: 0 }));
    assert_eq!(Threshold::get(&reset), Ok(submitted));
}

#[test]
fn keys_have_three_level_paths() {
    assert_eq!(Key::TrafficTotal.path(), ("net", "traffic", "total"));
    assert_eq!(Key::NotifyWarn.path(), ("net", "notify", "warn"));
    assert_eq!(Key::NotifyCut.path(), ("net", "notify", "cut"));
    assert_eq!(Key::NotifyWarnFlag.path(), ("net", "notify", "warn_flag"));
    assert_eq!(Key::NotifyCutFlag.path(), ("net", "notify", "cut_flag"));
    assert_eq!(Key::AlertWarn.path(), ("net", "alert", "warn"));
    assert_eq!(Key::AlertCut.path(), ("net", "alert", "cut"));
}

#[test]
fn all_keys_are_listed_once() {
    let keys = Key::all();
    assert_eq!(keys.len(), 7);
    for (i, key) in keys.iter().enumerate() {
        assert!(keys.iter().skip(i + 1).all(|other| other != key));
    }
    assert_eq!(keys[0], Key::TrafficTotal);
    assert_eq!(keys[6], Key::AlertCut);
}
