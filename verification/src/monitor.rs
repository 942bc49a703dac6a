//! Network data usage monitor: traffic total, notification thresholds and
//! alert flags, kept in a small key-value store.

use vstd::prelude::*;

verus! {

/// The values the monitor keeps, each under a three-level path
/// `net.<group>.<field>`.
#[derive(Clone, Copy, Debug, PartialEq, Eq, Structural)]
pub enum Key {
    /// `net.traffic.total`: cumulative traffic in bytes.
    TrafficTotal,
    /// `net.notify.warn`: warning threshold in bytes.
    NotifyWarn,
    /// `net.notify.cut`: cutoff threshold in bytes.
    NotifyCut,
    /// `net.notify.warn_flag`: whether the warning notification fires.
    NotifyWarnFlag,
    /// `net.notify.cut_flag`: whether the cutoff notification fires.
    NotifyCutFlag,
    /// `net.alert.warn`: whether the warning threshold has been crossed.
    AlertWarn,
    /// `net.alert.cut`: whether the cutoff threshold has been crossed.
    AlertCut,
}

/// A stored scalar. `Other` stands for every value that is neither a boolean
/// nor an unsigned integer.
#[derive(Clone, Copy, Debug, PartialEq, Eq, Structural)]
pub enum Value {
    Bool(bool),
    Uint(u64),
    Other,
}

/// What went wrong with the store.
#[derive(Clone, Debug, PartialEq, Eq)]
pub enum StoreError {
    /// The store could not be opened, or not written to. `reason` is what
    /// the store said.
    Failed { reason: String },
    /// The value under `key` is not of the kind that the key holds.
    Mismatch { key: Key },
}

/// What a `Store` stands for: the value under each key that has one, and the
/// writes made since it was loaded, oldest first.
pub struct StoreView {
    pub entries: Map<Key, Value>,
    pub writes: Seq<(Key, Value)>,
}

/// An in-memory image of the persisted monitor state. The caller loads it
/// from disk, and persists the writes that were made to it.
#[derive(Clone, Debug)]
pub struct Store {
    traffic_total: Option<Value>,
    notify_warn: Option<Value>,
    notify_cut: Option<Value>,
    notify_warn_flag: Option<Value>,
    notify_cut_flag: Option<Value>,
    alert_warn: Option<Value>,
    alert_cut: Option<Value>,
    writes: Vec<(Key, Value)>,
}

impl Key {
    /// Every key, in the order of their declaration.
    pub fn all() -> (keys: Vec<Key>)
        ensures
            keys@ == seq![
                Key::TrafficTotal,
                Key::NotifyWarn,
                Key::NotifyCut,
                Key::NotifyWarnFlag,
                Key::NotifyCutFlag,
                Key::AlertWarn,
                Key::AlertCut,
            ],
    {
        vec![
            Key::TrafficTotal,
            Key::NotifyWarn,
            Key::NotifyCut,
            Key::NotifyWarnFlag,
            Key::NotifyCutFlag,
            Key::AlertWarn,
            Key::AlertCut,
        ]
    }

    /// The path segments of the key.
    pub fn path(&self) -> (segments: (&'static str, &'static str, &'static str))
        ensures
            segments.0@ == "net"@,
            segments.1@ == match *self {
                Key::TrafficTotal => "traffic"@,
                Key::NotifyWarn | Key::NotifyCut | Key::NotifyWarnFlag | Key::NotifyCutFlag
                    => "notify"@,
                Key::AlertWarn | Key::AlertCut => "alert"@,
            },
            segments.2@ == match *self {
                Key::TrafficTotal => "total"@,
                Key::NotifyWarn | Key::AlertWarn => "warn"@,
                Key::NotifyCut | Key::AlertCut => "cut"@,
                Key::NotifyWarnFlag => "warn_flag"@,
                Key::NotifyCutFlag => "cut_flag"@,
            },
    {
        match self {
            Key::TrafficTotal => ("net", "traffic", "total"),
            Key::NotifyWarn => ("net", "notify", "warn"),
            Key::NotifyCut => ("net", "notify", "cut"),
            Key::NotifyWarnFlag => ("net", "notify", "warn_flag"),
            Key::NotifyCutFlag => ("net", "notify", "cut_flag"),
            Key::AlertWarn => ("net", "alert", "warn"),
            Key::AlertCut => ("net", "alert", "cut"),
        }
    }
}

impl Store {
    spec fn slot(&self, key: Key) -> Option<Value> {
        match key {
            Key::TrafficTotal => self.traffic_total,
            Key::NotifyWarn => self.notify_warn,
            Key::NotifyCut => self.notify_cut,
            Key::NotifyWarnFlag => self.notify_warn_flag,
            Key::NotifyCutFlag => self.notify_cut_flag,
            Key::AlertWarn => self.alert_warn,
            Key::AlertCut => self.alert_cut,
        }
    }

    /// A store that holds nothing.
    pub fn new() -> (store: Store)
        ensures
            store@.entries == Map::<Key, Value>::empty(),
            store@.writes == Seq::<(Key, Value)>::empty(),
    {
        let store = Store {
            traffic_total: None,
            notify_warn: None,
            notify_cut: None,
            notify_warn_flag: None,
            notify_cut_flag: None,
            alert_warn: None,
            alert_cut: None,
            writes: Vec::new(),
        };
        assert(store@.entries =~= Map::<Key, Value>::empty());
        store
    }

    fn put(&mut self, key: Key, value: Value)
        ensures
            final(self)@.entries == old(self)@.entries.insert(key, value),
            final(self).writes == old(self).writes,
    {
        match key {
            Key::TrafficTotal => { self.traffic_total = Some(value); }
            Key::NotifyWarn => { self.notify_warn = Some(value); }
            Key::NotifyCut => { self.notify_cut = Some(value); }
            Key::NotifyWarnFlag => { self.notify_warn_flag = Some(value); }
            Key::NotifyCutFlag => { self.notify_cut_flag = Some(value); }
            Key::AlertWarn => { self.alert_warn = Some(value); }
            Key::AlertCut => { self.alert_cut = Some(value); }
        }
        assert(self@.entries =~= old(self)@.entries.insert(key, value));
    }

    /// Records a value found on disk. It is no write.
    pub fn load(&mut self, key: Key, value: Value)
        ensures
            final(self)@.entries == old(self)@.entries.insert(key, value),
            final(self)@.writes == old(self)@.writes,
    {
        self.put(key, value);
    }

    /// Gives `key` the value `value`, and notes the write.
    pub fn set(&mut self, key: Key, value: Value)
        ensures
            final(self)@.entries == old(self)@.entries.insert(key, value),
            final(self)@.writes == old(self)@.writes.push((key, value)),
    {
        self.put(key, value);
        self.writes.push((key, value));
    }

    /// The value under `key`, if there is one.
    pub fn get(&self, key: Key) -> (value: Option<Value>)
        ensures
            value == if self@.entries.contains_key(key) {
                Some(self@.entries[key])
            } else {
                None
            },
    {
        match key {
            Key::TrafficTotal => self.traffic_total,
            Key::NotifyWarn => self.notify_warn,
            Key::NotifyCut => self.notify_cut,
            Key::NotifyWarnFlag => self.notify_warn_flag,
            Key::NotifyCutFlag => self.notify_cut_flag,
            Key::AlertWarn => self.alert_warn,
            Key::AlertCut => self.alert_cut,
        }
    }

    /// The writes made so far, oldest first.
    pub fn writes(&self) -> (writes: &Vec<(Key, Value)>)
        ensures
            writes@ == self@.writes,
    {
        &self.writes
    }
}

impl View for Store {
    type V = StoreView;

    closed spec fn view(&self) -> StoreView {
        StoreView {
            entries: Map::new(|key: Key| self.slot(key) is Some, |key: Key| self.slot(key).unwrap()),
            writes: self.writes@,
        }
    }
}

/// The unsigned integer under `key`, or `default` where the key has no value.
pub open spec fn uint_or(entries: Map<Key, Value>, key: Key, default: u64) -> u64 {
    if entries.contains_key(key) {
        entries[key]->Uint_0
    } else {
        default
    }
}

/// The boolean under `key`, or `default` where the key has no value.
pub open spec fn bool_or(entries: Map<Key, Value>, key: Key, default: bool) -> bool {
    if entries.contains_key(key) {
        entries[key]->Bool_0
    } else {
        default
    }
}

/// `key` has no value, or an unsigned integer.
pub open spec fn holds_uint(entries: Map<Key, Value>, key: Key) -> bool {
    entries.contains_key(key) ==> entries[key] is Uint
}

/// `key` has no value, or a boolean.
pub open spec fn holds_bool(entries: Map<Key, Value>, key: Key) -> bool {
    entries.contains_key(key) ==> entries[key] is Bool
}

/// The unsigned integer under `key`, 0 where the key has no value, or the
/// error of a value of another kind.
pub open spec fn stored_uint(entries: Map<Key, Value>, key: Key) -> Result<u64, StoreError> {
    if holds_uint(entries, key) {
        Ok(uint_or(entries, key, 0))
    } else {
        Err(StoreError::Mismatch { key })
    }
}

/// The boolean under `key`, `false` where the key has no value, or the
/// error of a value of another kind.
pub open spec fn stored_bool(entries: Map<Key, Value>, key: Key) -> Result<bool, StoreError> {
    if holds_bool(entries, key) {
        Ok(bool_or(entries, key, false))
    } else {
        Err(StoreError::Mismatch { key })
    }
}

fn uint_at(store: &Store, key: Key) -> (value: Result<u64, StoreError>)
    ensures
        value == stored_uint(store@.entries, key),
{
    match store.get(key) {
        Some(Value::Uint(value)) => Ok(value),
        Some(_) => Err(StoreError::Mismatch { key }),
        None => Ok(0),
    }
}

fn bool_at(store: &Store, key: Key) -> (value: Result<bool, StoreError>)
    ensures
        value == stored_bool(store@.entries, key),
{
    match store.get(key) {
        Some(Value::Bool(value)) => Ok(value),
        Some(_) => Err(StoreError::Mismatch { key }),
        None => Ok(false),
    }
}

/// Network traffic data total.
#[derive(Clone, Copy, Debug, PartialEq, Eq, Structural)]
pub struct Data {
    /// Total traffic in bytes.
    pub total: u64,
}

impl Data {
    /// The entries after the stored total has been set back to 0.
    pub open spec fn reset(entries: Map<Key, Value>) -> Map<Key, Value> {
        entries.insert(Key::TrafficTotal, Value::Uint(0))
    }

    /// The stored total plus the traffic of the live session.
    pub open spec fn combined(self, received: u64, transmitted: u64) -> int {
        self.total + received + transmitted
    }

    /// What reading the stored total gives: the total, or the error of a
    /// stored value that is no unsigned integer.
    pub open spec fn stored(entries: Map<Key, Value>) -> Result<Data, StoreError> {
        match stored_uint(entries, Key::TrafficTotal) {
            Ok(total) => Ok(Data { total }),
            Err(error) => Err(error),
        }
    }

    /// Retrieves the network traffic total from the store.
    pub fn get(store: &Store) -> (data: Result<Data, StoreError>)
        ensures
            data == Data::stored(store@.entries),
    {
        match uint_at(store, Key::TrafficTotal) {
            Ok(total) => Ok(Data { total }),
            Err(error) => Err(error),
        }
    }
}

/// Network traffic notification thresholds and flags, defined by the user.
#[derive(Clone, Copy, Debug, PartialEq, Eq, Structural)]
pub struct Threshold {
    /// Traffic warning threshold in bytes.
    pub warn: u64,
    /// Traffic cutoff threshold in bytes.
    pub cut: u64,
    /// Traffic warning notification flag.
    pub warn_flag: bool,
    /// Traffic cutoff notification flag.
    pub cut_flag: bool,
}

impl Threshold {
    /// The four writes that store `self`, in the order in which they are made.
    pub open spec fn writes(self) -> Seq<(Key, Value)> {
        seq![
            (Key::NotifyWarn, Value::Uint(self.warn)),
            (Key::NotifyCut, Value::Uint(self.cut)),
            (Key::NotifyWarnFlag, Value::Bool(self.warn_flag)),
            (Key::NotifyCutFlag, Value::Bool(self.cut_flag)),
        ]
    }

    /// The entries after `self` has been stored.
    pub open spec fn written(self, entries: Map<Key, Value>) -> Map<Key, Value> {
        entries.insert(Key::NotifyWarn, Value::Uint(self.warn)).insert(
            Key::NotifyCut,
            Value::Uint(self.cut),
        ).insert(Key::NotifyWarnFlag, Value::Bool(self.warn_flag)).insert(
            Key::NotifyCutFlag,
            Value::Bool(self.cut_flag),
        )
    }

    /// What reading the stored thresholds and flags gives: all four, or the
    /// error of the first of them, in the order warn, cut, warn flag, cut flag,
    /// that is stored as a value of another kind.
    pub open spec fn stored(entries: Map<Key, Value>) -> Result<Threshold, StoreError> {
        match (
            stored_uint(entries, Key::NotifyWarn),
            stored_uint(entries, Key::NotifyCut),
            stored_bool(entries, Key::NotifyWarnFlag),
            stored_bool(entries, Key::NotifyCutFlag),
        ) {
            (Ok(warn), Ok(cut), Ok(warn_flag), Ok(cut_flag)) => Ok(
                Threshold { warn, cut, warn_flag, cut_flag },
            ),
            (Err(error), _, _, _) => Err(error),
            (_, Err(error), _, _) => Err(error),
            (_, _, Err(error), _) => Err(error),
            (_, _, _, Err(error)) => Err(error),
        }
    }

    /// Retrieves the notification thresholds and flags from the store.
    pub fn get(store: &Store) -> (threshold: Result<Threshold, StoreError>)
        ensures
            threshold == Threshold::stored(store@.entries),
    {
        let warn = match uint_at(store, Key::NotifyWarn) {
            Ok(warn) => warn,
            Err(error) => { return Err(error); },
        };
        let cut = match uint_at(store, Key::NotifyCut) {
            Ok(cut) => cut,
            Err(error) => { return Err(error); },
        };
        let warn_flag = match bool_at(store, Key::NotifyWarnFlag) {
            Ok(warn_flag) => warn_flag,
            Err(error) => { return Err(error); },
        };
        let cut_flag = match bool_at(store, Key::NotifyCutFlag) {
            Ok(cut_flag) => cut_flag,
            Err(error) => { return Err(error); },
        };
        Ok(Threshold { warn, cut, warn_flag, cut_flag })
    }

    /// Stores the notification thresholds and flags.
    pub fn set(self, store: &mut Store)
        ensures
            final(store)@.entries == self.written(old(store)@.entries),
            final(store)@.writes == old(store)@.writes + self.writes(),
    {
        store.set(Key::NotifyWarn, Value::Uint(self.warn));
        store.set(Key::NotifyCut, Value::Uint(self.cut));
        store.set(Key::NotifyWarnFlag, Value::Bool(self.warn_flag));
        store.set(Key::NotifyCutFlag, Value::Bool(self.cut_flag));
        assert(store@.writes =~= old(store)@.writes + self.writes());
    }
}

/// Warning and cutoff network traffic alert flags, set by the network
/// service and only read here.
#[derive(Clone, Copy, Debug, PartialEq, Eq, Structural)]
pub struct Alert {
    pub warn: bool,
    pub cut: bool,
}

impl Alert {
    /// What reading the stored alert flags gives: both, or the error of the
    /// first of them that is stored as a value of another kind.
    pub open spec fn stored(entries: Map<Key, Value>) -> Result<Alert, StoreError> {
        match (stored_bool(entries, Key::AlertWarn), stored_bool(entries, Key::AlertCut)) {
            (Ok(warn), Ok(cut)) => Ok(Alert { warn, cut }),
            (Err(error), _) => Err(error),
            (_, Err(error)) => Err(error),
        }
    }

    /// Retrieves the latest alert flags from the store.
    pub fn get(store: &Store) -> (alert: Result<Alert, StoreError>)
        ensures
            alert == Alert::stored(store@.entries),
    {
        let warn = match bool_at(store, Key::AlertWarn) {
            Ok(warn) => warn,
            Err(error) => { return Err(error); },
        };
        let cut = match bool_at(store, Key::AlertCut) {
            Ok(cut) => cut,
            Err(error) => { return Err(error); },
        };
        Ok(Alert { warn, cut })
    }
}

/// The alert flags of the store that was opened; the error of opening it,
/// or that of a flag that is stored as no boolean.
pub fn get_alerts(opened: Result<Store, StoreError>) -> (alerts: Result<Alert, StoreError>)
    ensures
        alerts == match opened {
            Ok(store) => Alert::stored(store@.entries),
            Err(error) => Err(error),
        },
{
    let store = match opened {
        Ok(store) => store,
        Err(error) => { return Err(error); },
    };
    Alert::get(&store)
}

/// The traffic total of the store that was opened; the error of opening it,
/// or that of a total that is stored as no unsigned integer.
pub fn get_data(opened: Result<Store, StoreError>) -> (data: Result<Data, StoreError>)
    ensures
        data == match opened {
            Ok(store) => Data::stored(store@.entries),
            Err(error) => Err(error),
        },
{
    let store = match opened {
        Ok(store) => store,
        Err(error) => { return Err(error); },
    };
    Data::get(&store)
}

/// The thresholds and flags of the store that was opened; the error of
/// opening it, or that of a value that is stored as one of another kind.
pub fn get_thresholds(opened: Result<Store, StoreError>) -> (thresholds: Result<
    Threshold,
    StoreError,
>)
    ensures
        thresholds == match opened {
            Ok(store) => Threshold::stored(store@.entries),
            Err(error) => Err(error),
        },
{
    let store = match opened {
        Ok(store) => store,
        Err(error) => { return Err(error); },
    };
    Threshold::get(&store)
}

/// Sets the stored traffic total to 0. Gives back the store with that one
/// write noted, or the error of opening it.
pub fn reset_data(opened: Result<Store, StoreError>) -> (reset: Result<Store, StoreError>)
    ensures
        match opened {
            Ok(store) => reset matches Ok(after) && after@.entries == Data::reset(store@.entries)
                && after@.writes == store@.writes.push((Key::TrafficTotal, Value::Uint(0))),
            Err(error) => reset == Err::<Store, StoreError>(error),
        },
{
    let mut store = match opened {
        Ok(store) => store,
        Err(error) => { return Err(error); },
    };
    store.set(Key::TrafficTotal, Value::Uint(0));
    Ok(store)
}

/// Overwrites all four threshold and flag values. Gives back the store with
/// those writes noted, or the error of opening it.
pub fn update_store(opened: Result<Store, StoreError>, threshold: Threshold) -> (updated: Result<
    Store,
    StoreError,
>)
    ensures
        match opened {
            Ok(store) => updated matches Ok(after) && after@.entries == threshold.written(
                store@.entries,
            ) && after@.writes == store@.writes + threshold.writes(),
            Err(error) => updated == Err::<Store, StoreError>(error),
        },
{
    let mut store = match opened {
        Ok(store) => store,
        Err(error) => { return Err(error); },
    };
    threshold.set(&mut store);
    Ok(store)
}

/// Thresholds and flags that are stored are read back as they were
/// submitted, whatever the store held before; the traffic total and the
/// alert flags read as they did.
pub proof fn lemma_update_then_get(entries: Map<Key, Value>, threshold: Threshold)
    ensures
        Threshold::stored(threshold.written(entries)) == Ok::<Threshold, StoreError>(threshold),
        Data::stored(threshold.written(entries)) == Data::stored(entries),
        Alert::stored(threshold.written(entries)) == Alert::stored(entries),
{
}

/// After a reset the stored total reads as 0, whatever the store held
/// before, so that the combined total is the traffic of the live session
/// alone; thresholds and alert flags read as they did.
pub proof fn lemma_reset_then_get(entries: Map<Key, Value>, received: u64, transmitted: u64)
    ensures
        Data::stored(Data::reset(entries)) == Ok::<Data, StoreError>(Data { total: 0 }),
        Data::stored(Data::reset(entries))->Ok_0.combined(received, transmitted) == received
            + transmitted,
        Threshold::stored(Data::reset(entries)) == Threshold::stored(entries),
        Alert::stored(Data::reset(entries)) == Alert::stored(entries),
{
}

} // verus!
