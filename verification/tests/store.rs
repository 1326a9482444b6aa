use saberdb::AdapterSync;
use saberdb::MemorySync;
use saberdb::SaberDBSync;
use saberdb::SaberError;

#[derive(Clone, Debug, PartialEq)]
struct TestData {
    counter: u32,
    message: String,
}

fn fresh() -> TestData {
    TestData { counter: 0, message: String::from("default") }
}

#[test]
fn default_on_missing_yields_default() {
    let adapter: MemorySync<TestData> = MemorySync::new();
    let db = SaberDBSync::new(adapter.clone(), fresh()).unwrap();
    assert_eq!(db.data().counter, 0);
    assert_eq!(db.data().message, "default");
}

#[test]
fn construction_writes_nothing() {
    let adapter: MemorySync<TestData> = MemorySync::new();
    let _first = SaberDBSync::new(adapter.clone(), fresh()).unwrap();
    // The backend must still be empty: a second handle with a different
    // default sees its own default, not the first handle's.
    let other = TestData { counter: 7, message: String::from("other") };
    let second = SaberDBSync::new(adapter.clone(), other).unwrap();
    assert_eq!(second.data().counter, 7);
    assert_eq!(second.data().message, "other");
}

#[test]
fn round_trip_through_backend() {
    let adapter: MemorySync<TestData> = MemorySync::new();
    let mut db = SaberDBSync::new(adapter.clone(), fresh()).unwrap();
    db.data_mut().counter = 42;
    db.data_mut().message = String::from("hello saberdb");
    db.write().unwrap();

    let reloaded = SaberDBSync::new(adapter.clone(), fresh()).unwrap();
    assert_eq!(reloaded.data().counter, 42);
    assert_eq!(reloaded.data().message, "hello saberdb");
}

#[test]
fn update_commits_before_reporting_success() {
    let adapter: MemorySync<TestData> = MemorySync::new();
    let mut db = SaberDBSync::new(adapter.clone(), fresh()).unwrap();
    db.update(|mut d: TestData| {
        d.counter = 100;
        d.message = String::from("updated");
        d
    })
    .unwrap();
    assert_eq!(db.data().counter, 100);

    // A fresh handle constructed immediately afterwards observes the
    // mutated value: the update persisted before it reported success.
    let reloaded = SaberDBSync::new(adapter.clone(), fresh()).unwrap();
    assert_eq!(reloaded.data().counter, 100);
    assert_eq!(reloaded.data().message, "updated");
}

#[test]
fn shared_adapter_handles_observe_each_other() {
    let adapter: MemorySync<TestData> = MemorySync::new();
    let mut a = SaberDBSync::new(adapter.clone(), fresh()).unwrap();
    a.data_mut().counter = 42;
    a.write().unwrap();

    // Handle B shares the adapter's slot and has never written itself.
    let b = SaberDBSync::new(adapter.clone(), fresh()).unwrap();
    assert_eq!(b.data().counter, 42);
}

#[test]
fn repeated_reads_observe_one_snapshot() {
    let adapter: MemorySync<TestData> = MemorySync::new();
    let mut db = SaberDBSync::new(adapter.clone(), fresh()).unwrap();
    db.update(|mut d: TestData| {
        d.counter = 999;
        d
    })
    .unwrap();
    let r1 = db.data().counter;
    let r2 = db.data().counter;
    let r3 = db.data().counter;
    assert_eq!(r1, 999);
    assert_eq!(r2, 999);
    assert_eq!(r3, 999);
}

/// A backend whose writes always fail, wrapping a shared in-memory slot:
/// used to check that a failed persistence step leaves the backend's prior
/// payload intact and the in-memory mutation in place.
struct FailingWrites {
    inner: MemorySync<TestData>,
}

impl AdapterSync<TestData> for FailingWrites {
    // The trait's specification members erase to plain functions outside
    // the verifier; an unverified backend supplies stub bodies for them.
    fn wf(&self) -> bool {
        true
    }

    fn models_backend(&self) -> bool {
        false
    }

    fn stored(&self) -> Option<TestData> {
        None
    }

    fn read(&self) -> Result<Option<TestData>, SaberError> {
        self.inner.read()
    }

    fn write(&mut self, _data: &TestData) -> Result<(), SaberError> {
        Err(SaberError::Adapter(String::from("write refused")))
    }
}

#[test]
fn failed_write_leaves_prior_payload_intact() {
    let slot: MemorySync<TestData> = MemorySync::new();

    // Seed the backend with a prior payload.
    let mut seeder = SaberDBSync::new(slot.clone(), fresh()).unwrap();
    seeder.data_mut().counter = 1;
    seeder.write().unwrap();

    // A handle whose writes fail: the update mutates memory, then fails to
    // persist.
    let failing = FailingWrites { inner: slot.clone() };
    let mut db = SaberDBSync::new(failing, fresh()).unwrap();
    assert_eq!(db.data().counter, 1);
    let r = db.update(|mut d: TestData| {
        d.counter = 2;
        d
    });
    assert!(r.is_err());

    // The in-memory edit is not rolled back.
    assert_eq!(db.data().counter, 2);

    // The backend's prior payload is fully intact.
    let reloaded = SaberDBSync::new(slot.clone(), fresh()).unwrap();
    assert_eq!(reloaded.data().counter, 1);
}

#[test]
fn plain_write_failure_is_surfaced_unchanged() {
    let failing = FailingWrites { inner: MemorySync::new() };
    let mut db = SaberDBSync::new(failing, fresh()).unwrap();
    let r = db.write();
    match r {
        Err(e) => {
            assert!(e.is_adapter());
            assert_eq!(e.message().as_str(), "write refused");
        },
        Ok(()) => panic!("write through a failing backend must not succeed"),
    }
}

#[test]
fn error_kinds_and_messages() {
    let io = SaberError::Io(String::from("disk gone"));
    assert!(io.is_io());
    assert!(!io.is_serialization());
    assert!(!io.is_adapter());
    assert_eq!(io.message().as_str(), "disk gone");

    let ser = SaberError::Serialization(String::from("bad payload"));
    assert!(ser.is_serialization());
    assert!(!ser.is_io());
    assert_eq!(ser.message().as_str(), "bad payload");

    let ad = SaberError::Adapter(String::from("backend says no"));
    assert!(ad.is_adapter());
    assert!(!ad.is_io());
    assert_eq!(ad.message().as_str(), "backend says no");
}

#[test]
fn initial_value_picks_loaded_over_default() {
    let loaded = Some(TestData { counter: 5, message: String::from("kept") });
    let picked = saberdb::db::pick_initial_value(loaded, fresh());
    assert_eq!(picked.counter, 5);
    let defaulted = saberdb::db::pick_initial_value(None, fresh());
    assert_eq!(defaulted.counter, 0);
}

#[test]
fn default_adapter_starts_empty() {
    let adapter: MemorySync<TestData> = MemorySync::default();
    let db = SaberDBSync::new(adapter.clone(), fresh()).unwrap();
    assert_eq!(db.data().counter, 0);
    assert_eq!(db.data().message, "default");
}
