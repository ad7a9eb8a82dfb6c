use dashlayer::records::{Dependency, Profile, Widget};
use dashlayer::store::RecordStore;

fn widget(id: &str, name: &str) -> Widget {
    Widget {
        id: id.to_string(),
        name: name.to_string(),
        html: "<p>hi</p>".to_string(),
        css: "p { color: red; }".to_string(),
        js: "console.log(1);".to_string(),
        width: 200,
        height: 100,
        opacity: 80,
        always_on_top: false,
        transparent: true,
        x: 10,
        y: 20,
        auto_start: false,
        locked: false,
    }
}

fn dependency(id: &str) -> Dependency {
    Dependency {
        id: id.to_string(),
        url: "https://x/y.css".to_string(),
        name: "y".to_string(),
        cached: false,
        added_at: "2024-01-01".to_string(),
    }
}

#[test]
fn empty_store_lists_no_records() {
    let store: RecordStore<Widget> = RecordStore::new();
    assert_eq!(store.records().len(), 0);
}

#[test]
fn upsert_then_load_round_trips() {
    let mut store: RecordStore<Widget> = RecordStore::new();
    store.upsert(widget("w1", "first"));
    let records = store.records();
    assert_eq!(records.len(), 1);
    assert_eq!(records[0].id, "w1");
    assert_eq!(records[0].name, "first");
    assert_eq!(records[0].opacity, 80);
}

#[test]
fn repeated_upsert_replaces_not_duplicates() {
    let mut store: RecordStore<Widget> = RecordStore::new();
    store.upsert(widget("w1", "first"));
    store.upsert(widget("w2", "other"));
    store.upsert(widget("w1", "second"));
    let records = store.records();
    assert_eq!(records.len(), 2);
    let matching: Vec<&Widget> = records.iter().filter(|w| w.id == "w1").collect();
    assert_eq!(matching.len(), 1);
    assert_eq!(matching[0].name, "second");
    assert_eq!(records[0].id, "w1");
    assert_eq!(records[1].id, "w2");
}

#[test]
fn delete_removes_the_record() {
    let mut store: RecordStore<Widget> = RecordStore::new();
    store.upsert(widget("w1", "first"));
    store.upsert(widget("w2", "other"));
    store.delete(&"w1".to_string());
    let records = store.records();
    assert_eq!(records.len(), 1);
    assert_eq!(records[0].id, "w2");
}

#[test]
fn delete_absent_id_is_a_noop() {
    let mut store: RecordStore<Widget> = RecordStore::new();
    store.upsert(widget("w1", "first"));
    store.delete(&"missing".to_string());
    let records = store.records();
    assert_eq!(records.len(), 1);
    assert_eq!(records[0].id, "w1");

    let mut empty: RecordStore<Dependency> = RecordStore::new();
    empty.delete(&"missing".to_string());
    assert_eq!(empty.records().len(), 0);
}

#[test]
fn dependency_add_list_remove_scenario() {
    let mut store: RecordStore<Dependency> = RecordStore::new();
    store.upsert(dependency("d1"));
    let listed = store.records();
    assert_eq!(listed.len(), 1);
    assert_eq!(listed[0].id, "d1");
    assert_eq!(listed[0].url, "https://x/y.css");
    assert_eq!(listed[0].name, "y");
    assert!(!listed[0].cached);
    assert_eq!(listed[0].added_at, "2024-01-01");
    store.delete(&"d1".to_string());
    assert_eq!(store.records().len(), 0);
}

#[test]
fn loading_a_profile_overwrites_everything() {
    let mut widgets: RecordStore<Widget> = RecordStore::new();
    let mut dependencies: RecordStore<Dependency> = RecordStore::new();
    widgets.upsert(widget("w3", "stale"));
    dependencies.upsert(dependency("d9"));

    let profile = Profile {
        id: "p1".to_string(),
        name: "work".to_string(),
        widgets: vec![widget("w1", "one"), widget("w2", "two")],
        dependencies: vec![dependency("d1")],
        created_at: "2024-01-01T00:00:00Z".to_string(),
    };
    widgets.replace_all(profile.widgets);
    dependencies.replace_all(profile.dependencies);

    let ws = widgets.records();
    assert_eq!(ws.len(), 2);
    assert_eq!(ws[0].id, "w1");
    assert_eq!(ws[1].id, "w2");
    assert!(ws.iter().all(|w| w.id != "w3"));
    let ds = dependencies.records();
    assert_eq!(ds.len(), 1);
    assert_eq!(ds[0].id, "d1");
}

#[test]
fn profiles_are_stored_like_any_record() {
    let mut store: RecordStore<Profile> = RecordStore::new();
    store.upsert(Profile {
        id: "p1".to_string(),
        name: "work".to_string(),
        widgets: vec![widget("w1", "one")],
        dependencies: vec![],
        created_at: "2024-01-01T00:00:00Z".to_string(),
    });
    store.upsert(Profile {
        id: "p1".to_string(),
        name: "renamed".to_string(),
        widgets: vec![],
        dependencies: vec![dependency("d1")],
        created_at: "2024-02-02T00:00:00Z".to_string(),
    });
    let records = store.records();
    assert_eq!(records.len(), 1);
    assert_eq!(records[0].name, "renamed");
    assert_eq!(records[0].widgets.len(), 0);
    assert_eq!(records[0].dependencies.len(), 1);
}
