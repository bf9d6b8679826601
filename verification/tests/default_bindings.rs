use schminput::binding::{GamepadBinding, GamepadBindings};
use schminput::default_bindings::{
    copy_slot, ActionRecord, ActionStore, BindingCollections, ResetToDefautlBindings,
};
use schminput::source::GamepadBindingSource;

type Collections = BindingCollections<Vec<u32>, String, ()>;

fn gamepad(source: GamepadBindingSource) -> GamepadBindings {
    GamepadBindings::new().bind(GamepadBinding::new(source))
}

fn collections(
    keyboard: Option<Vec<u32>>,
    pad: Option<GamepadBindings>,
    mouse: Option<&str>,
) -> Collections {
    BindingCollections {
        keyboard,
        gamepad: pad,
        mouse: mouse.map(|m| m.to_string()),
        xr: None,
    }
}

fn store() -> ActionStore<Vec<u32>, String, ()> {
    let mut store = ActionStore::new();
    store.add_action(
        100,
        collections(Some(vec![1, 2]), Some(gamepad(GamepadBindingSource::South)), None),
    );
    store.add_action(200, collections(None, None, Some("left")));
    store
}

#[test]
fn copy_slot_copies_or_stays_empty() {
    assert_eq!(copy_slot(&Some(vec![1u8, 2])), Some(vec![1u8, 2]));
    assert_eq!(copy_slot::<String>(&None), None);
}

#[test]
fn new_collections_are_empty() {
    let empty: Collections = BindingCollections::new();
    assert_eq!(empty, collections(None, None, None));
    let record = ActionRecord::new(5, empty);
    assert_eq!(record.action, 5);
    assert_eq!(record.defaults, None);
}

#[test]
fn snapshot_copies_what_is_there() {
    let mut store = store();
    store.copy_default_bindings();
    assert_eq!(store.actions.len(), 2);
    for record in &store.actions {
        assert_eq!(record.defaults.as_ref(), Some(&record.bindings));
    }
}

#[test]
fn snapshot_is_taken_once() {
    let mut store = store();
    store.copy_default_bindings();
    store.actions[0].bindings.keyboard = Some(vec![9]);
    store.actions[0].bindings.mouse = Some("added".to_string());
    store.copy_default_bindings();
    assert_eq!(
        store.actions[0].defaults,
        Some(collections(
            Some(vec![1, 2]),
            Some(gamepad(GamepadBindingSource::South)),
            None
        ))
    );
    assert_eq!(store.actions[0].bindings.keyboard, Some(vec![9]));
}

#[test]
fn reset_all_restores_and_strips() {
    let mut store = store();
    store.copy_default_bindings();
    store.actions[0].bindings.keyboard = Some(vec![7, 7, 7]);
    store.actions[0].bindings.gamepad = None;
    store.actions[0].bindings.mouse = Some("added later".to_string());
    store.actions[1].bindings.gamepad = Some(gamepad(GamepadBindingSource::North));
    store.actions[1].bindings.mouse = Some("right".to_string());
    store.reset_bindings(ResetToDefautlBindings::All);
    assert_eq!(
        store.actions[0].bindings,
        collections(Some(vec![1, 2]), Some(gamepad(GamepadBindingSource::South)), None)
    );
    assert_eq!(store.actions[1].bindings, collections(None, None, Some("left")));
    for record in &store.actions {
        assert_eq!(record.defaults.as_ref(), Some(&record.bindings));
    }
}

#[test]
fn reset_of_one_action_leaves_the_others() {
    let mut store = store();
    store.copy_default_bindings();
    store.actions[0].bindings.keyboard = None;
    store.actions[1].bindings.mouse = Some("right".to_string());
    store.reset_bindings(ResetToDefautlBindings::Action(200));
    assert_eq!(store.actions[0].bindings.keyboard, None);
    assert_eq!(store.actions[1].bindings, collections(None, None, Some("left")));
    store.reset_bindings(ResetToDefautlBindings::Action(100));
    assert_eq!(store.actions[0].bindings.keyboard, Some(vec![1, 2]));
}

#[test]
fn reset_without_snapshot_changes_nothing() {
    let mut store = store();
    store.actions[0].bindings.keyboard = Some(vec![3]);
    let before_first = collections(
        Some(vec![3]),
        Some(gamepad(GamepadBindingSource::South)),
        None,
    );
    store.reset_bindings(ResetToDefautlBindings::All);
    store.reset_bindings(ResetToDefautlBindings::Action(100));
    assert_eq!(store.actions[0].bindings, before_first);
    assert_eq!(store.actions[0].defaults, None);
    assert_eq!(store.actions[1].bindings, collections(None, None, Some("left")));
}

#[test]
fn reset_of_unknown_action_changes_nothing() {
    let mut store = store();
    store.copy_default_bindings();
    store.actions[0].bindings.keyboard = Some(vec![3]);
    store.reset_bindings(ResetToDefautlBindings::Action(300));
    assert_eq!(store.actions[0].bindings.keyboard, Some(vec![3]));
    assert_eq!(store.actions[1].bindings, collections(None, None, Some("left")));
}

#[test]
fn action_added_after_the_snapshot_has_none() {
    let mut store = store();
    store.copy_default_bindings();
    store.add_action(300, collections(Some(vec![5]), None, None));
    store.actions[2].bindings.keyboard = Some(vec![6]);
    store.reset_bindings(ResetToDefautlBindings::All);
    assert_eq!(store.actions[2].bindings.keyboard, Some(vec![6]));
    assert_eq!(store.actions[2].defaults, None);
}

#[test]
fn record_level_snapshot_and_reset() {
    let mut record = ActionRecord::new(
        1,
        collections(None, Some(gamepad(GamepadBindingSource::West)), None),
    );
    assert!(!record.reset_bindings(ResetToDefautlBindings::All));
    assert_eq!(record.defaults, None);
    record.copy_default_bindings();
    record.bindings.gamepad = Some(gamepad(GamepadBindingSource::East));
    record.bindings.xr = Some(());
    assert!(!record.reset_bindings(ResetToDefautlBindings::Action(2)));
    assert_eq!(record.bindings.xr, Some(()));
    assert!(record.reset_bindings(ResetToDefautlBindings::Action(1)));
    assert_eq!(
        record.bindings,
        collections(None, Some(gamepad(GamepadBindingSource::West)), None)
    );
}
