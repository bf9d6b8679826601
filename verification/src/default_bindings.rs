//! Default bindings: the snapshot that is taken of every action's
//! binding collections once, after startup, and the resets that copy it
//! back.

use crate::binding::GamepadBindings;
use vstd::prelude::*;

verus! {

/// The two stages of startup that concern default bindings, in their
/// order: the snapshot is taken before custom bindings are loaded.
#[derive(Clone, Copy, Debug, PartialEq, Eq, Hash, Structural)]
pub enum DefaultBindingsSet {
    /// The snapshot of the default bindings is taken.
    CopyDefaultBindings,
    /// The bindings that a user customized are loaded.
    LoadCustomBindings,
}

/// A request to put default bindings back.
#[derive(Clone, Copy, Debug, PartialEq, Eq, Hash, Structural)]
pub enum ResetToDefautlBindings {
    /// For every action.
    All,
    /// For the action of this identity.
    Action(u64),
}

/// The binding collections of one action, one for each device class.
/// The keyboard, mouse and XR collections are those of their providers:
/// here they are only copied and removed.
#[derive(Debug, PartialEq, Eq)]
pub struct BindingCollections<K, M, X> {
    /// The keyboard bindings, if the action has any.
    pub keyboard: Option<K>,
    /// The gamepad bindings, if the action has any.
    pub gamepad: Option<GamepadBindings>,
    /// The mouse bindings, if the action has any.
    pub mouse: Option<M>,
    /// The XR bindings, if the action has any.
    pub xr: Option<X>,
}

/// An action with its binding collections and, once it was taken, the
/// snapshot of them.
#[derive(Debug, PartialEq, Eq)]
pub struct ActionRecord<K, M, X> {
    /// The identity of the action.
    pub action: u64,
    /// The binding collections that the action has now.
    pub bindings: BindingCollections<K, M, X>,
    /// The snapshot of the binding collections, once it was taken.
    pub defaults: Option<BindingCollections<K, M, X>>,
}

/// Whether `copy` is what copying the collection `from` gives: a clone
/// of it, or nothing where there is none.
pub open spec fn slot_copied<T: Clone>(from: Option<T>, copy: Option<T>) -> bool {
    match from {
        Some(collection) => copy is Some && cloned(collection, copy.unwrap()),
        None => copy is None,
    }
}

/// Whether `copy` is what copying the gamepad collection `from` gives:
/// the same bindings in the same order, or nothing where there is none.
pub open spec fn gamepad_slot_copied(from: Option<GamepadBindings>, copy: Option<GamepadBindings>)
    -> bool {
    match from {
        Some(collection) => copy is Some && copy.unwrap()@ == collection@,
        None => copy is None,
    }
}

/// Whether `copy` is what copying the collections `from` gives, device
/// class by device class.
pub open spec fn collections_copied<K: Clone, M: Clone, X: Clone>(
    from: BindingCollections<K, M, X>,
    copy: BindingCollections<K, M, X>,
) -> bool {
    &&& slot_copied(from.keyboard, copy.keyboard)
    &&& gamepad_slot_copied(from.gamepad, copy.gamepad)
    &&& slot_copied(from.mouse, copy.mouse)
    &&& slot_copied(from.xr, copy.xr)
}

/// A copy of the collection in `from`, or nothing where there is none.
pub fn copy_slot<T: Clone>(from: &Option<T>) -> (copy: Option<T>)
    ensures
        slot_copied(*from, copy),
{
    match from {
        Some(collection) => Some(collection.clone()),
        None => None,
    }
}

impl<K: Clone, M: Clone, X: Clone> BindingCollections<K, M, X> {
    /// No collection of any device class.
    pub fn new() -> (collections: Self)
        ensures
            collections.keyboard is None,
            collections.gamepad is None,
            collections.mouse is None,
            collections.xr is None,
    {
        BindingCollections { keyboard: None, gamepad: None, mouse: None, xr: None }
    }

    /// A copy of each collection that is there.
    pub fn duplicate(&self) -> (copy: Self)
        ensures
            collections_copied(*self, copy),
    {
        BindingCollections {
            keyboard: copy_slot(&self.keyboard),
            gamepad: match &self.gamepad {
                Some(collection) => Some(collection.clone()),
                None => None,
            },
            mouse: copy_slot(&self.mouse),
            xr: copy_slot(&self.xr),
        }
    }
}

/// Whether `event` puts the default bindings of `record` back: the
/// record has a snapshot, and the event is for every action or for this
/// one.
pub open spec fn reset_applies<K, M, X>(
    event: ResetToDefautlBindings,
    record: ActionRecord<K, M, X>,
) -> bool {
    &&& record.defaults is Some
    &&& (event is All || event == ResetToDefautlBindings::Action(record.action))
}

/// Whether `after` is what `event` makes of the record `before`. Where
/// the event applies, each collection is a copy of the one in the
/// snapshot, and a collection that the snapshot lacks is gone. Where it
/// does not, the collections are as they were. The snapshot itself never
/// changes.
pub open spec fn record_reset<K: Clone, M: Clone, X: Clone>(
    event: ResetToDefautlBindings,
    before: ActionRecord<K, M, X>,
    after: ActionRecord<K, M, X>,
) -> bool {
    &&& after.action == before.action
    &&& after.defaults == before.defaults
    &&& if reset_applies(event, before) {
        collections_copied(before.defaults.unwrap(), after.bindings)
    } else {
        after.bindings == before.bindings
    }
}

/// Whether `after` is what taking the snapshot makes of the record
/// `before`. A record without a snapshot gets one, a copy of its
/// collections; a record that has one keeps it. The collections
/// themselves do not change.
pub open spec fn record_snapshotted<K: Clone, M: Clone, X: Clone>(
    before: ActionRecord<K, M, X>,
    after: ActionRecord<K, M, X>,
) -> bool {
    &&& after.action == before.action
    &&& after.bindings == before.bindings
    &&& match before.defaults {
        Some(_) => after.defaults == before.defaults,
        None => after.defaults is Some && collections_copied(
            before.bindings,
            after.defaults.unwrap(),
        ),
    }
}

impl<K: Clone, M: Clone, X: Clone> ActionRecord<K, M, X> {
    /// The record of the action `action` with the collections `bindings`
    /// and no snapshot yet.
    pub fn new(action: u64, bindings: BindingCollections<K, M, X>) -> (record: Self)
        ensures
            record.action == action,
            record.bindings == bindings,
            record.defaults is None,
    {
        ActionRecord { action, bindings, defaults: None }
    }

    /// Takes the snapshot of this record's collections, unless it was
    /// taken before.
    pub fn copy_default_bindings(&mut self)
        ensures
            record_snapshotted(*old(self), *final(self)),
    {
        if self.defaults.is_none() {
            let copy = self.bindings.duplicate();
            self.defaults = Some(copy);
        }
    }

    /// Puts the default bindings of this record back, if `event` asks
    /// for it and the record has a snapshot, and says whether it did.
    pub fn reset_bindings(&mut self, event: ResetToDefautlBindings) -> (applied: bool)
        ensures
            applied == reset_applies(event, *old(self)),
            record_reset(event, *old(self), *final(self)),
    {
        let asked = match event {
            ResetToDefautlBindings::All => true,
            ResetToDefautlBindings::Action(action) => action == self.action,
        };
        if asked {
            let fresh = match &self.defaults {
                Some(defaults) => Some(defaults.duplicate()),
                None => None,
            };
            match fresh {
                Some(collections) => {
                    self.bindings = collections;
                    return true;
                },
                None => {},
            }
        }
        false
    }
}

/// The actions, each with its binding collections and its snapshot.
#[derive(Debug, PartialEq, Eq)]
pub struct ActionStore<K, M, X> {
    /// The records of the actions, in the order in which they were
    /// added.
    pub actions: Vec<ActionRecord<K, M, X>>,
}

impl<K: Clone, M: Clone, X: Clone> ActionStore<K, M, X> {
    /// A store without actions.
    pub fn new() -> (store: Self)
        ensures
            store.actions@ == Seq::<ActionRecord<K, M, X>>::empty(),
    {
        ActionStore { actions: Vec::new() }
    }

    /// Adds the action `action` with the collections `bindings`, behind
    /// the others and without a snapshot.
    pub fn add_action(&mut self, action: u64, bindings: BindingCollections<K, M, X>)
        ensures
            final(self).actions@ == old(self).actions@.push(
                ActionRecord { action, bindings, defaults: None },
            ),
    {
        self.actions.push(ActionRecord::new(action, bindings));
    }

    /// Takes the snapshot of every action that has none yet. The
    /// snapshot of an action is taken once: one that is there is not
    /// refreshed.
    pub fn copy_default_bindings(&mut self)
        ensures
            final(self).actions@.len() == old(self).actions@.len(),
            forall|i: int|
                0 <= i < old(self).actions@.len() ==> record_snapshotted(
                    old(self).actions@[i],
                    #[trigger] final(self).actions@[i],
                ),
    {
        let mut i: usize = 0;
        while i < self.actions.len()
            invariant
                i <= self.actions@.len(),
                self.actions@.len() == old(self).actions@.len(),
                forall|j: int|
                    0 <= j < i ==> record_snapshotted(
                        old(self).actions@[j],
                        #[trigger] self.actions@[j],
                    ),
                forall|j: int|
                    i <= j < self.actions@.len() ==> self.actions@[j] == old(self).actions@[j],
            decreases self.actions.len() - i,
        {
            self.actions[i].copy_default_bindings();
            i += 1;
        }
    }

    /// Handles one request to put default bindings back: for every action
    /// with a snapshot, or for the action that the request names if it has
    /// one. A request for an action that is not in the store, or that has
    /// no snapshot, changes nothing.
    pub fn reset_bindings(&mut self, event: ResetToDefautlBindings)
        ensures
            final(self).actions@.len() == old(self).actions@.len(),
            forall|i: int|
                0 <= i < old(self).actions@.len() ==> record_reset(
                    event,
                    old(self).actions@[i],
                    #[trigger] final(self).actions@[i],
                ),
    {
        let mut i: usize = 0;
        while i < self.actions.len()
            invariant
                i <= self.actions@.len(),
                self.actions@.len() == old(self).actions@.len(),
                forall|j: int|
                    0 <= j < i ==> record_reset(
                        event,
                        old(self).actions@[j],
                        #[trigger] self.actions@[j],
                    ),
                forall|j: int|
                    i <= j < self.actions@.len() ==> self.actions@[j] == old(self).actions@[j],
            decreases self.actions.len() - i,
        {
            let _ = self.actions[i].reset_bindings(event);
            i += 1;
        }
    }
}

/// A reset of every action gives each action that has a snapshot, for
/// each device class, a copy of the collection in the snapshot, and
/// leaves it without the collections that the snapshot lacks. No reset
/// changes an action that has no snapshot, and none changes a snapshot.
pub proof fn lemma_reset_restores_snapshot<K: Clone, M: Clone, X: Clone>(
    event: ResetToDefautlBindings,
    before: ActionRecord<K, M, X>,
    after: ActionRecord<K, M, X>,
    after_all: ActionRecord<K, M, X>,
)
    requires
        record_reset(event, before, after),
        record_reset(ResetToDefautlBindings::All, before, after_all),
    ensures
        before.defaults is None ==> after == before && after_all == before,
        after.defaults == before.defaults,
        before.defaults matches Some(defaults) ==> {
            &&& defaults.keyboard is None <==> after_all.bindings.keyboard is None
            &&& defaults.gamepad is None <==> after_all.bindings.gamepad is None
            &&& defaults.mouse is None <==> after_all.bindings.mouse is None
            &&& defaults.xr is None <==> after_all.bindings.xr is None
            &&& defaults.keyboard matches Some(k) ==> cloned(k, after_all.bindings.keyboard.unwrap())
            &&& defaults.gamepad matches Some(g) ==> after_all.bindings.gamepad.unwrap()@ == g@
            &&& defaults.mouse matches Some(m) ==> cloned(m, after_all.bindings.mouse.unwrap())
            &&& defaults.xr matches Some(x) ==> cloned(x, after_all.bindings.xr.unwrap())
        },
{
}

} // verus!
