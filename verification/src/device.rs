//! The connected gamepads, and which of them a selector picks.

use crate::path::{GamepadPathSelector, SelectorModel};
use crate::search::{first_index_of, lemma_first_index_of, lemma_first_index_of_bounds};
use crate::text::str_eq;
use vstd::prelude::*;

verus! {

/// The name by which a subaction path refers to one gamepad. A gamepad
/// that carries none is reached only by paths that select every gamepad.
#[derive(Debug, PartialEq, Eq, Hash)]
pub struct GamepadIdentifier(pub String);

impl View for GamepadIdentifier {
    type V = Seq<char>;

    open spec fn view(&self) -> Seq<char> {
        self.0@
    }
}

impl Clone for GamepadIdentifier {
    fn clone(&self) -> (copy: Self)
        ensures
            copy@ == self@,
    {
        GamepadIdentifier(self.0.clone())
    }
}

/// A connected gamepad: the identity of the device, and its identifier if
/// it carries one.
#[derive(Debug, PartialEq, Eq)]
pub struct GamepadDevice {
    /// The identity of the device.
    pub entity: u64,
    /// The identifier that the device carries, if any.
    pub identifier: Option<GamepadIdentifier>,
}

/// The model of a `GamepadDevice`.
pub struct DeviceModel {
    /// The identity of the device.
    pub entity: u64,
    /// The identifier that the device carries, if any.
    pub identifier: Option<Seq<char>>,
}

impl View for GamepadDevice {
    type V = DeviceModel;

    open spec fn view(&self) -> DeviceModel {
        DeviceModel {
            entity: self.entity,
            identifier: match self.identifier {
                Some(id) => Some(id@),
                None => None,
            },
        }
    }
}

/// The models of a sequence of devices.
pub open spec fn device_models(devices: Seq<GamepadDevice>) -> Seq<DeviceModel> {
    Seq::new(devices.len(), |i: int| devices[i]@)
}

/// The identities of a sequence of devices, in their order.
pub open spec fn entities(devices: Seq<DeviceModel>) -> Seq<u64> {
    Seq::new(devices.len(), |i: int| devices[i].entity)
}

/// The identifiers of a sequence of devices, in their order.
pub open spec fn identifiers(devices: Seq<DeviceModel>) -> Seq<Option<Seq<char>>> {
    Seq::new(devices.len(), |i: int| devices[i].identifier)
}

/// The place of the first device that carries the identifier `id`, or the
/// number of devices where none carries it.
pub open spec fn first_carrier(devices: Seq<DeviceModel>, id: Seq<char>) -> int {
    first_index_of(identifiers(devices), Some(id))
}

/// The devices that a selector picks, by their identities: all of them in
/// their order, or the first one that carries the identifier, or none
/// where no device carries it.
pub open spec fn selected_gamepads(selector: SelectorModel, devices: Seq<DeviceModel>) -> Seq<
    u64,
> {
    match selector {
        SelectorModel::All => entities(devices),
        SelectorModel::Gamepad(id) => if first_carrier(devices, id) < devices.len() {
            seq![devices[first_carrier(devices, id)].entity]
        } else {
            Seq::<u64>::empty()
        },
    }
}

/// The place of the first device that carries the identifier `id`.
pub fn find_gamepad(devices: &Vec<GamepadDevice>, id: &str) -> (found: Option<usize>)
    ensures
        match found {
            Some(i) => i == first_carrier(device_models(devices@), id@) && i < devices@.len(),
            None => first_carrier(device_models(devices@), id@) == devices@.len(),
        },
{
    let ghost ids = identifiers(device_models(devices@));
    let mut i: usize = 0;
    while i < devices.len()
        invariant
            i <= devices@.len(),
            ids == identifiers(device_models(devices@)),
            forall|j: int| 0 <= j < i ==> ids[j] != Some(id@),
        decreases devices.len() - i,
    {
        let carries = match &devices[i].identifier {
            Some(identifier) => str_eq(identifier.0.as_str(), id),
            None => false,
        };
        if carries {
            proof {
                lemma_first_index_of(ids, Some(id@), i as int);
            }
            return Some(i);
        }
        i += 1;
    }
    proof {
        lemma_first_index_of(ids, Some(id@), i as int);
    }
    None
}

/// The devices that `selector` picks, by their identities.
pub fn select_gamepads(selector: &GamepadPathSelector, devices: &Vec<GamepadDevice>) -> (picked:
    Vec<u64>)
    ensures
        picked@ == selected_gamepads(selector@, device_models(devices@)),
{
    let mut picked: Vec<u64> = Vec::new();
    match selector {
        GamepadPathSelector::All => {
            let mut i: usize = 0;
            while i < devices.len()
                invariant
                    i <= devices@.len(),
                    picked@.len() == i,
                    forall|j: int| 0 <= j < i ==> picked@[j] == devices@[j].entity,
                decreases devices.len() - i,
            {
                picked.push(devices[i].entity);
                i += 1;
            }
        },
        GamepadPathSelector::Gamepad(id) => {
            match find_gamepad(devices, id.as_str()) {
                Some(i) => {
                    picked.push(devices[i].entity);
                },
                None => {},
            }
        },
    }
    picked
}

/// A selector that names an identifier which no connected device carries
/// picks no device; one that picks every device picks as many as are
/// connected.
pub proof fn lemma_selection(devices: Seq<DeviceModel>, id: Seq<char>)
    ensures
        (forall|i: int| 0 <= i < devices.len() ==> devices[i].identifier != Some(id))
            ==> selected_gamepads(SelectorModel::Gamepad(id), devices).len() == 0,
        selected_gamepads(SelectorModel::Gamepad(id), devices).len() <= 1,
        selected_gamepads(SelectorModel::All, devices).len() == devices.len(),
        forall|i: int|
            0 <= i < devices.len() ==> selected_gamepads(SelectorModel::All, devices)[i]
                == devices[i].entity,
{
    lemma_first_index_of_bounds(identifiers(devices), Some(id));
}

} // verus!
