//! The gamepad provider: which bindings a subaction path lets through,
//! which devices are read for it, what is read, and what a reading gives.

use crate::binding::{get_binding_id, GamepadBinding, GamepadBindings, InputAxis,
    InputAxisDirection};
use crate::device::{device_models, select_gamepads, selected_gamepads, DeviceModel,
    GamepadDevice};
use crate::path::{side_value, GamepadPathData, GamepadPathModel, GamepadPathSelector,
    GamepadPathTarget, GamepadPathTargetSide, SelectorModel};
use crate::source::GamepadInput;
use crate::subaction_paths::{SubactionPath, SubactionPathRegistry};
use crate::value::{BindingValue, FloatBits, GenericBindingData, VectorBits};
use vstd::prelude::*;

verus! {

/// Whether a binding of `binding`'s source is read for a path that
/// targets `target` on `side`: for every path that names no region, else
/// where the source lies in the region, on the side if one is named.
pub open spec fn passes_region_filter(
    binding: GamepadBinding,
    target: Option<GamepadPathTarget>,
    side: Option<GamepadPathTargetSide>,
) -> bool {
    match target {
        Some(region) => region.matches_spec(binding.source, side),
        None => true,
    }
}

/// Whether `binding` is read for a path that targets `target` on `side`.
pub fn binding_matches_path(
    binding: &GamepadBinding,
    target: Option<&GamepadPathTarget>,
    side: Option<&GamepadPathTargetSide>,
) -> (passes: bool)
    ensures
        passes == passes_region_filter(
            *binding,
            match target {
                Some(region) => Some(*region),
                None => None,
            },
            side_value(side),
        ),
{
    match target {
        Some(region) => region.matches(&binding.source, side),
        None => true,
    }
}

/// The devices that are read for a path with the metadata `path`; for a
/// path without metadata, every connected device.
pub open spec fn gamepads_read_for(path: Option<GamepadPathModel>, devices: Seq<DeviceModel>) -> Seq<
    u64,
> {
    match path {
        Some(data) => selected_gamepads(data.selector, devices),
        None => selected_gamepads(SelectorModel::All, devices),
    }
}

/// The devices that are read for a path with the metadata `path`, by
/// their identities and in the order in which they are read.
pub fn gamepads_for_path(path: Option<&GamepadPathData>, gamepads: &Vec<GamepadDevice>) -> (picked:
    Vec<u64>)
    ensures
        picked@ == gamepads_read_for(
            match path {
                Some(data) => Some(data@),
                None => None,
            },
            device_models(gamepads@),
        ),
{
    match path {
        Some(data) => select_gamepads(&data.selector, gamepads),
        None => select_gamepads(&GamepadPathSelector::All, gamepads),
    }
}

/// What is asked of a device for one binding, and what is done with the
/// number that comes back before it is handed on as a reading.
#[derive(Clone, Copy, Debug, PartialEq, Eq, Hash, Structural)]
pub struct GamepadReadingPlan {
    /// The axis or button that is read.
    pub input: GamepadInput,
    /// Whether the number is taken without being clamped.
    pub unclamped: bool,
    /// Whether the number is negated for the scalar and the vector shape.
    pub negate: bool,
    /// Whether the number is multiplied by the time that the last pass
    /// took, for the scalar and the vector shape.
    pub premultiply_delta_time: bool,
}

/// What is asked of a device for `binding` under `data`.
pub open spec fn reading_plan_of(binding: GamepadBinding, data: GenericBindingData)
    -> GamepadReadingPlan {
    GamepadReadingPlan {
        input: binding.source.input_of(),
        unclamped: data.modifications.unbounded,
        negate: binding.axis_dir is Negative,
        premultiply_delta_time: data.modifications.premul_delta_time,
    }
}

/// What is asked of a device for `binding` under `data`.
pub fn reading_plan(binding: &GamepadBinding, data: &GenericBindingData) -> (plan:
    GamepadReadingPlan)
    ensures
        plan == reading_plan_of(*binding, *data),
{
    GamepadReadingPlan {
        input: GamepadInput::from(binding.source),
        unclamped: data.modifications.unbounded,
        negate: match binding.axis_dir {
            InputAxisDirection::Positive => false,
            InputAxisDirection::Negative => true,
        },
        premultiply_delta_time: data.modifications.premul_delta_time,
    }
}

/// What a device gave for one binding.
#[derive(Clone, Copy, Debug, PartialEq, Eq, Hash, Structural)]
pub struct GamepadReading {
    /// Whether the number that the device reported counts as pressed. The
    /// direction and the pass time have no part in this.
    pub pressed: bool,
    /// The number that the device reported, with the direction and the
    /// pass time applied as the plan says.
    pub scaled: FloatBits,
}

/// What a reading gives under a binding that feeds `axis`, in the shapes
/// that `data` asks for. Without a reading every shape is absent. The
/// vector holds the scaled number in the component that the binding feeds
/// and zero in the other.
pub open spec fn binding_value_of(
    reading: Option<GamepadReading>,
    axis: InputAxis,
    data: GenericBindingData,
) -> BindingValue {
    match reading {
        None => BindingValue::absent(),
        Some(r) => BindingValue {
            vector: if data.is_vector {
                Some(
                    match axis {
                        InputAxis::X => VectorBits { x: r.scaled, y: FloatBits::zero() },
                        InputAxis::Y => VectorBits { x: FloatBits::zero(), y: r.scaled },
                    },
                )
            } else {
                None
            },
            boolean: if data.is_bool {
                Some(r.pressed)
            } else {
                None
            },
            scalar: if data.is_scalar {
                Some(r.scaled)
            } else {
                None
            },
        },
    }
}

/// What `reading` gives under `binding`, in the shapes that `data` asks
/// for. A device that gave no reading gives a value that is absent in
/// every shape.
pub fn handle_gamepad_inputs_new(
    reading: Option<GamepadReading>,
    binding: &GamepadBinding,
    data: &GenericBindingData,
) -> (value: BindingValue)
    ensures
        value == binding_value_of(reading, binding.axis, *data),
{
    let r = match reading {
        Some(r) => r,
        None => {
            return BindingValue::default();
        },
    };
    let boolean = if data.is_bool {
        Some(r.pressed)
    } else {
        None
    };
    let scalar = if data.is_scalar {
        Some(r.scaled)
    } else {
        None
    };
    let vector = if data.is_vector {
        Some(
            match binding.axis {
                InputAxis::X => VectorBits { x: r.scaled, y: FloatBits(0) },
                InputAxis::Y => VectorBits { x: FloatBits(0), y: r.scaled },
            },
        )
    } else {
        None
    };
    BindingValue { vector, boolean, scalar }
}

/// One reading that a pass asks of a device: of which device, for which
/// binding, and for which subaction path, if for one.
#[derive(Clone, Copy, Debug, PartialEq, Eq, Hash, Structural)]
pub struct GamepadRead {
    /// The binding whose source is read.
    pub binding: GamepadBinding,
    /// The subaction path that the reading is for; `None` for the reading
    /// that is for the action as a whole.
    pub path: Option<SubactionPath>,
    /// The device that is read.
    pub gamepad: u64,
}

/// The readings of one binding for one path from the devices `gamepads`,
/// in their order.
pub open spec fn reads_of_devices(
    binding: GamepadBinding,
    path: Option<SubactionPath>,
    gamepads: Seq<u64>,
) -> Seq<GamepadRead> {
    Seq::new(gamepads.len(), |i: int| GamepadRead { binding, path, gamepad: gamepads[i] })
}

/// The readings of one binding for the path `path`: none where the path
/// is not of the gamepad class or its region does not let the binding
/// through, else one from each device that the path selects.
pub open spec fn reads_of_path(
    binding: GamepadBinding,
    path: SubactionPath,
    registry: SubactionPathRegistry,
    devices: Seq<DeviceModel>,
) -> Seq<GamepadRead> {
    match registry.metadata(path) {
        Some(data) => if passes_region_filter(binding, data.target, data.side) {
            reads_of_devices(binding, Some(path), selected_gamepads(data.selector, devices))
        } else {
            Seq::empty()
        },
        None => Seq::empty(),
    }
}

/// The readings of one binding for the paths `paths`: those for the
/// first path, then those for the second, and so on.
pub open spec fn reads_of_paths(
    binding: GamepadBinding,
    paths: Seq<SubactionPath>,
    registry: SubactionPathRegistry,
    devices: Seq<DeviceModel>,
) -> Seq<GamepadRead>
    decreases paths.len(),
{
    if paths.len() == 0 {
        Seq::empty()
    } else {
        reads_of_paths(binding, paths.drop_last(), registry, devices) + reads_of_path(
            binding,
            paths.last(),
            registry,
            devices,
        )
    }
}

/// The readings of one binding: for the action as a whole one from every
/// connected device, then those for the paths.
pub open spec fn reads_of_binding(
    binding: GamepadBinding,
    paths: Seq<SubactionPath>,
    registry: SubactionPathRegistry,
    devices: Seq<DeviceModel>,
) -> Seq<GamepadRead> {
    reads_of_devices(binding, None, selected_gamepads(SelectorModel::All, devices))
        + reads_of_paths(binding, paths, registry, devices)
}

/// The readings that one action asks for in one pass: those of its first
/// binding, then those of its second, and so on.
pub open spec fn reads_of_bindings(
    bindings: Seq<GamepadBinding>,
    paths: Seq<SubactionPath>,
    registry: SubactionPathRegistry,
    devices: Seq<DeviceModel>,
) -> Seq<GamepadRead>
    decreases bindings.len(),
{
    if bindings.len() == 0 {
        Seq::empty()
    } else {
        reads_of_bindings(bindings.drop_last(), paths, registry, devices) + reads_of_binding(
            bindings.last(),
            paths,
            registry,
            devices,
        )
    }
}

/// Appends to `reads` the readings of `binding` for `path` from the
/// devices `gamepads`.
fn push_reads(
    reads: &mut Vec<GamepadRead>,
    binding: &GamepadBinding,
    path: Option<SubactionPath>,
    gamepads: &Vec<u64>,
)
    ensures
        final(reads)@ == old(reads)@ + reads_of_devices(*binding, path, gamepads@),
{
    let ghost base = reads@;
    let mut g: usize = 0;
    while g < gamepads.len()
        invariant
            g <= gamepads@.len(),
            reads@ == base + reads_of_devices(*binding, path, gamepads@.take(g as int)),
        decreases gamepads.len() - g,
    {
        reads.push(GamepadRead { binding: *binding, path, gamepad: gamepads[g] });
        assert(reads@ =~= base + reads_of_devices(*binding, path, gamepads@.take(g + 1)));
        g += 1;
    }
    assert(gamepads@.take(g as int) =~= gamepads@);
}

/// The readings that one action asks for in one pass, in the order in
/// which their values are merged: binding by binding, for each binding
/// first for the action as a whole and then path by path, and for each of
/// these device by device. `paths` are the subaction paths that were
/// requested for the action, and `gamepads` are the connected devices.
pub fn plan_gamepad_reads(
    bindings: &GamepadBindings,
    paths: &Vec<SubactionPath>,
    registry: &SubactionPathRegistry,
    gamepads: &Vec<GamepadDevice>,
) -> (reads: Vec<GamepadRead>)
    requires
        registry.wf(),
    ensures
        reads@ == reads_of_bindings(bindings@, paths@, *registry, device_models(gamepads@)),
{
    let ghost devices = device_models(gamepads@);
    let everyone = gamepads_for_path(None, gamepads);
    let mut reads: Vec<GamepadRead> = Vec::new();
    let mut b: usize = 0;
    while b < bindings.bindings.len()
        invariant
            b <= bindings@.len(),
            registry.wf(),
            devices == device_models(gamepads@),
            everyone@ == selected_gamepads(SelectorModel::All, devices),
            reads@ == reads_of_bindings(bindings@.take(b as int), paths@, *registry, devices),
        decreases bindings.bindings.len() - b,
    {
        let binding = &bindings.bindings[b];
        let ghost before_binding = reads@;
        push_reads(&mut reads, binding, None, &everyone);
        let ghost whole = reads@;
        let mut p: usize = 0;
        while p < paths.len()
            invariant
                p <= paths@.len(),
                registry.wf(),
                devices == device_models(gamepads@),
                reads@ == whole + reads_of_paths(*binding, paths@.take(p as int), *registry, devices),
            decreases paths.len() - p,
        {
            match registry.gamepad_data(paths[p]) {
                Some(data) => {
                    if binding_matches_path(binding, data.target.as_ref(), data.side.as_ref()) {
                        let picked = gamepads_for_path(Some(data), gamepads);
                        push_reads(&mut reads, binding, Some(paths[p]), &picked);
                    }
                },
                None => {},
            }
            proof {
                assert(paths@.take(p + 1).drop_last() =~= paths@.take(p as int));
                assert(reads@ =~= whole + reads_of_paths(
                    *binding,
                    paths@.take(p + 1),
                    *registry,
                    devices,
                ));
            }
            p += 1;
        }
        proof {
            assert(paths@.take(p as int) =~= paths@);
            assert(bindings@.take(b + 1).drop_last() =~= bindings@.take(b as int));
            assert(reads@ =~= reads_of_bindings(
                bindings@.take(b + 1),
                paths@,
                *registry,
                devices,
            ));
        }
        b += 1;
    }
    assert(bindings@.take(b as int) =~= bindings@);
    reads
}

/// One reading that was asked for, with what the device gave.
#[derive(Clone, Copy, Debug, PartialEq, Eq, Hash, Structural)]
pub struct GamepadAnswer {
    /// The reading that was asked for.
    pub read: GamepadRead,
    /// What the device gave; `None` where it gave nothing.
    pub reading: Option<GamepadReading>,
}

/// The value that one reading contributes to an action, with the id of
/// its binding and the path that it is for.
#[derive(Clone, Copy, Debug, PartialEq, Eq, Hash, Structural)]
pub struct GamepadBindingResult {
    /// The id of the binding.
    pub id: u64,
    /// The subaction path that the value is for, if it is for one.
    pub path: Option<SubactionPath>,
    /// The value.
    pub value: BindingValue,
}

/// What the answer `answer` contributes under `data`.
pub open spec fn result_of(answer: GamepadAnswer, data: GenericBindingData)
    -> GamepadBindingResult {
    GamepadBindingResult {
        id: answer.read.binding.id_spec(),
        path: answer.read.path,
        value: binding_value_of(answer.reading, answer.read.binding.axis, data),
    }
}

/// The values that the gamepad bindings of one action contribute in one
/// pass: one for each reading that was asked for, in the order of
/// `answers`. A device that gave nothing contributes a value that is
/// absent in every shape.
pub fn sync_actions(answers: &Vec<GamepadAnswer>, data: &GenericBindingData) -> (results: Vec<
    GamepadBindingResult,
>)
    ensures
        results@ == Seq::new(answers@.len(), |i: int| result_of(answers@[i], *data)),
{
    let mut results: Vec<GamepadBindingResult> = Vec::new();
    let mut i: usize = 0;
    while i < answers.len()
        invariant
            i <= answers@.len(),
            results@.len() == i,
            forall|j: int| 0 <= j < i ==> results@[j] == result_of(answers@[j], *data),
        decreases answers.len() - i,
    {
        let answer = &answers[i];
        results.push(
            GamepadBindingResult {
                id: get_binding_id(&answer.read.binding),
                path: answer.read.path,
                value: handle_gamepad_inputs_new(answer.reading, &answer.read.binding, data),
            },
        );
        i += 1;
    }
    results
}

} // verus!
