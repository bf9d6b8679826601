//! Haptic feedback: the commands that an action collects in one pass, and
//! the rumble requests that they become for the connected gamepads.

use crate::device::{device_models, entities, select_gamepads, selected_gamepads, DeviceModel,
    GamepadDevice};
use crate::path::SelectorModel;
use crate::search::{first_index_of, lemma_first_index_of, lemma_first_index_of_bounds};
use crate::subaction_paths::{SubactionPath, SubactionPathRegistry};
use crate::value::FloatBits;
use std::time::Duration;
use vstd::prelude::*;

verus! {

/// The motor of a gamepad that a haptic binding drives.
#[derive(Clone, Copy, Debug, PartialEq, Eq, Hash, Structural)]
pub enum GamepadHapticType {
    /// The weak motor, of high frequency.
    Weak,
    /// The strong motor, of low frequency.
    Strong,
}

/// How strongly each of the two motors of a gamepad vibrates.
#[derive(Clone, Copy, Debug, PartialEq, Eq, Hash, Structural)]
pub struct GamepadRumbleIntensity {
    /// The intensity of the strong motor.
    pub strong_motor: FloatBits,
    /// The intensity of the weak motor.
    pub weak_motor: FloatBits,
}

impl GamepadHapticType {
    /// The name under which this motor is shown to a user.
    pub open spec fn label_of(self) -> Seq<char> {
        match self {
            GamepadHapticType::Weak => "Weak"@,
            GamepadHapticType::Strong => "Strong"@,
        }
    }

    /// The name under which this motor is shown to a user.
    pub fn label(&self) -> (text: String)
        ensures
            text@ == self.label_of(),
    {
        match self {
            GamepadHapticType::Weak => "Weak".to_owned(),
            GamepadHapticType::Strong => "Strong".to_owned(),
        }
    }

    /// The intensities of the two motors when this one vibrates at
    /// `intensity`: the other one rests at zero.
    pub open spec fn rumble_intensity_of(self, intensity: FloatBits) -> GamepadRumbleIntensity {
        match self {
            GamepadHapticType::Weak => GamepadRumbleIntensity {
                strong_motor: FloatBits::zero(),
                weak_motor: intensity,
            },
            GamepadHapticType::Strong => GamepadRumbleIntensity {
                strong_motor: intensity,
                weak_motor: FloatBits::zero(),
            },
        }
    }

    /// The intensities of the two motors when this one vibrates at
    /// `intensity`.
    pub fn as_rumble_intensity(&self, intensity: FloatBits) -> (rumble: GamepadRumbleIntensity)
        ensures
            rumble == self.rumble_intensity_of(intensity),
    {
        match self {
            GamepadHapticType::Weak => GamepadRumbleIntensity {
                strong_motor: FloatBits(0),
                weak_motor: intensity,
            },
            GamepadHapticType::Strong => GamepadRumbleIntensity {
                strong_motor: intensity,
                weak_motor: FloatBits(0),
            },
        }
    }
}

/// The haptic bindings of one action: the motors that its commands drive,
/// in the order in which they were bound.
#[derive(Debug, PartialEq, Eq)]
pub struct GamepadHapticOutputBindings {
    /// The motors, oldest first.
    pub bindings: Vec<GamepadHapticType>,
}

impl View for GamepadHapticOutputBindings {
    type V = Seq<GamepadHapticType>;

    open spec fn view(&self) -> Seq<GamepadHapticType> {
        self.bindings@
    }
}

impl Clone for GamepadHapticOutputBindings {
    fn clone(&self) -> (copy: Self)
        ensures
            copy@ == self@,
    {
        GamepadHapticOutputBindings { bindings: self.bindings.clone() }
    }
}

impl Default for GamepadHapticOutputBindings {
    fn default() -> (bindings: Self)
        ensures
            bindings@ == Seq::<GamepadHapticType>::empty(),
    {
        GamepadHapticOutputBindings { bindings: Vec::new() }
    }
}

impl GamepadHapticOutputBindings {
    /// No bindings.
    pub fn new() -> (bindings: GamepadHapticOutputBindings)
        ensures
            bindings@ == Seq::<GamepadHapticType>::empty(),
    {
        GamepadHapticOutputBindings { bindings: Vec::new() }
    }

    /// These bindings and, behind them, one of the weak motor.
    pub fn weak(self) -> (bindings: Self)
        ensures
            bindings@ == self@.push(GamepadHapticType::Weak),
    {
        let mut bindings = self;
        bindings.bindings.push(GamepadHapticType::Weak);
        bindings
    }

    /// These bindings and, behind them, one of the strong motor.
    pub fn strong(self) -> (bindings: Self)
        ensures
            bindings@ == self@.push(GamepadHapticType::Strong),
    {
        let mut bindings = self;
        bindings.bindings.push(GamepadHapticType::Strong);
        bindings
    }
}

/// One haptic command of an action.
#[derive(Clone, Copy, Debug, PartialEq)]
pub enum GamepadHapticValue {
    /// Start, or go on with, a vibration.
    Add {
        /// How long the vibration lasts.
        duration: Duration,
        /// How strong the vibration is.
        intensity: FloatBits,
    },
    /// Stop every vibration.
    Stop,
}

/// The commands that were given for one subaction path.
#[derive(Debug)]
struct PathCommands {
    path: SubactionPath,
    commands: Vec<GamepadHapticValue>,
}

/// The haptic commands that an action has collected in the current pass:
/// those for any path, and those for single subaction paths, each list in
/// the order in which the commands were given.
#[derive(Debug)]
pub struct GamepadHapticOutput {
    any: Vec<GamepadHapticValue>,
    scoped: Vec<PathCommands>,
}

impl PathCommands {
    /// A copy of these commands, for the same path.
    fn duplicate(&self) -> (copy: Self)
        ensures
            copy.path == self.path,
            copy.commands@ == self.commands@,
    {
        PathCommands { path: self.path, commands: self.commands.clone() }
    }
}

impl Clone for GamepadHapticOutput {
    fn clone(&self) -> (copy: Self)
        ensures
            copy.any_commands() == self.any_commands(),
            forall|path: SubactionPath|
                copy.commands_for(path) == self.commands_for(path) && copy.mentions(path)
                    == self.mentions(path),
    {
        let mut scoped: Vec<PathCommands> = Vec::new();
        let mut i: usize = 0;
        while i < self.scoped.len()
            invariant
                i <= self.scoped@.len(),
                scoped@.len() == i,
                forall|j: int|
                    0 <= j < i ==> (#[trigger] scoped@[j]).path == self.scoped@[j].path
                        && scoped@[j].commands@ == self.scoped@[j].commands@,
            decreases self.scoped.len() - i,
        {
            scoped.push(self.scoped[i].duplicate());
            i += 1;
        }
        let copy = GamepadHapticOutput { any: self.any.clone(), scoped };
        assert(copy.entry_paths() =~= self.entry_paths());
        assert forall|path: SubactionPath| copy.commands_for(path) == self.commands_for(path) by {
            lemma_first_index_of_bounds(self.entry_paths(), path);
            let i = first_index_of(self.entry_paths(), path);
            if i < self.scoped@.len() {
                assert(copy.scoped@[i].commands@ == self.scoped@[i].commands@);
            }
        }
        copy
    }
}

impl Default for GamepadHapticOutput {
    fn default() -> (out: Self)
        ensures
            out.any_commands() == Seq::<GamepadHapticValue>::empty(),
            forall|path: SubactionPath|
                !out.mentions(path) && out.commands_for(path) == Seq::<
                    GamepadHapticValue,
                >::empty(),
    {
        GamepadHapticOutput { any: Vec::new(), scoped: Vec::new() }
    }
}

impl GamepadHapticOutput {
    /// The paths of the entries, in their order.
    spec fn entry_paths(self) -> Seq<SubactionPath> {
        Seq::new(self.scoped@.len(), |i: int| self.scoped@[i].path)
    }

    /// The commands that were given for any path, oldest first.
    pub closed spec fn any_commands(self) -> Seq<GamepadHapticValue> {
        self.any@
    }

    /// Whether a command was given for the path `path` since the commands
    /// were last forgotten.
    pub closed spec fn mentions(self, path: SubactionPath) -> bool {
        first_index_of(self.entry_paths(), path) < self.scoped@.len()
    }

    /// The commands that were given for the path `path`, oldest first.
    pub closed spec fn commands_for(self, path: SubactionPath) -> Seq<GamepadHapticValue> {
        let i = first_index_of(self.entry_paths(), path);
        if i < self.scoped@.len() {
            self.scoped@[i].commands@
        } else {
            Seq::<GamepadHapticValue>::empty()
        }
    }

    /// An output without commands.
    pub fn new() -> (out: Self)
        ensures
            out.any_commands() == Seq::<GamepadHapticValue>::empty(),
            forall|path: SubactionPath|
                !out.mentions(path) && out.commands_for(path) == Seq::<
                    GamepadHapticValue,
                >::empty(),
    {
        GamepadHapticOutput { any: Vec::new(), scoped: Vec::new() }
    }

    /// Gives, for any path, the command to vibrate for `duration` at
    /// `intensity`.
    pub fn add(&mut self, duration: Duration, intensity: FloatBits) -> (out: &mut Self)
        ensures
            out.any_commands() == old(self).any_commands().push(
                GamepadHapticValue::Add { duration, intensity },
            ),
            forall|path: SubactionPath|
                out.commands_for(path) == old(self).commands_for(path) && out.mentions(path)
                    == old(self).mentions(path),
            *final(self) == *final(out),
    {
        self.any.push(GamepadHapticValue::Add { duration, intensity });
        self
    }

    /// Gives, for any path, the command to stop.
    pub fn stop(&mut self) -> (out: &mut Self)
        ensures
            out.any_commands() == old(self).any_commands().push(GamepadHapticValue::Stop),
            forall|path: SubactionPath|
                out.commands_for(path) == old(self).commands_for(path) && out.mentions(path)
                    == old(self).mentions(path),
            *final(self) == *final(out),
    {
        self.any.push(GamepadHapticValue::Stop);
        self
    }

    /// Gives, for the path `path`, the command to vibrate for `duration`
    /// at `intensity`. The commands of no other path change.
    pub fn add_with_path(
        &mut self,
        duration: Duration,
        intensity: FloatBits,
        path: SubactionPath,
    ) -> (out: &mut Self)
        ensures
            out.any_commands() == old(self).any_commands(),
            out.commands_for(path) == old(self).commands_for(path).push(
                GamepadHapticValue::Add { duration, intensity },
            ),
            out.mentions(path),
            forall|other: SubactionPath|
                other != path ==> out.commands_for(other) == old(self).commands_for(other)
                    && out.mentions(other) == old(self).mentions(other),
            *final(self) == *final(out),
    {
        self.push_with_path(path, GamepadHapticValue::Add { duration, intensity });
        self
    }

    /// Gives, for the path `path`, the command to stop. The commands of
    /// no other path change.
    pub fn stop_with_path(&mut self, path: SubactionPath) -> (out: &mut Self)
        ensures
            out.any_commands() == old(self).any_commands(),
            out.commands_for(path) == old(self).commands_for(path).push(
                GamepadHapticValue::Stop,
            ),
            out.mentions(path),
            forall|other: SubactionPath|
                other != path ==> out.commands_for(other) == old(self).commands_for(other)
                    && out.mentions(other) == old(self).mentions(other),
            *final(self) == *final(out),
    {
        self.push_with_path(path, GamepadHapticValue::Stop);
        self
    }

    /// Forgets every command, as is done once the commands of a pass have
    /// been dispatched.
    pub fn clear(&mut self)
        ensures
            final(self).any_commands() == Seq::<GamepadHapticValue>::empty(),
            forall|path: SubactionPath|
                !final(self).mentions(path) && final(self).commands_for(path) == Seq::<
                    GamepadHapticValue,
                >::empty(),
    {
        self.any.clear();
        self.scoped.clear();
    }

    /// The commands that were given for any path, oldest first.
    pub fn any(&self) -> (commands: &Vec<GamepadHapticValue>)
        ensures
            commands@ == self.any_commands(),
    {
        &self.any
    }

    /// The commands that were given for the path `path`, oldest first, or
    /// `None` where none was given for it since the commands were last
    /// forgotten.
    pub fn get_with_path(&self, path: SubactionPath) -> (commands: Option<
        &Vec<GamepadHapticValue>,
    >)
        ensures
            commands is Some <==> self.mentions(path),
            match commands {
                Some(list) => list@ == self.commands_for(path),
                None => self.commands_for(path) == Seq::<GamepadHapticValue>::empty(),
            },
    {
        let ghost paths = self.entry_paths();
        let mut i: usize = 0;
        while i < self.scoped.len() && self.scoped[i].path.0 != path.0
            invariant
                i <= self.scoped@.len(),
                paths == self.entry_paths(),
                forall|j: int| 0 <= j < i ==> paths[j] != path,
            decreases self.scoped.len() - i,
        {
            i += 1;
        }
        proof {
            lemma_first_index_of(paths, path, i as int);
        }
        if i < self.scoped.len() {
            Some(&self.scoped[i].commands)
        } else {
            None
        }
    }

    /// Gives the command `value` for the path `path`.
    fn push_with_path(&mut self, path: SubactionPath, value: GamepadHapticValue)
        ensures
            final(self).any_commands() == old(self).any_commands(),
            final(self).commands_for(path) == old(self).commands_for(path).push(value),
            final(self).mentions(path),
            forall|other: SubactionPath|
                other != path ==> final(self).commands_for(other) == old(self).commands_for(
                    other,
                ) && final(self).mentions(other) == old(self).mentions(other),
    {
        let ghost paths = self.entry_paths();
        let mut i: usize = 0;
        while i < self.scoped.len() && self.scoped[i].path.0 != path.0
            invariant
                i <= self.scoped@.len(),
                *self == *old(self),
                paths == self.entry_paths(),
                forall|j: int| 0 <= j < i ==> paths[j] != path,
            decreases self.scoped.len() - i,
        {
            i += 1;
        }
        proof {
            lemma_first_index_of(paths, path, i as int);
        }
        if i < self.scoped.len() {
            self.scoped[i].commands.push(value);
            assert(self.entry_paths() =~= paths);
            assert forall|other: SubactionPath| other != path implies self.commands_for(other)
                == old(self).commands_for(other) && self.mentions(other) == old(self).mentions(
                other,
            ) by {
                lemma_first_index_of_bounds(paths, other);
            }
        } else {
            let mut commands: Vec<GamepadHapticValue> = Vec::new();
            commands.push(value);
            self.scoped.push(PathCommands { path, commands });
            assert(self.entry_paths() =~= paths.push(path));
            proof {
                lemma_first_index_of(paths.push(path), path, paths.len() as int);
            }
            assert forall|other: SubactionPath| other != path implies self.commands_for(other)
                == old(self).commands_for(other) && self.mentions(other) == old(self).mentions(
                other,
            ) by {
                lemma_first_index_of_bounds(paths, other);
                lemma_first_index_of(paths.push(path), other, first_index_of(paths, other) + (if first_index_of(paths, other) < paths.len() { 0int } else { 1int }));
            }
        }
    }
}

/// A request to the device layer to start or stop the vibration of one
/// gamepad.
#[derive(Clone, Copy, Debug, PartialEq)]
pub enum GamepadRumbleRequest {
    /// Start, or go on with, a vibration.
    Add {
        /// How long the vibration lasts.
        duration: Duration,
        /// How strongly each motor vibrates.
        intensity: GamepadRumbleIntensity,
        /// The gamepad that vibrates.
        gamepad: u64,
    },
    /// Stop every vibration of a gamepad.
    Stop {
        /// The gamepad that comes to rest.
        gamepad: u64,
    },
}

/// The request that the command `value` becomes for the gamepad `gamepad`
/// under a binding of the motor `binding`.
pub open spec fn request_for(
    value: GamepadHapticValue,
    binding: GamepadHapticType,
    gamepad: u64,
) -> GamepadRumbleRequest {
    match value {
        GamepadHapticValue::Add { duration, intensity } => GamepadRumbleRequest::Add {
            duration,
            intensity: binding.rumble_intensity_of(intensity),
            gamepad,
        },
        GamepadHapticValue::Stop => GamepadRumbleRequest::Stop { gamepad },
    }
}

/// The requests that the commands `values` become for one gamepad under
/// one binding: one for each command, in the order of the commands.
pub open spec fn requests_for_gamepad(
    values: Seq<GamepadHapticValue>,
    binding: GamepadHapticType,
    gamepad: u64,
) -> Seq<GamepadRumbleRequest> {
    Seq::new(values.len(), |i: int| request_for(values[i], binding, gamepad))
}

/// The requests that the commands `values` become under one binding: those
/// for the first gamepad, then those for the second, and so on.
pub open spec fn requests_for_binding(
    values: Seq<GamepadHapticValue>,
    binding: GamepadHapticType,
    gamepads: Seq<u64>,
) -> Seq<GamepadRumbleRequest>
    decreases gamepads.len(),
{
    if gamepads.len() == 0 {
        Seq::empty()
    } else {
        requests_for_binding(values, binding, gamepads.drop_last()) + requests_for_gamepad(
            values,
            binding,
            gamepads.last(),
        )
    }
}

/// The requests that the commands `values` become for the gamepads
/// `gamepads`: those under the first binding, then those under the second,
/// and so on.
pub open spec fn broadcast_requests(
    values: Seq<GamepadHapticValue>,
    bindings: Seq<GamepadHapticType>,
    gamepads: Seq<u64>,
) -> Seq<GamepadRumbleRequest>
    decreases bindings.len(),
{
    if bindings.len() == 0 {
        Seq::empty()
    } else {
        broadcast_requests(values, bindings.drop_last(), gamepads) + requests_for_binding(
            values,
            bindings.last(),
            gamepads,
        )
    }
}

/// The requests that come of the commands given for the path `path`: none
/// where the path is not of the gamepad class, else those commands for the
/// gamepads that the path selects.
pub open spec fn path_requests(
    bindings: Seq<GamepadHapticType>,
    out: GamepadHapticOutput,
    path: SubactionPath,
    registry: SubactionPathRegistry,
    devices: Seq<DeviceModel>,
) -> Seq<GamepadRumbleRequest> {
    match registry.metadata(path) {
        Some(data) => broadcast_requests(
            out.commands_for(path),
            bindings,
            selected_gamepads(data.selector, devices),
        ),
        None => Seq::empty(),
    }
}

/// The requests that come of the commands given for the paths `paths`:
/// those of the first path, then those of the second, and so on.
pub open spec fn scoped_requests(
    bindings: Seq<GamepadHapticType>,
    out: GamepadHapticOutput,
    paths: Seq<SubactionPath>,
    registry: SubactionPathRegistry,
    devices: Seq<DeviceModel>,
) -> Seq<GamepadRumbleRequest>
    decreases paths.len(),
{
    if paths.len() == 0 {
        Seq::empty()
    } else {
        scoped_requests(bindings, out, paths.drop_last(), registry, devices) + path_requests(
            bindings,
            out,
            paths.last(),
            registry,
            devices,
        )
    }
}

/// The requests that one action sends in one pass. An action whose set
/// is disabled sends none. Else the commands for any path go to every
/// connected gamepad, and behind them the commands for each requested
/// path go to the gamepads that the path selects.
pub open spec fn haptic_requests(
    enabled: bool,
    bindings: Seq<GamepadHapticType>,
    out: GamepadHapticOutput,
    paths: Seq<SubactionPath>,
    registry: SubactionPathRegistry,
    devices: Seq<DeviceModel>,
) -> Seq<GamepadRumbleRequest> {
    if enabled {
        broadcast_requests(out.any_commands(), bindings, entities(devices)) + scoped_requests(
            bindings,
            out,
            paths,
            registry,
            devices,
        )
    } else {
        Seq::empty()
    }
}

/// The request that the command `value` becomes for the gamepad `gamepad`
/// under the binding `binding`.
pub fn make_request(value: &GamepadHapticValue, binding: &GamepadHapticType, gamepad: u64) -> (request:
    GamepadRumbleRequest)
    ensures
        request == request_for(*value, *binding, gamepad),
{
    match value {
        GamepadHapticValue::Add { duration, intensity } => GamepadRumbleRequest::Add {
            duration: *duration,
            intensity: binding.as_rumble_intensity(*intensity),
            gamepad,
        },
        GamepadHapticValue::Stop => GamepadRumbleRequest::Stop { gamepad },
    }
}

/// Appends to `requests` what the commands `values` become for the
/// gamepads `gamepads` under the bindings `bindings`.
fn push_broadcast(
    requests: &mut Vec<GamepadRumbleRequest>,
    values: &Vec<GamepadHapticValue>,
    bindings: &Vec<GamepadHapticType>,
    gamepads: &Vec<u64>,
)
    ensures
        final(requests)@ == old(requests)@ + broadcast_requests(values@, bindings@, gamepads@),
{
    let ghost base = requests@;
    let mut b: usize = 0;
    while b < bindings.len()
        invariant
            b <= bindings@.len(),
            requests@ == base + broadcast_requests(values@, bindings@.take(b as int), gamepads@),
        decreases bindings.len() - b,
    {
        let ghost before_binding = requests@;
        let mut g: usize = 0;
        while g < gamepads.len()
            invariant
                b < bindings@.len(),
                g <= gamepads@.len(),
                requests@ == before_binding + requests_for_binding(
                    values@,
                    bindings@[b as int],
                    gamepads@.take(g as int),
                ),
            decreases gamepads.len() - g,
        {
            let ghost before_gamepad = requests@;
            let mut v: usize = 0;
            while v < values.len()
                invariant
                    b < bindings@.len(),
                    g < gamepads@.len(),
                    v <= values@.len(),
                    requests@ == before_gamepad + requests_for_gamepad(
                        values@.take(v as int),
                        bindings@[b as int],
                        gamepads@[g as int],
                    ),
                decreases values.len() - v,
            {
                requests.push(make_request(&values[v], &bindings[b], gamepads[g]));
                v += 1;
            }
            proof {
                assert(gamepads@.take(g + 1).drop_last() =~= gamepads@.take(g as int));
            }
            g += 1;
        }
        proof {
            assert(gamepads@.take(g as int) =~= gamepads@);
            assert(bindings@.take(b + 1).drop_last() =~= bindings@.take(b as int));
        }
        b += 1;
    }
    assert(bindings@.take(b as int) =~= bindings@);
}

/// The rumble requests that one action sends in one pass, in the order
/// in which they are sent. `enabled` says whether the action's set is
/// enabled, `out` holds the commands that the action collected, `paths`
/// are the subaction paths that were requested for it, and `gamepads` are
/// the connected devices.
pub fn sync_haptics(
    enabled: bool,
    bindings: &GamepadHapticOutputBindings,
    out: &GamepadHapticOutput,
    paths: &Vec<SubactionPath>,
    registry: &SubactionPathRegistry,
    gamepads: &Vec<GamepadDevice>,
) -> (requests: Vec<GamepadRumbleRequest>)
    requires
        registry.wf(),
    ensures
        requests@ == haptic_requests(
            enabled,
            bindings@,
            *out,
            paths@,
            *registry,
            device_models(gamepads@),
        ),
{
    let mut requests: Vec<GamepadRumbleRequest> = Vec::new();
    if !enabled {
        return requests;
    }
    let ghost devices = device_models(gamepads@);
    let everyone = select_gamepads(&crate::path::GamepadPathSelector::All, gamepads);
    push_broadcast(&mut requests, out.any(), &bindings.bindings, &everyone);
    let ghost head = requests@;
    let none: Vec<GamepadHapticValue> = Vec::new();
    let mut p: usize = 0;
    while p < paths.len()
        invariant
            p <= paths@.len(),
            registry.wf(),
            devices == device_models(gamepads@),
            none@ == Seq::<GamepadHapticValue>::empty(),
            requests@ == head + scoped_requests(
                bindings@,
                *out,
                paths@.take(p as int),
                *registry,
                devices,
            ),
        decreases paths.len() - p,
    {
        match registry.selector(paths[p]) {
            Some(selector) => {
                let targets = select_gamepads(selector, gamepads);
                let values = match out.get_with_path(paths[p]) {
                    Some(values) => values,
                    None => &none,
                };
                push_broadcast(&mut requests, values, &bindings.bindings, &targets);
            },
            None => {},
        }
        proof {
            assert(paths@.take(p + 1).drop_last() =~= paths@.take(p as int));
        }
        p += 1;
    }
    assert(paths@.take(p as int) =~= paths@);
    requests
}

/// Every command reaches every gamepad under every binding: the request
/// that it becomes is among those that are broadcast.
pub proof fn lemma_broadcast_reaches(
    values: Seq<GamepadHapticValue>,
    bindings: Seq<GamepadHapticType>,
    gamepads: Seq<u64>,
    v: int,
    b: int,
    g: int,
)
    requires
        0 <= v < values.len(),
        0 <= b < bindings.len(),
        0 <= g < gamepads.len(),
    ensures
        broadcast_requests(values, bindings, gamepads).contains(
            request_for(values[v], bindings[b], gamepads[g]),
        ),
    decreases bindings.len(),
{
    let wanted = request_for(values[v], bindings[b], gamepads[g]);
    let head = broadcast_requests(values, bindings.drop_last(), gamepads);
    let tail = requests_for_binding(values, bindings.last(), gamepads);
    if b == bindings.len() - 1 {
        lemma_binding_reaches(values, bindings[b], gamepads, v, g);
        let i = choose|i: int| 0 <= i < tail.len() && tail[i] == wanted;
        assert((head + tail)[head.len() + i] == wanted);
    } else {
        lemma_broadcast_reaches(values, bindings.drop_last(), gamepads, v, b, g);
        let i = choose|i: int| 0 <= i < head.len() && head[i] == wanted;
        assert((head + tail)[i] == wanted);
    }
}

/// Under one binding every command reaches every gamepad.
proof fn lemma_binding_reaches(
    values: Seq<GamepadHapticValue>,
    binding: GamepadHapticType,
    gamepads: Seq<u64>,
    v: int,
    g: int,
)
    requires
        0 <= v < values.len(),
        0 <= g < gamepads.len(),
    ensures
        requests_for_binding(values, binding, gamepads).contains(
            request_for(values[v], binding, gamepads[g]),
        ),
    decreases gamepads.len(),
{
    let wanted = request_for(values[v], binding, gamepads[g]);
    let head = requests_for_binding(values, binding, gamepads.drop_last());
    let tail = requests_for_gamepad(values, binding, gamepads.last());
    if g == gamepads.len() - 1 {
        assert((head + tail)[head.len() + v] == wanted);
    } else {
        lemma_binding_reaches(values, binding, gamepads.drop_last(), v, g);
        let i = choose|i: int| 0 <= i < head.len() && head[i] == wanted;
        assert((head + tail)[i] == wanted);
    }
}

/// Commands that are broadcast to no gamepad become no request.
pub proof fn lemma_broadcast_to_nobody(
    values: Seq<GamepadHapticValue>,
    bindings: Seq<GamepadHapticType>,
)
    ensures
        broadcast_requests(values, bindings, Seq::<u64>::empty()) == Seq::<
            GamepadRumbleRequest,
        >::empty(),
    decreases bindings.len(),
{
    if bindings.len() > 0 {
        lemma_broadcast_to_nobody(values, bindings.drop_last());
    }
}

/// A command to stop that an action gives for any path reaches every
/// connected gamepad, if the action's set is enabled and the action has a
/// haptic binding.
pub proof fn lemma_any_stop_reaches_every_gamepad(
    bindings: Seq<GamepadHapticType>,
    out: GamepadHapticOutput,
    paths: Seq<SubactionPath>,
    registry: SubactionPathRegistry,
    devices: Seq<DeviceModel>,
    device: int,
)
    requires
        bindings.len() > 0,
        out.any_commands().contains(GamepadHapticValue::Stop),
        0 <= device < devices.len(),
    ensures
        haptic_requests(true, bindings, out, paths, registry, devices).contains(
            GamepadRumbleRequest::Stop { gamepad: devices[device].entity },
        ),
{
    let values = out.any_commands();
    let v = choose|v: int| 0 <= v < values.len() && values[v] == GamepadHapticValue::Stop;
    let wanted = GamepadRumbleRequest::Stop { gamepad: devices[device].entity };
    lemma_broadcast_reaches(values, bindings, entities(devices), v, 0, device);
    let head = broadcast_requests(values, bindings, entities(devices));
    let tail = scoped_requests(bindings, out, paths, registry, devices);
    let i = choose|i: int| 0 <= i < head.len() && head[i] == wanted;
    assert((head + tail)[i] == wanted);
}

/// The commands given for a path that names a gamepad which is not
/// connected reach no device.
pub proof fn lemma_disconnected_gamepad_gets_nothing(
    bindings: Seq<GamepadHapticType>,
    out: GamepadHapticOutput,
    path: SubactionPath,
    registry: SubactionPathRegistry,
    devices: Seq<DeviceModel>,
    id: Seq<char>,
)
    requires
        registry.metadata(path) is Some,
        registry.metadata(path).unwrap().selector == SelectorModel::Gamepad(id),
        forall|i: int| 0 <= i < devices.len() ==> devices[i].identifier != Some(id),
    ensures
        path_requests(bindings, out, path, registry, devices) == Seq::<
            GamepadRumbleRequest,
        >::empty(),
{
    crate::device::lemma_selection(devices, id);
    lemma_broadcast_to_nobody(out.commands_for(path), bindings);
}

/// An action whose set is disabled sends no request, whatever commands it
/// collected; nor does an action without a haptic binding.
pub proof fn lemma_disabled_set_sends_nothing(
    bindings: Seq<GamepadHapticType>,
    out: GamepadHapticOutput,
    paths: Seq<SubactionPath>,
    registry: SubactionPathRegistry,
    devices: Seq<DeviceModel>,
)
    ensures
        haptic_requests(false, bindings, out, paths, registry, devices).len() == 0,
        bindings.len() == 0 ==> haptic_requests(true, bindings, out, paths, registry, devices).len()
            == 0,
    decreases paths.len(),
{
    if bindings.len() == 0 && paths.len() > 0 {
        lemma_disabled_set_sends_nothing(bindings, out, paths.drop_last(), registry, devices);
    }
}

} // verus!
