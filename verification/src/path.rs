//! Subaction paths of the gamepad class: which devices a path selects,
//! which region of a device it targets, and how a path string is read.

use crate::source::GamepadBindingSource;
use crate::search::{first_index_of, lemma_first_index_of_bounds};
use crate::text::{split_once, str_eq, strip_prefix};
use vstd::prelude::*;

verus! {

/// A region of a gamepad that a subaction path can target.
#[derive(Clone, Copy, Debug, PartialEq, Eq, Hash, Structural)]
pub enum GamepadPathTarget {
    /// The thumb sticks: their two axes and their click buttons.
    Thumbstick,
    /// The primary triggers.
    Trigger,
    /// The secondary triggers.
    SecondaryTrigger,
    /// The four action buttons.
    Buttons,
    /// The four buttons of the D-Pad.
    Dpad,
}

/// The side of a device that a subaction path can narrow a region to.
#[derive(Clone, Copy, Debug, PartialEq, Eq, Hash, Structural)]
pub enum GamepadPathTargetSide {
    /// The left half of the device.
    Left,
    /// The right half of the device.
    Right,
}

/// The devices that a subaction path selects.
#[derive(Debug, PartialEq, Eq, Hash)]
pub enum GamepadPathSelector {
    /// Every connected gamepad.
    All,
    /// The gamepad that carries this identifier.
    Gamepad(String),
}

/// A selector with its identifier as a sequence of characters.
pub enum SelectorModel {
    /// Every connected gamepad.
    All,
    /// The gamepad that carries this identifier.
    Gamepad(Seq<char>),
}

impl View for GamepadPathSelector {
    type V = SelectorModel;

    open spec fn view(&self) -> SelectorModel {
        match self {
            GamepadPathSelector::All => SelectorModel::All,
            GamepadPathSelector::Gamepad(id) => SelectorModel::Gamepad(id@),
        }
    }
}

impl Clone for GamepadPathSelector {
    fn clone(&self) -> (copy: Self)
        ensures
            copy@ == self@,
    {
        match self {
            GamepadPathSelector::All => GamepadPathSelector::All,
            GamepadPathSelector::Gamepad(id) => GamepadPathSelector::Gamepad(id.clone()),
        }
    }
}

impl GamepadBindingSource {
    /// The region of the device on which this source lies, if it lies on one.
    pub open spec fn region_of(self) -> Option<GamepadPathTarget> {
        match self {
            GamepadBindingSource::LeftStickX
            | GamepadBindingSource::LeftStickY
            | GamepadBindingSource::RightStickX
            | GamepadBindingSource::RightStickY
            | GamepadBindingSource::LeftStickClick
            | GamepadBindingSource::RightStickClick => Some(GamepadPathTarget::Thumbstick),
            GamepadBindingSource::LeftTrigger | GamepadBindingSource::RightTrigger => Some(
                GamepadPathTarget::Trigger,
            ),
            GamepadBindingSource::LeftSecondaryTrigger
            | GamepadBindingSource::RightSecondaryTrigger => Some(
                GamepadPathTarget::SecondaryTrigger,
            ),
            GamepadBindingSource::South
            | GamepadBindingSource::East
            | GamepadBindingSource::North
            | GamepadBindingSource::West => Some(GamepadPathTarget::Buttons),
            GamepadBindingSource::DPadUp
            | GamepadBindingSource::DPadDown
            | GamepadBindingSource::DPadLeft
            | GamepadBindingSource::DPadRight => Some(GamepadPathTarget::Dpad),
            _ => None,
        }
    }

    /// The side of the device on which this source lies, for the sources of
    /// the regions that have sides.
    pub open spec fn side_of(self) -> Option<GamepadPathTargetSide> {
        match self {
            GamepadBindingSource::LeftStickX
            | GamepadBindingSource::LeftStickY
            | GamepadBindingSource::LeftStickClick
            | GamepadBindingSource::LeftTrigger
            | GamepadBindingSource::LeftSecondaryTrigger => Some(GamepadPathTargetSide::Left),
            GamepadBindingSource::RightStickX
            | GamepadBindingSource::RightStickY
            | GamepadBindingSource::RightStickClick
            | GamepadBindingSource::RightTrigger
            | GamepadBindingSource::RightSecondaryTrigger => Some(GamepadPathTargetSide::Right),
            _ => None,
        }
    }

    /// The same source on the other side of the device; a source without a
    /// side is its own mirror image.
    pub open spec fn mirrored(self) -> GamepadBindingSource {
        match self {
            GamepadBindingSource::LeftStickX => GamepadBindingSource::RightStickX,
            GamepadBindingSource::LeftStickY => GamepadBindingSource::RightStickY,
            GamepadBindingSource::LeftStickClick => GamepadBindingSource::RightStickClick,
            GamepadBindingSource::LeftTrigger => GamepadBindingSource::RightTrigger,
            GamepadBindingSource::LeftSecondaryTrigger => {
                GamepadBindingSource::RightSecondaryTrigger
            },
            GamepadBindingSource::RightStickX => GamepadBindingSource::LeftStickX,
            GamepadBindingSource::RightStickY => GamepadBindingSource::LeftStickY,
            GamepadBindingSource::RightStickClick => GamepadBindingSource::LeftStickClick,
            GamepadBindingSource::RightTrigger => GamepadBindingSource::LeftTrigger,
            GamepadBindingSource::RightSecondaryTrigger => {
                GamepadBindingSource::LeftSecondaryTrigger
            },
            other => other,
        }
    }
}

impl GamepadPathTargetSide {
    /// The other side.
    pub open spec fn opposite(self) -> GamepadPathTargetSide {
        match self {
            GamepadPathTargetSide::Left => GamepadPathTargetSide::Right,
            GamepadPathTargetSide::Right => GamepadPathTargetSide::Left,
        }
    }
}

/// The side behind an optional reference to one.
pub open spec fn side_value(side: Option<&GamepadPathTargetSide>) -> Option<
    GamepadPathTargetSide,
> {
    match side {
        Some(s) => Some(*s),
        None => None,
    }
}

impl GamepadPathTarget {
    /// Whether this region has a left and a right half.
    pub open spec fn has_sides(self) -> bool {
        self is Thumbstick || self is Trigger || self is SecondaryTrigger
    }

    /// Whether `source` lies in this region, on the side `side` where one is
    /// given. A source that has no side lies on both.
    pub open spec fn matches_spec(
        self,
        source: GamepadBindingSource,
        side: Option<GamepadPathTargetSide>,
    ) -> bool {
        &&& source.region_of() == Some(self)
        &&& (side is None || source.side_of() is None || source.side_of() == side)
    }

    /// Whether `source` lies in this region, on the side `side` where one is
    /// given.
    pub fn matches(
        &self,
        source: &GamepadBindingSource,
        side: Option<&GamepadPathTargetSide>,
    ) -> (hit: bool)
        ensures
            hit == self.matches_spec(*source, side_value(side)),
    {
        match (self, side, source) {
            (GamepadPathTarget::Thumbstick, None, GamepadBindingSource::LeftStickX) => true,
            (GamepadPathTarget::Thumbstick, None, GamepadBindingSource::LeftStickY) => true,
            (GamepadPathTarget::Thumbstick, None, GamepadBindingSource::RightStickX) => true,
            (GamepadPathTarget::Thumbstick, None, GamepadBindingSource::RightStickY) => true,
            (
                GamepadPathTarget::Thumbstick,
                Some(GamepadPathTargetSide::Left),
                GamepadBindingSource::LeftStickX,
            ) => true,
            (
                GamepadPathTarget::Thumbstick,
                Some(GamepadPathTargetSide::Left),
                GamepadBindingSource::LeftStickY,
            ) => true,
            (
                GamepadPathTarget::Thumbstick,
                Some(GamepadPathTargetSide::Right),
                GamepadBindingSource::RightStickX,
            ) => true,
            (
                GamepadPathTarget::Thumbstick,
                Some(GamepadPathTargetSide::Right),
                GamepadBindingSource::RightStickY,
            ) => true,
            (GamepadPathTarget::Trigger, None, GamepadBindingSource::LeftTrigger) => true,
            (GamepadPathTarget::Trigger, None, GamepadBindingSource::RightTrigger) => true,
            (
                GamepadPathTarget::Trigger,
                Some(GamepadPathTargetSide::Left),
                GamepadBindingSource::LeftTrigger,
            ) => true,
            (
                GamepadPathTarget::Trigger,
                Some(GamepadPathTargetSide::Right),
                GamepadBindingSource::RightTrigger,
            ) => true,
            (
                GamepadPathTarget::SecondaryTrigger,
                None,
                GamepadBindingSource::LeftSecondaryTrigger,
            ) => true,
            (
                GamepadPathTarget::SecondaryTrigger,
                None,
                GamepadBindingSource::RightSecondaryTrigger,
            ) => true,
            (
                GamepadPathTarget::SecondaryTrigger,
                Some(GamepadPathTargetSide::Left),
                GamepadBindingSource::LeftSecondaryTrigger,
            ) => true,
            (
                GamepadPathTarget::SecondaryTrigger,
                Some(GamepadPathTargetSide::Right),
                GamepadBindingSource::RightSecondaryTrigger,
            ) => true,
            (GamepadPathTarget::Thumbstick, None, GamepadBindingSource::LeftStickClick) => true,
            (GamepadPathTarget::Thumbstick, None, GamepadBindingSource::RightStickClick) => true,
            (
                GamepadPathTarget::Thumbstick,
                Some(GamepadPathTargetSide::Left),
                GamepadBindingSource::LeftStickClick,
            ) => true,
            (
                GamepadPathTarget::Thumbstick,
                Some(GamepadPathTargetSide::Right),
                GamepadBindingSource::RightStickClick,
            ) => true,
            (GamepadPathTarget::Buttons, None, GamepadBindingSource::South) => true,
            (GamepadPathTarget::Buttons, None, GamepadBindingSource::East) => true,
            (GamepadPathTarget::Buttons, None, GamepadBindingSource::North) => true,
            (GamepadPathTarget::Buttons, None, GamepadBindingSource::West) => true,
            (GamepadPathTarget::Buttons, Some(_), GamepadBindingSource::South) => true,
            (GamepadPathTarget::Buttons, Some(_), GamepadBindingSource::East) => true,
            (GamepadPathTarget::Buttons, Some(_), GamepadBindingSource::North) => true,
            (GamepadPathTarget::Buttons, Some(_), GamepadBindingSource::West) => true,
            (GamepadPathTarget::Dpad, None, GamepadBindingSource::DPadUp) => true,
            (GamepadPathTarget::Dpad, None, GamepadBindingSource::DPadDown) => true,
            (GamepadPathTarget::Dpad, None, GamepadBindingSource::DPadLeft) => true,
            (GamepadPathTarget::Dpad, None, GamepadBindingSource::DPadRight) => true,
            (GamepadPathTarget::Dpad, Some(_), GamepadBindingSource::DPadUp) => true,
            (GamepadPathTarget::Dpad, Some(_), GamepadBindingSource::DPadDown) => true,
            (GamepadPathTarget::Dpad, Some(_), GamepadBindingSource::DPadLeft) => true,
            (GamepadPathTarget::Dpad, Some(_), GamepadBindingSource::DPadRight) => true,
            _ => false,
        }
    }

    /// The regions without sides match a source whatever side is asked for.
    pub proof fn lemma_sideless_regions_ignore_side(
        self,
        source: GamepadBindingSource,
        a: Option<GamepadPathTargetSide>,
        b: Option<GamepadPathTargetSide>,
    )
        requires
            self is Buttons || self is Dpad,
        ensures
            self.matches_spec(source, a) == self.matches_spec(source, b),
    {
    }

    /// A region with sides, asked for with a side, matches exactly the
    /// sources of that region that lie on that side; asked for without one,
    /// it matches every source of the region.
    pub proof fn lemma_sided_regions_need_agreement(
        self,
        source: GamepadBindingSource,
        side: GamepadPathTargetSide,
    )
        requires
            self.has_sides(),
        ensures
            self.matches_spec(source, Some(side)) <==> source.region_of() == Some(self)
                && source.side_of() == Some(side),
            self.matches_spec(source, None) <==> source.region_of() == Some(self),
            self.matches_spec(source, Some(side)) ==> !self.matches_spec(
                source,
                Some(side.opposite()),
            ),
    {
    }

    /// A source that lies in no region matches none, and a source matches
    /// at most the one region in which it lies.
    pub proof fn lemma_sources_match_their_region_only(
        self,
        other: GamepadPathTarget,
        source: GamepadBindingSource,
        side: Option<GamepadPathTargetSide>,
    )
        ensures
            source.region_of() is None ==> !self.matches_spec(source, side),
            self.matches_spec(source, side) && other != self ==> !other.matches_spec(
                source,
                side,
            ),
    {
    }

    /// Left and right mirror each other: a source matches on one side
    /// exactly when its mirror image matches on the other, and without a
    /// side a source matches exactly when its mirror image does.
    pub proof fn lemma_sides_mirror(
        self,
        source: GamepadBindingSource,
        side: GamepadPathTargetSide,
    )
        ensures
            self.matches_spec(source, Some(side)) == self.matches_spec(
                source.mirrored(),
                Some(side.opposite()),
            ),
            self.matches_spec(source, None) == self.matches_spec(source.mirrored(), None),
            source.mirrored().mirrored() == source,
    {
    }
}

/// What a subaction path of the gamepad class says: the devices it
/// selects, the region and side it targets, and what in it was not
/// understood.
#[derive(Debug, PartialEq, Eq)]
pub struct GamepadPathData {
    /// The devices that the path selects.
    pub selector: GamepadPathSelector,
    /// The region that the path targets, if it names one.
    pub target: Option<GamepadPathTarget>,
    /// The side that the path narrows the region to, if it names one.
    pub side: Option<GamepadPathTargetSide>,
    /// Whether the device segment is kept as an identifier although it is
    /// no decimal number: a diagnostic is owed.
    pub malformed_index: bool,
    /// Whether the path has a region segment that is not in the
    /// vocabulary: a diagnostic is owed, and no region is attached.
    pub unknown_region: bool,
}

/// The model of a `GamepadPathData`.
pub struct GamepadPathModel {
    /// The devices that the path selects.
    pub selector: SelectorModel,
    /// The region that the path targets, if it names one.
    pub target: Option<GamepadPathTarget>,
    /// The side that the path narrows the region to, if it names one.
    pub side: Option<GamepadPathTargetSide>,
    /// Whether the device segment is an identifier that is no decimal number.
    pub malformed_index: bool,
    /// Whether the region segment is not in the vocabulary.
    pub unknown_region: bool,
}

impl View for GamepadPathData {
    type V = GamepadPathModel;

    open spec fn view(&self) -> GamepadPathModel {
        GamepadPathModel {
            selector: self.selector@,
            target: self.target,
            side: self.side,
            malformed_index: self.malformed_index,
            unknown_region: self.unknown_region,
        }
    }
}

impl Clone for GamepadPathData {
    fn clone(&self) -> (copy: Self)
        ensures
            copy@ == self@,
    {
        GamepadPathData {
            selector: self.selector.clone(),
            target: self.target,
            side: self.side,
            malformed_index: self.malformed_index,
            unknown_region: self.unknown_region,
        }
    }
}

/// The prefix of every subaction path of the gamepad class.
pub open spec fn gamepad_prefix() -> Seq<char> {
    "/gamepad"@
}

/// Whether a device segment is a decimal number: one digit or more.
pub open spec fn is_device_index(token: Seq<char>) -> bool {
    &&& token.len() > 0
    &&& forall|i: int| 0 <= i < token.len() ==> '0' <= #[trigger] token[i] <= '9'
}

/// The devices that a device segment selects: all of them for an empty
/// segment or `*`, else the one device that carries the segment as its
/// identifier.
pub open spec fn selector_for(token: Seq<char>) -> SelectorModel {
    if token.len() == 0 || token == "*"@ {
        SelectorModel::All
    } else {
        SelectorModel::Gamepad(token)
    }
}

/// The vocabulary of region segments: the region, and the side if any,
/// that each names. A region followed by `/*` names the region without a
/// side, as the bare region does.
pub open spec fn region_for(region: Seq<char>) -> Option<
    (GamepadPathTarget, Option<GamepadPathTargetSide>),
> {
    if region == "thumbstick"@ || region == "thumbstick/*"@ {
        Some((GamepadPathTarget::Thumbstick, None))
    } else if region == "thumbstick/left"@ {
        Some((GamepadPathTarget::Thumbstick, Some(GamepadPathTargetSide::Left)))
    } else if region == "thumbstick/right"@ {
        Some((GamepadPathTarget::Thumbstick, Some(GamepadPathTargetSide::Right)))
    } else if region == "dpad"@ {
        Some((GamepadPathTarget::Dpad, None))
    } else if region == "buttons"@ {
        Some((GamepadPathTarget::Buttons, None))
    } else if region == "trigger"@ || region == "trigger/*"@ {
        Some((GamepadPathTarget::Trigger, None))
    } else if region == "trigger/left"@ {
        Some((GamepadPathTarget::Trigger, Some(GamepadPathTargetSide::Left)))
    } else if region == "trigger/right"@ {
        Some((GamepadPathTarget::Trigger, Some(GamepadPathTargetSide::Right)))
    } else if region == "secondary_trigger"@ || region == "secondary_trigger/*"@ {
        Some((GamepadPathTarget::SecondaryTrigger, None))
    } else if region == "secondary_trigger/left"@ {
        Some((GamepadPathTarget::SecondaryTrigger, Some(GamepadPathTargetSide::Left)))
    } else if region == "secondary_trigger/right"@ {
        Some((GamepadPathTarget::SecondaryTrigger, Some(GamepadPathTargetSide::Right)))
    } else {
        None
    }
}

/// What a path says that selects every device and names no region.
pub open spec fn whole_class() -> GamepadPathModel {
    GamepadPathModel {
        selector: SelectorModel::All,
        target: None,
        side: None,
        malformed_index: false,
        unknown_region: false,
    }
}

/// What the part of a path behind `/gamepad/` says: a device segment up
/// to the first `/`, and behind it the region segment.
pub open spec fn parse_segments(body: Seq<char>) -> GamepadPathModel {
    let cut = first_index_of(body, '/');
    let index = body.take(cut);
    let region = if cut < body.len() {
        body.skip(cut + 1)
    } else {
        Seq::<char>::empty()
    };
    let selector = selector_for(index);
    GamepadPathModel {
        selector,
        target: match region_for(region) {
            Some((target, _)) => Some(target),
            None => None,
        },
        side: match region_for(region) {
            Some((_, side)) => side,
            None => None,
        },
        malformed_index: selector is Gamepad && !is_device_index(index),
        unknown_region: region.len() > 0 && region_for(region) is None,
    }
}

/// What a path string says of gamepads: `None` for a path of another
/// device class, which does not start with `/gamepad`; every device and no
/// region where nothing, or no `/`, follows the prefix; else what the
/// segments behind `/gamepad/` say.
pub open spec fn parse_spec(path: Seq<char>) -> Option<GamepadPathModel> {
    if !gamepad_prefix().is_prefix_of(path) {
        None
    } else {
        let rest = path.skip(gamepad_prefix().len() as int);
        if rest.len() == 0 || rest[0] != '/' {
            Some(whole_class())
        } else {
            Some(parse_segments(rest.skip(1)))
        }
    }
}

/// Whether `token` is a decimal number: one digit or more.
pub fn check_device_index(token: &str) -> (numeric: bool)
    ensures
        numeric == is_device_index(token@),
{
    let n = token.unicode_len();
    if n == 0 {
        return false;
    }
    let mut i: usize = 0;
    while i < n
        invariant
            i <= n,
            n == token@.len(),
            forall|j: int| 0 <= j < i ==> '0' <= #[trigger] token@[j] <= '9',
        decreases n - i,
    {
        let c = token.get_char(i);
        if c < '0' || c > '9' {
            return false;
        }
        i += 1;
    }
    true
}

/// The region, and the side if any, that a region segment names, or
/// `None` for a segment outside the vocabulary.
pub fn parse_region(region: &str) -> (named: Option<
    (GamepadPathTarget, Option<GamepadPathTargetSide>),
>)
    ensures
        named == region_for(region@),
{
    if str_eq(region, "thumbstick") || str_eq(region, "thumbstick/*") {
        Some((GamepadPathTarget::Thumbstick, None))
    } else if str_eq(region, "thumbstick/left") {
        Some((GamepadPathTarget::Thumbstick, Some(GamepadPathTargetSide::Left)))
    } else if str_eq(region, "thumbstick/right") {
        Some((GamepadPathTarget::Thumbstick, Some(GamepadPathTargetSide::Right)))
    } else if str_eq(region, "dpad") {
        Some((GamepadPathTarget::Dpad, None))
    } else if str_eq(region, "buttons") {
        Some((GamepadPathTarget::Buttons, None))
    } else if str_eq(region, "trigger") || str_eq(region, "trigger/*") {
        Some((GamepadPathTarget::Trigger, None))
    } else if str_eq(region, "trigger/left") {
        Some((GamepadPathTarget::Trigger, Some(GamepadPathTargetSide::Left)))
    } else if str_eq(region, "trigger/right") {
        Some((GamepadPathTarget::Trigger, Some(GamepadPathTargetSide::Right)))
    } else if str_eq(region, "secondary_trigger") || str_eq(region, "secondary_trigger/*") {
        Some((GamepadPathTarget::SecondaryTrigger, None))
    } else if str_eq(region, "secondary_trigger/left") {
        Some((GamepadPathTarget::SecondaryTrigger, Some(GamepadPathTargetSide::Left)))
    } else if str_eq(region, "secondary_trigger/right") {
        Some((GamepadPathTarget::SecondaryTrigger, Some(GamepadPathTargetSide::Right)))
    } else {
        None
    }
}

/// Reads a subaction path. A path that does not start with `/gamepad`
/// belongs to another device class and gives `None`; every other path
/// gives a selector, whatever follows the prefix.
pub fn parse_gamepad_path(path: &str) -> (parsed: Option<GamepadPathData>)
    ensures
        parsed is Some <==> gamepad_prefix().is_prefix_of(path@),
        match parsed {
            Some(data) => parse_spec(path@) == Some(data@),
            None => parse_spec(path@) is None,
        },
{
    let rest = match strip_prefix(path, "/gamepad") {
        Some(rest) => rest,
        None => {
            return None;
        },
    };
    proof {
        reveal_strlit("/");
    }
    let body = match strip_prefix(rest, "/") {
        Some(body) => body,
        None => {
            return Some(
                GamepadPathData {
                    selector: GamepadPathSelector::All,
                    target: None,
                    side: None,
                    malformed_index: false,
                    unknown_region: false,
                },
            );
        },
    };
    assert(rest@[0] == '/') by {
        assert("/"@[0] == rest@.subrange(0, 1)[0]);
    }
    let (index, region) = match split_once(body, '/') {
        Some(parts) => parts,
        None => (body, ""),
    };
    proof {
        reveal_strlit("");
        assert(""@ =~= Seq::<char>::empty());
        assert(first_index_of(body@, '/') >= body@.len() ==> body@.take(
            first_index_of(body@, '/'),
        ) =~= body@) by {
            lemma_first_index_of_bounds(body@, '/');
        }
    }
    let wildcard = index.unicode_len() == 0 || str_eq(index, "*");
    let (selector, malformed_index) = if wildcard {
        (GamepadPathSelector::All, false)
    } else {
        (GamepadPathSelector::Gamepad(index.to_owned()), !check_device_index(index))
    };
    let named = parse_region(region);
    let unknown_region = region.unicode_len() > 0 && named.is_none();
    let (target, side) = match named {
        Some((target, side)) => (Some(target), side),
        None => (None, None),
    };
    Some(GamepadPathData { selector, target, side, malformed_index, unknown_region })
}

/// Every string that starts with `/gamepad` is read, and selects all
/// devices or one; a string reads the same way each time it is read.
pub proof fn lemma_parse_total(path: Seq<char>, again: Seq<char>)
    ensures
        gamepad_prefix().is_prefix_of(path) <==> parse_spec(path) is Some,
        path == again ==> parse_spec(path) == parse_spec(again),
{
}

} // verus!
