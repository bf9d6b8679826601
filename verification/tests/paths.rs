use schminput::path::{
    check_device_index, parse_gamepad_path, parse_region, GamepadPathData, GamepadPathSelector,
    GamepadPathTarget, GamepadPathTargetSide,
};
use schminput::path::GamepadPathTarget as T;
use schminput::path::GamepadPathTarget::{Buttons, Dpad, SecondaryTrigger, Thumbstick, Trigger};
use schminput::path::GamepadPathTargetSide::{Left, Right};
use schminput::source::GamepadBindingSource;
use schminput::source::GamepadBindingSource as S;
use schminput::source::GamepadBindingSource::{
    DPadDown, DPadLeft, DPadRight, DPadUp, East, LeftSecondaryTrigger, LeftStickClick,
    LeftStickX, LeftStickY, LeftTrigger, LeftZ, Mode, North, OtherAxis, OtherButton,
    RightSecondaryTrigger, RightStickClick, RightStickX, RightStickY, RightTrigger, RightZ,
    Select, South, Start, West, C, Z,
};

fn parsed(path: &str) -> GamepadPathData {
    parse_gamepad_path(path).expect("a path of the gamepad class")
}

fn named(id: &str) -> GamepadPathSelector {
    GamepadPathSelector::Gamepad(id.to_string())
}

#[test]
fn bare_prefix_selects_all_without_region() {
    let data = parsed("/gamepad");
    assert_eq!(data.selector, GamepadPathSelector::All);
    assert_eq!(data.target, None);
    assert_eq!(data.side, None);
    assert!(!data.malformed_index);
    assert!(!data.unknown_region);
}

#[test]
fn indexed_thumbstick_left() {
    let data = parsed("/gamepad/0/thumbstick/left");
    assert_eq!(data.selector, named("0"));
    assert_eq!(data.target, Some(GamepadPathTarget::Thumbstick));
    assert_eq!(data.side, Some(GamepadPathTargetSide::Left));
    assert!(!data.malformed_index);
    assert!(!data.unknown_region);
}

#[test]
fn wildcard_dpad() {
    let data = parsed("/gamepad/*/dpad");
    assert_eq!(data.selector, GamepadPathSelector::All);
    assert_eq!(data.target, Some(GamepadPathTarget::Dpad));
    assert_eq!(data.side, None);
}

#[test]
fn indexed_buttons() {
    let data = parsed("/gamepad/0/buttons");
    assert_eq!(data.selector, named("0"));
    assert_eq!(data.target, Some(GamepadPathTarget::Buttons));
    assert_eq!(data.side, None);
}

#[test]
fn other_device_classes_are_not_read() {
    assert_eq!(parse_gamepad_path("/keyboard"), None);
    assert_eq!(parse_gamepad_path("/mouse/motion"), None);
    assert_eq!(parse_gamepad_path(""), None);
    assert_eq!(parse_gamepad_path("/gamepa"), None);
    assert_eq!(parse_gamepad_path("gamepad"), None);
    assert_eq!(parse_gamepad_path("/Gamepad"), None);
}

#[test]
fn prefix_without_further_slash_selects_all() {
    let data = parsed("/gamepadfoo");
    assert_eq!(data.selector, GamepadPathSelector::All);
    assert_eq!(data.target, None);
    assert_eq!(data.side, None);
    assert!(!data.malformed_index);
    assert!(!data.unknown_region);
}

#[test]
fn empty_device_segment_selects_all() {
    let data = parsed("/gamepad/");
    assert_eq!(data.selector, GamepadPathSelector::All);
    assert_eq!(data.target, None);
    let data = parsed("/gamepad//trigger/right");
    assert_eq!(data.selector, GamepadPathSelector::All);
    assert_eq!(data.target, Some(GamepadPathTarget::Trigger));
    assert_eq!(data.side, Some(GamepadPathTargetSide::Right));
}

#[test]
fn wildcard_device_without_region() {
    let data = parsed("/gamepad/*");
    assert_eq!(data.selector, GamepadPathSelector::All);
    assert_eq!(data.target, None);
    assert!(!data.unknown_region);
    let data = parsed("/gamepad/*/");
    assert_eq!(data.selector, GamepadPathSelector::All);
    assert_eq!(data.target, None);
    assert!(!data.unknown_region);
}

#[test]
fn malformed_index_still_selects_the_named_device() {
    let data = parsed("/gamepad/player-one/trigger");
    assert_eq!(data.selector, named("player-one"));
    assert!(data.malformed_index);
    assert_eq!(data.target, Some(GamepadPathTarget::Trigger));
    assert_eq!(data.side, None);
    let data = parsed("/gamepad/-1");
    assert_eq!(data.selector, named("-1"));
    assert!(data.malformed_index);
    let data = parsed("/gamepad/**");
    assert_eq!(data.selector, named("**"));
    assert!(data.malformed_index);
    let data = parsed("/gamepad/12");
    assert_eq!(data.selector, named("12"));
    assert!(!data.malformed_index);
}

#[test]
fn unknown_region_attaches_no_region_and_keeps_the_selector() {
    let data = parsed("/gamepad/1/touchpad");
    assert_eq!(data.selector, named("1"));
    assert_eq!(data.target, None);
    assert_eq!(data.side, None);
    assert!(data.unknown_region);
    let data = parsed("/gamepad/*/thumbstick/up");
    assert_eq!(data.selector, GamepadPathSelector::All);
    assert_eq!(data.target, None);
    assert!(data.unknown_region);
    let data = parsed("/gamepad/*/dpad/");
    assert_eq!(data.target, None);
    assert!(data.unknown_region);
}

#[test]
fn region_vocabulary() {
    let table = [
        ("thumbstick", Some((Thumbstick, None))),
        ("thumbstick/*", Some((Thumbstick, None))),
        ("thumbstick/left", Some((Thumbstick, Some(Left)))),
        ("thumbstick/right", Some((Thumbstick, Some(Right)))),
        ("trigger", Some((Trigger, None))),
        ("trigger/*", Some((Trigger, None))),
        ("trigger/left", Some((Trigger, Some(Left)))),
        ("trigger/right", Some((Trigger, Some(Right)))),
        ("secondary_trigger", Some((SecondaryTrigger, None))),
        ("secondary_trigger/*", Some((SecondaryTrigger, None))),
        ("secondary_trigger/left", Some((SecondaryTrigger, Some(Left)))),
        ("secondary_trigger/right", Some((SecondaryTrigger, Some(Right)))),
        ("dpad", Some((Dpad, None))),
        ("buttons", Some((Buttons, None))),
        ("", None),
        ("dpad/*", None),
        ("buttons/left", None),
        ("secondray_trigger/*", None),
        ("Thumbstick", None),
        ("thumbstick/", None),
    ];
    for (region, expected) in table {
        assert_eq!(parse_region(region), expected, "{region}");
    }
}

#[test]
fn trailing_wildcard_reads_as_the_bare_region() {
    for region in ["thumbstick", "trigger", "secondary_trigger"] {
        let bare = parsed(&format!("/gamepad/3/{region}"));
        let wild = parsed(&format!("/gamepad/3/{region}/*"));
        assert_eq!(bare, wild);
        assert!(bare.target.is_some());
        assert_eq!(bare.side, None);
    }
}

#[test]
fn device_index_is_one_digit_or_more() {
    assert!(check_device_index("0"));
    assert!(check_device_index("0123456789"));
    assert!(!check_device_index(""));
    assert!(!check_device_index("1a"));
    assert!(!check_device_index("+1"));
    assert!(!check_device_index("/"));
    assert!(!check_device_index(":"));
    assert!(!check_device_index("१"));
}

#[test]
fn parsing_twice_gives_the_same() {
    for path in [
        "/gamepad",
        "/gamepad/0/thumbstick/left",
        "/gamepad/*/dpad",
        "/gamepad/x/y/z",
        "/keyboard",
    ] {
        assert_eq!(parse_gamepad_path(path), parse_gamepad_path(path));
    }
}

fn all_sources() -> Vec<GamepadBindingSource> {
    vec![
        LeftStickX, LeftStickY, RightStickX, RightStickY, South, East, North, West, LeftTrigger,
        LeftSecondaryTrigger, RightTrigger, RightSecondaryTrigger, LeftStickClick,
        RightStickClick, DPadUp, DPadDown, DPadLeft, DPadRight, Select, Start, Mode, LeftZ,
        RightZ, C, Z, OtherAxis(0), OtherAxis(5), OtherButton(0), OtherButton(5),
    ]
}

fn expected_match(
    target: GamepadPathTarget,
    side: Option<GamepadPathTargetSide>,
    source: GamepadBindingSource,
) -> bool {
    match (target, side, source) {
        (T::Thumbstick, None, S::LeftStickX | S::LeftStickY | S::LeftStickClick) => true,
        (T::Thumbstick, None, S::RightStickX | S::RightStickY | S::RightStickClick) => true,
        (T::Thumbstick, Some(Left), S::LeftStickX | S::LeftStickY | S::LeftStickClick) => true,
        (T::Thumbstick, Some(Right), S::RightStickX | S::RightStickY | S::RightStickClick) => {
            true
        }
        (T::Trigger, None, S::LeftTrigger | S::RightTrigger) => true,
        (T::Trigger, Some(Left), S::LeftTrigger) => true,
        (T::Trigger, Some(Right), S::RightTrigger) => true,
        (T::SecondaryTrigger, None, S::LeftSecondaryTrigger | S::RightSecondaryTrigger) => true,
        (T::SecondaryTrigger, Some(Left), S::LeftSecondaryTrigger) => true,
        (T::SecondaryTrigger, Some(Right), S::RightSecondaryTrigger) => true,
        (T::Buttons, _, S::South | S::East | S::North | S::West) => true,
        (T::Dpad, _, S::DPadUp | S::DPadDown | S::DPadLeft | S::DPadRight) => true,
        _ => false,
    }
}

#[test]
fn region_match_table() {
    let targets = [
        GamepadPathTarget::Thumbstick,
        GamepadPathTarget::Trigger,
        GamepadPathTarget::SecondaryTrigger,
        GamepadPathTarget::Buttons,
        GamepadPathTarget::Dpad,
    ];
    let sides = [
        None,
        Some(GamepadPathTargetSide::Left),
        Some(GamepadPathTargetSide::Right),
    ];
    let mut hits = 0;
    for target in targets {
        for side in sides {
            for source in all_sources() {
                let hit = target.matches(&source, side.as_ref());
                assert_eq!(
                    hit,
                    expected_match(target, side, source),
                    "{target:?} {side:?} {source:?}"
                );
                if hit {
                    hits += 1;
                }
            }
        }
    }
    assert_eq!(hits, 44);
}

#[test]
fn buttons_and_dpad_match_whatever_the_side() {
    let left = GamepadPathTargetSide::Left;
    let right = GamepadPathTargetSide::Right;
    assert!(GamepadPathTarget::Buttons.matches(&GamepadBindingSource::South, Some(&left)));
    assert!(GamepadPathTarget::Buttons.matches(&GamepadBindingSource::South, Some(&right)));
    assert!(GamepadPathTarget::Buttons.matches(&GamepadBindingSource::South, None));
    assert!(GamepadPathTarget::Dpad.matches(&GamepadBindingSource::DPadLeft, Some(&right)));
    assert!(!GamepadPathTarget::Dpad.matches(&GamepadBindingSource::South, None));
}

#[test]
fn sided_regions_need_the_source_on_that_side() {
    let left = GamepadPathTargetSide::Left;
    let right = GamepadPathTargetSide::Right;
    assert!(GamepadPathTarget::Thumbstick.matches(&GamepadBindingSource::LeftStickX, Some(&left)));
    assert!(!GamepadPathTarget::Thumbstick.matches(&GamepadBindingSource::LeftStickX, Some(&right)));
    assert!(GamepadPathTarget::Trigger.matches(&GamepadBindingSource::RightTrigger, Some(&right)));
    assert!(!GamepadPathTarget::Trigger.matches(&GamepadBindingSource::RightTrigger, Some(&left)));
    assert!(!GamepadPathTarget::Trigger
        .matches(&GamepadBindingSource::RightSecondaryTrigger, Some(&right)));
    assert!(GamepadPathTarget::SecondaryTrigger
        .matches(&GamepadBindingSource::LeftSecondaryTrigger, Some(&left)));
    assert!(!GamepadPathTarget::Thumbstick.matches(&GamepadBindingSource::LeftZ, None));
}
