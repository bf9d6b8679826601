//! The registry of subaction paths: each path string is given a stable
//! identity when it is first referred to, and is read once, at that moment.

use crate::path::{parse_gamepad_path, parse_spec, GamepadPathData, GamepadPathModel,
    GamepadPathSelector, GamepadPathTarget, GamepadPathTargetSide};
use crate::search::{first_index_of, lemma_first_index_of, lemma_first_index_of_bounds};
use crate::text::str_eq;
use vstd::prelude::*;

verus! {

/// The identity of a subaction path: its place in the registry.
#[derive(Clone, Copy, Debug, PartialEq, Eq, Hash, Structural)]
pub struct SubactionPath(pub usize);

/// One registered path: its string, and what the string says of gamepads.
#[derive(Debug)]
struct PathEntry {
    text: String,
    gamepad: Option<GamepadPathData>,
}

impl PathEntry {
    /// What the entry holds on gamepads, as a model.
    spec fn gamepad_model(self) -> Option<GamepadPathModel> {
        match self.gamepad {
            Some(data) => Some(data@),
            None => None,
        }
    }
}

/// The subaction paths that have been referred to so far, in the order
/// in which they first were.
#[derive(Debug)]
pub struct SubactionPathRegistry {
    entries: Vec<PathEntry>,
}

impl SubactionPathRegistry {
    /// The registry's invariant: what is attached to each entry is what its
    /// string says, and no string is registered twice. `new` establishes
    /// it and `intern` keeps it.
    pub closed spec fn wf(self) -> bool {
        &&& forall|i: int|
            0 <= i < self.entries@.len() ==> (#[trigger] self.entries@[i]).gamepad_model()
                == parse_spec(self.entries@[i].text@)
        &&& forall|i: int, j: int|
            0 <= i < j < self.entries@.len() ==> (#[trigger] self.entries@[i]).text@ != (
            #[trigger] self.entries@[j]).text@
    }

    /// The registered path strings, in the order of their identities.
    pub closed spec fn texts(self) -> Seq<Seq<char>> {
        Seq::new(self.entries@.len(), |i: int| self.entries@[i].text@)
    }

    /// What is attached to the path `path`: what its string says of
    /// gamepads; `None` for a path of another device class and for an
    /// identity that was never given out.
    pub open spec fn metadata(self, path: SubactionPath) -> Option<GamepadPathModel> {
        if path.0 < self.texts().len() {
            parse_spec(self.texts()[path.0 as int])
        } else {
            None
        }
    }

    /// A registry without paths.
    pub fn new() -> (registry: Self)
        ensures
            registry.wf(),
            registry.texts() == Seq::<Seq<char>>::empty(),
    {
        let registry = SubactionPathRegistry { entries: Vec::new() };
        registry
    }

    /// The number of registered paths.
    pub fn len(&self) -> (count: usize)
        ensures
            count == self.texts().len(),
    {
        self.entries.len()
    }

    /// The identity of the path string `text`, if it is registered.
    pub fn find(&self, text: &str) -> (found: Option<SubactionPath>)
        ensures
            match found {
                Some(path) => path.0 == first_index_of(self.texts(), text@) && path.0
                    < self.texts().len(),
                None => first_index_of(self.texts(), text@) == self.texts().len(),
            },
    {
        let mut i: usize = 0;
        while i < self.entries.len()
            invariant
                i <= self.entries@.len(),
                self.texts().len() == self.entries@.len(),
                forall|j: int| 0 <= j < i ==> self.texts()[j] != text@,
            decreases self.entries.len() - i,
        {
            if str_eq(self.entries[i].text.as_str(), text) {
                proof {
                    lemma_first_index_of(self.texts(), text@, i as int);
                }
                return Some(SubactionPath(i));
            }
            i += 1;
        }
        proof {
            lemma_first_index_of(self.texts(), text@, i as int);
        }
        None
    }

    /// The identity of the path string `text`. A string that is referred
    /// to for the first time is registered behind the others and read; one
    /// that is registered keeps its identity, and is not read again. No
    /// other path changes.
    pub fn intern(&mut self, text: &str) -> (path: SubactionPath)
        requires
            old(self).wf(),
        ensures
            final(self).wf(),
            path.0 == first_index_of(old(self).texts(), text@),
            final(self).texts() == if path.0 < old(self).texts().len() {
                old(self).texts()
            } else {
                old(self).texts().push(text@)
            },
            final(self).texts()[path.0 as int] == text@,
            final(self).metadata(path) == parse_spec(text@),
            forall|known: SubactionPath|
                known.0 < old(self).texts().len() ==> final(self).metadata(known) == old(
                    self,
                ).metadata(known),
    {
        match self.find(text) {
            Some(path) => {
                assert(self.texts()[path.0 as int] == text@) by {
                    lemma_first_index_of_bounds(self.texts(), text@);
                }
                path
            },
            None => {
                proof {
                    lemma_first_index_of_bounds(self.texts(), text@);
                }
                let ghost before = self.texts();
                let index = self.entries.len();
                let gamepad = parse_gamepad_path(text);
                self.entries.push(PathEntry { text: text.to_owned(), gamepad });
                assert forall|i: int, j: int| 0 <= i < j < self.entries@.len() implies (
                #[trigger] self.entries@[i]).text@ != (#[trigger] self.entries@[j]).text@ by {
                    if j >= index {
                        assert(before[i] != text@);
                    }
                }
                SubactionPath(index)
            },
        }
    }

    /// What is attached to the path `path`: `None` for a path of another
    /// device class and for an identity that was never given out.
    pub fn gamepad_data(&self, path: SubactionPath) -> (data: Option<&GamepadPathData>)
        requires
            self.wf(),
        ensures
            match data {
                Some(d) => self.metadata(path) == Some(d@),
                None => self.metadata(path) is None,
            },
    {
        if path.0 < self.entries.len() {
            self.entries[path.0].gamepad.as_ref()
        } else {
            None
        }
    }

    /// The devices that the path `path` selects, where it is a path of
    /// the gamepad class.
    pub fn selector(&self, path: SubactionPath) -> (selector: Option<&GamepadPathSelector>)
        requires
            self.wf(),
        ensures
            match selector {
                Some(s) => self.metadata(path) is Some && self.metadata(path).unwrap().selector
                    == s@,
                None => self.metadata(path) is None,
            },
    {
        match self.gamepad_data(path) {
            Some(data) => Some(&data.selector),
            None => None,
        }
    }

    /// The region and the side that the path `path` targets: `None` for
    /// each that it does not name.
    pub fn target(&self, path: SubactionPath) -> (target: (
        Option<GamepadPathTarget>,
        Option<GamepadPathTargetSide>,
    ))
        requires
            self.wf(),
        ensures
            target.0 == match self.metadata(path) {
                Some(data) => data.target,
                None => None,
            },
            target.1 == match self.metadata(path) {
                Some(data) => data.side,
                None => None,
            },
    {
        match self.gamepad_data(path) {
            Some(data) => (data.target, data.side),
            None => (None, None),
        }
    }

    /// Registering a string twice gives one identity: once a string was
    /// referred to, it stands in the registry at the place that was given
    /// out for it, and a second reference finds it there.
    pub proof fn lemma_intern_is_stable(texts: Seq<Seq<char>>, text: Seq<char>)
        ensures
            ({
                let first = first_index_of(texts, text);
                let after = if first < texts.len() {
                    texts
                } else {
                    texts.push(text)
                };
                &&& first_index_of(after, text) == first
                &&& first < after.len()
                &&& after[first] == text
            }),
    {
        lemma_first_index_of_bounds(texts, text);
        let first = first_index_of(texts, text);
        if first < texts.len() {
        } else {
            let after = texts.push(text);
            lemma_first_index_of(after, text, first);
        }
    }
}

/// The registered strings after `text` was referred to: as before where
/// it is among them, else with `text` behind them.
pub open spec fn texts_with(texts: Seq<Seq<char>>, text: Seq<char>) -> Seq<Seq<char>> {
    if first_index_of(texts, text) < texts.len() {
        texts
    } else {
        texts.push(text)
    }
}

/// The registered strings after each of `created` was referred to, in
/// their order.
pub open spec fn texts_with_all(texts: Seq<Seq<char>>, created: Seq<Seq<char>>) -> Seq<Seq<char>>
    decreases created.len(),
{
    if created.len() == 0 {
        texts
    } else {
        texts_with_all(texts_with(texts, created.first()), created.drop_first())
    }
}

/// The characters of each of a sequence of strings.
pub open spec fn text_views(texts: Seq<String>) -> Seq<Seq<char>> {
    Seq::new(texts.len(), |i: int| texts[i]@)
}

/// Referring to more strings leaves the place of a registered string as
/// it is.
pub proof fn lemma_registered_stays(
    texts: Seq<Seq<char>>,
    created: Seq<Seq<char>>,
    text: Seq<char>,
)
    requires
        first_index_of(texts, text) < texts.len(),
    ensures
        first_index_of(texts_with_all(texts, created), text) == first_index_of(texts, text),
        texts_with_all(texts, created).len() >= texts.len(),
    decreases created.len(),
{
    if created.len() > 0 {
        let next = texts_with(texts, created.first());
        lemma_first_index_of_bounds(texts, text);
        lemma_first_index_of(next, text, first_index_of(texts, text));
        lemma_registered_stays(next, created.drop_first(), text);
    }
}

/// Handles the subaction paths that were referred to in a pass: each
/// string, in the order of `created`, is given its identity, and is
/// registered and read if it is new. The identities are those that the
/// strings have in the registry afterwards, and what is attached to each
/// is what its string says.
pub fn handle_new_subaction_paths(
    registry: &mut SubactionPathRegistry,
    created: &Vec<String>,
) -> (paths: Vec<SubactionPath>)
    requires
        old(registry).wf(),
    ensures
        final(registry).wf(),
        final(registry).texts() == texts_with_all(old(registry).texts(), text_views(created@)),
        paths@.len() == created@.len(),
        forall|i: int|
            0 <= i < created@.len() ==> {
                &&& (#[trigger] paths@[i]).0 == first_index_of(
                    final(registry).texts(),
                    created@[i]@,
                )
                &&& paths@[i].0 < final(registry).texts().len()
                &&& final(registry).metadata(paths@[i]) == parse_spec(created@[i]@)
            },
{
    let ghost all = text_views(created@);
    let ghost target = texts_with_all(registry.texts(), all);
    let mut paths: Vec<SubactionPath> = Vec::new();
    let mut i: usize = 0;
    assert(all.skip(0) =~= all);
    while i < created.len()
        invariant
            i <= created@.len(),
            registry.wf(),
            all == text_views(created@),
            target == texts_with_all(registry.texts(), all.skip(i as int)),
            paths@.len() == i,
            forall|j: int|
                0 <= j < i ==> {
                    &&& (#[trigger] paths@[j]).0 == first_index_of(registry.texts(), all[j])
                    &&& paths@[j].0 < registry.texts().len()
                },
        decreases created.len() - i,
    {
        let ghost before = registry.texts();
        let path = registry.intern(created[i].as_str());
        proof {
            assert(all.skip(i as int).drop_first() =~= all.skip(i + 1));
            lemma_first_index_of_bounds(before, created@[i as int]@);
            lemma_first_index_of(registry.texts(), created@[i as int]@, path.0 as int);
            assert forall|j: int| 0 <= j < i implies (#[trigger] paths@[j]).0 == first_index_of(
                registry.texts(),
                all[j],
            ) && paths@[j].0 < registry.texts().len() by {
                assert(paths@[j].0 == first_index_of(before, all[j]));
                lemma_registered_stays(before, seq![created@[i as int]@], all[j]);
                assert(texts_with_all(before, seq![created@[i as int]@]) == texts_with(
                    before,
                    created@[i as int]@,
                )) by {
                    reveal_with_fuel(texts_with_all, 2);
                }
            }
        }
        paths.push(path);
        i += 1;
    }
    proof {
        assert forall|k: int| 0 <= k < created@.len() implies registry.metadata(
            #[trigger] paths@[k],
        ) == parse_spec(created@[k]@) by {
            lemma_first_index_of_bounds(registry.texts(), all[k]);
        }
    }
    paths
}

} // verus!
