//! The registry of registered shortcuts, and pausing and resuming them.
//!
//! The registry maps the identifier of each registered hot-key to the
//! shortcut string that was registered. Registering and unregistering with
//! the operating system is done by the caller: a function here decides
//! whether and what, the caller does it and then records the outcome.

use crate::error::{AppError, ErrorKind, ErrorView};
use crate::flags::HandlerFlags;
use crate::shortcut::{parse, parse_shortcut, ParseFailure, Shortcut, ShortcutView};
use std::collections::HashMap;
use vstd::prelude::*;
use vstd::std_specs::iter::IteratorSpec;
use vstd::string::StringExecFns;

verus! {

/// Whether every entry of a table is filed under the identifier of the
/// hot-key that its string means.
pub open spec fn consistent(table: Map<u32, Seq<char>>) -> bool {
    forall|id: u32| #[trigger]
        table.contains_key(id) ==> parse(table[id]) is Ok && parse(table[id])->Ok_0.id == id
}

/// Whether a shortcut string is in a table.
pub open spec fn registered(table: Map<u32, Seq<char>>, shortcut: Seq<char>) -> bool {
    exists|id: u32| #[trigger] table.contains_key(id) && table[id] == shortcut
}

/// The error for a shortcut that is registered already.
pub open spec fn already_registered(shortcut: Seq<char>) -> ErrorView {
    ErrorView {
        kind: ErrorKind::AlreadyRegistered,
        message: "Shortcut "@ + shortcut + " is already registered"@,
    }
}

/// The error for a shortcut that is not registered.
pub open spec fn not_registered(shortcut: Seq<char>) -> ErrorView {
    ErrorView {
        kind: ErrorKind::NotRegistered,
        message: "Shortcut "@ + shortcut + " is not registered"@,
    }
}

/// Whether a list holds the hot-key of every entry of a table, each once,
/// and nothing else.
pub open spec fn covers(hotkeys: Seq<ShortcutView>, table: Map<u32, Seq<char>>) -> bool {
    &&& hotkeys.len() == table.dom().len()
    &&& forall|i: int|
        0 <= i < hotkeys.len() ==> table.contains_key(#[trigger] hotkeys[i].id) && parse(
            table[hotkeys[i].id],
        ) == Ok::<ShortcutView, ParseFailure>(hotkeys[i])
    &&& forall|i: int, j: int|
        0 <= i < j < hotkeys.len() ==> #[trigger] hotkeys[i].id != #[trigger] hotkeys[j].id
    &&& forall|id: u32| #[trigger]
        table.contains_key(id) ==> exists|i: int|
            0 <= i < hotkeys.len() && #[trigger] hotkeys[i].id == id
}

/// The views of the hot-keys in `v`, in order.
pub open spec fn hotkey_views(v: Seq<Shortcut>) -> Seq<ShortcutView> {
    Seq::new(v.len(), |i: int| v[i]@)
}

/// The mathematical value of a [`Registration`].
pub ghost struct RegistrationView {
    pub hotkey: ShortcutView,
    pub text: Seq<char>,
}

/// A shortcut that may be registered: the string and the hot-key that it
/// means. It is made by [`register_shortcut`] and taken by
/// [`ShortcutRegistry::insert`] once the operating system has accepted the
/// hot-key.
#[derive(Debug)]
pub struct Registration {
    hotkey: Shortcut,
    text: String,
}

impl View for Registration {
    type V = RegistrationView;

    closed spec fn view(&self) -> RegistrationView {
        RegistrationView { hotkey: self.hotkey@, text: self.text@ }
    }
}

impl Registration {
    #[verifier::type_invariant]
    spec fn well_formed(self) -> bool {
        parse(self.text@) == Ok::<ShortcutView, ParseFailure>(self.hotkey@)
    }

    /// The hot-key to register with the operating system.
    pub fn hotkey(&self) -> (hotkey: &Shortcut)
        ensures
            hotkey@ == self@.hotkey,
            parse(self@.text) == Ok::<ShortcutView, ParseFailure>(self@.hotkey),
    {
        proof {
            use_type_invariant(self);
        }
        &self.hotkey
    }

    /// The shortcut string.
    pub fn text(&self) -> (text: &str)
        ensures
            text@ == self@.text,
    {
        self.text.as_str()
    }
}

/// The text `head`, then `middle`, then `tail`.
fn message(head: &str, middle: &str, tail: &str) -> (m: String)
    ensures
        m@ == head@ + middle@ + tail@,
{
    String::from_str(head).concat(middle).concat(tail)
}

/// The registered shortcuts.
pub struct ShortcutRegistry {
    entries: HashMap<u32, String>,
}

impl View for ShortcutRegistry {
    type V = Map<u32, Seq<char>>;

    closed spec fn view(&self) -> Map<u32, Seq<char>> {
        Map::new(|id: u32| self.entries@.contains_key(id), |id: u32| self.entries@[id]@)
    }
}

impl ShortcutRegistry {
    #[verifier::type_invariant]
    spec fn well_formed(self) -> bool {
        consistent(self@)
    }

    /// A registry without entries.
    pub fn new() -> (registry: ShortcutRegistry)
        ensures
            registry@ == Map::<u32, Seq<char>>::empty(),
    {
        let registry = ShortcutRegistry { entries: HashMap::new() };
        proof {
            assert(registry@ =~= Map::<u32, Seq<char>>::empty());
        }
        registry
    }

    /// Whether `shortcut` is registered: some entry holds exactly this
    /// string.
    pub fn contains(&self, shortcut: &str) -> (b: bool)
        ensures
            b == registered(self@, shortcut@),
            consistent(self@),
    {
        broadcast use vstd::std_specs::hash::group_hash_axioms;

        proof {
            use_type_invariant(self);
        }
        let ghost table = self@;
        let wanted = String::from_str(shortcut);
        let ghost all = vstd::std_specs::hash::spec_hash_map_iter(&self.entries).remaining();
        let ghost mut seen: int = 0;
        for entry in iter: self.entries.iter()
            invariant
                table == self@,
                consistent(table),
                wanted@ == shortcut@,
                iter.seq() == all,
                seen == iter.index(),
                forall|j: int| 0 <= j < seen ==> (*all[j].1)@ != shortcut@,
        {
            if *entry.1 == wanted {
                proof {
                    let found = iter.seq()[iter.index() as int];
                    assert(self.entries@.contains_key(*found.0));
                    assert(self.entries@[*found.0] == *found.1);
                    assert(table.contains_key(*found.0) && table[*found.0] == shortcut@);
                }
                return true;
            }
            proof {
                seen = seen + 1;
            }
        }
        proof {
            assert forall|id: u32| #[trigger] table.contains_key(id) implies table[id]
                != shortcut@ by {
                assert(self.entries@.contains_key(id));
                assert(all.contains((&id, &self.entries@[id])));
                let j = choose|j: int| 0 <= j < all.len() && all[j] == (&id, &self.entries@[id]);
                assert((*all[j].1)@ != shortcut@);
            }
        }
        false
    }

    /// Records that the operating system has accepted the hot-key of
    /// `registration`: the shortcut string is filed under the identifier of
    /// the hot-key, in place of what was filed there before.
    pub fn insert(&mut self, registration: Registration)
        ensures
            final(self)@ == old(self)@.insert(registration@.hotkey.id, registration@.text),
            registered(final(self)@, registration@.text),
    {
        broadcast use vstd::std_specs::hash::group_hash_axioms;

        proof {
            use_type_invariant(&*self);
            use_type_invariant(&registration);
        }
        let ghost before = self@;
        let ghost id = registration@.hotkey.id;
        let ghost text = registration@.text;
        let Registration { hotkey, text: shortcut } = registration;
        let mut entries: HashMap<u32, String> = HashMap::new();
        proof {
            let emptied = ShortcutRegistry { entries };
            assert(emptied@ =~= Map::<u32, Seq<char>>::empty());
        }
        std::mem::swap(&mut self.entries, &mut entries);
        entries.insert(hotkey.id(), shortcut);
        proof {
            let filled = ShortcutRegistry { entries };
            assert(filled@ =~= before.insert(id, text));
            assert forall|k: u32| #[trigger] filled@.contains_key(k) implies parse(filled@[k]) is Ok
                && parse(filled@[k])->Ok_0.id == k by {
                if k != id {
                    assert(before.contains_key(k));
                }
            }
        }
        std::mem::swap(&mut self.entries, &mut entries);
        proof {
            assert(self@ =~= before.insert(id, text));
            assert(self@.contains_key(id) && self@[id] == text);
            assert forall|k: u32| #[trigger] self@.contains_key(k) implies parse(self@[k]) is Ok
                && parse(self@[k])->Ok_0.id == k by {
                if k != id {
                    assert(before.contains_key(k));
                }
            }
        }
    }

    /// Records that the operating system has let go of the hot-key with
    /// identifier `id`: the entry filed under it is dropped, if there is one.
    pub fn remove(&mut self, id: u32)
        ensures
            final(self)@ == old(self)@.remove(id),
    {
        broadcast use vstd::std_specs::hash::group_hash_axioms;

        proof {
            use_type_invariant(&*self);
        }
        let ghost before = self@;
        let mut entries: HashMap<u32, String> = HashMap::new();
        proof {
            let emptied = ShortcutRegistry { entries };
            assert(emptied@ =~= Map::<u32, Seq<char>>::empty());
        }
        std::mem::swap(&mut self.entries, &mut entries);
        entries.remove(&id);
        proof {
            let rest = ShortcutRegistry { entries };
            assert(rest@ =~= before.remove(id));
            assert forall|k: u32| #[trigger] rest@.contains_key(k) implies parse(rest@[k]) is Ok
                && parse(rest@[k])->Ok_0.id == k by {
                assert(before.contains_key(k));
            }
        }
        std::mem::swap(&mut self.entries, &mut entries);
        proof {
            assert(self@ =~= before.remove(id));
            assert forall|k: u32| #[trigger] self@.contains_key(k) implies parse(self@[k]) is Ok
                && parse(self@[k])->Ok_0.id == k by {
                assert(before.contains_key(k));
            }
        }
    }

    /// The shortcut string filed under `id`, if there is one.
    pub fn get(&self, id: u32) -> (text: Option<String>)
        ensures
            match text {
                Some(t) => self@.contains_key(id) && self@[id] == t@,
                None => !self@.contains_key(id),
            },
    {
        broadcast use vstd::std_specs::hash::group_hash_axioms;

        match self.entries.get(&id) {
            Some(text) => Some(text.clone()),
            None => None,
        }
    }

    /// The hot-key of every entry, each once, in no particular order.
    pub fn hotkeys(&self) -> (list: Vec<Shortcut>)
        ensures
            covers(hotkey_views(list@), self@),
            consistent(self@),
    {
        broadcast use vstd::std_specs::hash::group_hash_axioms;

        proof {
            use_type_invariant(self);
        }
        let ghost table = self@;
        let ghost all = vstd::std_specs::hash::spec_hash_map_iter(&self.entries).remaining();
        let mut list: Vec<Shortcut> = Vec::new();
        for entry in iter: self.entries.iter()
            invariant
                table == self@,
                consistent(table),
                iter.seq() == all,
                all.no_duplicates(),
                list@.len() == iter.index(),
                forall|j: int|
                    0 <= j < list@.len() ==> (#[trigger] list@[j])@.id == *all[j].0 && parse(
                        (*all[j].1)@,
                    ) == Ok::<ShortcutView, ParseFailure>(list@[j]@),
        {
            proof {
                let found = all[iter.index() as int];
                assert(self.entries@.contains_key(*found.0));
                assert(self.entries@[*found.0] == *found.1);
                assert(table.contains_key(*found.0) && table[*found.0] == (*found.1)@);
            }
            match parse_shortcut(entry.1.as_str()) {
                Ok(hotkey) => {
                    list.push(hotkey);
                },
                Err(_) => {
                    assert(false);
                },
            }
        }
        proof {
            let views = hotkey_views(list@);
            assert(self@.dom() =~= self.entries@.dom());
            assert(all.len() == self.entries@.dom().len());
            assert forall|i: int| 0 <= i < views.len() implies table.contains_key(
                #[trigger] views[i].id,
            ) && parse(table[views[i].id]) == Ok::<ShortcutView, ParseFailure>(
                views[i],
            ) by {
                assert(list@[i]@.id == *all[i].0);
                assert(self.entries@.contains_key(*all[i].0));
                assert(self.entries@[*all[i].0] == *all[i].1);
            }
            assert forall|i: int, j: int| 0 <= i < j < views.len() implies #[trigger] views[i].id
                != #[trigger] views[j].id by {
                assert(list@[i]@.id == *all[i].0);
                assert(list@[j]@.id == *all[j].0);
                assert(self.entries@.contains_key(*all[i].0));
                assert(self.entries@[*all[i].0] == *all[i].1);
                assert(self.entries@.contains_key(*all[j].0));
                assert(self.entries@[*all[j].0] == *all[j].1);
                if *all[i].0 == *all[j].0 {
                    assert(all[i] == all[j]);
                }
            }
            assert forall|id: u32| #[trigger] table.contains_key(id) implies exists|i: int|
                0 <= i < views.len() && #[trigger] views[i].id == id by {
                assert(self.entries@.contains_key(id));
                assert(all.contains((&id, &self.entries@[id])));
                let j = choose|j: int| 0 <= j < all.len() && all[j] == (&id, &self.entries@[id]);
                assert(list@[j]@.id == *all[j].0);
                assert(views[j].id == id);
            }
        }
        list
    }
}

/// Whether a shortcut is registered.
pub fn is_shortcut_registered(registry: &ShortcutRegistry, shortcut: &str) -> (b: bool)
    ensures
        b == registered(registry@, shortcut@),
{
    registry.contains(shortcut)
}

/// Decides on a request to register `shortcut`.
///
/// A shortcut that is registered already is refused with
/// `AlreadyRegistered`, and one that does not parse with a `ParseError`.
/// Otherwise the hot-key is to be registered with the operating system, and
/// once that has succeeded the registration is handed to
/// [`ShortcutRegistry::insert`]. The registry itself is not changed here.
pub fn register_shortcut(registry: &ShortcutRegistry, shortcut: &str) -> (r: Result<
    Registration,
    AppError,
>)
    ensures
        match r {
            Ok(registration) => {
                &&& !registered(registry@, shortcut@)
                &&& registration@.text == shortcut@
                &&& parse(shortcut@) == Ok::<ShortcutView, ParseFailure>(
                    registration@.hotkey,
                )
            },
            Err(e) => if registered(registry@, shortcut@) {
                e@ == already_registered(shortcut@)
            } else {
                parse(shortcut@) matches Err(f) && e@ == f.error()
            },
        },
{
    if registry.contains(shortcut) {
        return Err(
            AppError::new(
                ErrorKind::AlreadyRegistered,
                message("Shortcut ", shortcut, " is already registered"),
            ),
        );
    }
    match parse_shortcut(shortcut) {
        Ok(hotkey) => Ok(Registration { hotkey, text: String::from_str(shortcut) }),
        Err(e) => Err(e),
    }
}

/// Decides on a request to unregister `shortcut`.
///
/// A shortcut that is not registered is refused with `NotRegistered`.
/// Otherwise the hot-key is to be unregistered with the operating system,
/// and once that has succeeded its identifier is handed to
/// [`ShortcutRegistry::remove`]. The registry itself is not changed here.
pub fn unregister_shortcut(registry: &ShortcutRegistry, shortcut: &str) -> (r: Result<
    Shortcut,
    AppError,
>)
    ensures
        match r {
            Ok(hotkey) => {
                &&& registered(registry@, shortcut@)
                &&& parse(shortcut@) == Ok::<ShortcutView, ParseFailure>(hotkey@)
                &&& registry@.contains_key(hotkey@.id)
                &&& registry@[hotkey@.id] == shortcut@
                &&& !registered(registry@.remove(hotkey@.id), shortcut@)
            },
            Err(e) => !registered(registry@, shortcut@) && e@ == not_registered(shortcut@),
        },
{
    if !registry.contains(shortcut) {
        return Err(
            AppError::new(
                ErrorKind::NotRegistered,
                message("Shortcut ", shortcut, " is not registered"),
            ),
        );
    }
    proof {
        lemma_registered_once(registry@, shortcut@);
    }
    match parse_shortcut(shortcut) {
        Ok(hotkey) => Ok(hotkey),
        Err(e) => Err(e),
    }
}

/// A registered shortcut parses, is filed under the identifier of its
/// hot-key and nowhere else, and is gone once that entry is removed.
pub proof fn lemma_registered_once(table: Map<u32, Seq<char>>, shortcut: Seq<char>)
    requires
        consistent(table),
        registered(table, shortcut),
    ensures
        parse(shortcut) is Ok,
        table.contains_key(parse(shortcut)->Ok_0.id),
        table[parse(shortcut)->Ok_0.id] == shortcut,
        !registered(table.remove(parse(shortcut)->Ok_0.id), shortcut),
{
    let id = choose|id: u32| #[trigger] table.contains_key(id) && table[id] == shortcut;
    let rest = table.remove(id);
    assert forall|k: u32| #[trigger] rest.contains_key(k) implies rest[k] != shortcut by {
        assert(table.contains_key(k));
    }
}

/// Pauses the handling of shortcuts.
///
/// Does nothing and returns `false` with an empty list where handling is
/// paused already. Otherwise sets the pause flag and returns `true` with
/// the hot-key of every registered shortcut: they are to be unregistered
/// with the operating system. The registry keeps its entries, so that the
/// shortcuts can be brought back.
pub fn pause_shortcut_handling(flags: &mut HandlerFlags, registry: &ShortcutRegistry) -> (r: (
    bool,
    Vec<Shortcut>,
))
    ensures
        r.0 == !old(flags).paused,
        final(flags).paused,
        final(flags).suspended == old(flags).suspended,
        r.0 ==> covers(hotkey_views(r.1@), registry@),
        !r.0 ==> r.1@.len() == 0,
{
    if flags.paused {
        return (false, Vec::new());
    }
    flags.paused = true;
    (true, registry.hotkeys())
}

/// Resumes the handling of shortcuts.
///
/// Does nothing and returns `false` with an empty list where handling is
/// not paused. Otherwise clears the pause flag and returns `true` with the
/// hot-key of every registered shortcut: they are to be registered with the
/// operating system again.
pub fn resume_shortcut_handling(flags: &mut HandlerFlags, registry: &ShortcutRegistry) -> (r: (
    bool,
    Vec<Shortcut>,
))
    ensures
        r.0 == old(flags).paused,
        !final(flags).paused,
        final(flags).suspended == old(flags).suspended,
        r.0 ==> covers(hotkey_views(r.1@), registry@),
        !r.0 ==> r.1@.len() == 0,
{
    if !flags.paused {
        return (false, Vec::new());
    }
    flags.paused = false;
    (true, registry.hotkeys())
}

/// The identifiers of the hot-keys in a list.
pub open spec fn ids(hotkeys: Seq<ShortcutView>) -> Set<u32> {
    Set::new(|id: u32| exists|i: int| 0 <= i < hotkeys.len() && #[trigger] hotkeys[i].id == id)
}

/// Pausing and then resuming brings back exactly the hot-keys that the
/// operating system held before. Here `held` is the set of identifiers that
/// the operating system holds before the pause, which includes every
/// registered shortcut; `paused` is the list that the pause hands out, to be
/// unregistered, and `resumed` the list that the resumption hands out, to be
/// registered. The order within the lists does not matter.
pub proof fn lemma_pause_resume(
    held: Set<u32>,
    table: Map<u32, Seq<char>>,
    paused: Seq<ShortcutView>,
    resumed: Seq<ShortcutView>,
)
    requires
        table.dom().subset_of(held),
        covers(paused, table),
        covers(resumed, table),
    ensures
        ids(paused) == table.dom(),
        ids(resumed) == table.dom(),
        held.difference(ids(paused)).union(ids(resumed)) == held,
{
    assert(ids(paused) =~= table.dom());
    assert(ids(resumed) =~= table.dom());
    assert(held.difference(ids(paused)).union(ids(resumed)) =~= held);
}

} // verus!
