//! The registry of entry-point slots, and the loader that fills it.

use crate::entry::{EntryPoint, ENTRY_POINTS, ENTRY_POINT_COUNT};
use crate::slot::{slot_for, Callable, FnPtr};
use vstd::prelude::*;

verus! {

/// The failure of a call through a slot that holds no resolved address.
#[derive(Clone, Copy, Debug, PartialEq, Eq, Structural)]
pub struct NotLoaded {
    /// The entry point that was called and is not loaded.
    pub entry: EntryPoint,
}

impl NotLoaded {
    /// The text of this failure: the entry point's short name, followed by
    /// ` was not loaded`.
    pub open spec fn spec_message(self) -> Seq<char> {
        self.entry.spec_name()@ + " was not loaded"@
    }

    /// The text of this failure, which names the entry point.
    pub fn message(&self) -> (text: String)
        ensures
            text@ == self.spec_message(),
    {
        let mut text = String::from_str(self.entry.name());
        text.append(" was not loaded");
        text
    }
}

/// One slot per entry point. A slot is never empty: it holds the address that
/// was resolved for its entry point, or the stand-in that names the entry point.
///
/// A loader takes the registry by `&mut` and a reader by `&`, so no slot is
/// read while a loader writes. Whoever supplies the resolver answers for its
/// being called on the thread that loads.
#[derive(Debug)]
pub struct Registry {
    slots: Vec<FnPtr<Callable>>,
}

impl View for Registry {
    type V = Map<EntryPoint, Option<usize>>;

    /// For every entry point, the address that was resolved for it, if any.
    closed spec fn view(&self) -> Map<EntryPoint, Option<usize>> {
        Map::total(
            |entry: EntryPoint|
                match self.slots@[entry.spec_index()].f {
                    Callable::Native(address) => Some(address),
                    Callable::Failing(_) => None,
                },
        )
    }
}

impl Registry {
    /// There is one slot per entry point, and each is the slot of its own
    /// entry point: loaded exactly if it holds a native address, and a
    /// stand-in that names no other entry point.
    pub closed spec fn wf(&self) -> bool {
        &&& self.slots@.len() == ENTRY_POINT_COUNT
        &&& forall|entry: EntryPoint|
            self.slots@[#[trigger] entry.spec_index()] == slot_for(entry, self@[entry])
    }

    /// Whether the slot of `entry` holds a resolved address.
    pub open spec fn spec_is_loaded(&self, entry: EntryPoint) -> bool {
        self@[entry].is_some()
    }

    /// A registry in which nothing is resolved yet.
    pub fn new() -> (registry: Registry)
        ensures
            registry.wf(),
            forall|entry: EntryPoint| registry@[entry].is_none(),
    {
        let mut slots: Vec<FnPtr<Callable>> = Vec::new();
        let mut i: usize = 0;
        while i < ENTRY_POINT_COUNT
            invariant
                i <= ENTRY_POINT_COUNT,
                slots@.len() == i,
                forall|j: int|
                    0 <= j < i ==> slots@[j] == slot_for(#[trigger] ENTRY_POINTS[j], None),
            decreases ENTRY_POINT_COUNT - i,
        {
            slots.push(FnPtr::new(None, Callable::Failing(ENTRY_POINTS[i])));
            i += 1;
        }
        let registry = Registry { slots };
        proof {
            assert forall|entry: EntryPoint|
                registry.slots@[#[trigger] entry.spec_index()] == slot_for(
                    entry,
                    registry@[entry],
                ) && registry@[entry].is_none() by {
                entry.lemma_listed();
            }
        }
        registry
    }

    /// The slot of `entry`.
    pub fn slot(&self, entry: EntryPoint) -> (slot: FnPtr<Callable>)
        requires
            self.wf(),
        ensures
            slot == slot_for(entry, self@[entry]),
    {
        self.slots[entry.index()]
    }

    /// Whether the slot of `entry` holds a resolved address.
    pub fn is_loaded(&self, entry: EntryPoint) -> (loaded: bool)
        requires
            self.wf(),
        ensures
            loaded == self.spec_is_loaded(entry),
    {
        self.slots[entry.index()].is_loaded
    }

    /// The address to call for `entry`: the one that was resolved for it, or
    /// else the failure that names `entry` as not loaded.
    pub open spec fn spec_resolve(&self, entry: EntryPoint) -> Result<usize, NotLoaded> {
        match self@[entry] {
            Some(address) => Ok(address),
            None => Err(NotLoaded { entry }),
        }
    }

    /// The address to call for `entry`: the one that was resolved for it, or
    /// else the failure that names `entry` as not loaded.
    pub fn resolve(&self, entry: EntryPoint) -> (target: Result<usize, NotLoaded>)
        requires
            self.wf(),
        ensures
            target == self.spec_resolve(entry),
    {
        match self.slots[entry.index()].f {
            Callable::Native(address) => Ok(address),
            Callable::Failing(missing) => Err(NotLoaded { entry: missing }),
        }
    }

    /// Puts into the slot of `entry` what a resolver answered for it, and
    /// leaves every other slot as it is.
    pub fn store(&mut self, entry: EntryPoint, answer: Option<usize>)
        requires
            old(self).wf(),
        ensures
            final(self).wf(),
            final(self)@ == old(self)@.insert(entry, answer),
    {
        let native = match answer {
            Some(address) => Some(Callable::Native(address)),
            None => None,
        };
        let slot = FnPtr::new(native, Callable::Failing(entry));
        self.slots.set(entry.index(), slot);
        proof {
            assert forall|other: EntryPoint|
                self.slots@[#[trigger] other.spec_index()] == slot_for(other, self@[other])
                && self@[other] == old(self)@.insert(entry, answer)[other] by {
                if other != entry {
                    if other.spec_index() == entry.spec_index() {
                        EntryPoint::lemma_index_injective(other, entry);
                    }
                }
            }
            assert(self@ =~= old(self)@.insert(entry, answer));
        }
    }

    /// Every slot holds an answer that `loadfn` gives when it is asked for
    /// the slot's entry point by its symbol.
    pub open spec fn loaded_by<F: Fn(&str) -> Option<usize>>(&self, loadfn: F) -> bool {
        forall|entry: EntryPoint|
            call_ensures(loadfn, (entry.spec_symbol(),), #[trigger] self@[entry])
    }

    /// Asks `loadfn` for `entry` by its symbol and stores the answer
    /// in the slot of `entry`. Every other slot stays as it is.
    pub fn load_entry_with<F: Fn(&str) -> Option<usize>>(&mut self, entry: EntryPoint, loadfn: &F)
        requires
            old(self).wf(),
            call_requires(*loadfn, (entry.spec_symbol(),)),
        ensures
            final(self).wf(),
            call_ensures(*loadfn, (entry.spec_symbol(),), final(self)@[entry]),
            final(self)@ == old(self)@.insert(entry, final(self)@[entry]),
    {
        let answer = loadfn(entry.symbol());
        self.store(entry, answer);
    }

    /// Asks `loadfn` for every entry point and stores each answer in the
    /// entry point's slot. What the slots held before is forgotten.
    pub fn reload_with<F: Fn(&str) -> Option<usize>>(&mut self, loadfn: &F)
        requires
            old(self).wf(),
            accepts_every_symbol(*loadfn),
        ensures
            final(self).wf(),
            final(self).loaded_by(*loadfn),
    {
        let mut i: usize = 0;
        while i < ENTRY_POINT_COUNT
            invariant
                i <= ENTRY_POINT_COUNT,
                self.wf(),
                accepts_every_symbol(*loadfn),
                forall|j: int|
                    0 <= j < i ==> call_ensures(
                        *loadfn,
                        (ENTRY_POINTS[j].spec_symbol(),),
                        #[trigger] self@[ENTRY_POINTS[j]],
                    ),
            decreases ENTRY_POINT_COUNT - i,
        {
            let entry = ENTRY_POINTS[i];
            self.load_entry_with(entry, loadfn);
            i += 1;
        }
        proof {
            assert forall|entry: EntryPoint|
                call_ensures(*loadfn, (entry.spec_symbol(),), #[trigger] self@[entry]) by {
                entry.lemma_listed();
            }
        }
    }
}

/// `loadfn` may be asked for every entry point's symbol.
pub open spec fn accepts_every_symbol<F: Fn(&str) -> Option<usize>>(loadfn: F) -> bool {
    forall|entry: EntryPoint| call_requires(loadfn, (#[trigger] entry.spec_symbol(),))
}

/// Resolves every entry point with `loadfn`. It is asked for each entry point
/// by the entry point's symbol, and what it answers decides that
/// entry point's slot and no other. Nothing is asked of `loadfn` but that it
/// can be called with those symbols.
pub fn load_with<F: Fn(&str) -> Option<usize>>(loadfn: F) -> (registry: Registry)
    requires
        accepts_every_symbol(loadfn),
    ensures
        registry.wf(),
        registry.loaded_by(loadfn),
{
    let mut registry = Registry::new();
    registry.reload_with(&loadfn);
    registry
}

} // verus!
