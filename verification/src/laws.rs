//! What holds of every registry that a resolver has filled.

use crate::entry::EntryPoint;
use crate::registry::{NotLoaded, Registry};
use vstd::prelude::*;

verus! {

/// Whenever `loadfn` is asked for one symbol, it finds it every time
/// or never.
pub open spec fn finds_consistently<F: Fn(&str) -> Option<usize>>(loadfn: F) -> bool {
    forall|entry: EntryPoint, first: Option<usize>, second: Option<usize>|
        #![trigger
            call_ensures(loadfn, (entry.spec_symbol(),), first),
            call_ensures(loadfn, (entry.spec_symbol(),), second)
        ]
        call_ensures(loadfn, (entry.spec_symbol(),), first) && call_ensures(
            loadfn,
            (entry.spec_symbol(),),
            second,
        ) ==> first.is_some() == second.is_some()
}

/// Whenever `loadfn` is asked for one symbol, it gives the same answer.
pub open spec fn answers_uniquely<F: Fn(&str) -> Option<usize>>(loadfn: F) -> bool {
    forall|entry: EntryPoint, first: Option<usize>, second: Option<usize>|
        #![trigger
            call_ensures(loadfn, (entry.spec_symbol(),), first),
            call_ensures(loadfn, (entry.spec_symbol(),), second)
        ]
        call_ensures(loadfn, (entry.spec_symbol(),), first) && call_ensures(
            loadfn,
            (entry.spec_symbol(),),
            second,
        ) ==> first == second
}

/// Loading again changes no status. Let `once` be a registry that `loadfn`
/// has filled, and `again` what any registry becomes when `loadfn` fills it
/// once more. If `loadfn` finds consistently, the same entry points are
/// loaded in both.
pub proof fn lemma_reload_keeps_status<F: Fn(&str) -> Option<usize>>(
    loadfn: F,
    once: Registry,
    again: Registry,
)
    requires
        finds_consistently(loadfn),
        once.loaded_by(loadfn),
        again.loaded_by(loadfn),
    ensures
        forall|entry: EntryPoint| once.spec_is_loaded(entry) == again.spec_is_loaded(entry),
{
    assert forall|entry: EntryPoint| once.spec_is_loaded(entry) == again.spec_is_loaded(
        entry,
    ) by {
        assert(call_ensures(loadfn, (entry.spec_symbol(),), once@[entry]));
        assert(call_ensures(loadfn, (entry.spec_symbol(),), again@[entry]));
    }
}

/// Loading again changes no address either, where `loadfn` gives one answer
/// for each symbol: two registries that it has filled resolve every
/// entry point alike.
pub proof fn lemma_reload_keeps_addresses<F: Fn(&str) -> Option<usize>>(
    loadfn: F,
    once: Registry,
    again: Registry,
)
    requires
        answers_uniquely(loadfn),
        once.loaded_by(loadfn),
        again.loaded_by(loadfn),
    ensures
        forall|entry: EntryPoint| once@[entry] == again@[entry],
{
    assert forall|entry: EntryPoint| once@[entry] == again@[entry] by {
        assert(call_ensures(loadfn, (entry.spec_symbol(),), once@[entry]));
        assert(call_ensures(loadfn, (entry.spec_symbol(),), again@[entry]));
    }
}

/// Each slot depends on the answer for its own entry point alone. If `loadfn`
/// always finds `found` and never finds `missing`, then in a registry that it
/// has filled `found` is loaded and `missing` is not, whatever it answers for
/// the other entry points and wherever the two stand in the list.
pub proof fn lemma_entries_are_independent<F: Fn(&str) -> Option<usize>>(
    loadfn: F,
    registry: Registry,
    found: EntryPoint,
    missing: EntryPoint,
)
    requires
        registry.loaded_by(loadfn),
        forall|answer: Option<usize>|
            call_ensures(loadfn, (found.spec_symbol(),), answer) ==> answer.is_some(),
        forall|answer: Option<usize>|
            call_ensures(loadfn, (missing.spec_symbol(),), answer) ==> answer.is_none(),
    ensures
        registry.spec_is_loaded(found),
        !registry.spec_is_loaded(missing),
{
    assert(call_ensures(loadfn, (found.spec_symbol(),), registry@[found]));
    assert(call_ensures(loadfn, (missing.spec_symbol(),), registry@[missing]));
}

/// A call through a slot that is not loaded fails, and the failure names the
/// entry point that was called: its text is the entry point's short name
/// followed by ` was not loaded`.
pub proof fn lemma_unresolved_call_names_entry(registry: Registry, entry: EntryPoint)
    requires
        !registry.spec_is_loaded(entry),
    ensures
        registry.spec_resolve(entry) is Err,
        registry.spec_resolve(entry)->Err_0.entry == entry,
        registry.spec_resolve(entry)->Err_0.spec_message() == entry.spec_name()@
            + " was not loaded"@,
{
}

/// A call through a loaded slot goes to the address that `loadfn` gave for
/// the entry point's symbol, unchanged.
pub proof fn lemma_resolved_call_goes_to_answer<F: Fn(&str) -> Option<usize>>(
    loadfn: F,
    registry: Registry,
    entry: EntryPoint,
    address: usize,
)
    requires
        registry.loaded_by(loadfn),
        forall|answer: Option<usize>|
            call_ensures(loadfn, (entry.spec_symbol(),), answer) ==> answer == Some(address),
    ensures
        registry.spec_resolve(entry) == Ok::<usize, NotLoaded>(address),
{
    assert(call_ensures(loadfn, (entry.spec_symbol(),), registry@[entry]));
}

} // verus!
