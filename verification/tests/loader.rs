use gl::{load_with, Callable, EntryPoint, FnPtr, NotLoaded, Registry, ENTRY_POINTS, SYMBOLS};
use std::cell::RefCell;

fn only_get_error(symbol: &str) -> Option<usize> {
    if symbol == "glGetError" {
        Some(0x7f00_1000)
    } else {
        None
    }
}

fn by_length(symbol: &str) -> Option<usize> {
    if symbol.len() % 2 == 0 {
        Some(0x4000 + symbol.len())
    } else {
        None
    }
}

#[test]
fn one_resolved_symbol_loads_one_entry_point() {
    let registry = load_with(only_get_error);
    assert!(registry.is_loaded(EntryPoint::GetError));
    assert_eq!(registry.resolve(EntryPoint::GetError), Ok(0x7f00_1000));
    assert!(!registry.is_loaded(EntryPoint::ClearColor));
    let failure = registry.resolve(EntryPoint::ClearColor).unwrap_err();
    assert_eq!(failure, NotLoaded { entry: EntryPoint::ClearColor });
    assert_eq!(failure.message(), "ClearColor was not loaded");
    let loaded = ENTRY_POINTS.iter().filter(|entry| registry.is_loaded(**entry)).count();
    assert_eq!(loaded, 1);
}

#[test]
fn fresh_registry_has_nothing_loaded() {
    let registry = Registry::new();
    for entry in ENTRY_POINTS.iter() {
        assert!(!registry.is_loaded(*entry));
        let slot = registry.slot(*entry);
        assert_eq!(slot.f, Callable::Failing(*entry));
        assert!(!slot.is_loaded);
        assert_eq!(registry.resolve(*entry), Err(NotLoaded { entry: *entry }));
    }
}

#[test]
fn resolver_that_finds_nothing_loads_nothing() {
    let registry = load_with(|_: &str| None);
    for entry in ENTRY_POINTS.iter() {
        assert!(!registry.is_loaded(*entry));
    }
}

#[test]
fn resolver_that_finds_everything_loads_everything() {
    let registry = load_with(|symbol: &str| Some(symbol.len()));
    for entry in ENTRY_POINTS.iter() {
        assert!(registry.is_loaded(*entry));
        assert_eq!(registry.resolve(*entry), Ok(entry.symbol().len()));
        let slot = registry.slot(*entry);
        assert_eq!(slot.f, Callable::Native(entry.symbol().len()));
        assert!(slot.is_loaded);
    }
}

#[test]
fn loading_twice_gives_the_same_status() {
    let once = load_with(by_length);
    let mut twice = load_with(by_length);
    twice.reload_with(&by_length);
    for entry in ENTRY_POINTS.iter() {
        assert_eq!(once.is_loaded(*entry), twice.is_loaded(*entry));
        assert_eq!(once.resolve(*entry), twice.resolve(*entry));
    }
}

#[test]
fn reloading_forgets_what_was_loaded_before() {
    let mut registry = load_with(|_: &str| Some(1));
    assert!(registry.is_loaded(EntryPoint::Clear));
    registry.reload_with(&only_get_error);
    assert!(!registry.is_loaded(EntryPoint::Clear));
    assert!(registry.is_loaded(EntryPoint::GetError));
    assert_eq!(registry.resolve(EntryPoint::GetError), Ok(0x7f00_1000));
}

#[test]
fn entries_are_loaded_independently() {
    let found_first = load_with(|symbol: &str| {
        if symbol == "glActiveShaderProgram" {
            Some(11)
        } else {
            None
        }
    });
    assert!(found_first.is_loaded(EntryPoint::ActiveShaderProgram));
    assert!(!found_first.is_loaded(EntryPoint::WaitSync));
    let found_last = load_with(|symbol: &str| {
        if symbol == "glWaitSync" {
            Some(12)
        } else {
            None
        }
    });
    assert!(!found_last.is_loaded(EntryPoint::ActiveShaderProgram));
    assert!(found_last.is_loaded(EntryPoint::WaitSync));
    assert_eq!(found_last.resolve(EntryPoint::WaitSync), Ok(12));
}

#[test]
fn status_follows_the_answer_for_every_entry_point() {
    let registry = load_with(by_length);
    for entry in ENTRY_POINTS.iter() {
        let answer = by_length(entry.symbol());
        assert_eq!(registry.is_loaded(*entry), answer.is_some());
        match answer {
            Some(address) => assert_eq!(registry.resolve(*entry), Ok(address)),
            None => assert_eq!(registry.resolve(*entry), Err(NotLoaded { entry: *entry })),
        }
    }
}

#[test]
fn resolver_is_asked_for_the_exact_symbols() {
    let asked: RefCell<Vec<String>> = RefCell::new(Vec::new());
    let registry = load_with(|symbol: &str| {
        asked.borrow_mut().push(symbol.to_string());
        None
    });
    assert!(!registry.is_loaded(EntryPoint::Uniform4fv));
    let asked = asked.into_inner();
    assert_eq!(asked.len(), 563);
    for (position, symbol) in asked.iter().enumerate() {
        assert_eq!(symbol, SYMBOLS[position]);
    }
    assert!(asked.iter().any(|symbol| symbol == "glUniform4fv"));
    assert!(!asked.iter().any(|symbol| symbol == "Uniform4fv"));
    assert!(!asked.iter().any(|symbol| symbol == "gluniform4fv"));
}

#[test]
fn loading_one_entry_asks_for_its_symbol_alone() {
    let asked: RefCell<Vec<String>> = RefCell::new(Vec::new());
    let resolver = |symbol: &str| {
        asked.borrow_mut().push(symbol.to_string());
        Some(99)
    };
    let mut registry = Registry::new();
    registry.load_entry_with(EntryPoint::DrawArrays, &resolver);
    assert_eq!(asked.into_inner(), vec!["glDrawArrays".to_string()]);
    for entry in ENTRY_POINTS.iter() {
        assert_eq!(registry.is_loaded(*entry), *entry == EntryPoint::DrawArrays);
    }
    assert_eq!(registry.resolve(EntryPoint::DrawArrays), Ok(99));
}

#[test]
fn store_changes_one_slot() {
    let mut registry = load_with(by_length);
    let before: Vec<Result<usize, NotLoaded>> =
        ENTRY_POINTS.iter().map(|entry| registry.resolve(*entry)).collect();
    registry.store(EntryPoint::Viewport, Some(5));
    assert_eq!(registry.resolve(EntryPoint::Viewport), Ok(5));
    registry.store(EntryPoint::Viewport, None);
    assert_eq!(
        registry.resolve(EntryPoint::Viewport),
        Err(NotLoaded { entry: EntryPoint::Viewport })
    );
    assert_eq!(registry.slot(EntryPoint::Viewport).f, Callable::Failing(EntryPoint::Viewport));
    for (position, entry) in ENTRY_POINTS.iter().enumerate() {
        if *entry != EntryPoint::Viewport {
            assert_eq!(registry.resolve(*entry), before[position]);
        }
    }
}

#[test]
fn zero_is_an_address_like_any_other() {
    let registry = load_with(|_: &str| Some(0));
    assert!(registry.is_loaded(EntryPoint::Flush));
    assert_eq!(registry.resolve(EntryPoint::Flush), Ok(0));
}

#[test]
fn slot_of_a_found_callable_is_loaded() {
    let slot = FnPtr::new(Some(3u8), 9u8);
    assert_eq!(slot.f, 3);
    assert!(slot.is_loaded);
}

#[test]
fn slot_without_a_callable_holds_the_stand_in() {
    let slot = FnPtr::new(None, 9u8);
    assert_eq!(slot.f, 9);
    assert!(!slot.is_loaded);
}
