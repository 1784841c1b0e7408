use gl::{EntryPoint, NotLoaded, ENTRY_POINTS, ENTRY_POINT_COUNT, NAMES, SYMBOLS};

#[test]
fn there_are_563_entry_points() {
    assert_eq!(ENTRY_POINT_COUNT, 563);
    assert_eq!(ENTRY_POINTS.len(), 563);
    assert_eq!(NAMES.len(), 563);
    assert_eq!(SYMBOLS.len(), 563);
}

#[test]
fn every_entry_point_stands_at_its_index() {
    for (position, entry) in ENTRY_POINTS.iter().enumerate() {
        assert_eq!(entry.index(), position);
        assert_eq!(ENTRY_POINTS[entry.index()], *entry);
    }
    assert_eq!(EntryPoint::ActiveShaderProgram.index(), 0);
    assert_eq!(EntryPoint::WaitSync.index(), 562);
}

#[test]
fn names_are_the_variants() {
    assert_eq!(EntryPoint::GetError.name(), "GetError");
    assert_eq!(EntryPoint::ClearColor.name(), "ClearColor");
    assert_eq!(EntryPoint::GetInteger64i_v.name(), "GetInteger64i_v");
    for entry in ENTRY_POINTS.iter() {
        assert_eq!(entry.name(), format!("{:?}", entry));
        assert_eq!(entry.name(), NAMES[entry.index()]);
    }
}

#[test]
fn symbols_are_the_prefixed_names() {
    assert_eq!(EntryPoint::GetError.symbol(), "glGetError");
    assert_eq!(EntryPoint::Uniform4fv.symbol(), "glUniform4fv");
    assert_eq!(EntryPoint::DrawArrays.symbol(), "glDrawArrays");
    for entry in ENTRY_POINTS.iter() {
        assert_eq!(entry.symbol(), format!("gl{}", entry.name()));
        assert_eq!(entry.symbol(), SYMBOLS[entry.index()]);
        assert!(entry.symbol().is_ascii());
    }
}

#[test]
fn no_two_entry_points_share_a_symbol() {
    let mut symbols: Vec<&str> = SYMBOLS.to_vec();
    symbols.sort();
    symbols.dedup();
    assert_eq!(symbols.len(), 563);
}

#[test]
fn failure_names_the_entry_point() {
    assert_eq!(
        NotLoaded { entry: EntryPoint::ActiveShaderProgram }.message(),
        "ActiveShaderProgram was not loaded"
    );
    assert_eq!(NotLoaded { entry: EntryPoint::Clear }.message(), "Clear was not loaded");
    for entry in ENTRY_POINTS.iter() {
        let text = NotLoaded { entry: *entry }.message();
        assert_eq!(text, format!("{} was not loaded", entry.name()));
    }
}

#[test]
fn names_stand_in_dictionary_order() {
    for position in 1..NAMES.len() {
        assert!(NAMES[position - 1] < NAMES[position]);
    }
    assert!(EntryPoint::Uniform1f.name() < EntryPoint::Uniform1fv.name());
    assert!(EntryPoint::GetError.name() < EntryPoint::GetFloatv.name());
}

#[test]
fn no_two_failures_share_a_text() {
    let mut texts: Vec<String> =
        ENTRY_POINTS.iter().map(|entry| NotLoaded { entry: *entry }.message()).collect();
    texts.sort();
    texts.dedup();
    assert_eq!(texts.len(), 563);
}
