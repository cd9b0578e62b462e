use spellpaste::registry::SpellRegistry;
use spellpaste::spell::{
    load_collections, CollectionSource, OutputMode, SpellDef, SpellInfo, SpellRecord, SpellSettings,
};

fn def(trigger: &str, description: Option<&str>, command: &str, settings: Option<SpellSettings>) -> SpellDef {
    SpellDef {
        trigger: trigger.to_string(),
        description: description.map(|d| d.to_string()),
        entry_command: command.to_string(),
        settings,
    }
}

fn record(trigger: &str, description: Option<&str>, dir: &str, command: &str) -> SpellRecord {
    SpellRecord {
        trigger: trigger.to_string(),
        description: description.map(|d| d.to_string()),
        working_directory: dir.to_string(),
        entry_command: command.to_string(),
        output_mode: OutputMode::Paste,
        stream_mode: false,
    }
}

#[test]
fn output_mode_defaults_to_paste() {
    assert_eq!(OutputMode::default(), OutputMode::Paste);
}

#[test]
fn definition_without_settings_gets_defaults() {
    let d = def("hello", Some("Generate \"Hello, World!\""), "echo Hello, World!", None);
    let r = SpellRecord::from_def(&d, "/home/u/.spellpaste/collections/hello");
    assert_eq!(
        r,
        record(
            "hello",
            Some("Generate \"Hello, World!\""),
            "/home/u/.spellpaste/collections/hello",
            "echo Hello, World!"
        )
    );
}

#[test]
fn definition_with_settings_keeps_them() {
    let d = def(
        "up",
        None,
        "tr a-z A-Z",
        Some(SpellSettings { output_mode: OutputMode::Preview, stream_mode: true }),
    );
    let r = SpellRecord::from_def(&d, "dir");
    assert_eq!(r.output_mode, OutputMode::Preview);
    assert!(r.stream_mode);
    assert_eq!(r.description, None);
    assert_eq!(r.entry_command, "tr a-z A-Z");
    assert_eq!(r.working_directory, "dir");
}

#[test]
fn collections_are_loaded_in_order_and_unreadable_ones_skipped() {
    let sources = vec![
        CollectionSource {
            directory: "c1".to_string(),
            spells: Some(vec![def("a", None, "cmd-a", None), def("b", Some("bee"), "cmd-b", None)]),
        },
        CollectionSource { directory: "broken".to_string(), spells: None },
        CollectionSource { directory: "empty".to_string(), spells: Some(Vec::new()) },
        CollectionSource {
            directory: "c2".to_string(),
            spells: Some(vec![def(
                "c",
                None,
                "cmd-c",
                Some(SpellSettings { output_mode: OutputMode::Discard, stream_mode: false }),
            )]),
        },
    ];
    let spells = load_collections(&sources);
    let mut third = record("c", None, "c2", "cmd-c");
    third.output_mode = OutputMode::Discard;
    assert_eq!(
        spells,
        vec![record("a", None, "c1", "cmd-a"), record("b", Some("bee"), "c1", "cmd-b"), third]
    );
}

#[test]
fn no_collections_no_spells() {
    assert!(load_collections(&Vec::new()).is_empty());
}

#[test]
fn lookup_finds_by_exact_trigger() {
    let registry = SpellRegistry::new(vec![
        record("one", None, "d", "cmd-1"),
        record("two", None, "d", "cmd-2"),
        record("three", None, "d", "cmd-3"),
    ]);
    assert_eq!(registry.len(), 3);
    assert_eq!(registry.lookup("two"), Some(&record("two", None, "d", "cmd-2")));
    assert_eq!(registry.lookup("three").unwrap().entry_command, "cmd-3");
    assert_eq!(registry.lookup("Two"), None);
    assert_eq!(registry.lookup("tw"), None);
    assert_eq!(registry.lookup(""), None);
}

#[test]
fn lookup_prefers_first_of_duplicate_triggers() {
    let registry =
        SpellRegistry::new(vec![record("dup", None, "first", "cmd-1"), record("dup", None, "second", "cmd-2")]);
    assert_eq!(registry.lookup("dup").unwrap().working_directory, "first");
}

#[test]
fn listing_shows_trigger_and_description_in_load_order() {
    let registry = SpellRegistry::new(vec![
        record("b", Some("second letter"), "d", "cmd-b"),
        record("a", None, "d", "cmd-a"),
    ]);
    assert_eq!(
        registry.get_spells(),
        vec![
            SpellInfo { trigger: "b".to_string(), description: Some("second letter".to_string()) },
            SpellInfo { trigger: "a".to_string(), description: None },
        ]
    );
}

#[test]
fn refresh_replaces_the_whole_registry() {
    let old: Vec<SpellRecord> = (0..5).map(|i| record(&format!("old{i}"), None, "d", "c")).collect();
    let new: Vec<SpellRecord> = (0..3).map(|i| record(&format!("new{i}"), None, "d", "c")).collect();
    let mut registry = SpellRegistry::new(old);
    let before: Vec<String> = registry.get_spells().into_iter().map(|s| s.trigger).collect();
    assert_eq!(before, vec!["old0", "old1", "old2", "old3", "old4"]);
    registry.refresh_spells(new);
    let after: Vec<String> = registry.get_spells().into_iter().map(|s| s.trigger).collect();
    assert_eq!(after, vec!["new0", "new1", "new2"]);
    assert_eq!(registry.len(), 3);
    assert_eq!(registry.lookup("old0"), None);
    assert!(registry.lookup("new2").is_some());
}

#[test]
fn refresh_to_empty_leaves_nothing() {
    let mut registry = SpellRegistry::new(vec![record("x", None, "d", "c")]);
    registry.refresh_spells(Vec::new());
    assert_eq!(registry.len(), 0);
    assert!(registry.get_spells().is_empty());
}

#[test]
fn record_info_shows_trigger_and_description() {
    let r = record("t", Some("desc"), "dir", "cmd");
    assert_eq!(r.info(), SpellInfo { trigger: "t".to_string(), description: Some("desc".to_string()) });
    assert_eq!(record("u", None, "dir", "cmd").info(), SpellInfo { trigger: "u".to_string(), description: None });
}
