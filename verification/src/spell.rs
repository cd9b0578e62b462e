//! Spell records and the policies attached to them.
//!
//! A spell binds a trigger name to a shell command and to a delivery policy.
//! Definitions arrive as [`SpellDef`] values read from a collection's index;
//! [`load_collections`] resolves them into the [`SpellRecord`]s the rest of the
//! library works with.

use vstd::prelude::*;

verus! {

/// How a spell's result is delivered.
#[derive(Clone, Copy, Debug, PartialEq, Eq, Structural)]
pub enum OutputMode {
    /// The output is discarded.
    Discard,
    /// The output is written to the clipboard.
    Clipboard,
    /// The output is shown in the tool's own window.
    Preview,
    /// The output is pasted into the previously focused window.
    Paste,
}

impl Default for OutputMode {
    fn default() -> (mode: Self)
        ensures
            mode == OutputMode::Paste,
    {
        OutputMode::Paste
    }
}

/// The optional `settings` block of a spell definition.
#[derive(Clone, Copy, Debug, PartialEq, Eq, Structural)]
pub struct SpellSettings {
    pub output_mode: OutputMode,
    pub stream_mode: bool,
}

/// A spell as written in a collection's index.
#[derive(Clone, Debug, PartialEq, Eq)]
pub struct SpellDef {
    pub trigger: String,
    pub description: Option<String>,
    pub entry_command: String,
    pub settings: Option<SpellSettings>,
}

/// One collection directory and what its index held, if it could be read.
#[derive(Clone, Debug, PartialEq, Eq)]
pub struct CollectionSource {
    /// The collection's directory, which becomes the working directory of its spells.
    pub directory: String,
    /// The definitions of the index, or `None` where the index was missing or malformed.
    pub spells: Option<Vec<SpellDef>>,
}

/// A resolved spell: every policy has a value.
#[derive(Clone, Debug, PartialEq, Eq)]
pub struct SpellRecord {
    pub trigger: String,
    pub description: Option<String>,
    pub working_directory: String,
    pub entry_command: String,
    pub output_mode: OutputMode,
    pub stream_mode: bool,
}

/// What a listing shows of a spell.
#[derive(Clone, Debug, PartialEq, Eq)]
pub struct SpellInfo {
    pub trigger: String,
    pub description: Option<String>,
}

/// The view of an optional string.
pub open spec fn text_of(s: Option<String>) -> Option<Seq<char>> {
    match s {
        Some(t) => Some(t@),
        None => None,
    }
}

pub struct SpellDefView {
    pub trigger: Seq<char>,
    pub description: Option<Seq<char>>,
    pub entry_command: Seq<char>,
    pub settings: Option<SpellSettings>,
}

impl View for SpellDef {
    type V = SpellDefView;

    open spec fn view(&self) -> SpellDefView {
        SpellDefView {
            trigger: self.trigger@,
            description: text_of(self.description),
            entry_command: self.entry_command@,
            settings: self.settings,
        }
    }
}

pub struct SpellRecordView {
    pub trigger: Seq<char>,
    pub description: Option<Seq<char>>,
    pub working_directory: Seq<char>,
    pub entry_command: Seq<char>,
    pub output_mode: OutputMode,
    pub stream_mode: bool,
}

impl View for SpellRecord {
    type V = SpellRecordView;

    open spec fn view(&self) -> SpellRecordView {
        SpellRecordView {
            trigger: self.trigger@,
            description: text_of(self.description),
            working_directory: self.working_directory@,
            entry_command: self.entry_command@,
            output_mode: self.output_mode,
            stream_mode: self.stream_mode,
        }
    }
}

pub struct SpellInfoView {
    pub trigger: Seq<char>,
    pub description: Option<Seq<char>>,
}

impl View for SpellInfo {
    type V = SpellInfoView;

    open spec fn view(&self) -> SpellInfoView {
        SpellInfoView { trigger: self.trigger@, description: text_of(self.description) }
    }
}

/// The output mode a definition resolves to: its own, or `Paste` without settings.
pub open spec fn resolved_output_mode(settings: Option<SpellSettings>) -> OutputMode {
    match settings {
        Some(s) => s.output_mode,
        None => OutputMode::Paste,
    }
}

/// The stream flag a definition resolves to: its own, or `false` without settings.
pub open spec fn resolved_stream_mode(settings: Option<SpellSettings>) -> bool {
    match settings {
        Some(s) => s.stream_mode,
        None => false,
    }
}

/// The record that a definition found in `directory` resolves to.
pub open spec fn resolve(def: SpellDefView, directory: Seq<char>) -> SpellRecordView {
    SpellRecordView {
        trigger: def.trigger,
        description: def.description,
        working_directory: directory,
        entry_command: def.entry_command,
        output_mode: resolved_output_mode(def.settings),
        stream_mode: resolved_stream_mode(def.settings),
    }
}

/// The listing entry of a record.
pub open spec fn info_of(record: SpellRecordView) -> SpellInfoView {
    SpellInfoView { trigger: record.trigger, description: record.description }
}

/// The records of one collection, in the order of its index. An unreadable index gives none.
pub open spec fn collection_records(source: CollectionSource) -> Seq<SpellRecordView> {
    match source.spells {
        Some(defs) => Seq::new(defs@.len(), |i: int| resolve(defs@[i]@, source.directory@)),
        None => Seq::empty(),
    }
}

/// The records of the first `n` collections, one collection after the other.
pub open spec fn loaded_records(sources: Seq<CollectionSource>, n: int) -> Seq<SpellRecordView>
    decreases n,
{
    if n <= 0 {
        Seq::empty()
    } else {
        loaded_records(sources, n - 1) + collection_records(sources[n - 1])
    }
}

/// The views of a vector of records, element by element.
pub open spec fn record_views(records: Seq<SpellRecord>) -> Seq<SpellRecordView> {
    Seq::new(records.len(), |i: int| records[i]@)
}

/// The views of a vector of listing entries, element by element.
pub open spec fn info_views(infos: Seq<SpellInfo>) -> Seq<SpellInfoView> {
    Seq::new(infos.len(), |i: int| infos[i]@)
}

/// A copy of an optional string.
pub fn copy_text(s: &Option<String>) -> (copy: Option<String>)
    ensures
        text_of(copy) == text_of(*s),
{
    match s {
        Some(t) => Some(t.clone()),
        None => None,
    }
}

impl SpellRecord {
    /// Resolves a definition found in `directory`, filling in the default policies.
    pub fn from_def(def: &SpellDef, directory: &str) -> (record: SpellRecord)
        ensures
            record@ == resolve(def@, directory@),
    {
        let output_mode = match def.settings {
            Some(s) => s.output_mode,
            None => OutputMode::default(),
        };
        let stream_mode = match def.settings {
            Some(s) => s.stream_mode,
            None => false,
        };
        SpellRecord {
            trigger: def.trigger.clone(),
            description: copy_text(&def.description),
            working_directory: directory.to_owned(),
            entry_command: def.entry_command.clone(),
            output_mode,
            stream_mode,
        }
    }

    /// The listing entry of this record.
    pub fn info(&self) -> (info: SpellInfo)
        ensures
            info@ == info_of(self@),
    {
        SpellInfo { trigger: self.trigger.clone(), description: copy_text(&self.description) }
    }
}

/// Resolves every definition of every readable collection, collection by
/// collection and in index order. Collections whose index could not be read
/// contribute nothing.
pub fn load_collections(sources: &Vec<CollectionSource>) -> (spells: Vec<SpellRecord>)
    ensures
        record_views(spells@) == loaded_records(sources@, sources@.len() as int),
{
    let mut spells: Vec<SpellRecord> = Vec::new();
    let mut c: usize = 0;
    while c < sources.len()
        invariant
            c <= sources@.len(),
            record_views(spells@) == loaded_records(sources@, c as int),
        decreases sources@.len() - c,
    {
        let source = &sources[c];
        let ghost before = record_views(spells@);
        match &source.spells {
            Some(defs) => {
                let mut d: usize = 0;
                while d < defs.len()
                    invariant
                        d <= defs@.len(),
                        source.spells == Some(*defs),
                        record_views(spells@) == before + collection_records(*source).take(
                            d as int,
                        ),
                    decreases defs@.len() - d,
                {
                    let record = SpellRecord::from_def(&defs[d], source.directory.as_str());
                    let ghost resolved = record_views(spells@);
                    spells.push(record);
                    assert(record_views(spells@) == resolved.push(record@));
                    assert(collection_records(*source).take(d + 1) == collection_records(
                        *source,
                    ).take(d as int).push(record@));
                    d = d + 1;
                }
                assert(collection_records(*source).take(d as int) == collection_records(*source));
            },
            None => {},
        }
        c = c + 1;
    }
    spells
}

} // verus!
