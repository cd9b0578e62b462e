//! Output dispatch: from a spell's policies to what is done with its output.
//!
//! An invocation is decided in two steps. [`apply_spell`] looks the trigger up
//! and either settles everything at once (the streaming behaviours, which
//! deliver in the background) or asks for the command to be run to completion.
//! In the second case [`complete_spell`] takes what the run produced and says
//! how it is delivered. Both answer with a list of [`Effect`]s, to be performed
//! in order, and with the [`SpellResult`] to report.

use crate::error::{SpellError, SpellErrorView};
use crate::registry::{find_spell, SpellRegistry};
use crate::runner::{execute_spell, trim_line_feeds, utf8_lossy, without_trailing};
use crate::spell::{OutputMode, SpellRecordView};
use vstd::prelude::*;

verus! {

/// How long the focus transition is given to finish before synthetic input
/// is sent, in milliseconds.
pub const SETTLE_DELAY_MS: u64 = 50;

/// What an invocation reports to its caller.
#[derive(Clone, Debug, PartialEq, Eq)]
pub enum SpellResult {
    /// The spell is delivered, or its delivery continues in the background.
    Done,
    /// The whole output, for the caller to display in place.
    Preview { content: String },
    /// Streaming into the preview has started; chunks and the end of the
    /// stream are signalled separately.
    Stream,
}

pub enum SpellResultView {
    Done,
    Preview { content: Seq<char> },
    Stream,
}

impl View for SpellResult {
    type V = SpellResultView;

    open spec fn view(&self) -> SpellResultView {
        match *self {
            SpellResult::Done => SpellResultView::Done,
            SpellResult::Preview { content } => SpellResultView::Preview { content: content@ },
            SpellResult::Stream => SpellResultView::Stream,
        }
    }
}

/// A command to run: where, and with what on its standard input.
#[derive(Clone, Debug, PartialEq, Eq)]
pub struct ProcessRequest {
    pub entry_command: String,
    pub working_directory: String,
    pub input: String,
}

pub struct ProcessRequestView {
    pub entry_command: Seq<char>,
    pub working_directory: Seq<char>,
    pub input: Seq<char>,
}

impl View for ProcessRequest {
    type V = ProcessRequestView;

    open spec fn view(&self) -> ProcessRequestView {
        ProcessRequestView {
            entry_command: self.entry_command@,
            working_directory: self.working_directory@,
            input: self.input@,
        }
    }
}

/// One thing to do to the user's desktop.
#[derive(Clone, Debug, PartialEq, Eq)]
pub enum Effect {
    /// Hide the tool's window.
    HideWindow,
    /// Bring the remembered window back to the foreground.
    RestoreFocus,
    /// Wait for `millis` milliseconds.
    Settle { millis: u64 },
    /// Put `text` on the clipboard.
    SetClipboard { text: String },
    /// Send the paste gesture to the focused window.
    PasteGesture,
    /// Start the command in the background and publish its batched output to
    /// the preview, ending with the end-of-stream signal.
    StartPreviewStream { request: ProcessRequest },
    /// Start the command in the background and type its batched output into
    /// the focused window.
    StartTypeStream { request: ProcessRequest },
}

pub enum EffectView {
    HideWindow,
    RestoreFocus,
    Settle { millis: u64 },
    SetClipboard { text: Seq<char> },
    PasteGesture,
    StartPreviewStream { request: ProcessRequestView },
    StartTypeStream { request: ProcessRequestView },
}

impl View for Effect {
    type V = EffectView;

    open spec fn view(&self) -> EffectView {
        match *self {
            Effect::HideWindow => EffectView::HideWindow,
            Effect::RestoreFocus => EffectView::RestoreFocus,
            Effect::Settle { millis } => EffectView::Settle { millis },
            Effect::SetClipboard { text } => EffectView::SetClipboard { text: text@ },
            Effect::PasteGesture => EffectView::PasteGesture,
            Effect::StartPreviewStream { request } => EffectView::StartPreviewStream {
                request: request@,
            },
            Effect::StartTypeStream { request } => EffectView::StartTypeStream {
                request: request@,
            },
        }
    }
}

/// The views of a vector of effects, element by element.
pub open spec fn effect_views(effects: Seq<Effect>) -> Seq<EffectView> {
    Seq::new(effects.len(), |i: int| effects[i]@)
}

/// Effects to perform in order, and the result to report once they are done.
#[derive(Clone, Debug, PartialEq, Eq)]
pub struct Delivery {
    pub effects: Vec<Effect>,
    pub result: SpellResult,
}

pub struct DeliveryView {
    pub effects: Seq<EffectView>,
    pub result: SpellResultView,
}

impl View for Delivery {
    type V = DeliveryView;

    open spec fn view(&self) -> DeliveryView {
        DeliveryView { effects: effect_views(self.effects@), result: self.result@ }
    }
}

/// What [`apply_spell`] decides for a registered trigger.
#[derive(Clone, Debug, PartialEq, Eq)]
pub enum Invocation {
    /// Nothing is waited for: perform the effects and report the result.
    Deliver { delivery: Delivery },
    /// Run the request to completion and hand what it produced, with this
    /// output mode, to [`complete_spell`].
    Run { request: ProcessRequest, output_mode: OutputMode },
}

pub enum InvocationView {
    Deliver { delivery: DeliveryView },
    Run { request: ProcessRequestView, output_mode: OutputMode },
}

impl View for Invocation {
    type V = InvocationView;

    open spec fn view(&self) -> InvocationView {
        match *self {
            Invocation::Deliver { delivery } => InvocationView::Deliver { delivery: delivery@ },
            Invocation::Run { request, output_mode } => InvocationView::Run {
                request: request@,
                output_mode,
            },
        }
    }
}

/// The ways a spell is carried out.
#[derive(Clone, Copy, Debug, PartialEq, Eq, Structural)]
pub enum Behavior {
    /// Stream the output into the preview.
    PreviewStream,
    /// Stream the output as keystrokes into the previously focused window.
    TypeStream,
    /// Run to completion and drop the output.
    RunDiscard,
    /// Run to completion and put the output on the clipboard.
    RunClipboard,
    /// Run to completion and hand the output back for display.
    RunPreview,
    /// Run to completion and paste the output.
    RunPaste,
}

/// The behaviour chosen for an output mode and stream flag. Only previews and
/// pastes stream; the other modes run to completion whatever the flag says.
pub open spec fn behavior_of(output_mode: OutputMode, stream_mode: bool) -> Behavior {
    match output_mode {
        OutputMode::Preview => if stream_mode {
            Behavior::PreviewStream
        } else {
            Behavior::RunPreview
        },
        OutputMode::Paste => if stream_mode {
            Behavior::TypeStream
        } else {
            Behavior::RunPaste
        },
        OutputMode::Discard => Behavior::RunDiscard,
        OutputMode::Clipboard => Behavior::RunClipboard,
    }
}

/// The request that runs `record`'s command on `selection`.
pub open spec fn request_of(record: SpellRecordView, selection: Seq<char>) -> ProcessRequestView {
    ProcessRequestView {
        entry_command: record.entry_command,
        working_directory: record.working_directory,
        input: selection,
    }
}

/// What is decided for `record` when invoked with `selection`.
pub open spec fn invocation_of(record: SpellRecordView, selection: Seq<char>) -> InvocationView {
    let request = request_of(record, selection);
    match behavior_of(record.output_mode, record.stream_mode) {
        Behavior::PreviewStream => InvocationView::Deliver {
            delivery: DeliveryView {
                effects: seq![EffectView::StartPreviewStream { request }],
                result: SpellResultView::Stream,
            },
        },
        Behavior::TypeStream => InvocationView::Deliver {
            delivery: DeliveryView {
                effects: seq![
                    EffectView::HideWindow,
                    EffectView::RestoreFocus,
                    EffectView::Settle { millis: SETTLE_DELAY_MS },
                    EffectView::StartTypeStream { request },
                ],
                result: SpellResultView::Done,
            },
        },
        _ => InvocationView::Run { request, output_mode: record.output_mode },
    }
}

/// How the whole `output` of a finished run is delivered under `output_mode`.
pub open spec fn delivery_of(output_mode: OutputMode, output: Seq<char>) -> DeliveryView {
    match output_mode {
        OutputMode::Discard => DeliveryView {
            effects: seq![EffectView::HideWindow, EffectView::RestoreFocus],
            result: SpellResultView::Done,
        },
        OutputMode::Clipboard => DeliveryView {
            effects: seq![
                EffectView::SetClipboard { text: without_trailing(output, '\n') },
                EffectView::HideWindow,
                EffectView::RestoreFocus,
            ],
            result: SpellResultView::Done,
        },
        OutputMode::Preview => DeliveryView {
            effects: seq![],
            result: SpellResultView::Preview { content: output },
        },
        OutputMode::Paste => DeliveryView {
            effects: seq![
                EffectView::SetClipboard { text: without_trailing(output, '\n') },
                EffectView::HideWindow,
                EffectView::RestoreFocus,
                EffectView::Settle { millis: SETTLE_DELAY_MS },
                EffectView::PasteGesture,
            ],
            result: SpellResultView::Done,
        },
    }
}

/// Whether an effect sends synthetic input to the focused window.
pub open spec fn is_synthetic_input(effect: EffectView) -> bool {
    effect is PasteGesture || effect is StartTypeStream
}

/// Whether, before position `k`, the window was hidden, then the focus
/// restored, then a settle delay of at least the required length waited for.
pub open spec fn focus_settled_before(effects: Seq<EffectView>, k: int) -> bool {
    exists|h: int, r: int, s: int|
        {
            &&& 0 <= h < r < s < k <= effects.len()
            &&& #[trigger] effects[h] is HideWindow
            &&& #[trigger] effects[r] is RestoreFocus
            &&& #[trigger] effects[s] matches EffectView::Settle { millis }
            &&& millis >= SETTLE_DELAY_MS
        }
}

/// Whether every synthetic input in `effects` comes after hide, restore and
/// settle, in that order, and every restore after a hide.
pub open spec fn focus_before_input(effects: Seq<EffectView>) -> bool {
    &&& forall|k: int|
        0 <= k < effects.len() && is_synthetic_input(#[trigger] effects[k])
            ==> focus_settled_before(effects, k)
    &&& forall|r: int|
        0 <= r < effects.len() && #[trigger] effects[r] is RestoreFocus ==> exists|h: int|
            0 <= h < r && #[trigger] effects[h] is HideWindow
}

/// Chooses the behaviour for an output mode and stream flag.
pub fn select_behavior(output_mode: OutputMode, stream_mode: bool) -> (behavior: Behavior)
    ensures
        behavior == behavior_of(output_mode, stream_mode),
{
    match output_mode {
        OutputMode::Preview => if stream_mode {
            Behavior::PreviewStream
        } else {
            Behavior::RunPreview
        },
        OutputMode::Paste => if stream_mode {
            Behavior::TypeStream
        } else {
            Behavior::RunPaste
        },
        OutputMode::Discard => Behavior::RunDiscard,
        OutputMode::Clipboard => Behavior::RunClipboard,
    }
}

/// Decides what invoking `trigger` with the captured `selection` does.
///
/// An unregistered trigger fails with `NotFound` and decides nothing else: no
/// effect, no process. A streaming preview starts its stream and reports
/// `Stream`. A streaming paste hides the window, restores the focus, settles,
/// starts typing and reports `Done`. Every other spell is to be run to
/// completion first.
pub fn apply_spell(registry: &SpellRegistry, trigger: &str, selection: &str) -> (outcome: Result<
    Invocation,
    SpellError,
>)
    ensures
        match find_spell(registry@, trigger@) {
            Some(record) => outcome matches Ok(invocation) && invocation@ == invocation_of(
                record,
                selection@,
            ),
            None => outcome matches Err(error) && error@ == (SpellErrorView::NotFound {
                trigger: trigger@,
            }),
        },
{
    let spell = match registry.lookup(trigger) {
        Some(spell) => spell,
        None => {
            return Err(SpellError::NotFound { trigger: trigger.to_owned() });
        },
    };
    let request = ProcessRequest {
        entry_command: spell.entry_command.clone(),
        working_directory: spell.working_directory.clone(),
        input: selection.to_owned(),
    };
    match select_behavior(spell.output_mode, spell.stream_mode) {
        Behavior::PreviewStream => {
            let mut effects: Vec<Effect> = Vec::new();
            effects.push(Effect::StartPreviewStream { request });
            let delivery = Delivery { effects, result: SpellResult::Stream };
            assert(delivery@.effects =~= invocation_of(spell@, selection@)->delivery.effects);
            Ok(Invocation::Deliver { delivery })
        },
        Behavior::TypeStream => {
            let mut effects: Vec<Effect> = Vec::new();
            effects.push(Effect::HideWindow);
            effects.push(Effect::RestoreFocus);
            effects.push(Effect::Settle { millis: SETTLE_DELAY_MS });
            effects.push(Effect::StartTypeStream { request });
            let delivery = Delivery { effects, result: SpellResult::Done };
            assert(delivery@.effects =~= invocation_of(spell@, selection@)->delivery.effects);
            Ok(Invocation::Deliver { delivery })
        },
        _ => Ok(Invocation::Run { request, output_mode: spell.output_mode }),
    }
}

/// Says how the whole `output` of a finished run is delivered.
///
/// `Discard` drops it. `Clipboard` and `Paste` put it on the clipboard without
/// the line feeds at its end. All three then hide the window and restore the
/// focus; `Paste` settles and sends the paste gesture after that. `Preview`
/// touches neither window nor clipboard and hands the output back.
pub fn deliver_output(output_mode: OutputMode, output: String) -> (delivery: Delivery)
    ensures
        delivery@ == delivery_of(output_mode, output@),
{
    let mut effects: Vec<Effect> = Vec::new();
    let delivery = match output_mode {
        OutputMode::Discard => {
            effects.push(Effect::HideWindow);
            effects.push(Effect::RestoreFocus);
            Delivery { effects, result: SpellResult::Done }
        },
        OutputMode::Clipboard => {
            effects.push(Effect::SetClipboard { text: trim_line_feeds(output.as_str()).to_owned() });
            effects.push(Effect::HideWindow);
            effects.push(Effect::RestoreFocus);
            Delivery { effects, result: SpellResult::Done }
        },
        OutputMode::Preview => Delivery { effects, result: SpellResult::Preview { content: output } },
        OutputMode::Paste => {
            effects.push(Effect::SetClipboard { text: trim_line_feeds(output.as_str()).to_owned() });
            effects.push(Effect::HideWindow);
            effects.push(Effect::RestoreFocus);
            effects.push(Effect::Settle { millis: SETTLE_DELAY_MS });
            effects.push(Effect::PasteGesture);
            Delivery { effects, result: SpellResult::Done }
        },
    };
    assert(delivery@.effects =~= delivery_of(output_mode, output@).effects);
    delivery
}

/// Finishes an invocation that was run to completion: from what the caller
/// captured of the run to the delivery of its output. A run that could not be
/// started or waited for fails with `SpawnFailure` and delivers nothing.
pub fn complete_spell(output_mode: OutputMode, captured: Result<Vec<u8>, String>) -> (outcome:
    Result<Delivery, SpellError>)
    ensures
        match captured {
            Ok(bytes) => outcome matches Ok(delivery) && delivery@ == delivery_of(
                output_mode,
                utf8_lossy(bytes@),
            ),
            Err(cause) => outcome matches Err(error) && error@ == (SpellErrorView::SpawnFailure {
                cause: cause@,
            }),
        },
{
    match execute_spell(captured) {
        Ok(output) => Ok(deliver_output(output_mode, output)),
        Err(error) => Err(error),
    }
}

/// Dismisses the tool without running a spell: hide the window, then restore
/// the focus.
pub fn cancel() -> (effects: Vec<Effect>)
    ensures
        effect_views(effects@) == seq![EffectView::HideWindow, EffectView::RestoreFocus],
{
    let mut effects: Vec<Effect> = Vec::new();
    effects.push(Effect::HideWindow);
    effects.push(Effect::RestoreFocus);
    effects
}

/// In whatever is decided for an invocation, synthetic input comes only after
/// the window was hidden, the focus restored and the settle delay waited for,
/// in that order.
pub proof fn lemma_invocation_restores_focus_first(record: SpellRecordView, selection: Seq<char>)
    ensures
        invocation_of(record, selection) matches InvocationView::Deliver { delivery }
            ==> focus_before_input(delivery.effects),
{
    match invocation_of(record, selection) {
        InvocationView::Deliver { delivery } => {
            let effects = delivery.effects;
            if behavior_of(record.output_mode, record.stream_mode) == Behavior::TypeStream {
                assert(effects[0] is HideWindow && effects[1] is RestoreFocus && effects[2] is Settle);
                assert(focus_settled_before(effects, 3));
            }
        },
        _ => {},
    }
}

/// In the delivery of a finished run, synthetic input comes only after the
/// window was hidden, the focus restored and the settle delay waited for, in
/// that order.
pub proof fn lemma_delivery_restores_focus_first(output_mode: OutputMode, output: Seq<char>)
    ensures
        focus_before_input(delivery_of(output_mode, output).effects),
{
    let effects = delivery_of(output_mode, output).effects;
    match output_mode {
        OutputMode::Discard => {
            assert(effects[0] is HideWindow);
        },
        OutputMode::Clipboard => {
            assert(effects[1] is HideWindow);
        },
        OutputMode::Preview => {},
        OutputMode::Paste => {
            assert(effects[1] is HideWindow && effects[2] is RestoreFocus && effects[3] is Settle);
            assert(focus_settled_before(effects, 4));
        },
    }
}

} // verus!
