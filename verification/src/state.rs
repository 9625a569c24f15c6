//! The application state machine.
//!
//! A single state record holds the display text, the pending-operation
//! bookkeeping, four panel-visibility flags, the color theme and the active
//! preset. One transition function, `State::apply`, consumes one input
//! event at a time; `step` is its mathematical description. Evaluation
//! failure is a normal outcome that writes the literal `Error` display; no
//! fault escapes the transition.

use vstd::prelude::*;
use crate::channel::channel_of_text;
use crate::channel::parse_channel;
use crate::eval::display_eval;
use crate::eval::evaluate;
use crate::theme::ColorChannel;
use crate::theme::ColorTarget;
use crate::theme::ColorTheme;
use crate::theme::Preset;
use crate::theme::dark_palette;
use crate::theme::preset_palette;

verus! {

/// One calculator input event.
pub enum Event {
    /// Append a button's text to the display (or replace a `0` or `Error`
    /// display with it). The text is never empty.
    AppendToken(Vec<char>),
    /// Reset the display and the pending-operation bookkeeping.
    Clear,
    /// Drop the last display character, down to a `0` display.
    Backspace,
    /// Run the evaluator on the display and show its outcome.
    Evaluate,
    /// Show or hide the scientific function panel.
    ToggleScientific,
    /// Show or hide the physics formula panel.
    TogglePhysics,
    /// Show or hide the economics formula panel.
    ToggleEconomics,
    /// Show or hide the theme editor.
    ToggleThemeEditor,
    /// Install a named palette, or only record the `Custom` label.
    SelectPreset(Preset),
    /// Replace one channel of one theme color with a parsed edit-field text.
    EditColorChannel(ColorTarget, ColorChannel, Vec<char>),
}

/// The mathematical image of an event: its texts as character sequences.
pub enum EventModel {
    AppendToken(Seq<char>),
    Clear,
    Backspace,
    Evaluate,
    ToggleScientific,
    TogglePhysics,
    ToggleEconomics,
    ToggleThemeEditor,
    SelectPreset(Preset),
    EditColorChannel(ColorTarget, ColorChannel, Seq<char>),
}

impl View for Event {
    type V = EventModel;

    open spec fn view(&self) -> EventModel {
        match self {
            Event::AppendToken(t) => EventModel::AppendToken(t@),
            Event::Clear => EventModel::Clear,
            Event::Backspace => EventModel::Backspace,
            Event::Evaluate => EventModel::Evaluate,
            Event::ToggleScientific => EventModel::ToggleScientific,
            Event::TogglePhysics => EventModel::TogglePhysics,
            Event::ToggleEconomics => EventModel::ToggleEconomics,
            Event::ToggleThemeEditor => EventModel::ToggleThemeEditor,
            Event::SelectPreset(p) => EventModel::SelectPreset(*p),
            Event::EditColorChannel(target, ch, txt) => EventModel::EditColorChannel(
                *target,
                *ch,
                txt@,
            ),
        }
    }
}

impl Event {
    /// Tokens appended to the display are never empty; every other event is
    /// unconditional.
    pub open spec fn wf(self) -> bool {
        match self {
            Event::AppendToken(t) => t@.len() > 0,
            _ => true,
        }
    }
}

/// The calculator state.
pub struct State {
    /// The accumulating input/result text; never empty.
    pub display: Vec<char>,
    /// The operator of an in-progress binary operation. No current event
    /// records one; `Clear` resets it.
    pub pending_op: Option<Vec<char>>,
    /// The stored operand text of an in-progress binary operation. No
    /// current event records one; `Clear` resets it.
    pub pending_operand: Option<Vec<char>>,
    /// Whether the scientific function panel is shown.
    pub show_scientific: bool,
    /// Whether the physics formula panel is shown.
    pub show_physics: bool,
    /// Whether the economics formula panel is shown.
    pub show_economics: bool,
    /// Whether the theme editor is shown.
    pub show_theme_editor: bool,
    /// The six interface colors.
    pub theme: ColorTheme,
    /// The preset the theme was last set from, or `Custom` after an edit.
    pub preset: Preset,
}

/// The mathematical image of a state: its texts as character sequences.
#[verifier::ext_equal]
pub struct StateModel {
    pub display: Seq<char>,
    pub pending_op: Option<Seq<char>>,
    pub pending_operand: Option<Seq<char>>,
    pub show_scientific: bool,
    pub show_physics: bool,
    pub show_economics: bool,
    pub show_theme_editor: bool,
    pub theme: ColorTheme,
    pub preset: Preset,
}

impl View for State {
    type V = StateModel;

    open spec fn view(&self) -> StateModel {
        StateModel {
            display: self.display@,
            pending_op: match self.pending_op {
                Some(t) => Some(t@),
                None => None,
            },
            pending_operand: match self.pending_operand {
                Some(t) => Some(t@),
                None => None,
            },
            show_scientific: self.show_scientific,
            show_physics: self.show_physics,
            show_economics: self.show_economics,
            show_theme_editor: self.show_theme_editor,
            theme: self.theme,
            preset: self.preset,
        }
    }
}

/// The display text of a fresh or cleared state.
pub open spec fn zero_display() -> Seq<char> {
    seq!['0']
}

/// The display text after a failed evaluation.
pub open spec fn error_display() -> Seq<char> {
    seq!['E', 'r', 'r', 'o', 'r']
}

/// The state every run starts from: a `0` display, nothing pending, all
/// panels hidden, the dark preset.
pub open spec fn initial_state() -> StateModel {
    StateModel {
        display: zero_display(),
        pending_op: None,
        pending_operand: None,
        show_scientific: false,
        show_physics: false,
        show_economics: false,
        show_theme_editor: false,
        theme: dark_palette(),
        preset: Preset::Dark,
    }
}

/// The transition rule: the state an event turns `pre` into.
pub open spec fn step(pre: StateModel, ev: EventModel) -> StateModel {
    match ev {
        EventModel::AppendToken(t) => StateModel {
            display: if pre.display == zero_display() || pre.display == error_display() {
                t
            } else {
                pre.display + t
            },
            ..pre
        },
        EventModel::Clear => StateModel {
            display: zero_display(),
            pending_op: None,
            pending_operand: None,
            ..pre
        },
        EventModel::Backspace => StateModel {
            display: if pre.display.len() > 1 {
                pre.display.drop_last()
            } else {
                zero_display()
            },
            ..pre
        },
        EventModel::Evaluate => StateModel {
            display: match display_eval(pre.display) {
                Some(out) => out,
                None => error_display(),
            },
            ..pre
        },
        EventModel::ToggleScientific => StateModel { show_scientific: !pre.show_scientific, ..pre },
        EventModel::TogglePhysics => StateModel { show_physics: !pre.show_physics, ..pre },
        EventModel::ToggleEconomics => StateModel { show_economics: !pre.show_economics, ..pre },
        EventModel::ToggleThemeEditor => StateModel {
            show_theme_editor: !pre.show_theme_editor,
            ..pre
        },
        EventModel::SelectPreset(p) => StateModel {
            preset: p,
            theme: if p == Preset::Custom {
                pre.theme
            } else {
                preset_palette(p)
            },
            ..pre
        },
        EventModel::EditColorChannel(target, ch, txt) => match channel_of_text(txt) {
            Some(v) => StateModel {
                theme: pre.theme.spec_with_channel(target, ch, v),
                preset: Preset::Custom,
                ..pre
            },
            None => pre,
        },
    }
}

/// Copy a borrowed text.
fn copy_chars(src: &Vec<char>) -> (out: Vec<char>)
    ensures
        out@ == src@,
{
    let mut out: Vec<char> = Vec::new();
    let mut i: usize = 0;
    while i < src.len()
        invariant
            i <= src@.len(),
            out@ == src@.subrange(0, i as int),
        decreases src@.len() - i,
    {
        out.push(src[i]);
        proof {
            assert(out@ =~= src@.subrange(0, i as int + 1));
        }
        i = i + 1;
    }
    proof {
        assert(src@.subrange(0, src@.len() as int) =~= src@);
    }
    out
}

/// The one-character `0` display.
fn zero_vec() -> (v: Vec<char>)
    ensures
        v@ == zero_display(),
{
    let mut v: Vec<char> = Vec::new();
    v.push('0');
    proof {
        assert(v@ =~= zero_display());
    }
    v
}

/// The literal `Error` display.
fn error_vec() -> (v: Vec<char>)
    ensures
        v@ == error_display(),
{
    let mut v: Vec<char> = Vec::new();
    v.push('E');
    v.push('r');
    v.push('r');
    v.push('o');
    v.push('r');
    proof {
        assert(v@ =~= error_display());
    }
    v
}

impl State {
    /// The display is never empty and every theme channel is in range.
    pub open spec fn wf(self) -> bool {
        self.display@.len() > 0 && self.theme.wf()
    }

    /// The state a run starts from.
    pub fn new() -> (s: State)
        ensures
            s@ == initial_state(),
            s.wf(),
    {
        let s = State {
            display: zero_vec(),
            pending_op: None,
            pending_operand: None,
            show_scientific: false,
            show_physics: false,
            show_economics: false,
            show_theme_editor: false,
            theme: ColorTheme::dark(),
            preset: Preset::Dark,
        };
        proof {
            assert(s@ =~= initial_state());
        }
        s
    }

    /// Whether the display reads `0`.
    fn display_is_zero(&self) -> (r: bool)
        ensures
            r == (self@.display == zero_display()),
    {
        if self.display.len() == 1 && self.display[0] == '0' {
            proof {
                assert(self@.display =~= zero_display());
            }
            true
        } else {
            false
        }
    }

    /// Whether the display reads `Error`.
    fn display_is_error(&self) -> (r: bool)
        ensures
            r == (self@.display == error_display()),
    {
        if self.display.len() == 5 && self.display[0] == 'E' && self.display[1] == 'r'
            && self.display[2] == 'r' && self.display[3] == 'o' && self.display[4] == 'r' {
            proof {
                assert(self@.display =~= error_display());
            }
            true
        } else {
            false
        }
    }

    /// Apply one input event; `step` says exactly what changes.
    pub fn apply(&mut self, ev: &Event)
        requires
            old(self).wf(),
            ev.wf(),
        ensures
            final(self).wf(),
            final(self)@ == step(old(self)@, ev@),
    {
        match ev {
            Event::AppendToken(t) => {
                if self.display_is_zero() || self.display_is_error() {
                    self.display = copy_chars(t);
                } else {
                    let mut tail = copy_chars(t);
                    self.display.append(&mut tail);
                }
            },
            Event::Clear => {
                self.display = zero_vec();
                self.pending_op = None;
                self.pending_operand = None;
            },
            Event::Backspace => {
                if self.display.len() > 1 {
                    self.display.pop();
                    proof {
                        assert(self@.display =~= old(self)@.display.drop_last());
                    }
                } else {
                    self.display = zero_vec();
                }
            },
            Event::Evaluate => {
                let outcome = evaluate(&self.display);
                match outcome {
                    Some(out) => {
                        self.display = out;
                    },
                    None => {
                        self.display = error_vec();
                    },
                }
            },
            Event::ToggleScientific => {
                self.show_scientific = !self.show_scientific;
            },
            Event::TogglePhysics => {
                self.show_physics = !self.show_physics;
            },
            Event::ToggleEconomics => {
                self.show_economics = !self.show_economics;
            },
            Event::ToggleThemeEditor => {
                self.show_theme_editor = !self.show_theme_editor;
            },
            Event::SelectPreset(p) => {
                match p {
                    Preset::Dark => {
                        self.theme = ColorTheme::dark();
                    },
                    Preset::Light => {
                        self.theme = ColorTheme::light();
                    },
                    Preset::Dracula => {
                        self.theme = ColorTheme::dracula();
                    },
                    Preset::Nord => {
                        self.theme = ColorTheme::nord();
                    },
                    Preset::Monokai => {
                        self.theme = ColorTheme::monokai();
                    },
                    Preset::Solarized => {
                        self.theme = ColorTheme::solarized();
                    },
                    Preset::Custom => {},
                }
                self.preset = *p;
            },
            Event::EditColorChannel(target, ch, txt) => {
                match parse_channel(txt) {
                    Some(v) => {
                        self.theme.set_channel(*target, *ch, v);
                        self.preset = Preset::Custom;
                    },
                    None => {},
                }
            },
        }
        proof {
            assert(self@ =~= step(old(self)@, ev@));
        }
    }
}

/// Clearing is idempotent: clearing twice is the same as clearing once.
pub proof fn lemma_clear_idempotent(s: StateModel)
    ensures
        step(step(s, EventModel::Clear), EventModel::Clear) == step(s, EventModel::Clear),
{
    assert(step(step(s, EventModel::Clear), EventModel::Clear) =~= step(s, EventModel::Clear));
}

/// Selecting a named preset installs its whole fixed palette and records
/// the label; nothing else changes.
pub proof fn lemma_select_preset_applies_palette(s: StateModel, p: Preset)
    requires
        p != Preset::Custom,
    ensures
        step(s, EventModel::SelectPreset(p)).theme == preset_palette(p),
        step(s, EventModel::SelectPreset(p)).preset == p,
        step(s, EventModel::SelectPreset(p)).display == s.display,
{
}

/// Selecting `Custom` from the list only records the label; the colors are
/// left as they are.
pub proof fn lemma_select_custom_keeps_theme(s: StateModel)
    ensures
        step(s, EventModel::SelectPreset(Preset::Custom)).theme == s.theme,
        step(s, EventModel::SelectPreset(Preset::Custom)).preset == Preset::Custom,
{
}

/// A channel edit that parses makes the preset `Custom` and touches no
/// theme color other than its target.
pub proof fn lemma_edit_touches_one_color(
    s: StateModel,
    target: ColorTarget,
    ch: ColorChannel,
    txt: Seq<char>,
)
    requires
        channel_of_text(txt) is Some,
    ensures
        ({
            let post = step(s, EventModel::EditColorChannel(target, ch, txt));
            &&& post.preset == Preset::Custom
            &&& post.display == s.display
            &&& forall|other: ColorTarget|
                other != target ==> post.theme.spec_color(other) == s.theme.spec_color(other)
        }),
{
}

/// No event can drive a theme channel out of range: the transition rule
/// preserves theme well-formedness.
pub proof fn lemma_step_preserves_theme_wf(s: StateModel, ev: EventModel)
    requires
        s.theme.wf(),
    ensures
        step(s, ev).theme.wf(),
{
    match ev {
        EventModel::SelectPreset(p) => {
            crate::theme::lemma_preset_palette_wf(p);
        },
        EventModel::EditColorChannel(_, _, txt) => {
            crate::channel::lemma_channel_in_range(txt);
        },
        _ => {},
    }
}

/// A channel edit that does not parse changes nothing at all.
pub proof fn lemma_bad_edit_is_noop(
    s: StateModel,
    target: ColorTarget,
    ch: ColorChannel,
    txt: Seq<char>,
)
    requires
        channel_of_text(txt) is None,
    ensures
        step(s, EventModel::EditColorChannel(target, ch, txt)) == s,
{
}

} // verus!
