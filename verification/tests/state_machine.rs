use calculator::formula::FormulaShortcut;
use calculator::state::Event;
use calculator::state::State;
use calculator::theme::Preset;

fn chars(s: &str) -> Vec<char> {
    s.chars().collect()
}

#[test]
fn fresh_state_defaults() {
    let s = State::new();
    assert_eq!(s.display, chars("0"));
    assert_eq!(s.pending_op, None);
    assert_eq!(s.pending_operand, None);
    assert!(!s.show_scientific);
    assert!(!s.show_physics);
    assert!(!s.show_economics);
    assert!(!s.show_theme_editor);
    assert_eq!(s.preset, Preset::Dark);
}

#[test]
fn append_replaces_zero_display() {
    let mut s = State::new();
    s.apply(&Event::AppendToken(chars("7")));
    assert_eq!(s.display, chars("7"));
}

#[test]
fn append_extends_nonzero_display() {
    let mut s = State::new();
    s.apply(&Event::AppendToken(chars("7")));
    s.apply(&Event::AppendToken(chars("+")));
    assert_eq!(s.display, chars("7+"));
}

#[test]
fn append_replaces_error_display() {
    let mut s = State::new();
    s.apply(&Event::AppendToken(chars("2+")));
    s.apply(&Event::Evaluate);
    assert_eq!(s.display, chars("Error"));
    s.apply(&Event::AppendToken(chars("5")));
    assert_eq!(s.display, chars("5"));
}

#[test]
fn backspace_drops_last_character() {
    let mut s = State::new();
    s.apply(&Event::AppendToken(chars("12")));
    s.apply(&Event::Backspace);
    assert_eq!(s.display, chars("1"));
}

#[test]
fn backspace_on_single_character_resets_to_zero() {
    let mut s = State::new();
    s.apply(&Event::AppendToken(chars("1")));
    s.apply(&Event::Backspace);
    assert_eq!(s.display, chars("0"));
}

#[test]
fn backspace_on_error_drops_one_letter() {
    let mut s = State::new();
    s.apply(&Event::AppendToken(chars("2+")));
    s.apply(&Event::Evaluate);
    s.apply(&Event::Backspace);
    assert_eq!(s.display, chars("Erro"));
}

#[test]
fn clear_resets_display_and_bookkeeping() {
    let mut s = State::new();
    s.apply(&Event::AppendToken(chars("12")));
    s.apply(&Event::Clear);
    assert_eq!(s.display, chars("0"));
    assert_eq!(s.pending_op, None);
    assert_eq!(s.pending_operand, None);
}

#[test]
fn clear_twice_equals_clear_once() {
    let mut s = State::new();
    s.apply(&Event::AppendToken(chars("12")));
    s.apply(&Event::Clear);
    let once_display = s.display.clone();
    let once_op = s.pending_op.clone();
    let once_operand = s.pending_operand.clone();
    s.apply(&Event::Clear);
    assert_eq!(s.display, once_display);
    assert_eq!(s.pending_op, once_op);
    assert_eq!(s.pending_operand, once_operand);
    assert_eq!(s.display, chars("0"));
}

#[test]
fn evaluate_writes_result_to_display() {
    let mut s = State::new();
    s.apply(&Event::AppendToken(chars("2")));
    s.apply(&Event::AppendToken(chars("+")));
    s.apply(&Event::AppendToken(chars("3")));
    s.apply(&Event::AppendToken(chars("*")));
    s.apply(&Event::AppendToken(chars("4")));
    s.apply(&Event::Evaluate);
    assert_eq!(s.display, chars("14"));
}

#[test]
fn evaluate_failure_writes_error() {
    let mut s = State::new();
    s.apply(&Event::AppendToken(chars("sin(")));
    s.apply(&Event::Evaluate);
    assert_eq!(s.display, chars("Error"));
}

#[test]
fn evaluate_blank_display_writes_error() {
    let mut s = State::new();
    s.apply(&Event::AppendToken(chars(" ")));
    assert_eq!(s.display, chars(" "));
    s.apply(&Event::Evaluate);
    assert_eq!(s.display, chars("Error"));
}

#[test]
fn toggles_flip_their_flag_only() {
    let mut s = State::new();
    s.apply(&Event::ToggleScientific);
    assert!(s.show_scientific);
    assert!(!s.show_physics);
    s.apply(&Event::TogglePhysics);
    assert!(s.show_physics);
    s.apply(&Event::ToggleEconomics);
    assert!(s.show_economics);
    s.apply(&Event::ToggleThemeEditor);
    assert!(s.show_theme_editor);
    s.apply(&Event::ToggleScientific);
    assert!(!s.show_scientific);
    assert!(s.show_physics && s.show_economics && s.show_theme_editor);
    assert_eq!(s.display, chars("0"));
}

#[test]
fn physics_fragments() {
    assert_eq!(FormulaShortcut::MassEnergy.fragment(), "299792458^2*");
    assert_eq!(FormulaShortcut::Velocity.fragment(), "/");
    assert_eq!(FormulaShortcut::Acceleration.fragment(), "/");
    assert_eq!(FormulaShortcut::Force.fragment(), "*");
    assert_eq!(FormulaShortcut::KineticEnergy.fragment(), "0.5**");
    assert_eq!(FormulaShortcut::PotentialEnergy.fragment(), "**9.81*");
    assert_eq!(FormulaShortcut::Power.fragment(), "/");
    assert_eq!(FormulaShortcut::Momentum.fragment(), "*");
}

#[test]
fn economics_fragments() {
    assert_eq!(FormulaShortcut::Interest.fragment(), "**");
    assert_eq!(FormulaShortcut::ReturnOnInvestment.fragment(), "(-)/");
    assert_eq!(FormulaShortcut::ValueAddedTax.fragment(), "*1.23");
    assert_eq!(FormulaShortcut::Margin.fragment(), "(-)/");
    assert_eq!(FormulaShortcut::Markup.fragment(), "(-)/");
    assert_eq!(FormulaShortcut::StraightLineDepreciation.fragment(), "/");
}

#[test]
fn formula_fragment_combines_with_operands() {
    let mut s = State::new();
    s.apply(&Event::AppendToken(chars("2")));
    s.apply(&Event::AppendToken(
        FormulaShortcut::ValueAddedTax.fragment().chars().collect(),
    ));
    assert_eq!(s.display, chars("2*1.23"));
    s.apply(&Event::Evaluate);
    assert_eq!(s.display, chars("2.46"));
}
