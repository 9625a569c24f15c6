use calculator::channel::parse_channel;
use calculator::state::Event;
use calculator::state::State;
use calculator::theme::CHANNEL_ONE;
use calculator::theme::ColorChannel;
use calculator::theme::ColorTarget;
use calculator::theme::ColorTheme;
use calculator::theme::Preset;
use calculator::theme::Rgb;

fn chars(s: &str) -> Vec<char> {
    s.chars().collect()
}

#[test]
fn parse_channel_integer() {
    assert_eq!(parse_channel(&chars("128")), Some(128000));
}

#[test]
fn parse_channel_fraction() {
    assert_eq!(parse_channel(&chars("12.5")), Some(12500));
}

#[test]
fn parse_channel_leading_dot_and_trailing_dot() {
    assert_eq!(parse_channel(&chars(".5")), Some(500));
    assert_eq!(parse_channel(&chars("1.")), Some(1000));
}

#[test]
fn parse_channel_truncates_past_thousandths() {
    assert_eq!(parse_channel(&chars("0.0005")), Some(0));
    assert_eq!(parse_channel(&chars("1.2345")), Some(1234));
}

#[test]
fn parse_channel_clamps_high_values() {
    assert_eq!(parse_channel(&chars("255")), Some(CHANNEL_ONE));
    assert_eq!(parse_channel(&chars("256")), Some(CHANNEL_ONE));
    assert_eq!(parse_channel(&chars("999")), Some(CHANNEL_ONE));
    assert_eq!(parse_channel(&chars("99999999999999999999")), Some(CHANNEL_ONE));
}

#[test]
fn parse_channel_clamps_negative_values() {
    assert_eq!(parse_channel(&chars("-3")), Some(0));
    assert_eq!(parse_channel(&chars("-0.5")), Some(0));
}

#[test]
fn parse_channel_rejects_malformed_text() {
    assert_eq!(parse_channel(&chars("")), None);
    assert_eq!(parse_channel(&chars("abc")), None);
    assert_eq!(parse_channel(&chars(".")), None);
    assert_eq!(parse_channel(&chars("-")), None);
    assert_eq!(parse_channel(&chars("1.2.3")), None);
    assert_eq!(parse_channel(&chars("1-2")), None);
    assert_eq!(parse_channel(&chars("12a")), None);
}

#[test]
fn select_light_installs_whole_palette() {
    let mut s = State::new();
    s.apply(&Event::SelectPreset(Preset::Light));
    assert_eq!(s.preset, Preset::Light);
    assert_eq!(s.theme, ColorTheme::light());
    assert_eq!(s.theme.background, Rgb { r: 242250, g: 242250, b: 247350 });
    assert_eq!(s.theme.display, Rgb { r: 249900, g: 249900, b: 255000 });
    assert_eq!(s.theme.display_text, Rgb { r: 25500, g: 25500, b: 38250 });
    assert_eq!(s.theme.number_btn, Rgb { r: 229500, g: 229500, b: 234600 });
    assert_eq!(s.theme.operator_btn, Rgb { r: 102000, g: 153000, b: 216750 });
    assert_eq!(s.theme.function_btn, Rgb { r: 178500, g: 102000, b: 216750 });
}

#[test]
fn edit_after_preset_goes_custom_and_keeps_other_colors() {
    let mut s = State::new();
    s.apply(&Event::SelectPreset(Preset::Light));
    s.apply(&Event::EditColorChannel(
        ColorTarget::Operator,
        ColorChannel::Red,
        chars("100"),
    ));
    assert_eq!(s.preset, Preset::Custom);
    let light = ColorTheme::light();
    assert_eq!(s.theme.operator_btn, Rgb { r: 100000, ..light.operator_btn });
    assert_eq!(s.theme.background, light.background);
    assert_eq!(s.theme.display, light.display);
    assert_eq!(s.theme.display_text, light.display_text);
    assert_eq!(s.theme.number_btn, light.number_btn);
    assert_eq!(s.theme.function_btn, light.function_btn);
}

#[test]
fn edit_clamps_overlarge_value_to_full_intensity() {
    let mut s = State::new();
    s.apply(&Event::EditColorChannel(
        ColorTarget::Background,
        ColorChannel::Red,
        chars("999"),
    ));
    assert_eq!(s.theme.background.r, CHANNEL_ONE);
    assert_eq!(s.preset, Preset::Custom);
}

#[test]
fn malformed_edit_changes_nothing() {
    let mut s = State::new();
    let before_theme = s.theme;
    let before_preset = s.preset;
    s.apply(&Event::EditColorChannel(
        ColorTarget::Background,
        ColorChannel::Red,
        chars("abc"),
    ));
    assert_eq!(s.theme, before_theme);
    assert_eq!(s.preset, before_preset);
}

#[test]
fn selecting_custom_keeps_colors() {
    let mut s = State::new();
    s.apply(&Event::SelectPreset(Preset::Nord));
    let before = s.theme;
    s.apply(&Event::SelectPreset(Preset::Custom));
    assert_eq!(s.preset, Preset::Custom);
    assert_eq!(s.theme, before);
}

#[test]
fn every_preset_has_its_palette() {
    let mut s = State::new();
    s.apply(&Event::SelectPreset(Preset::Dark));
    assert_eq!(s.theme, ColorTheme::dark());
    s.apply(&Event::SelectPreset(Preset::Dracula));
    assert_eq!(s.theme, ColorTheme::dracula());
    s.apply(&Event::SelectPreset(Preset::Nord));
    assert_eq!(s.theme, ColorTheme::nord());
    s.apply(&Event::SelectPreset(Preset::Monokai));
    assert_eq!(s.theme, ColorTheme::monokai());
    s.apply(&Event::SelectPreset(Preset::Solarized));
    assert_eq!(s.theme, ColorTheme::solarized());
    assert_eq!(s.theme.background, Rgb { r: 0, g: 43350, b: 53550 });
}

#[test]
fn preset_labels() {
    assert_eq!(Preset::Dark.label(), "Ciemny");
    assert_eq!(Preset::Light.label(), "Jasny");
    assert_eq!(Preset::Dracula.label(), "Dracula");
    assert_eq!(Preset::Nord.label(), "Nord");
    assert_eq!(Preset::Monokai.label(), "Monokai");
    assert_eq!(Preset::Solarized.label(), "Solarized");
    assert_eq!(Preset::Custom.label(), "W\u{142}asny");
}
