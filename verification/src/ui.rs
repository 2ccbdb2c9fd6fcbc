//! The button panel modeled as plain data, and the decisions its systems make.
//!
//! The host engine owns the actual widgets. The library holds the button
//! descriptions and decides, from an interaction state, which colors the
//! widget should take; the host applies them.

use vstd::prelude::*;

use crate::color::Color;

verus! {

/// What the pointer is currently doing to a button.
#[derive(Clone, Copy, Debug, PartialEq, Eq, Structural)]
pub enum ButtonInteraction {
    Pressed,
    Hovered,
    Idle,
}

/// A button description: its label and the colors of its states.
pub struct ButtonComponent {
    pub label: String,
    pub background_color: Color,
    pub background_color_hovered: Color,
    pub background_color_pressed: Color,
    pub text_color: Color,
    pub text_color_hovered: Color,
    pub text_color_pressed: Color,
}

/// The buttons the panel should show.
pub struct Buttons(pub Vec<ButtonComponent>);

/// Reconciles the spawned-widget count with the button list.
///
/// Returns whether the host should spawn a widget for every entry of
/// `buttons`, and advances the count of spawned widgets accordingly; when
/// the count already matches the list, nothing is to be done.
pub fn create_buttons(buttons: &Buttons, button_count: &mut usize) -> (spawn_all: bool)
    requires
        *old(button_count) + buttons.0@.len() <= usize::MAX,
    ensures
        spawn_all <==> *old(button_count) != buttons.0@.len(),
        spawn_all ==> *final(button_count) == *old(button_count) + buttons.0@.len(),
        !spawn_all ==> *final(button_count) == *old(button_count),
{
    if *button_count == buttons.0.len() {
        return false;
    }
    *button_count = *button_count + buttons.0.len();
    true
}

/// Decides the text and background colors for a button whose interaction
/// state just changed: hovering inverts the idle scheme, and a press keeps
/// the colors as they are.
///
/// Returns `(text color, background color)`, or nothing when no change is
/// to be made.
pub fn buttons_system(interaction: ButtonInteraction) -> (r: Option<(Color, Color)>)
    ensures
        interaction == ButtonInteraction::Hovered ==> r == Some((Color::white(), Color::black())),
        interaction == ButtonInteraction::Idle ==> r == Some((Color::black(), Color::white())),
        interaction == ButtonInteraction::Pressed ==> r is None,
{
    match interaction {
        ButtonInteraction::Hovered => Some((
            Color { r: 255, g: 255, b: 255 },
            Color { r: 0, g: 0, b: 0 },
        )),
        ButtonInteraction::Pressed => None,
        ButtonInteraction::Idle => Some((
            Color { r: 0, g: 0, b: 0 },
            Color { r: 255, g: 255, b: 255 },
        )),
    }
}

} // verus!
