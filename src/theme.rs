use vstd::prelude::*;

verus! {

/// The highlighting themes come from iced; their variants are plain.
#[verifier::external_type_specification]
pub struct ExHighlightTheme(iced::highlighter::Theme);

/// Relies on iced's `highlighter::Theme::is_dark`: a match that answers
/// `false` for `InspiredGitHub` alone.
pub assume_specification[ iced::highlighter::Theme::is_dark ](self_: iced::highlighter::Theme) -> (r: bool)
    ensures
        r <==> !(self_ is InspiredGitHub),
;

/// The chrome of the window: dark or light.
#[derive(Clone, Copy, Debug, PartialEq, Eq, Structural)]
pub enum Appearance {
    Dark,
    Light,
}

/// Whether a highlighting theme belongs to the dark family.
pub open spec fn is_dark_theme(t: iced::highlighter::Theme) -> bool {
    !(t is InspiredGitHub)
}

/// The appearance of the chrome that goes with a highlighting theme.
pub open spec fn appearance_spec(t: iced::highlighter::Theme) -> Appearance {
    if is_dark_theme(t) {
        Appearance::Dark
    } else {
        Appearance::Light
    }
}

/// Picks the dark chrome for a dark highlighting theme, the light one else.
pub fn appearance_of(t: iced::highlighter::Theme) -> (r: Appearance)
    ensures
        r == appearance_spec(t),
{
    if t.is_dark() {
        Appearance::Dark
    } else {
        Appearance::Light
    }
}

} // verus!
