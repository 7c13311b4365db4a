use vstd::prelude::*;

verus! {

/// The icons the document toolbar can show.
#[derive(Clone, Copy)]
pub enum Icon {
    /// A question mark in a circle, for the help button.
    QuestionMark,
    /// A chevron pointing right, for the next-page button.
    Next,
    /// A chevron pointing left, for the previous-page button.
    Prev,
}

/// The actions a toolbar button can trigger.
#[derive(Clone, Copy)]
pub enum Action {
    /// Advance to the next page.
    NextPage,
    /// Go back to the previous page.
    PrevPage,
    /// Show the help overlay.
    Help,
}

impl Icon {
    /// The inline SVG markup for the icon.
    pub fn to_svg(self) -> (r: &'static str)
        ensures
            self is QuestionMark ==> r@ == (
            "<svg viewBox=\"0 0 24 24\"><circle cx=\"12\" cy=\"12\" r=\"10\"/><path d=\"M9.1 9a3 3 0 0 1 5.8 1c0 2-3 3-3 3\"/><path d=\"M12 17h.01\"/></svg>")@,
            self is Next ==> r@ == ("<svg viewBox=\"0 0 24 24\"><path d=\"m9 18 6-6-6-6\"/></svg>")@,
            self is Prev ==> r@ == ("<svg viewBox=\"0 0 24 24\"><path d=\"m15 18-6-6 6-6\"/></svg>")@,
    {
        match self {
            Icon::QuestionMark => "<svg viewBox=\"0 0 24 24\"><circle cx=\"12\" cy=\"12\" r=\"10\"/><path d=\"M9.1 9a3 3 0 0 1 5.8 1c0 2-3 3-3 3\"/><path d=\"M12 17h.01\"/></svg>",
            Icon::Next => "<svg viewBox=\"0 0 24 24\"><path d=\"m9 18 6-6-6-6\"/></svg>",
            Icon::Prev => "<svg viewBox=\"0 0 24 24\"><path d=\"m15 18-6-6 6-6\"/></svg>",
        }
    }
}

impl Action {
    /// The icon that pictures the action.
    pub fn to_icon(self) -> (r: Icon)
        ensures
            self is NextPage ==> r is Next,
            self is PrevPage ==> r is Prev,
            self is Help ==> r is QuestionMark,
    {
        match self {
            Action::NextPage => Icon::Next,
            Action::PrevPage => Icon::Prev,
            Action::Help => Icon::QuestionMark,
        }
    }

    /// The keyboard shortcut that triggers the action.
    pub fn to_hotkey(self) -> (r: char)
        ensures
            self is NextPage ==> r == 'n',
            self is PrevPage ==> r == 'p',
            self is Help ==> r == 'h',
    {
        match self {
            Action::NextPage => 'n',
            Action::PrevPage => 'p',
            Action::Help => 'h',
        }
    }
}

} // verus!
