//! The state of the assistant panel: where it is docked, how far it is
//! scrolled, and the number of tokens that are left for the conversation.

use crate::decimal::{decimal, decimal_text};
use crate::panel::{LabelColor, PanelSide, ScrollState};
use std::marker::PhantomData;
use vstd::prelude::*;

verus! {

/// The number of tokens that a new panel shows.
pub const INITIAL_TOKEN_COUNT: usize = 10;

/// The number of tokens that a panel shows after a reset.
pub const RESET_TOKEN_COUNT: usize = 8185;

/// Above this number of tokens the count is shown as plenty.
pub const AMPLE_TOKEN_COUNT: usize = 4000;

/// Up to this number of tokens the count is shown as short.
pub const SCARCE_TOKEN_COUNT: usize = 1000;

/// The colour in which a count of tokens is shown: positive above
/// [`AMPLE_TOKEN_COUNT`], negative up to [`SCARCE_TOKEN_COUNT`], a warning
/// between the two.
pub open spec fn count_color_of(token_count: usize) -> LabelColor {
    if token_count > AMPLE_TOKEN_COUNT {
        LabelColor::Positive
    } else if token_count <= SCARCE_TOKEN_COUNT {
        LabelColor::Negative
    } else {
        LabelColor::Warning
    }
}

/// The assistant panel of a view whose state is an `S`.
pub struct AssistantPanel<S: 'static + Send + Sync + Clone> {
    state_type: PhantomData<S>,
    scroll_state: ScrollState,
    current_side: PanelSide,
    token_count: usize,
}

/// The mathematical value of an [`AssistantPanel`].
pub ghost struct AssistantPanelView {
    pub scroll_state: ScrollState,
    pub current_side: PanelSide,
    pub token_count: usize,
}

impl<S: 'static + Send + Sync + Clone> View for AssistantPanel<S> {
    type V = AssistantPanelView;

    closed spec fn view(&self) -> AssistantPanelView {
        AssistantPanelView {
            scroll_state: self.scroll_state,
            current_side: self.current_side,
            token_count: self.token_count,
        }
    }
}

impl<S: 'static + Send + Sync + Clone> AssistantPanel<S> {
    /// An unscrolled panel on the default side that shows
    /// [`INITIAL_TOKEN_COUNT`] tokens.
    pub fn new() -> (panel: Self)
        ensures
            panel@ == (AssistantPanelView {
                scroll_state: ScrollState { x: 0, y: 0 },
                current_side: PanelSide::Right,
                token_count: INITIAL_TOKEN_COUNT,
            }),
    {
        Self {
            state_type: PhantomData,
            scroll_state: ScrollState::default(),
            current_side: PanelSide::default(),
            token_count: INITIAL_TOKEN_COUNT,
        }
    }

    /// The same panel, docked to `side`.
    pub fn side(self, side: PanelSide) -> (panel: Self)
        ensures
            panel@ == (AssistantPanelView { current_side: side, ..self@ }),
    {
        let mut panel = self;
        panel.current_side = side;
        panel
    }

    /// Shows `token_count` tokens from now on.
    pub fn update_token_count(&mut self, token_count: usize)
        ensures
            final(self)@ == (AssistantPanelView { token_count, ..old(self)@ }),
    {
        self.token_count = token_count;
    }

    /// Shows [`RESET_TOKEN_COUNT`] tokens from now on.
    pub fn reset_token_count(&mut self)
        ensures
            final(self)@ == (AssistantPanelView { token_count: RESET_TOKEN_COUNT, ..old(self)@ }),
    {
        self.token_count = RESET_TOKEN_COUNT;
    }

    /// How far the panel is scrolled.
    pub fn scroll_state(&self) -> (scroll_state: ScrollState)
        ensures
            scroll_state == self@.scroll_state,
    {
        self.scroll_state
    }

    /// The side that the panel is docked to.
    pub fn current_side(&self) -> (side: PanelSide)
        ensures
            side == self@.current_side,
    {
        self.current_side
    }

    /// The number of tokens that the panel shows.
    pub fn token_count(&self) -> (token_count: usize)
        ensures
            token_count == self@.token_count,
    {
        self.token_count
    }

    /// The text in which the panel shows its count of tokens: the count in
    /// decimal.
    pub fn count_text(&self) -> (text: String)
        ensures
            text@ == decimal(self@.token_count as nat),
    {
        decimal_text(self.token_count)
    }

    /// The colour in which the panel shows its count of tokens.
    pub fn count_color(&self) -> (color: LabelColor)
        ensures
            color == count_color_of(self@.token_count),
    {
        if self.token_count > AMPLE_TOKEN_COUNT {
            LabelColor::Positive
        } else if self.token_count <= SCARCE_TOKEN_COUNT {
            LabelColor::Negative
        } else {
            LabelColor::Warning
        }
    }
}

/// The showcase of the assistant panel: it shows one new panel.
pub struct AssistantPanelStory<S: 'static + Send + Sync + Clone> {
    state_type: PhantomData<S>,
}

impl<S: 'static + Send + Sync + Clone> AssistantPanelStory<S> {
    /// A showcase of the assistant panel.
    pub fn new() -> (story: Self) {
        Self { state_type: PhantomData }
    }

    /// The panel that the showcase shows.
    pub fn panel(&self) -> (panel: AssistantPanel<S>)
        ensures
            panel@ == (AssistantPanelView {
                scroll_state: ScrollState { x: 0, y: 0 },
                current_side: PanelSide::Right,
                token_count: INITIAL_TOKEN_COUNT,
            }),
    {
        AssistantPanel::new()
    }
}

} // verus!
