//! The state of the notifications panel: how far it is scrolled.

use crate::panel::ScrollState;
use std::marker::PhantomData;
use vstd::prelude::*;

verus! {

/// The notifications panel of a view whose state is an `S`.
pub struct NotificationsPanel<S: 'static + Send + Sync + Clone> {
    state_type: PhantomData<S>,
    scroll_state: ScrollState,
}

/// The mathematical value of a [`NotificationsPanel`].
pub ghost struct NotificationsPanelView {
    pub scroll_state: ScrollState,
}

impl<S: 'static + Send + Sync + Clone> View for NotificationsPanel<S> {
    type V = NotificationsPanelView;

    closed spec fn view(&self) -> NotificationsPanelView {
        NotificationsPanelView { scroll_state: self.scroll_state }
    }
}

impl<S: 'static + Send + Sync + Clone> NotificationsPanel<S> {
    /// A panel that is scrolled as `scroll_state` says.
    pub fn new(scroll_state: ScrollState) -> (panel: Self)
        ensures
            panel@ == (NotificationsPanelView { scroll_state }),
    {
        Self { state_type: PhantomData, scroll_state }
    }

    /// How far the panel is scrolled.
    pub fn scroll_state(&self) -> (scroll_state: ScrollState)
        ensures
            scroll_state == self@.scroll_state,
    {
        self.scroll_state
    }
}

/// The showcase of the notifications panel: it shows one unscrolled panel.
pub struct NotificationsPanelStory<S: 'static + Send + Sync + Clone> {
    state_type: PhantomData<S>,
}

impl<S: 'static + Send + Sync + Clone> NotificationsPanelStory<S> {
    /// A showcase of the notifications panel.
    pub fn new() -> (story: Self) {
        Self { state_type: PhantomData }
    }

    /// The panel that the showcase shows.
    pub fn panel(&self) -> (panel: NotificationsPanel<S>)
        ensures
            panel@ == (NotificationsPanelView { scroll_state: ScrollState { x: 0, y: 0 } }),
    {
        NotificationsPanel::new(ScrollState::default())
    }
}

} // verus!
