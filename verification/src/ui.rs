//! The decisions of the render loop: how a window or keyboard event changes
//! the opacity, the current text effect and the swapchain state, and what the
//! loop must do in response. The loop itself — reading events, drawing —
//! performs the actions this module decides.

use vstd::prelude::*;

use crate::effect::TextEffect;

verus! {

/// An event the render loop reacts to.
#[derive(Debug, Clone, Copy, PartialEq, Eq, Structural)]
pub enum UiEvent {
    /// The window was asked to close.
    CloseRequested,
    /// The escape key was pressed.
    KeyEscape,
    /// A digit key was pressed; the digit selects the opacity.
    KeyDigit(u8),
    /// The effect key was pressed: switch to the next text effect.
    KeyCycleEffect,
    /// Any other key.
    KeyOther,
    /// The window was resized.
    Resized,
}

/// What the render loop must do after an event.
#[derive(Debug, Clone, Copy, PartialEq, Eq, Structural)]
pub enum UiAction {
    /// Leave the event loop.
    Exit,
    /// Announce the new opacity, in percent.
    ShowOpacity(u8),
    /// Announce the new text effect.
    ShowEffect(TextEffect),
    /// Nothing to do.
    Nothing,
}

/// The state the render loop keeps between events.
#[derive(Debug, Clone, Copy, PartialEq, Eq, Structural)]
pub struct UiState {
    /// Opacity of the rendered text in percent.
    pub opacity_percent: u8,
    /// The text effect currently applied.
    pub effect: TextEffect,
    /// Whether the swapchain must be rebuilt before the next frame.
    pub recreate_swapchain: bool,
}

/// The opacity in percent a digit key selects: 0 selects full opacity,
/// 1 through 9 select ten times the digit.
pub open spec fn opacity_for_digit(d: u8) -> u8 {
    if d == 0 {
        100u8
    } else {
        (d * 10) as u8
    }
}

impl UiState {
    /// The opacity always stands on a multiple of ten between 10% and 100%.
    pub open spec fn wf(self) -> bool {
        &&& 10 <= self.opacity_percent <= 100
        &&& self.opacity_percent % 10 == 0
    }

    /// The state after `event`: a digit key in 0..=9 sets the opacity, the
    /// effect key advances the effect cycle, a resize marks the swapchain for
    /// rebuilding, and everything else leaves the state unchanged.
    pub open spec fn step(self, event: UiEvent) -> UiState {
        match event {
            UiEvent::KeyDigit(d) => if d <= 9 {
                UiState { opacity_percent: opacity_for_digit(d), ..self }
            } else {
                self
            },
            UiEvent::KeyCycleEffect => UiState { effect: self.effect.next_spec(), ..self },
            UiEvent::Resized => UiState { recreate_swapchain: true, ..self },
            _ => self,
        }
    }

    /// The action the loop owes after `event`: exit on a close request or
    /// escape, announce an opacity or effect change, otherwise nothing.
    pub open spec fn action_for(self, event: UiEvent) -> UiAction {
        match event {
            UiEvent::CloseRequested => UiAction::Exit,
            UiEvent::KeyEscape => UiAction::Exit,
            UiEvent::KeyDigit(d) => if d <= 9 {
                UiAction::ShowOpacity(opacity_for_digit(d))
            } else {
                UiAction::Nothing
            },
            UiEvent::KeyCycleEffect => UiAction::ShowEffect(self.effect.next_spec()),
            UiEvent::KeyOther => UiAction::Nothing,
            UiEvent::Resized => UiAction::Nothing,
        }
    }

    /// The state the loop starts in: fully opaque, the plain effect, no
    /// swapchain rebuild owed.
    pub fn new() -> (s: UiState)
        ensures
            s.wf(),
            s == (UiState { opacity_percent: 100u8, effect: TextEffect::Normal, recreate_swapchain: false }),
    {
        UiState { opacity_percent: 100, effect: TextEffect::Normal, recreate_swapchain: false }
    }

    /// Applies one event to the state and returns the action the loop owes.
    pub fn handle_event(&mut self, event: UiEvent) -> (action: UiAction)
        ensures
            *final(self) == old(self).step(event),
            action == old(self).action_for(event),
            old(self).wf() ==> final(self).wf(),
    {
        match event {
            UiEvent::CloseRequested => UiAction::Exit,
            UiEvent::KeyEscape => UiAction::Exit,
            UiEvent::KeyDigit(d) => {
                if d <= 9 {
                    let percent: u8 = if d == 0 {
                        100
                    } else {
                        d * 10
                    };
                    self.opacity_percent = percent;
                    UiAction::ShowOpacity(percent)
                } else {
                    UiAction::Nothing
                }
            },
            UiEvent::KeyCycleEffect => {
                self.effect = self.effect.next();
                UiAction::ShowEffect(self.effect)
            },
            UiEvent::KeyOther => UiAction::Nothing,
            UiEvent::Resized => {
                self.recreate_swapchain = true;
                UiAction::Nothing
            },
        }
    }

    /// Marks the owed swapchain rebuild as done.
    pub fn swapchain_recreated(&mut self)
        ensures
            *final(self) == (UiState { recreate_swapchain: false, ..*old(self) }),
    {
        self.recreate_swapchain = false;
    }
}

/// Every event keeps the state well formed: the opacity never leaves the
/// multiples of ten between 10% and 100%.
pub proof fn lemma_step_preserves_wf(s: UiState, event: UiEvent)
    requires
        s.wf(),
    ensures
        s.step(event).wf(),
{
}

} // verus!
