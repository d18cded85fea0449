use transparent_text::effect::TextEffect;
use transparent_text::ui::{UiAction, UiEvent, UiState};

#[test]
fn initial_state_is_opaque_normal() {
    let state = UiState::new();
    assert_eq!(state.opacity_percent, 100);
    assert_eq!(state.effect, TextEffect::Normal);
    assert!(!state.recreate_swapchain);
}

#[test]
fn digit_keys_set_the_opacity() {
    let mut state = UiState::new();
    assert_eq!(state.handle_event(UiEvent::KeyDigit(1)), UiAction::ShowOpacity(10));
    assert_eq!(state.opacity_percent, 10);
    assert_eq!(state.handle_event(UiEvent::KeyDigit(9)), UiAction::ShowOpacity(90));
    assert_eq!(state.opacity_percent, 90);
    assert_eq!(state.handle_event(UiEvent::KeyDigit(0)), UiAction::ShowOpacity(100));
    assert_eq!(state.opacity_percent, 100);
}

#[test]
fn a_digit_above_nine_changes_nothing() {
    let mut state = UiState::new();
    assert_eq!(state.handle_event(UiEvent::KeyDigit(10)), UiAction::Nothing);
    assert_eq!(state.opacity_percent, 100);
}

#[test]
fn effect_key_cycles_the_effect() {
    let mut state = UiState::new();
    assert_eq!(
        state.handle_event(UiEvent::KeyCycleEffect),
        UiAction::ShowEffect(TextEffect::Outline)
    );
    assert_eq!(state.effect, TextEffect::Outline);
    state.handle_event(UiEvent::KeyCycleEffect);
    assert_eq!(state.effect, TextEffect::Shadow);
}

#[test]
fn close_and_escape_exit() {
    let mut state = UiState::new();
    assert_eq!(state.handle_event(UiEvent::CloseRequested), UiAction::Exit);
    assert_eq!(state.handle_event(UiEvent::KeyEscape), UiAction::Exit);
    assert_eq!(state, UiState::new());
}

#[test]
fn resize_marks_the_swapchain() {
    let mut state = UiState::new();
    assert_eq!(state.handle_event(UiEvent::Resized), UiAction::Nothing);
    assert!(state.recreate_swapchain);
    state.swapchain_recreated();
    assert!(!state.recreate_swapchain);
}

#[test]
fn other_keys_change_nothing() {
    let mut state = UiState::new();
    state.handle_event(UiEvent::KeyCycleEffect);
    let before = state;
    assert_eq!(state.handle_event(UiEvent::KeyOther), UiAction::Nothing);
    assert_eq!(state, before);
}
