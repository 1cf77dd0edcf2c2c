use std::sync::Arc;
use theme_ui::state::ThemeRegistryState;
use theme_ui::theme::{
    one_dark, rose_pine, rose_pine_dawn, rose_pine_moon, sandcastle, Theme, ThemeError,
    ThemeMetadata,
};

fn named(name: &str, is_light: bool) -> Theme {
    Theme { metadata: ThemeMetadata { name: name.to_string(), is_light } }
}

#[test]
fn presets_have_their_names_and_lightness() {
    assert_eq!(one_dark(), named("One Dark", false));
    assert_eq!(rose_pine(), named("Rosé Pine", false));
    assert_eq!(rose_pine_dawn(), named("Rosé Pine Dawn", true));
    assert_eq!(rose_pine_moon(), named("Rosé Pine Moon", false));
    assert_eq!(sandcastle(), named("Sandcastle", false));
}

#[test]
fn new_state_lists_the_presets_in_order() {
    let state = ThemeRegistryState::new();
    assert_eq!(
        state.list_names(false),
        vec!["One Dark", "Rosé Pine", "Rosé Pine Dawn", "Rosé Pine Moon", "Sandcastle"]
    );
    let themes: Vec<Theme> = state.list(false).iter().map(|theme| (**theme).clone()).collect();
    assert_eq!(
        themes,
        vec![one_dark(), rose_pine(), rose_pine_dawn(), rose_pine_moon(), sandcastle()]
    );
    assert_eq!(*state.active_theme(), one_dark());
}

#[test]
fn theme_in_effect_at_the_start_is_an_instance_of_its_own() {
    let state = ThemeRegistryState::new();
    assert!(!Arc::ptr_eq(&state.active_theme(), &state.get("One Dark").unwrap()));
    assert!(Arc::ptr_eq(&state.active_theme(), &state.active_theme()));
}

#[test]
fn state_get_finds_what_was_inserted_last() {
    let mut state = ThemeRegistryState::new();
    state.insert_themes(vec![named("Ayu", false), named("Ayu", true), named("One Dark", true)]);
    assert_eq!(*state.get("Ayu").unwrap(), named("Ayu", true));
    assert_eq!(*state.get("One Dark").unwrap(), named("One Dark", true));
    assert_eq!(*state.get("Sandcastle").unwrap(), sandcastle());
    assert_eq!(
        state.list_names(false),
        vec!["One Dark", "Rosé Pine", "Rosé Pine Dawn", "Rosé Pine Moon", "Sandcastle", "Ayu"]
    );
    assert_eq!(state.list(false).len(), 6);
}

#[test]
fn state_get_of_an_unknown_name_fails_with_that_name() {
    let state = ThemeRegistryState::new();
    assert_eq!(
        state.get("nonexistent-theme"),
        Err(ThemeError::NotFound { name: "nonexistent-theme".to_string() })
    );
}

#[test]
fn state_keeps_the_presets_when_insert_adds_others() {
    let mut state = ThemeRegistryState::new();
    let before = state.get("Rosé Pine Moon").unwrap();
    state.insert_themes(vec![named("Ayu", true)]);
    assert!(Arc::ptr_eq(&before, &state.get("Rosé Pine Moon").unwrap()));
}

#[test]
fn state_set_active_theme_takes_the_registered_instance() {
    let mut state = ThemeRegistryState::new();
    assert_eq!(state.set_active_theme("Rosé Pine"), Ok(()));
    assert!(Arc::ptr_eq(&state.active_theme(), &state.get("Rosé Pine").unwrap()));
    assert_eq!(
        state.set_active_theme("Rose Pine"),
        Err(ThemeError::NotFound { name: "Rose Pine".to_string() })
    );
    assert_eq!(*state.active_theme(), rose_pine());
}

#[test]
fn error_message_is_the_prefix_and_the_name() {
    let error = ThemeError::NotFound { name: "Rosé".to_string() };
    assert_eq!(error.message(), "theme not found: Rosé");
    assert_eq!(ThemeError::NotFound { name: String::new() }.message(), "theme not found: ");
}

#[test]
fn theme_in_effect_has_a_registered_name() {
    let mut state = ThemeRegistryState::new();
    assert!(state.get(&state.active_theme().metadata.name).is_ok());
    state.insert_themes(vec![named("Ayu", true)]);
    state.set_active_theme("Ayu").unwrap();
    state.insert_themes(vec![named("Ayu", false)]);
    assert!(state.active_theme().metadata.is_light);
    assert!(state.get(&state.active_theme().metadata.name).is_ok());
}
