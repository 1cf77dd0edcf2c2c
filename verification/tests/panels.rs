use theme_ui::assistant_panel::{
    AssistantPanel, AssistantPanelStory, AMPLE_TOKEN_COUNT, INITIAL_TOKEN_COUNT,
    RESET_TOKEN_COUNT, SCARCE_TOKEN_COUNT,
};
use theme_ui::decimal::decimal_text;
use theme_ui::notifications_panel::{NotificationsPanel, NotificationsPanelStory};
use theme_ui::panel::{LabelColor, PanelSide, ScrollState};

#[test]
fn new_assistant_panel_is_on_the_right_with_ten_tokens() {
    let panel: AssistantPanel<()> = AssistantPanel::new();
    assert_eq!(panel.token_count(), 10);
    assert_eq!(panel.current_side(), PanelSide::Right);
    assert_eq!(panel.scroll_state(), ScrollState { x: 0, y: 0 });
    assert_eq!(INITIAL_TOKEN_COUNT, 10);
}

#[test]
fn side_moves_the_panel_and_keeps_the_rest() {
    let mut panel: AssistantPanel<()> = AssistantPanel::new();
    panel.update_token_count(77);
    let panel = panel.side(PanelSide::Left);
    assert_eq!(panel.current_side(), PanelSide::Left);
    assert_eq!(panel.token_count(), 77);
    let panel = panel.side(PanelSide::Bottom).side(PanelSide::Right);
    assert_eq!(panel.current_side(), PanelSide::Right);
    assert_eq!(panel.scroll_state(), ScrollState::default());
}

#[test]
fn update_token_count_sets_the_count() {
    let mut panel: AssistantPanel<String> = AssistantPanel::new().side(PanelSide::Bottom);
    panel.update_token_count(0);
    assert_eq!(panel.token_count(), 0);
    panel.update_token_count(usize::MAX);
    assert_eq!(panel.token_count(), usize::MAX);
    assert_eq!(panel.current_side(), PanelSide::Bottom);
}

#[test]
fn reset_token_count_sets_the_count_after_a_reset() {
    let mut panel: AssistantPanel<()> = AssistantPanel::new();
    panel.update_token_count(3);
    panel.reset_token_count();
    assert_eq!(panel.token_count(), 8185);
    assert_eq!(RESET_TOKEN_COUNT, 8185);
    assert_eq!(panel.current_side(), PanelSide::Right);
}

#[test]
fn count_color_follows_the_two_thresholds() {
    let mut panel: AssistantPanel<()> = AssistantPanel::new();
    assert_eq!(panel.count_color(), LabelColor::Negative);
    let cases = [
        (0, LabelColor::Negative),
        (1000, LabelColor::Negative),
        (1001, LabelColor::Warning),
        (4000, LabelColor::Warning),
        (4001, LabelColor::Positive),
        (usize::MAX, LabelColor::Positive),
    ];
    for (token_count, color) in cases {
        panel.update_token_count(token_count);
        assert_eq!(panel.count_color(), color);
    }
    panel.reset_token_count();
    assert_eq!(panel.count_color(), LabelColor::Positive);
    assert_eq!((SCARCE_TOKEN_COUNT, AMPLE_TOKEN_COUNT), (1000, 4000));
}

#[test]
fn defaults_are_the_right_side_and_no_scroll() {
    assert_eq!(PanelSide::default(), PanelSide::Right);
    assert_eq!(ScrollState::default(), ScrollState { x: 0, y: 0 });
}

#[test]
fn notifications_panel_keeps_its_scroll_state() {
    let panel: NotificationsPanel<()> = NotificationsPanel::new(ScrollState { x: -3, y: 120 });
    assert_eq!(panel.scroll_state(), ScrollState { x: -3, y: 120 });
}

#[test]
fn stories_show_new_panels() {
    let story: AssistantPanelStory<()> = AssistantPanelStory::new();
    let panel = story.panel();
    assert_eq!(panel.token_count(), 10);
    assert_eq!(panel.current_side(), PanelSide::Right);
    let story: NotificationsPanelStory<()> = NotificationsPanelStory::new();
    assert_eq!(story.panel().scroll_state(), ScrollState::default());
}

#[test]
fn count_text_is_the_count_in_decimal() {
    let mut panel: AssistantPanel<()> = AssistantPanel::new();
    assert_eq!(panel.count_text(), "10");
    panel.reset_token_count();
    assert_eq!(panel.count_text(), "8185");
    for token_count in [0, 7, 9, 10, 99, 100, 1000, 4001, 1234567890, usize::MAX] {
        panel.update_token_count(token_count);
        assert_eq!(panel.count_text(), token_count.to_string());
    }
}

#[test]
fn decimal_text_has_no_leading_zeros() {
    assert_eq!(decimal_text(0), "0");
    assert_eq!(decimal_text(5), "5");
    assert_eq!(decimal_text(40), "40");
    assert_eq!(decimal_text(1005), "1005");
}
