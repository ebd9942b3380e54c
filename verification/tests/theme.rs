use config_manager::state::VimMode;
use config_manager::theme::container_list::ContainerListTheme;
use config_manager::theme::editor::EditorTheme;
use config_manager::theme::menu::MenuTheme;
use config_manager::theme::status_line::StatusLineTheme;
use config_manager::theme::{Style, Theme, Tone, NORMAL_PREFIX, SELECTED_PREFIX};

fn fg(tone: Tone) -> Style {
    Style { fg: Some(tone), bg: None, bold: false }
}

fn bold(tone: Tone) -> Style {
    Style { fg: Some(tone), bg: None, bold: true }
}

fn bg(tone: Tone) -> Style {
    Style { fg: None, bg: Some(tone), bold: false }
}

#[test]
fn style_builders_set_one_property_each() {
    assert_eq!(Style::plain(), Style { fg: None, bg: None, bold: false });
    assert_eq!(Style::plain().fg(Tone::Red), fg(Tone::Red));
    assert_eq!(Style::plain().bg(Tone::Mantle), bg(Tone::Mantle));
    assert_eq!(Style::plain().bold(), Style { fg: None, bg: None, bold: true });
    assert_eq!(
        Style::plain().fg(Tone::Red).bg(Tone::Green).bold().fg(Tone::Text),
        Style { fg: Some(Tone::Text), bg: Some(Tone::Green), bold: true }
    );
}

#[test]
fn semantic_colours_map_to_the_palette() {
    assert_eq!(Theme::ACCENT, Theme::LAVENDER);
    assert_eq!(Theme::SELECTED, Theme::YELLOW);
    assert_eq!(Theme::MODIFIED, Theme::PEACH);
    assert_eq!(Theme::SUCCESS, Theme::GREEN);
    assert_eq!(Theme::ERROR, Theme::RED);
    assert_eq!(Theme::NORMAL_MODE, Theme::SAPPHIRE);
    assert_eq!(Theme::INSERT_MODE, Theme::MAUVE);
    assert_eq!(Theme::DIM, Theme::SUBTEXT0);
    assert_eq!(Theme::TEXT, Tone::Text);
    assert_eq!(Theme::OVERLAY1, Tone::Overlay1);
    assert_eq!(Theme::SURFACE1, Tone::Surface1);
    assert_eq!(Theme::MANTLE, Tone::Mantle);
    assert_eq!(Theme::LAVENDER, Tone::Lavender);
    assert_eq!(Theme::MAUVE, Tone::Mauve);
    assert_eq!(Theme::SAPPHIRE, Tone::Sapphire);
    assert_eq!(Theme::GREEN, Tone::Green);
    assert_eq!(Theme::YELLOW, Tone::Yellow);
    assert_eq!(Theme::PEACH, Tone::Peach);
    assert_eq!(Theme::RED, Tone::Red);
}

#[test]
fn standard_styles() {
    assert_eq!(Theme::standard_border_focused(), fg(Tone::Lavender));
    assert_eq!(Theme::standard_border_unfocused(), fg(Tone::Overlay1));
    assert_eq!(Theme::standard_selected_item(), bold(Tone::Yellow));
    assert_eq!(Theme::standard_normal_item(), fg(Tone::Text));
    assert_eq!(Theme::standard_title(), bold(Tone::Lavender));
    assert_eq!(Theme::standard_label(), fg(Tone::Subtext0));
    assert_eq!(Theme::standard_value(), fg(Tone::Yellow));
    assert_eq!(Theme::standard_background(), bg(Tone::Mantle));
    assert_eq!(Theme::standard_highlight_bg(), bg(Tone::Surface1));
}

#[test]
fn menu_theme() {
    assert_eq!(MenuTheme::title_style(), bold(Tone::Lavender));
    assert_eq!(MenuTheme::border_style(), fg(Tone::Lavender));
    assert_eq!(MenuTheme::selected_item_style(), bold(Tone::Yellow));
    assert_eq!(MenuTheme::normal_item_style(), fg(Tone::Text));
    assert_eq!(MenuTheme::selected_prefix(), "> ");
    assert_eq!(MenuTheme::normal_prefix(), "  ");
    assert_eq!(SELECTED_PREFIX, "> ");
    assert_eq!(NORMAL_PREFIX, "  ");
}

#[test]
fn editor_border_follows_mode_and_focus() {
    assert_eq!(EditorTheme::border_style(VimMode::Normal, true), fg(Tone::Sapphire));
    assert_eq!(EditorTheme::border_style(VimMode::Insert, true), fg(Tone::Mauve));
    assert_eq!(EditorTheme::border_style(VimMode::Normal, false), fg(Tone::Overlay1));
    assert_eq!(EditorTheme::border_style(VimMode::Insert, false), fg(Tone::Overlay1));
}

#[test]
fn container_list_theme() {
    assert_eq!(ContainerListTheme::id_style(), fg(Tone::Yellow));
    assert_eq!(ContainerListTheme::name_style(), fg(Tone::Text));
    assert_eq!(ContainerListTheme::status_info_style(), fg(Tone::Subtext0));
    assert_eq!(ContainerListTheme::border_focused(), fg(Tone::Lavender));
    assert_eq!(ContainerListTheme::border_unfocused(), fg(Tone::Overlay1));
    assert_eq!(
        ContainerListTheme::highlight_style(),
        Style { fg: Some(Tone::Text), bg: Some(Tone::Surface1), bold: true }
    );
}

#[test]
fn container_state_colours() {
    assert_eq!(ContainerListTheme::status_color("running"), Tone::Green);
    assert_eq!(ContainerListTheme::status_color("exited"), Tone::Overlay1);
    for state in ["paused", "created", "restarting", "", "Running", "running ", "exit"] {
        assert_eq!(ContainerListTheme::status_color(state), Tone::Yellow);
    }
}

#[test]
fn status_line_theme() {
    assert_eq!(StatusLineTheme::background(), bg(Tone::Mantle));
    assert_eq!(StatusLineTheme::mode_text(VimMode::Normal), "NORMAL");
    assert_eq!(StatusLineTheme::mode_text(VimMode::Insert), "INSERT");
    assert_eq!(StatusLineTheme::mode_style(VimMode::Normal), bold(Tone::Sapphire));
    assert_eq!(StatusLineTheme::mode_style(VimMode::Insert), bold(Tone::Mauve));
    assert_eq!(StatusLineTheme::filename_style(), fg(Tone::Text));
    assert_eq!(StatusLineTheme::modified_style(), fg(Tone::Peach));
    assert_eq!(StatusLineTheme::no_file_style(), fg(Tone::Subtext0));
    assert_eq!(StatusLineTheme::status_message_style(), fg(Tone::Green));
    assert_eq!(StatusLineTheme::error_message_style(), fg(Tone::Red));
    assert_eq!(StatusLineTheme::help_text_style(), fg(Tone::Subtext0));
    assert_eq!(StatusLineTheme::label_style(), fg(Tone::Subtext0));
    assert_eq!(StatusLineTheme::value_style(), fg(Tone::Yellow));
}
