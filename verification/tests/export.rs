use tca::export::{
    export_alacritty, export_base16, export_helix, export_iterm2, export_kitty, export_starship,
    export_tmux, export_vim, export_vscode, iterm2_plist, remove_spaces,
    ExportError, ExportFormat, ItermComponents,
};
use tca::theme::Theme;
use tca::BuiltinTheme;

fn make_test_theme() -> Theme {
    let mut t = BuiltinTheme::default().theme();
    t.meta.name = "Test Theme".to_string();
    t.meta.author = "Test Author".to_string();
    t.meta.dark = true;
    t.ansi.black = "#000000".to_string();
    t.ansi.red = "#cc0000".to_string();
    t.ansi.green = "#4e9a06".to_string();
    t.ansi.yellow = "#c4a000".to_string();
    t.ansi.blue = "#3465a4".to_string();
    t.ansi.magenta = "#75507b".to_string();
    t.ansi.cyan = "#06989a".to_string();
    t.ansi.white = "#d3d7cf".to_string();
    t.ansi.bright_black = "#555753".to_string();
    t.ansi.bright_red = "#ef2929".to_string();
    t.ansi.bright_green = "#8ae234".to_string();
    t.ansi.bright_yellow = "#fce94f".to_string();
    t.ansi.bright_blue = "#729fcf".to_string();
    t.ansi.bright_magenta = "#ad7fa8".to_string();
    t.ansi.bright_cyan = "#34e2e2".to_string();
    t.ansi.bright_white = "#eeeeec".to_string();
    t.semantic.error = "#cc0000".to_string();
    t.semantic.warning = "#c4a000".to_string();
    t.semantic.info = "#3465a4".to_string();
    t.semantic.success = "#4e9a06".to_string();
    t.semantic.highlight = "#c4a000".to_string();
    t.semantic.link = "#06989a".to_string();
    t.ui.bg.primary = "#1c1c1c".to_string();
    t.ui.bg.secondary = "#2c2c2c".to_string();
    t.ui.fg.primary = "#eeeeec".to_string();
    t.ui.fg.secondary = "#d3d7cf".to_string();
    t.ui.fg.muted = "#888a85".to_string();
    t.ui.border.primary = "#555753".to_string();
    t.ui.border.muted = "#2c2c2c".to_string();
    t.ui.cursor.primary = "#eeeeec".to_string();
    t.ui.cursor.muted = "#888a85".to_string();
    t.ui.selection.bg = "#3465a4".to_string();
    t.ui.selection.fg = "#eeeeec".to_string();
    t
}

/// The channel texts of an iTerm2 preset color, each channel as a fraction
/// of full intensity.
fn components(c: &tca::export::ItermColor) -> ItermComponents {
    ItermComponents {
        key: c.key.clone(),
        red: format!("{}", c.red as f64 / 255.0),
        green: format!("{}", c.green as f64 / 255.0),
        blue: format!("{}", c.blue as f64 / 255.0),
    }
}

#[test]
fn test_export_kitty() {
    let theme = make_test_theme();
    let out = export_kitty(&theme).unwrap();
    assert!(out.contains("# Test Theme"), "missing header");
    assert!(out.contains("color0 #000000"), "missing ANSI black");
    assert!(out.contains("color15 #eeeeec"), "missing ANSI bright_white");
    assert!(out.contains("background #1c1c1c"), "missing background");
    assert!(out.contains("foreground #eeeeec"), "missing foreground");
    assert!(out.contains("cursor #eeeeec"), "missing cursor");
    assert!(out.contains("selection_background #3465a4"), "missing selection_bg");
}

#[test]
fn test_export_alacritty() {
    let theme = make_test_theme();
    let out = export_alacritty(&theme).unwrap();
    assert!(out.contains("[colors.primary]"), "missing primary section");
    assert!(out.contains("[colors.normal]"), "missing normal section");
    assert!(out.contains("[colors.bright]"), "missing bright section");
    assert!(out.contains("background = '#1c1c1c'"), "missing background");
    assert!(out.contains("foreground = '#eeeeec'"), "missing foreground");
    assert!(out.contains("black = '#000000'"), "missing normal black");
}

#[test]
fn test_export_vim_dark() {
    let theme = make_test_theme();
    let out = export_vim(&theme).unwrap();
    assert!(out.contains("set background=dark"), "missing dark background");
    assert!(out.contains("let g:colors_name = 'TestTheme'"), "missing colors_name");
    assert!(out.contains("let g:terminal_color_0 = '#000000'"), "missing terminal color");
    assert!(out.contains("hi Normal guifg=#eeeeec guibg=#1c1c1c"), "missing Normal highlight");
}

#[test]
fn test_export_vim_light() {
    let mut theme = make_test_theme();
    theme.meta.dark = false;
    let out = export_vim(&theme).unwrap();
    assert!(out.contains("set background=light"), "should be light background");
}

#[test]
fn test_export_helix() {
    let theme = make_test_theme();
    let out = export_helix(&theme).unwrap();
    assert!(out.contains("[ui]"), "missing ui section");
    assert!(out.contains("[palette]"), "missing palette section");
    assert!(out.contains("background = \"#1c1c1c\""), "missing background");
    assert!(out.contains("foreground = \"#eeeeec\""), "missing foreground");
    assert!(out.contains("black = \"#000000\""), "missing black palette entry");
}

#[test]
fn test_export_starship() {
    let theme = make_test_theme();
    let out = export_starship(&theme);
    assert!(out.contains("[palettes.tca]"), "missing palette section");
    assert!(out.contains("palette = \"tca\""), "missing palette enable");
    assert!(out.contains("black = \"#000000\""), "missing black entry");
}

#[test]
fn test_export_vscode() {
    let theme = make_test_theme();
    let v = export_vscode(&theme).unwrap();
    assert_eq!(v.kind, "dark");
    assert_eq!(v.name, "Test Theme");
    assert_eq!(v.color("editor.background").unwrap(), "#1c1c1c");
    assert_eq!(v.color("editor.foreground").unwrap(), "#eeeeec");
    assert_eq!(v.color("editorCursor.foreground").unwrap(), "#eeeeec");
    assert_eq!(v.color("sideBar.background").unwrap(), "#2c2c2c");
    assert_eq!(v.color("activityBar.background").unwrap(), "#1c1c1c");
    assert_eq!(v.color("terminal.ansiBlack").unwrap(), "#000000");
    assert_eq!(v.color("editorError.foreground").unwrap(), "#cc0000");
}

#[test]
fn test_export_iterm2() {
    let theme = make_test_theme();
    let colors = export_iterm2(&theme).unwrap();
    let out = iterm2_plist(&colors.iter().map(components).collect());
    assert!(out.contains("<?xml"), "missing XML header");
    assert!(out.contains("<plist"), "missing plist tag");
    assert!(out.contains("Ansi 0 Color"), "missing ANSI 0");
    assert!(out.contains("Background Color"), "missing background");
    assert!(out.contains("Foreground Color"), "missing foreground");
    assert!(out.contains("sRGB"), "missing color space");
}

#[test]
fn test_export_tmux() {
    let theme = make_test_theme();
    let out = export_tmux(&theme).unwrap();
    assert!(out.contains("# TCA Theme: Test Theme"), "missing header");
    assert!(out.contains("set-option -g status-style"), "missing status-style");
    assert!(out.contains("set-option -g pane-border-style"), "missing pane-border");
    assert!(out.contains("set-option -g pane-active-border-style"), "missing active border");
}

#[test]
fn kitty_output_is_exact() {
    let theme = make_test_theme();
    let out = export_kitty(&theme).unwrap();
    let expected = "# Test Theme\n# Generated from TCA theme\n\n\
color0 #000000\ncolor1 #cc0000\ncolor2 #4e9a06\ncolor3 #c4a000\n\
color4 #3465a4\ncolor5 #75507b\ncolor6 #06989a\ncolor7 #d3d7cf\n\
color8 #555753\ncolor9 #ef2929\ncolor10 #8ae234\ncolor11 #fce94f\n\
color12 #729fcf\ncolor13 #ad7fa8\ncolor14 #34e2e2\ncolor15 #eeeeec\n\
\n# UI Colors\n\
foreground #eeeeec\nbackground #1c1c1c\ncursor #eeeeec\n\
selection_background #3465a4\nselection_foreground #eeeeec\n";
    assert_eq!(out, expected);
}

#[test]
fn tmux_output_is_exact() {
    let theme = make_test_theme();
    let out = export_tmux(&theme).unwrap();
    let expected = "# TCA Theme: Test Theme\n# Generated by tca-export\n\
# Usage: source this file in your tmux.conf\n\n\
# Status bar\n\
set-option -g status-style \"bg=#1c1c1c,fg=#eeeeec\"\n\
set-option -g status-left-style \"bg=#1c1c1c,fg=#eeeeec\"\n\
set-option -g status-right-style \"bg=#1c1c1c,fg=#eeeeec\"\n\n\
# Window status\n\
set-option -g window-status-style \"bg=#1c1c1c,fg=#888a85\"\n\
set-option -g window-status-current-style \"bg=#3465a4,fg=#eeeeec\"\n\n\
# Pane borders\n\
set-option -g pane-border-style \"fg=#555753\"\n\
set-option -g pane-active-border-style \"fg=#3465a4\"\n\n\
# Message style\n\
set-option -g message-style \"bg=#3465a4,fg=#eeeeec\"\n\
set-option -g message-command-style \"bg=#1c1c1c,fg=#eeeeec\"\n\n\
# Copy mode\n\
set-window-option -g mode-style \"bg=#3465a4,fg=#eeeeec\"\n";
    assert_eq!(out, expected);
}

#[test]
fn alacritty_and_helix_name_the_bright_colors() {
    let theme = make_test_theme();
    let a = export_alacritty(&theme).unwrap();
    assert!(a.ends_with("[colors.bright]\nblack = '#555753'\nred = '#ef2929'\ngreen = '#8ae234'\nyellow = '#fce94f'\nblue = '#729fcf'\nmagenta = '#ad7fa8'\ncyan = '#34e2e2'\nwhite = '#eeeeec'\n"));
    let h = export_helix(&theme).unwrap();
    assert!(h.contains("bright-black = \"#555753\"\n"));
    assert!(h.ends_with("bright-white = \"#eeeeec\"\n"));
    let s = export_starship(&theme);
    assert!(s.contains("bright_black = \"#555753\"\n"));
    assert!(s.ends_with("bright_white = \"#eeeeec\"\n\n# Enable the palette\npalette = \"tca\"\n"));
}

#[test]
fn vim_lists_all_terminal_colors() {
    let theme = make_test_theme();
    let out = export_vim(&theme).unwrap();
    assert!(out.starts_with("\" Test Theme\n\" Generated from TCA theme\n\nset background=dark\nhi clear\n"));
    assert!(out.contains("let g:terminal_color_15 = '#eeeeec'\n"));
    assert!(out.ends_with("\n\" UI colors\nhi Normal guifg=#eeeeec guibg=#1c1c1c\n"));
}

#[test]
fn base24_references_resolve_in_exports() {
    let mut theme = make_test_theme();
    theme.ui.bg.primary = "base24.BASE0D".to_string();
    let slot = theme.base24.base0d.clone();
    let out = export_kitty(&theme).unwrap();
    assert!(out.contains(&format!("background {}\n", slot)));
}

#[test]
fn unresolved_reference_is_reported() {
    let mut theme = make_test_theme();
    theme.ui.cursor.primary = "palette.red".to_string();
    theme.ui.selection.bg = "nothing".to_string();
    let e = export_kitty(&theme).unwrap_err();
    assert_eq!(e, ExportError::Unresolved("palette.red".to_string()));
    assert_eq!(e.message(), "Could not resolve color reference: 'palette.red'");
    // vim and helix only resolve background and foreground
    assert!(export_vim(&theme).is_ok());
    assert!(export_helix(&theme).is_ok());
    assert!(export_vscode(&theme).is_err());
    assert!(export_tmux(&theme).is_err());
    // starship and base16 read no references
    assert!(export_starship(&theme).contains("[palettes.tca]"));
}

#[test]
fn iterm2_reports_invalid_hex() {
    let mut theme = make_test_theme();
    theme.ansi.green = "#12345".to_string();
    theme.ansi.blue = "not a color".to_string();
    let e = export_iterm2(&theme).unwrap_err();
    assert_eq!(e, ExportError::InvalidHex("#12345".to_string()));
    assert_eq!(e.message(), "Invalid hex color: #12345");
}

#[test]
fn iterm2_channels_and_plist() {
    let theme = make_test_theme();
    let colors = export_iterm2(&theme).unwrap();
    assert_eq!(colors.len(), 19);
    assert_eq!(colors[1].key, "Ansi 1 Color");
    assert_eq!((colors[1].red, colors[1].green, colors[1].blue), (0xcc, 0, 0));
    assert_eq!(colors[16].key, "Background Color");
    assert_eq!((colors[16].red, colors[16].green, colors[16].blue), (0x1c, 0x1c, 0x1c));
    assert_eq!(colors[18].key, "Cursor Color");
    let one = vec![ItermComponents {
        key: "Ansi 0 Color".to_string(),
        red: "0".to_string(),
        green: "0.5".to_string(),
        blue: "1".to_string(),
    }];
    let out = iterm2_plist(&one);
    assert!(out.contains("\t<key>Ansi 0 Color</key>\n\t<dict>\n\t\t<key>Color Space</key><string>sRGB</string>\n\t\t<key>Red Component</key><real>0</real>\n\t\t<key>Green Component</key><real>0.5</real>\n\t\t<key>Blue Component</key><real>1</real>\n\t</dict>\n"));
    assert!(out.ends_with("</dict>\n</plist>\n"));
}

#[test]
fn base16_export_writes_first_sixteen_slots() {
    let mut theme = make_test_theme();
    theme.meta.author = String::new();
    let out = export_base16(&theme);
    let b = &theme.base24;
    let mut expected = String::from("scheme: \"Test Theme\"\nauthor: \"Unknown\"\n");
    let slots = [
        &b.base00, &b.base01, &b.base02, &b.base03, &b.base04, &b.base05, &b.base06, &b.base07,
        &b.base08, &b.base09, &b.base0a, &b.base0b, &b.base0c, &b.base0d, &b.base0e, &b.base0f,
    ];
    for (i, s) in slots.iter().enumerate() {
        expected.push_str(&format!("base{:02X}: \"{}\"\n", i, s.trim_start_matches('#')));
    }
    assert_eq!(out, expected);
    assert!(out.contains("base0A: \""));
}

#[test]
fn export_formats_parse_case_insensitively() {
    assert_eq!(ExportFormat::parse("kitty"), Ok(ExportFormat::Kitty));
    assert_eq!(ExportFormat::parse("VSCode"), Ok(ExportFormat::Vscode));
    assert_eq!(ExportFormat::parse("ITERM2"), Ok(ExportFormat::Iterm2));
    assert_eq!(ExportFormat::parse("Base16"), Ok(ExportFormat::Base16));
    let e = ExportFormat::parse("emacs").unwrap_err();
    assert_eq!(e, ExportError::UnknownFormat("emacs".to_string()));
    assert_eq!(
        e.message(),
        "Unknown format: emacs. Available formats: base16, kitty, alacritty, vim, helix, starship, vscode, iterm2, tmux"
    );
}

#[test]
fn spaces_are_removed() {
    assert_eq!(remove_spaces(" Tokyo  Night "), "TokyoNight");
    assert_eq!(remove_spaces(""), "");
}

#[test]
fn vscode_theme_serializes_as_json() {
    let theme = make_test_theme();
    let v = export_vscode(&theme).unwrap();
    let mut colors = serde_json::Map::new();
    for (key, value) in &v.colors {
        colors.insert(key.clone(), serde_json::Value::String(value.clone()));
    }
    assert_eq!(colors.len(), v.colors.len(), "color names are distinct");
    let mut doc = serde_json::Map::new();
    doc.insert("name".to_string(), serde_json::Value::String(v.name.clone()));
    doc.insert("type".to_string(), serde_json::Value::String(v.kind.clone()));
    doc.insert("colors".to_string(), serde_json::Value::Object(colors));
    let out = serde_json::to_string_pretty(&serde_json::Value::Object(doc)).unwrap();
    let back: serde_json::Value = serde_json::from_str(&out).expect("valid JSON");
    assert_eq!(back["type"], "dark");
    assert_eq!(back["colors"]["editor.background"], "#1c1c1c");
    assert_eq!(back["colors"]["terminal.ansiBrightWhite"], "#eeeeec");
}
