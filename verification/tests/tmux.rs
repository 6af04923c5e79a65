use nmkup::tmux::{
    choose_tree, copy_to_system_clipboard, half_pageup_pagedown, pane_current_path, render,
    render_options, section, unset_tmux_envs, write_end_section, write_start_section, Version,
};

fn start_marker(name: &str) -> String {
    format!("# {:-^100}\n", format!(" start {} ", name))
}

fn end_marker(name: &str) -> String {
    format!("# {:-^100}\n", format!(" end {} ", name))
}

#[test]
fn test_write_section_markers() {
    let mut out = String::new();
    write_start_section(&mut out, "tmux options");
    write_end_section(&mut out, "tmux options");
    let expected = format!(
        "# {} start tmux options {}\n# {}- end tmux options -{}\n",
        "-".repeat(40),
        "-".repeat(40),
        "-".repeat(40),
        "-".repeat(40),
    );
    assert_eq!(out, expected);
    assert_eq!(out, format!("{}{}", start_marker("tmux options"), end_marker("tmux options")));
}

#[test]
fn test_section_wraps_body() {
    let mut out = String::new();
    section(&mut out, "prefix keys", "unbind-key C-b\n");
    let expected = format!(
        "{}unbind-key C-b\n{}",
        start_marker("prefix keys"),
        end_marker("prefix keys")
    );
    assert_eq!(out, expected);
}

#[test]
fn test_choose_tree_by_version() {
    assert_eq!(choose_tree(Version::V25), "choose-tree");
    assert_eq!(choose_tree(Version::V26), "choose-tree -s");
    assert_eq!(choose_tree(Version::V27), "choose-tree -s -Z");
    assert_eq!(choose_tree(Version::V28), "choose-tree -s -Z");
}

#[test]
fn test_version_strings() {
    assert_eq!(Version::V25.as_str(), "2.5");
    assert_eq!(Version::V28.as_str(), "2.8");
}

#[test]
fn test_render_whole_configuration() {
    let mut out = String::new();
    render(Version::V27, &mut out);

    let mut expected = String::new();
    expected.push_str("# tmux 2.7 configuration\n");
    expected.push_str(&start_marker("tmux options"));
    let mut options = String::new();
    render_options(&mut options);
    expected.push_str(&options);
    expected.push_str(&end_marker("tmux options"));
    expected.push_str(&start_marker("prefix keys"));
    expected.push_str("unbind-key C-b\n");
    expected.push_str("bind-key -r C-b send-prefix\n");
    expected.push_str("bind-key -r b select-pane -t :.+ \\; display-panes\n");
    expected.push_str(&end_marker("prefix keys"));
    expected.push_str("bind-key C-c command-prompt\n");
    expected.push_str("bind-key C-l switch-client -l\n");
    expected.push_str("bind-key C-t display-message '#{pane_tty}'\n");
    expected.push_str(&start_marker("function key binding"));
    expected.push_str("bind-key -n F1 select-pane -t :.+ \\; display-panes\n");
    expected.push_str("bind-key -n F2 last-window\n");
    expected.push_str("bind-key -n F3 previous-window\n");
    expected.push_str("bind-key -n F4 next-window\n");
    expected.push_str("bind-key -n F5 resize-pane -Z\n");
    expected.push_str("bind-key -n F6 choose-tree -s -Z\n");
    expected.push_str("bind-key -n F8 switch-client -n\n");
    for n in 1..=12 {
        expected.push_str(&format!("bind-key -n S-F{n} send-keys F{n}\n", n = n));
    }
    expected.push_str(&end_marker("function key binding"));
    expected.push_str(&start_marker("F12 Key table"));
    expected.push_str("bind-key F12 send-keys F12\n");
    expected.push_str("bind-key -n F12 switch-client -T F12\n");
    for n in 1..=11 {
        expected.push_str(&format!("bind-key -T F12 F{n} send-keys F{n}\n", n = n));
    }
    expected.push_str("bind-key -T F12 F12 detach-client\n");
    expected.push_str("bind-key -T F12 -r Space next-layout\n");
    for n in 1..=9 {
        expected.push_str(&format!("bind-key -T F12 {n} select-window -t {n}\n", n = n));
    }
    expected.push_str(&end_marker("F12 Key table"));
    expected.push_str(&start_marker("Pane current path"));
    let mut pane = String::new();
    pane_current_path(&mut pane);
    expected.push_str(&pane);
    expected.push_str(&end_marker("Pane current path"));
    expected.push_str(&start_marker("Copy mode"));
    expected.push_str("bind-key C-u copy-mode -u\n");
    let mut clip = String::new();
    copy_to_system_clipboard(&mut clip);
    expected.push_str(&clip);
    expected.push_str(
        r##"bind-key -T root WheelUpPane if-shell -F "#{mouse_any_flag}" "send-keys -M" "if-shell -F '#{?pane_in_mode,1,}#{?alternate_on,1,}' 'send-keys -M' 'copy-mode -eu'""##,
    );
    expected.push_str("\n");
    expected.push_str(
        r##"bind-key -T root PageUp if-shell -F "#{?pane_in_mode,1,}#{?alternate_on,1,}" "send-keys PageUp" "copy-mode -eu""##,
    );
    expected.push_str("\n");
    let mut half = String::new();
    half_pageup_pagedown(&mut half);
    expected.push_str(&half);
    expected.push_str(&end_marker("Copy mode"));
    expected.push_str("if-shell '[ x$NMK_TMUX_256_COLOR = x1 ]' 'source-file $NMK_HOME/tmux/256color.conf' 'source-file $NMK_HOME/tmux/8color.conf'\n");
    expected.push_str(&start_marker("Unset tmux environments"));
    let mut unset = String::new();
    unset_tmux_envs(&mut unset);
    expected.push_str(&unset);
    expected.push_str(&end_marker("Unset tmux environments"));

    assert_eq!(out, expected);
}

#[test]
fn test_render_pieces_exact() {
    let mut options = String::new();
    render_options(&mut options);
    assert!(options.starts_with("set-option -g base-index 0\n"));
    assert!(options.ends_with("set-window-option -g mode-keys vi\n"));
    assert_eq!(options.lines().count(), 12);

    let mut pane = String::new();
    pane_current_path(&mut pane);
    assert!(pane.contains("bind-key % split-window -h  -c '#{pane_current_path}'\n"));
    assert!(pane.contains(
        r##"bind-key C command-prompt "new-session -c '#{pane_current_path}' -s '%%'""##
    ));

    let mut clip = String::new();
    copy_to_system_clipboard(&mut clip);
    assert_eq!(
        clip,
        "if-shell 'xclip -o > /dev/null 2>&1' 'bind-key -T copy-mode-vi y send-keys -X copy-pipe-and-cancel \"xclip -selection clipboard\"'\n"
    );

    let mut half = String::new();
    half_pageup_pagedown(&mut half);
    assert_eq!(
        half,
        "unbind-key -T copy-mode-vi PageUp\nbind-key -T copy-mode-vi PageUp send-keys -X halfpage-up\nunbind-key -T copy-mode-vi PageDown\nbind-key -T copy-mode-vi PageDown send-keys -X halfpage-down\n"
    );

    let mut unset = String::new();
    unset_tmux_envs(&mut unset);
    assert_eq!(unset.lines().count(), 5);
    assert!(unset.starts_with("set-environment -gr NMK_TMUX_256_COLOR\n"));

    let mut render25 = String::new();
    render(Version::V25, &mut render25);
    assert!(render25.starts_with("# tmux 2.5 configuration\n"));
    assert!(render25.contains("bind-key -n F6 choose-tree\n"));
}
