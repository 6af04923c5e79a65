//! The terminal-multiplexer configuration text generator.
//!
//! Every line the generator emits is pinned down by the specification
//! functions below; `render` produces exactly their concatenation for the
//! multiplexer version it is given.

use vstd::prelude::*;
use vstd::string::*;

verus! {

/// The multiplexer versions the generated configuration distinguishes.
#[derive(Clone, Copy, Debug, PartialEq, Eq, Structural)]
pub enum Version {
    V25,
    V26,
    V27,
    V28,
}

/// A version's numeric rank, for feature comparisons.
pub open spec fn spec_version_rank(v: Version) -> int {
    match v {
        Version::V25 => 25,
        Version::V26 => 26,
        Version::V27 => 27,
        Version::V28 => 28,
    }
}

/// A version's display form.
pub open spec fn spec_version_str(v: Version) -> Seq<char> {
    match v {
        Version::V25 => "2.5"@,
        Version::V26 => "2.6"@,
        Version::V27 => "2.7"@,
        Version::V28 => "2.8"@,
    }
}

impl Version {
    /// The version as it appears in the configuration header.
    pub fn as_str(&self) -> (r: &'static str)
        ensures
            r@ == spec_version_str(*self),
    {
        match self {
            Version::V25 => "2.5",
            Version::V26 => "2.6",
            Version::V27 => "2.7",
            Version::V28 => "2.8",
        }
    }

    /// The version's numeric rank, for feature comparisons.
    pub fn rank(&self) -> (r: u32)
        ensures
            r == spec_version_rank(*self),
    {
        match self {
            Version::V25 => 25,
            Version::V26 => 26,
            Version::V27 => 27,
            Version::V28 => 28,
        }
    }
}

/// The decimal form of a small key or window number.
pub open spec fn spec_num(n: int) -> Seq<char> {
    if n == 1 {
        "1"@
    } else if n == 2 {
        "2"@
    } else if n == 3 {
        "3"@
    } else if n == 4 {
        "4"@
    } else if n == 5 {
        "5"@
    } else if n == 6 {
        "6"@
    } else if n == 7 {
        "7"@
    } else if n == 8 {
        "8"@
    } else if n == 9 {
        "9"@
    } else if n == 10 {
        "10"@
    } else if n == 11 {
        "11"@
    } else if n == 12 {
        "12"@
    } else {
        Seq::empty()
    }
}

fn num_str(n: usize) -> (r: &'static str)
    requires
        1 <= n <= 12,
    ensures
        r@ == spec_num(n as int),
{
    match n {
        1 => "1",
        2 => "2",
        3 => "3",
        4 => "4",
        5 => "5",
        6 => "6",
        7 => "7",
        8 => "8",
        9 => "9",
        10 => "10",
        11 => "11",
        _ => "12",
    }
}

/// A section-marker label centred in a 100-column rule of dashes, the
/// extra dash going to the right when the padding is odd.
pub open spec fn spec_centered(label: Seq<char>) -> Seq<char> {
    if label.len() >= 100 {
        label
    } else {
        Seq::new(((100 - label.len()) / 2) as nat, |i: int| '-') + label + Seq::new(
            ((100 - label.len()) - (100 - label.len()) / 2) as nat,
            |i: int| '-',
        )
    }
}

/// The comment line opening a named section.
pub open spec fn spec_start_marker(name: Seq<char>) -> Seq<char> {
    "# "@ + spec_centered(" start "@ + name + " "@) + "\n"@
}

/// The comment line closing a named section.
pub open spec fn spec_end_marker(name: Seq<char>) -> Seq<char> {
    "# "@ + spec_centered(" end "@ + name + " "@) + "\n"@
}

/// A whole named section: its two marker lines around its body.
pub open spec fn spec_section(name: Seq<char>, body: Seq<char>) -> Seq<char> {
    spec_start_marker(name) + body + spec_end_marker(name)
}

fn push_dashes(out: &mut String, n: usize)
    ensures
        final(out)@ == old(out)@ + Seq::new(n as nat, |i: int| '-'),
{
    let mut i: usize = 0;
    while i < n
        invariant
            i <= n,
            out@ == old(out)@ + Seq::new(i as nat, |j: int| '-'),
        decreases n - i,
    {
        out.append("-");
        proof {
            reveal_strlit("-");
            assert(out@ =~= old(out)@ + Seq::new((i + 1) as nat, |j: int| '-'));
        }
        i += 1;
    }
    proof {
        assert(old(out)@ + Seq::new(0nat, |j: int| '-') =~= old(out)@);
    }
}

fn push_marker(out: &mut String, label: &str)
    ensures
        final(out)@ == old(out)@ + ("# "@ + spec_centered(label@) + "\n"@),
{
    out.append("# ");
    let ln = label.unicode_len();
    if ln >= 100 {
        out.append(label);
    } else {
        let pad = 100 - ln;
        push_dashes(out, pad / 2);
        out.append(label);
        push_dashes(out, pad - pad / 2);
    }
    out.append("\n");
    proof {
        assert(out@ =~= old(out)@ + ("# "@ + spec_centered(label@) + "\n"@));
    }
}

/// Open a named section with its marker line.
pub fn write_start_section(out: &mut String, name: &str)
    ensures
        final(out)@ == old(out)@ + spec_start_marker(name@),
{
    let label = String::from_str(" start ").concat(name).concat(" ");
    push_marker(out, label.as_str());
}

/// Close a named section with its marker line.
pub fn write_end_section(out: &mut String, name: &str)
    ensures
        final(out)@ == old(out)@ + spec_end_marker(name@),
{
    let label = String::from_str(" end ").concat(name).concat(" ");
    push_marker(out, label.as_str());
}

/// Emit a whole named section around a fixed body.
pub fn section(out: &mut String, name: &str, body: &str)
    ensures
        final(out)@ == old(out)@ + spec_section(name@, body@),
{
    write_start_section(out, name);
    out.append(body);
    write_end_section(out, name);
    proof {
        assert(out@ =~= old(out)@ + spec_section(name@, body@));
    }
}

/// The fixed option block of the configuration.
pub open spec fn spec_options() -> Seq<char> {
    "set-option -g base-index 0\nset-option -g default-shell \"$NMK_TMUX_DEFAULT_SHELL\"\nset-option -g default-terminal \"$NMK_TMUX_DEFAULT_TERMINAL\"\nset-option -g detach-on-destroy \"$NMK_TMUX_DETACH_ON_DESTROY\"\nset-option -g display-time 1200\nset-option -g history-file \"$NMK_TMUX_HISTORY\"\nset-option -g history-limit 2500\nset-option -g status-keys emacs\nset-option -g status-left-length 20\nset-option -g status-right-length 60\nset-option -g status-right \"#{?client_prefix,^B ,}'#[fg=colour51]#{=40:pane_title}#[default]' %H:%M %Z %a, %d\"\nset-window-option -g mode-keys vi\n"@
}

/// Emit the option block.
pub fn render_options(out: &mut String)
    ensures
        final(out)@ == old(out)@ + spec_options(),
{
    out.append(
        "set-option -g base-index 0\nset-option -g default-shell \"$NMK_TMUX_DEFAULT_SHELL\"\nset-option -g default-terminal \"$NMK_TMUX_DEFAULT_TERMINAL\"\nset-option -g detach-on-destroy \"$NMK_TMUX_DETACH_ON_DESTROY\"\nset-option -g display-time 1200\nset-option -g history-file \"$NMK_TMUX_HISTORY\"\nset-option -g history-limit 2500\nset-option -g status-keys emacs\nset-option -g status-left-length 20\nset-option -g status-right-length 60\nset-option -g status-right \"#{?client_prefix,^B ,}'#[fg=colour51]#{=40:pane_title}#[default]' %H:%M %Z %a, %d\"\nset-window-option -g mode-keys vi\n",
    );
}

/// The tree-chooser binding for a version: the sessions-only and zoom
/// switches exist from versions 2.6 and 2.7 on.
pub open spec fn spec_choose_tree(v: Version) -> Seq<char> {
    "choose-tree"@ + (if spec_version_rank(v) >= 26 {
        " -s"@
    } else {
        Seq::empty()
    }) + (if spec_version_rank(v) >= 27 {
        " -Z"@
    } else {
        Seq::empty()
    })
}

/// The tree-chooser command for a version.
pub fn choose_tree(v: Version) -> (r: String)
    ensures
        r@ == spec_choose_tree(v),
{
    let mut s = String::from_str("choose-tree");
    if v.rank() >= 26 {
        s = s.concat(" -s");
    }
    if v.rank() >= 27 {
        s = s.concat(" -Z");
    }
    proof {
        assert(s@ =~= spec_choose_tree(v));
    }
    s
}

/// One numbered binding line: `pre`, the number, `mid`, the number again,
/// then `suf`.
pub open spec fn spec_numbered_line(pre: Seq<char>, mid: Seq<char>, suf: Seq<char>, n: int) -> Seq<
    char,
> {
    pre + spec_num(n) + mid + spec_num(n) + suf
}

/// The numbered binding lines for `lo` through `hi`.
pub open spec fn spec_numbered_lines(
    pre: Seq<char>,
    mid: Seq<char>,
    suf: Seq<char>,
    lo: int,
    hi: int,
) -> Seq<char>
    decreases hi + 1 - lo,
{
    if lo > hi {
        Seq::empty()
    } else {
        spec_numbered_line(pre, mid, suf, lo) + spec_numbered_lines(pre, mid, suf, lo + 1, hi)
    }
}

proof fn lemma_numbered_snoc(pre: Seq<char>, mid: Seq<char>, suf: Seq<char>, lo: int, hi: int)
    requires
        lo <= hi,
    ensures
        spec_numbered_lines(pre, mid, suf, lo, hi) == spec_numbered_lines(pre, mid, suf, lo, hi - 1)
            + spec_numbered_line(pre, mid, suf, hi),
    decreases hi - lo,
{
    if lo == hi {
        assert(spec_numbered_lines(pre, mid, suf, lo + 1, hi) == Seq::<char>::empty());
        assert(spec_numbered_lines(pre, mid, suf, lo, hi - 1) == Seq::<char>::empty());
        assert(spec_numbered_line(pre, mid, suf, lo) + Seq::<char>::empty() =~= Seq::<
            char,
        >::empty() + spec_numbered_line(pre, mid, suf, lo));
    } else {
        lemma_numbered_snoc(pre, mid, suf, lo + 1, hi);
        assert(spec_numbered_lines(pre, mid, suf, lo, hi) == spec_numbered_line(pre, mid, suf, lo)
            + (spec_numbered_lines(pre, mid, suf, lo + 1, hi - 1) + spec_numbered_line(
            pre,
            mid,
            suf,
            hi,
        )));
        assert(spec_numbered_lines(pre, mid, suf, lo, hi - 1) == spec_numbered_line(
            pre,
            mid,
            suf,
            lo,
        ) + spec_numbered_lines(pre, mid, suf, lo + 1, hi - 1));
        assert(spec_numbered_line(pre, mid, suf, lo) + (spec_numbered_lines(
            pre,
            mid,
            suf,
            lo + 1,
            hi - 1,
        ) + spec_numbered_line(pre, mid, suf, hi)) =~= (spec_numbered_line(pre, mid, suf, lo)
            + spec_numbered_lines(pre, mid, suf, lo + 1, hi - 1)) + spec_numbered_line(
            pre,
            mid,
            suf,
            hi,
        ));
    }
}

fn push_numbered_lines(out: &mut String, pre: &str, mid: &str, suf: &str, hi: usize)
    requires
        1 <= hi <= 12,
    ensures
        final(out)@ == old(out)@ + spec_numbered_lines(pre@, mid@, suf@, 1, hi as int),
{
    let mut n: usize = 1;
    proof {
        assert(out@ =~= old(out)@ + spec_numbered_lines(pre@, mid@, suf@, 1, 0));
    }
    while n <= hi
        invariant
            1 <= n <= hi + 1,
            hi <= 12,
            out@ == old(out)@ + spec_numbered_lines(pre@, mid@, suf@, 1, n - 1),
        decreases hi + 1 - n,
    {
        let ns = num_str(n);
        out.append(pre);
        out.append(ns);
        out.append(mid);
        out.append(ns);
        out.append(suf);
        proof {
            lemma_numbered_snoc(pre@, mid@, suf@, 1, n as int);
            assert(out@ =~= old(out)@ + spec_numbered_lines(pre@, mid@, suf@, 1, n as int));
        }
        n += 1;
    }
}

/// The body of the pane-splitting section: every split and new-window
/// binding re-bound to start in the current pane's directory.
pub open spec fn spec_pane_body() -> Seq<char> {
    "unbind-key %\nbind-key % split-window -h  -c '#{pane_current_path}'\nunbind-key |\nbind-key | split-window -h  -c '#{pane_current_path}'\nunbind-key _\nbind-key _ split-window -c '#{pane_current_path}'\nunbind-key c\nbind-key c new-window -c '#{pane_current_path}'\nunbind-key '\"'\nbind-key '\"' split-window -c '#{pane_current_path}'\nbind-key C command-prompt \"new-session -c '#{pane_current_path}' -s '%%'\"\n"@
}

/// Emit the pane-splitting bindings.
pub fn pane_current_path(out: &mut String)
    ensures
        final(out)@ == old(out)@ + spec_pane_body(),
{
    out.append(
        "unbind-key %\nbind-key % split-window -h  -c '#{pane_current_path}'\nunbind-key |\nbind-key | split-window -h  -c '#{pane_current_path}'\nunbind-key _\nbind-key _ split-window -c '#{pane_current_path}'\nunbind-key c\nbind-key c new-window -c '#{pane_current_path}'\nunbind-key '\"'\nbind-key '\"' split-window -c '#{pane_current_path}'\nbind-key C command-prompt \"new-session -c '#{pane_current_path}' -s '%%'\"\n",
    );
}

/// The copy-mode yank binding piped to the system clipboard, guarded by a
/// probe that the clipboard tool is usable.
pub open spec fn spec_clipboard_line() -> Seq<char> {
    "if-shell 'xclip -o > /dev/null 2>&1' 'bind-key -T copy-mode-vi y send-keys -X copy-pipe-and-cancel \"xclip -selection clipboard\"'\n"@
}

/// Emit the clipboard binding.
pub fn copy_to_system_clipboard(out: &mut String)
    ensures
        final(out)@ == old(out)@ + spec_clipboard_line(),
{
    out.append(
        "if-shell 'xclip -o > /dev/null 2>&1' 'bind-key -T copy-mode-vi y send-keys -X copy-pipe-and-cancel \"xclip -selection clipboard\"'\n",
    );
}

/// The half-page scrolling bindings of copy mode.
pub open spec fn spec_half_page_lines() -> Seq<char> {
    "unbind-key -T copy-mode-vi PageUp\nbind-key -T copy-mode-vi PageUp send-keys -X halfpage-up\nunbind-key -T copy-mode-vi PageDown\nbind-key -T copy-mode-vi PageDown send-keys -X halfpage-down\n"@
}

/// Emit the half-page scrolling bindings.
pub fn half_pageup_pagedown(out: &mut String)
    ensures
        final(out)@ == old(out)@ + spec_half_page_lines(),
{
    out.append(
        "unbind-key -T copy-mode-vi PageUp\nbind-key -T copy-mode-vi PageUp send-keys -X halfpage-up\nunbind-key -T copy-mode-vi PageDown\nbind-key -T copy-mode-vi PageDown send-keys -X halfpage-down\n",
    );
}

/// The lines clearing the generator's environment variables from the
/// global environment once the server has read them.
pub open spec fn spec_unset_body() -> Seq<char> {
    "set-environment -gr NMK_TMUX_256_COLOR\nset-environment -gr NMK_TMUX_DEFAULT_SHELL\nset-environment -gr NMK_TMUX_DEFAULT_TERMINAL\nset-environment -gr NMK_TMUX_DETACH_ON_DESTROY\nset-environment -gr NMK_TMUX_HISTORY\n"@
}

/// Emit the environment-clearing lines.
pub fn unset_tmux_envs(out: &mut String)
    ensures
        final(out)@ == old(out)@ + spec_unset_body(),
{
    out.append(
        "set-environment -gr NMK_TMUX_256_COLOR\nset-environment -gr NMK_TMUX_DEFAULT_SHELL\nset-environment -gr NMK_TMUX_DEFAULT_TERMINAL\nset-environment -gr NMK_TMUX_DETACH_ON_DESTROY\nset-environment -gr NMK_TMUX_HISTORY\n",
    );
}

/// The configuration's first line.
pub open spec fn spec_header(v: Version) -> Seq<char> {
    "# tmux "@ + spec_version_str(v) + " configuration\n"@
}

/// The body of the prefix-key section.
pub open spec fn spec_prefix_body() -> Seq<char> {
    "unbind-key C-b\nbind-key -r C-b send-prefix\nbind-key -r b select-pane -t :.+ \\; display-panes\n"@
}

/// The three control bindings between sections.
pub open spec fn spec_mid_binds() -> Seq<char> {
    "bind-key C-c command-prompt\nbind-key C-l switch-client -l\nbind-key C-t display-message '#{pane_tty}'\n"@
}

/// The body of the function-key section.
pub open spec fn spec_fn_keys_body(v: Version) -> Seq<char> {
    "bind-key -n F1 select-pane -t :.+ \\; display-panes\nbind-key -n F2 last-window\nbind-key -n F3 previous-window\nbind-key -n F4 next-window\nbind-key -n F5 resize-pane -Z\nbind-key -n F6 "@
        + spec_choose_tree(v) + "\nbind-key -n F8 switch-client -n\n"@ + spec_numbered_lines(
        "bind-key -n S-F"@,
        " send-keys F"@,
        "\n"@,
        1,
        12,
    )
}

/// The body of the F12 key-table section.
pub open spec fn spec_table_body() -> Seq<char> {
    "bind-key F12 send-keys F12\nbind-key -n F12 switch-client -T F12\n"@ + spec_numbered_lines(
        "bind-key -T F12 F"@,
        " send-keys F"@,
        "\n"@,
        1,
        11,
    ) + "bind-key -T F12 F12 detach-client\nbind-key -T F12 -r Space next-layout\n"@
        + spec_numbered_lines("bind-key -T F12 "@, " select-window -t "@, "\n"@, 1, 9)
}

/// The body of the copy-mode section.
pub open spec fn spec_copy_body() -> Seq<char> {
    "bind-key C-u copy-mode -u\n"@ + spec_clipboard_line()
        + "bind-key -T root WheelUpPane if-shell -F \"#{mouse_any_flag}\" \"send-keys -M\" \"if-shell -F '#{?pane_in_mode,1,}#{?alternate_on,1,}' 'send-keys -M' 'copy-mode -eu'\"\nbind-key -T root PageUp if-shell -F \"#{?pane_in_mode,1,}#{?alternate_on,1,}\" \"send-keys PageUp\" \"copy-mode -eu\"\n"@
        + spec_half_page_lines()
}

/// The colour-profile switch line.
pub open spec fn spec_colors_line() -> Seq<char> {
    "if-shell '[ x$NMK_TMUX_256_COLOR = x1 ]' 'source-file $NMK_HOME/tmux/256color.conf' 'source-file $NMK_HOME/tmux/8color.conf'\n"@
}

/// The whole configuration for a version.
pub open spec fn spec_render(v: Version) -> Seq<char> {
    spec_header(v) + spec_section("tmux options"@, spec_options()) + spec_section(
        "prefix keys"@,
        spec_prefix_body(),
    ) + spec_mid_binds() + spec_section("function key binding"@, spec_fn_keys_body(v))
        + spec_section("F12 Key table"@, spec_table_body()) + spec_section(
        "Pane current path"@,
        spec_pane_body(),
    ) + spec_section("Copy mode"@, spec_copy_body()) + spec_colors_line() + spec_section(
        "Unset tmux environments"@,
        spec_unset_body(),
    )
}

fn push_header(out: &mut String, v: Version)
    ensures
        final(out)@ == old(out)@ + spec_header(v),
{
    out.append("# tmux ");
    out.append(v.as_str());
    out.append(" configuration\n");
    proof {
        assert(out@ =~= old(out)@ + spec_header(v));
    }
}

fn push_options_section(out: &mut String)
    ensures
        final(out)@ == old(out)@ + spec_section("tmux options"@, spec_options()),
{
    write_start_section(out, "tmux options");
    render_options(out);
    write_end_section(out, "tmux options");
    proof {
        assert(out@ =~= old(out)@ + spec_section("tmux options"@, spec_options()));
    }
}

fn push_fn_keys_section(out: &mut String, v: Version)
    ensures
        final(out)@ == old(out)@ + spec_section("function key binding"@, spec_fn_keys_body(v)),
{
    write_start_section(out, "function key binding");
    out.append(
        "bind-key -n F1 select-pane -t :.+ \\; display-panes\nbind-key -n F2 last-window\nbind-key -n F3 previous-window\nbind-key -n F4 next-window\nbind-key -n F5 resize-pane -Z\nbind-key -n F6 ",
    );
    let ct = choose_tree(v);
    out.append(ct.as_str());
    out.append("\nbind-key -n F8 switch-client -n\n");
    push_numbered_lines(out, "bind-key -n S-F", " send-keys F", "\n", 12);
    write_end_section(out, "function key binding");
    proof {
        assert(out@ =~= old(out)@ + spec_section("function key binding"@, spec_fn_keys_body(v)));
    }
}

fn push_table_section(out: &mut String)
    ensures
        final(out)@ == old(out)@ + spec_section("F12 Key table"@, spec_table_body()),
{
    write_start_section(out, "F12 Key table");
    out.append("bind-key F12 send-keys F12\nbind-key -n F12 switch-client -T F12\n");
    push_numbered_lines(out, "bind-key -T F12 F", " send-keys F", "\n", 11);
    out.append("bind-key -T F12 F12 detach-client\nbind-key -T F12 -r Space next-layout\n");
    push_numbered_lines(out, "bind-key -T F12 ", " select-window -t ", "\n", 9);
    write_end_section(out, "F12 Key table");
    proof {
        assert(out@ =~= old(out)@ + spec_section("F12 Key table"@, spec_table_body()));
    }
}

fn push_pane_section(out: &mut String)
    ensures
        final(out)@ == old(out)@ + spec_section("Pane current path"@, spec_pane_body()),
{
    write_start_section(out, "Pane current path");
    pane_current_path(out);
    write_end_section(out, "Pane current path");
    proof {
        assert(out@ =~= old(out)@ + spec_section("Pane current path"@, spec_pane_body()));
    }
}

fn push_copy_section(out: &mut String)
    ensures
        final(out)@ == old(out)@ + spec_section("Copy mode"@, spec_copy_body()),
{
    write_start_section(out, "Copy mode");
    out.append("bind-key C-u copy-mode -u\n");
    copy_to_system_clipboard(out);
    out.append(
        "bind-key -T root WheelUpPane if-shell -F \"#{mouse_any_flag}\" \"send-keys -M\" \"if-shell -F '#{?pane_in_mode,1,}#{?alternate_on,1,}' 'send-keys -M' 'copy-mode -eu'\"\nbind-key -T root PageUp if-shell -F \"#{?pane_in_mode,1,}#{?alternate_on,1,}\" \"send-keys PageUp\" \"copy-mode -eu\"\n",
    );
    half_pageup_pagedown(out);
    write_end_section(out, "Copy mode");
    proof {
        assert(out@ =~= old(out)@ + spec_section("Copy mode"@, spec_copy_body()));
    }
}

fn push_unset_section(out: &mut String)
    ensures
        final(out)@ == old(out)@ + spec_section("Unset tmux environments"@, spec_unset_body()),
{
    write_start_section(out, "Unset tmux environments");
    unset_tmux_envs(out);
    write_end_section(out, "Unset tmux environments");
    proof {
        assert(out@ =~= old(out)@ + spec_section("Unset tmux environments"@, spec_unset_body()));
    }
}

/// Generate the whole configuration for version `v`, appended to `out`.
pub fn render(v: Version, out: &mut String)
    ensures
        final(out)@ == old(out)@ + spec_render(v),
{
    let ghost o = old(out)@;
    let ghost mut acc: Seq<char> = Seq::empty();
    push_header(out, v);
    proof {
        acc = spec_header(v);
    }
    push_options_section(out);
    proof {
        vstd::seq_lib::lemma_concat_associative(o, acc, spec_section("tmux options"@, spec_options()));
        acc = acc + spec_section("tmux options"@, spec_options());
    }
    section(
        out,
        "prefix keys",
        "unbind-key C-b\nbind-key -r C-b send-prefix\nbind-key -r b select-pane -t :.+ \\; display-panes\n",
    );
    proof {
        vstd::seq_lib::lemma_concat_associative(o, acc, spec_section("prefix keys"@, spec_prefix_body()));
        acc = acc + spec_section("prefix keys"@, spec_prefix_body());
    }
    out.append(
        "bind-key C-c command-prompt\nbind-key C-l switch-client -l\nbind-key C-t display-message '#{pane_tty}'\n",
    );
    proof {
        vstd::seq_lib::lemma_concat_associative(o, acc, spec_mid_binds());
        acc = acc + spec_mid_binds();
    }
    push_fn_keys_section(out, v);
    proof {
        vstd::seq_lib::lemma_concat_associative(o, acc, spec_section("function key binding"@, spec_fn_keys_body(v)));
        acc = acc + spec_section("function key binding"@, spec_fn_keys_body(v));
    }
    push_table_section(out);
    proof {
        vstd::seq_lib::lemma_concat_associative(o, acc, spec_section("F12 Key table"@, spec_table_body()));
        acc = acc + spec_section("F12 Key table"@, spec_table_body());
    }
    push_pane_section(out);
    proof {
        vstd::seq_lib::lemma_concat_associative(o, acc, spec_section("Pane current path"@, spec_pane_body()));
        acc = acc + spec_section("Pane current path"@, spec_pane_body());
    }
    push_copy_section(out);
    proof {
        vstd::seq_lib::lemma_concat_associative(o, acc, spec_section("Copy mode"@, spec_copy_body()));
        acc = acc + spec_section("Copy mode"@, spec_copy_body());
    }
    out.append(
        "if-shell '[ x$NMK_TMUX_256_COLOR = x1 ]' 'source-file $NMK_HOME/tmux/256color.conf' 'source-file $NMK_HOME/tmux/8color.conf'\n",
    );
    proof {
        vstd::seq_lib::lemma_concat_associative(o, acc, spec_colors_line());
        acc = acc + spec_colors_line();
    }
    push_unset_section(out);
    proof {
        vstd::seq_lib::lemma_concat_associative(o, acc, spec_section("Unset tmux environments"@, spec_unset_body()));
        acc = acc + spec_section("Unset tmux environments"@, spec_unset_body());
        assert(out@ == o + acc);
        assert(acc == spec_render(v));
    }
}

} // verus!
