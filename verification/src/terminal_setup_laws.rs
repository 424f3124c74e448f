//! Laws of the `/terminal-setup` report.

use vstd::prelude::*;

use crate::terminal_setup::{
    enabled_label, opt_line, rescue_label, spec_all_warnings, spec_clipboard_section,
    spec_diagnostics_section, spec_environment_section, spec_shift_enter_detail,
    spec_terminal_setup_report, spec_warning_block, spec_warning_blocks, yes_no,
    TerminalSetupFacts, Warning,
};
use crate::text::decimal;

verus! {

/// One problem if the warning is present, none otherwise.
pub open spec fn opt_count(w: Option<Warning>) -> nat {
    if w is Some {
        1
    } else {
        0
    }
}

/// The number of problems the gathered facts hold: every start-up warning
/// and each of the Wayland, WezTerm and colour warnings that is present.
pub open spec fn problem_count(f: TerminalSetupFacts) -> nat {
    f.startup_warnings@.len() + opt_count(f.wayland_warning) + opt_count(f.wezterm_warning)
        + opt_count(f.color_warning)
}

/// `needle` occurs as a contiguous part of `hay`.
pub open spec fn contains_text(hay: Seq<char>, needle: Seq<char>) -> bool {
    exists|i: int|
        0 <= i && i + needle.len() <= hay.len() && #[trigger] hay.subrange(i, i + needle.len())
            == needle
}

/// The line that announces a problem.
pub open spec fn problem_line(w: Warning) -> Seq<char> {
    "\n  [!] "@ + w.message@ + "\n"@
}

proof fn lemma_contains_middle(a: Seq<char>, b: Seq<char>, c: Seq<char>)
    ensures
        contains_text(a + b + c, b),
{
    assert((a + b + c).subrange(a.len() as int, (a.len() + b.len()) as int) =~= b);
}

proof fn lemma_contains_after(a: Seq<char>, d: Seq<char>, needle: Seq<char>)
    requires
        contains_text(d, needle),
    ensures
        contains_text(a + d, needle),
{
    let i = choose|i: int|
        0 <= i && i + needle.len() <= d.len() && #[trigger] d.subrange(i, i + needle.len())
            == needle;
    assert((a + d).subrange(a.len() + i, a.len() + i + needle.len()) =~= d.subrange(
        i,
        i + needle.len(),
    ));
}

proof fn lemma_blocks_concat(a: Seq<Warning>, b: Seq<Warning>)
    ensures
        spec_warning_blocks(a + b) == spec_warning_blocks(a) + spec_warning_blocks(b),
    decreases b.len(),
{
    if b.len() == 0 {
        assert(a + b =~= a);
        assert(spec_warning_blocks(a) + spec_warning_blocks(b) =~= spec_warning_blocks(a));
    } else {
        assert((a + b).drop_last() =~= a + b.drop_last());
        assert((a + b).last() == b.last());
        lemma_blocks_concat(a, b.drop_last());
        assert(spec_warning_blocks(a) + spec_warning_blocks(b) =~= spec_warning_blocks(a)
            + spec_warning_blocks(b.drop_last()) + spec_warning_block(b.last()));
    }
}

proof fn lemma_problem_in_diagnostics(ws: Seq<Warning>, k: int)
    requires
        0 <= k < ws.len(),
    ensures
        contains_text(spec_diagnostics_section(ws), problem_line(ws[k])),
{
    let w = ws[k];
    assert(ws =~= ws.take(k) + (seq![w] + ws.skip(k + 1)));
    lemma_blocks_concat(ws.take(k), seq![w] + ws.skip(k + 1));
    lemma_blocks_concat(seq![w], ws.skip(k + 1));
    assert(seq![w].drop_last() =~= Seq::<Warning>::empty());
    assert(spec_warning_blocks(seq![w]) =~= spec_warning_block(w)) by {
        reveal_with_fuel(spec_warning_blocks, 2);
    }
    let block = spec_warning_block(w);
    let tail = block.subrange(problem_line(w).len() as int, block.len() as int);
    assert(block =~= problem_line(w) + tail);
    let pre = "\n"@ + decimal(ws.len()) + " 个问题\n"@ + spec_warning_blocks(ws.take(k));
    let post = tail + spec_warning_blocks(ws.skip(k + 1));
    assert(spec_diagnostics_section(ws) =~= pre + problem_line(w) + post);
    lemma_contains_middle(pre, problem_line(w), post);
}

proof fn lemma_problem_listed(f: TerminalSetupFacts, k: int)
    requires
        0 <= k < spec_all_warnings(f).len(),
    ensures
        contains_text(spec_terminal_setup_report(f), problem_line(spec_all_warnings(f)[k])),
{
    lemma_problem_in_diagnostics(spec_all_warnings(f), k);
    lemma_contains_after(
        spec_environment_section(f) + spec_clipboard_section(f),
        spec_diagnostics_section(spec_all_warnings(f)),
        problem_line(spec_all_warnings(f)[k]),
    );
}

/// The report announces as many problems as the facts hold (the start-up
/// warnings plus each present Wayland, WezTerm and colour warning), says
/// that none were found exactly when there are none, and lists the message
/// of every one of them.
pub proof fn lemma_report_lists_every_problem(f: TerminalSetupFacts)
    ensures
        spec_all_warnings(f).len() == problem_count(f),
        problem_count(f) == 0 ==> spec_terminal_setup_report(f) == spec_environment_section(f)
            + spec_clipboard_section(f) + "\n未发现问题。\n"@,
        problem_count(f) > 0 ==> spec_terminal_setup_report(f) == spec_environment_section(f)
            + spec_clipboard_section(f) + ("\n"@ + decimal(problem_count(f)) + " 个问题\n"@
            + spec_warning_blocks(spec_all_warnings(f))),
        forall|k: int|
            0 <= k < f.startup_warnings@.len() ==> contains_text(
                spec_terminal_setup_report(f),
                problem_line(#[trigger] f.startup_warnings@[k]),
            ),
        f.wayland_warning matches Some(w) ==> contains_text(
            spec_terminal_setup_report(f),
            problem_line(w),
        ),
        f.wezterm_warning matches Some(w) ==> contains_text(
            spec_terminal_setup_report(f),
            problem_line(w),
        ),
        f.color_warning matches Some(w) ==> contains_text(
            spec_terminal_setup_report(f),
            problem_line(w),
        ),
{
    let ws = spec_all_warnings(f);
    let n = f.startup_warnings@.len() as int;
    assert(ws.len() == problem_count(f));
    assert forall|k: int| 0 <= k < n implies contains_text(
        spec_terminal_setup_report(f),
        problem_line(#[trigger] f.startup_warnings@[k]),
    ) by {
        assert(ws[k] == f.startup_warnings@[k]);
        lemma_problem_listed(f, k);
    }
    let a: int = opt_count(f.wayland_warning) as int;
    let b: int = opt_count(f.wezterm_warning) as int;
    if let Some(w) = f.wayland_warning {
        assert(ws[n] == w);
        lemma_problem_listed(f, n);
    }
    if let Some(w) = f.wezterm_warning {
        assert(ws[n + a] == w);
        lemma_problem_listed(f, n + a);
    }
    if let Some(w) = f.color_warning {
        assert(ws[n + a + b] == w);
        lemma_problem_listed(f, n + a + b);
    }
}

proof fn lemma_contains_self(n: Seq<char>)
    ensures
        contains_text(n, n),
{
    assert(n.subrange(0int, 0int + n.len()) =~= n);
}

proof fn lemma_contains_before(a: Seq<char>, b: Seq<char>, needle: Seq<char>)
    requires
        contains_text(a, needle),
    ensures
        contains_text(a + b, needle),
{
    let i = choose|i: int|
        0 <= i && i + needle.len() <= a.len() && #[trigger] a.subrange(i, i + needle.len())
            == needle;
    assert((a + b).subrange(i, i + needle.len()) =~= a.subrange(i, i + needle.len()));
}

/// The report's lines in order: the environment pieces, then the clipboard
/// pieces, then the diagnostics.
spec fn report_pieces(f: TerminalSetupFacts) -> Seq<Seq<char>> {
    let kb_line = if f.keyboard_needs_rescue {
        "  键盘         "@ + f.keyboard_label@ + " ("@ + rescue_label(f.macos) + ")\n"@
    } else {
        Seq::empty()
    };
    let nl_line = if f.shift_enter_unavailable && f.wezterm_warning is None {
        "  换行         Alt+Enter（"@ + spec_shift_enter_detail(f) + "）\n"@
    } else {
        Seq::empty()
    };
    seq!["环境\n"@, ("  终端         "@ + f.brand@ + "\n"@), opt_line("  终端版本     "@, f.terminal_version), ("  多路复用     "@ + f.multiplexer@ + "\n"@), opt_line("  Byobu        "@, f.byobu), ("  ssh          "@ + yes_no(f.ssh) + "\n"@), f.color_env_line@, f.themes_env_line@, kb_line, nl_line, "\n剪贴板路径\n"@, ("  native       "@ + enabled_label(f.clipboard_native) + "  (工具: "@ + f.native_tool_name@ + ")\n"@), ("  tmux buffer  "@ + enabled_label(f.clipboard_tmux_buffer) + "\n"@), ("  osc 52       "@ + enabled_label(f.clipboard_osc52) + "\n"@), ("  data-control "@ + f.data_control_label@ + "\n"@), spec_diagnostics_section(spec_all_warnings(f))]
}

spec fn fold_pieces(ps: Seq<Seq<char>>, n: int) -> Seq<char>
    decreases n,
{
    if n <= 0 {
        Seq::empty()
    } else {
        fold_pieces(ps, n - 1) + ps[n - 1]
    }
}

proof fn lemma_fold_contains(ps: Seq<Seq<char>>, k: int, n: int)
    requires
        0 <= k < n <= ps.len(),
    ensures
        contains_text(fold_pieces(ps, n), ps[k]),
    decreases n,
{
    if n == k + 1 {
        lemma_contains_self(ps[k]);
        lemma_contains_after(fold_pieces(ps, k), ps[k], ps[k]);
    } else {
        lemma_fold_contains(ps, k, n - 1);
        lemma_contains_before(fold_pieces(ps, n - 1), ps[n - 1], ps[k]);
    }
}

proof fn lemma_report_is_fold(f: TerminalSetupFacts)
    ensures
        spec_terminal_setup_report(f) == fold_pieces(report_pieces(f), 16),
        report_pieces(f).len() == 16,
{
    let ps = report_pieces(f);
    reveal_with_fuel(fold_pieces, 17);
    assert(spec_environment_section(f) =~= fold_pieces(ps, 10));
    assert(spec_clipboard_section(f) =~= ps[10] + ps[11] + ps[12] + ps[13] + ps[14]);
    assert(fold_pieces(ps, 15) =~= fold_pieces(ps, 10) + spec_clipboard_section(f));
}

proof fn lemma_report_has_piece(f: TerminalSetupFacts, k: int)
    requires
        0 <= k < 16,
    ensures
        contains_text(spec_terminal_setup_report(f), report_pieces(f)[k]),
{
    lemma_report_is_fold(f);
    lemma_fold_contains(report_pieces(f), k, 16);
}

/// The report opens with the environment section, which names the
/// terminal, its version when it reported one, the multiplexer, byobu when
/// present, whether the session is over SSH, the colour and theme lines and,
/// when keyboard input needs rescue, the keyboard line; when Shift+Enter is
/// unavailable and the WezTerm warning did not fire it points at Alt+Enter
/// with the reason. The clipboard section gives the state of each route.
pub proof fn lemma_report_lines(f: TerminalSetupFacts)
    ensures
        spec_terminal_setup_report(f).take(3) == "环境\n"@,
        contains_text(spec_terminal_setup_report(f), "  终端         "@ + f.brand@ + "\n"@),
        f.terminal_version matches Some(v) ==> contains_text(
            spec_terminal_setup_report(f),
            "  终端版本     "@ + v@ + "\n"@,
        ),
        contains_text(spec_terminal_setup_report(f), "  多路复用     "@ + f.multiplexer@ + "\n"@),
        f.byobu matches Some(b) ==> contains_text(
            spec_terminal_setup_report(f),
            "  Byobu        "@ + b@ + "\n"@,
        ),
        f.ssh ==> contains_text(spec_terminal_setup_report(f), "  ssh          "@ + "是"@ + "\n"@),
        !f.ssh ==> contains_text(spec_terminal_setup_report(f), "  ssh          "@ + "否"@ + "\n"@),
        contains_text(spec_terminal_setup_report(f), f.color_env_line@),
        contains_text(spec_terminal_setup_report(f), f.themes_env_line@),
        f.keyboard_needs_rescue && f.macos ==> contains_text(
            spec_terminal_setup_report(f),
            "  键盘         "@ + f.keyboard_label@ + " ("@ + "系统补救已启用"@ + ")\n"@,
        ),
        f.keyboard_needs_rescue && !f.macos ==> contains_text(
            spec_terminal_setup_report(f),
            "  键盘         "@ + f.keyboard_label@ + " ("@ + "本平台无系统补救"@ + ")\n"@,
        ),
        f.shift_enter_unavailable && f.wezterm_warning is None ==> ({
            let hint = "  换行         Alt+Enter（"@ + spec_shift_enter_detail(f) + "）\n"@;
            contains_text(spec_terminal_setup_report(f), hint)
        }),
        f.vte_version matches Some(v) ==> spec_shift_enter_detail(f) == "VTE "@ + v@
            + "；Shift+Enter 需要 >= 8200"@,
        f.vte_version is None && f.brand_is_vte ==> spec_shift_enter_detail(f)
            == "旧版 VTE；Shift+Enter 需要 VTE >= 0.82"@,
        f.vte_version is None && !f.brand_is_vte && f.brand_is_xterm_js ==> spec_shift_enter_detail(
            f,
        ) == f.brand@ + "：xterm.js 无法区分 Shift+Enter"@,
        f.vte_version is None && !f.brand_is_vte && !f.brand_is_xterm_js ==> spec_shift_enter_detail(
            f,
        ) == "无 Kitty 键盘协议；Shift+Enter 等同 Enter"@,
        contains_text(
            spec_terminal_setup_report(f),
            "  native       "@ + (if f.clipboard_native {
                "启用"@
            } else {
                "关闭"@
            }) + "  (工具: "@ + f.native_tool_name@ + ")\n"@,
        ),
        contains_text(
            spec_terminal_setup_report(f),
            "  tmux buffer  "@ + (if f.clipboard_tmux_buffer {
                "启用"@
            } else {
                "关闭"@
            }) + "\n"@,
        ),
        contains_text(
            spec_terminal_setup_report(f),
            "  osc 52       "@ + (if f.clipboard_osc52 {
                "启用"@
            } else {
                "关闭"@
            }) + "\n"@,
        ),
        contains_text(spec_terminal_setup_report(f), "  data-control "@ + f.data_control_label@ + "\n"@),
{
    let ps = report_pieces(f);
    let r = spec_terminal_setup_report(f);
    lemma_report_is_fold(f);
    reveal_with_fuel(fold_pieces, 17);
    assert(r.take(3) =~= "环境\n"@) by {
        reveal_strlit("环境\n");
        assert(r =~= ps[0] + (r.subrange(3, r.len() as int)));
    }
    lemma_report_has_piece(f, 1);
    lemma_report_has_piece(f, 2);
    lemma_report_has_piece(f, 3);
    lemma_report_has_piece(f, 4);
    lemma_report_has_piece(f, 5);
    lemma_report_has_piece(f, 6);
    lemma_report_has_piece(f, 7);
    lemma_report_has_piece(f, 8);
    lemma_report_has_piece(f, 9);
    lemma_report_has_piece(f, 10);
    lemma_report_has_piece(f, 11);
    lemma_report_has_piece(f, 12);
    lemma_report_has_piece(f, 13);
    lemma_report_has_piece(f, 14);
    lemma_report_has_piece(f, 15);
    assert(ps[1] == "  终端         "@ + f.brand@ + "\n"@);
    assert(ps[6] == f.color_env_line@);
}

/// Each problem is given as its line, then the fix (a configuration line
/// with the file it goes into, or a command to run) when there is one, then
/// the note when there is one.
pub proof fn lemma_problem_block_shape(w: Warning)
    ensures
        (w.fix, w.config_path) matches (Some(fix), Some(path)) ==> spec_warning_block(w).take((problem_line(w) + ("      修复：将 `"@ + fix@ + "` 写入 "@ + path@ + "\n"@)).len() as int) == problem_line(w) + ("      修复：将 `"@ + fix@ + "` 写入 "@ + path@ + "\n"@),
        (w.fix, w.config_path) matches (Some(fix), None) ==> spec_warning_block(w).take((problem_line(w) + ("      修复：运行 `"@ + fix@ + "`\n"@)).len() as int) == problem_line(w) + ("      修复：运行 `"@ + fix@ + "`\n"@),
        w.fix is None && w.note is None ==> spec_warning_block(w) == problem_line(w),
        w.note matches Some(note) ==> spec_warning_block(w).subrange(
            spec_warning_block(w).len() - ("      说明："@ + note@ + "\n"@).len(),
            spec_warning_block(w).len() as int,
        ) == "      说明："@ + note@ + "\n"@,
        w.note is None ==> spec_warning_block(w).take(problem_line(w).len() as int) == problem_line(w),
{
    let b = spec_warning_block(w);
    match (w.fix, w.config_path) {
        (Some(fix), Some(path)) => {
            let x = "      修复：将 `"@ + fix@ + "` 写入 "@ + path@ + "\n"@;
            assert(b.take((problem_line(w) + x).len() as int) =~= problem_line(w) + x);
        },
        (Some(fix), None) => {
            let x = "      修复：运行 `"@ + fix@ + "`\n"@;
            assert(b.take((problem_line(w) + x).len() as int) =~= problem_line(w) + x);
        },
        _ => {},
    }
    if let Some(note) = w.note {
        let x = "      说明："@ + note@ + "\n"@;
        assert(b.subrange(b.len() - x.len(), b.len() as int) =~= x);
    } else {
        assert(b.take(problem_line(w).len() as int) =~= problem_line(w));
    }
    if w.fix is None && w.note is None {
        assert(b =~= problem_line(w));
    }
}

} // verus!
