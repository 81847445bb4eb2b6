//! The lines of the options menu.

use crate::number::{decimal_digits, push_decimal};
use crate::text::texts;
use crate::ui::Ui;
use vstd::prelude::*;
use vstd::string::StringExecFns;

verus! {

/// The mark in front of a line: an arrow on the line under the cursor, a
/// blank on any other.
pub open spec fn cursor_mark(selected: bool) -> Seq<char> {
    if selected {
        ">"@
    } else {
        " "@
    }
}

/// The box in front of a family: crossed where the family is shown.
pub open spec fn status_mark(enabled: bool) -> Seq<char> {
    if enabled {
        "[x]"@
    } else {
        "[ ]"@
    }
}

/// A sampling time for a reader: in milliseconds below a second, else in
/// whole seconds.
pub open spec fn interval_label(ms: u64) -> Seq<char> {
    if ms < 1000 {
        decimal_digits(ms as nat) + " ms"@
    } else {
        decimal_digits((ms / 1000) as nat) + " s"@
    }
}

/// The line of the sampling time.
pub open spec fn interval_line(selected: bool, ms: u64) -> Seq<char> {
    " "@ + cursor_mark(selected) + " Update Interval: "@ + interval_label(ms)
}

/// The line of one family.
pub open spec fn option_line(selected: bool, enabled: bool, label: Seq<char>) -> Seq<char> {
    " "@ + cursor_mark(selected) + " "@ + status_mark(enabled) + " "@ + label
}

/// The line of one interface.
pub open spec fn interface_line(selected: bool, name: Seq<char>) -> Seq<char> {
    "     "@ + cursor_mark(selected) + " "@ + name
}

/// The lines of the two platform families, which are there with platform
/// metrics only.
pub open spec fn platform_lines(ui: Ui, has_unix: bool) -> Seq<Seq<char>> {
    if has_unix {
        seq![
            option_line(ui.selected_option == 5, ui.show_npu, "NPU"@),
            option_line(ui.selected_option == 6, ui.show_rga, "RGA"@),
        ]
    } else {
        Seq::empty()
    }
}

/// The lines of the interfaces, which are there while the network is
/// shown.
pub open spec fn interface_lines(ui: Ui, names: Seq<Seq<char>>) -> Seq<Seq<char>> {
    if ui.show_network {
        Seq::new(names.len(), |i: int| interface_line(ui.selected_interface == i, names[i]))
    } else {
        Seq::empty()
    }
}

/// The head of the menu: the sampling time, a heading, and the four
/// portable families.
pub open spec fn head_lines(ui: Ui) -> Seq<Seq<char>> {
    seq![
        interval_line(
            ui.selected_option == 0,
            ui.update_interval_presets@[ui.selected_update_interval_idx as int],
        ),
        Seq::empty(),
        " Metrics:"@,
        Seq::empty(),
        option_line(ui.selected_option == 1, ui.show_cpu, "CPU"@),
        option_line(ui.selected_option == 2, ui.show_memory, "Memory"@),
        option_line(ui.selected_option == 3, ui.show_gpu, "GPU"@),
        option_line(ui.selected_option == 4, ui.show_network, "Network"@),
    ]
}

/// The lines of the options menu, top to bottom.
pub open spec fn menu_lines(ui: Ui, has_unix: bool, names: Seq<Seq<char>>) -> Seq<Seq<char>> {
    head_lines(ui) + platform_lines(ui, has_unix) + interface_lines(ui, names)
}

/// The mark in front of a line.
fn cursor_text(selected: bool) -> (r: &'static str)
    ensures
        r@ == cursor_mark(selected),
{
    if selected {
        ">"
    } else {
        " "
    }
}

/// The box in front of a family.
fn status_text(enabled: bool) -> (r: &'static str)
    ensures
        r@ == status_mark(enabled),
{
    if enabled {
        "[x]"
    } else {
        "[ ]"
    }
}

/// Writes a sampling time for a reader.
pub fn interval_text(ms: u64) -> (r: String)
    ensures
        r@ == interval_label(ms),
{
    let mut out = String::new();
    if ms < 1000 {
        push_decimal(&mut out, ms);
        out.append(" ms");
    } else {
        push_decimal(&mut out, ms / 1000);
        out.append(" s");
    }
    assert(out@ =~= interval_label(ms));
    out
}

/// Writes the line of the sampling time.
fn interval_line_text(selected: bool, ms: u64) -> (r: String)
    ensures
        r@ == interval_line(selected, ms),
{
    let mut out = String::from_str(" ");
    out.append(cursor_text(selected));
    out.append(" Update Interval: ");
    out.append(interval_text(ms).as_str());
    out
}

/// Writes the line of one family.
fn option_line_text(selected: bool, enabled: bool, label: &str) -> (r: String)
    ensures
        r@ == option_line(selected, enabled, label@),
{
    let mut out = String::from_str(" ");
    out.append(cursor_text(selected));
    out.append(" ");
    out.append(status_text(enabled));
    out.append(" ");
    out.append(label);
    out
}

/// Writes the line of one interface.
fn interface_line_text(selected: bool, name: &str) -> (r: String)
    ensures
        r@ == interface_line(selected, name@),
{
    let mut out = String::from_str("     ");
    out.append(cursor_text(selected));
    out.append(" ");
    out.append(name);
    out
}

/// Writes the lines of the options menu for the screen `ui`, with or
/// without platform metrics, and with the interfaces `names`.
pub fn options_menu_lines(ui: &Ui, has_unix: bool, names: &Vec<String>) -> (r: Vec<String>)
    requires
        ui.wf(),
    ensures
        texts(r@) == menu_lines(*ui, has_unix, texts(names@)),
{
    let mut lines: Vec<String> = Vec::new();
    let ms = ui.update_interval_presets[ui.selected_update_interval_idx];
    lines.push(interval_line_text(ui.selected_option == 0, ms));
    lines.push(String::new());
    lines.push(String::from_str(" Metrics:"));
    lines.push(String::new());
    lines.push(option_line_text(ui.selected_option == 1, ui.show_cpu, "CPU"));
    lines.push(option_line_text(ui.selected_option == 2, ui.show_memory, "Memory"));
    lines.push(option_line_text(ui.selected_option == 3, ui.show_gpu, "GPU"));
    lines.push(option_line_text(ui.selected_option == 4, ui.show_network, "Network"));
    assert(texts(lines@) =~= head_lines(*ui));
    if has_unix {
        lines.push(option_line_text(ui.selected_option == 5, ui.show_npu, "NPU"));
        lines.push(option_line_text(ui.selected_option == 6, ui.show_rga, "RGA"));
    }
    assert(texts(lines@) =~= head_lines(*ui) + platform_lines(*ui, has_unix));
    let ghost fixed = texts(lines@);
    if ui.show_network {
        let mut i: usize = 0;
        while i < names.len()
            invariant
                i <= names@.len(),
                ui.show_network,
                texts(lines@).len() == fixed.len() + i,
                forall|j: int| 0 <= j < fixed.len() ==> texts(lines@)[j] == fixed[j],
                forall|j: int|
                    0 <= j < i ==> #[trigger] texts(lines@)[fixed.len() + j] == interface_line(
                        ui.selected_interface == j,
                        texts(names@)[j],
                    ),
            decreases names@.len() - i,
        {
            let ghost before = texts(lines@);
            let line = interface_line_text(i == ui.selected_interface, names[i].as_str());
            assert(texts(names@)[i as int] == names@[i as int]@);
            lines.push(line);
            assert(texts(lines@) =~= before.push(line@));
            i += 1;
        }
    }
    let ghost whole = fixed + interface_lines(*ui, texts(names@));
    assert(texts(lines@).len() == whole.len());
    assert forall|k: int| 0 <= k < whole.len() implies texts(lines@)[k] == whole[k] by {
        if k >= fixed.len() {
            let j = k - fixed.len();
            assert(texts(lines@)[fixed.len() + j] == interface_line(
                ui.selected_interface == j,
                texts(names@)[j],
            ));
        }
    }
    assert(texts(lines@) =~= whole);
    lines
}

} // verus!
