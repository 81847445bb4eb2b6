//! The state of the screen: what is shown, what is selected, and what a
//! key does to it.

use crate::config::Config;
use vstd::arithmetic::div_mod::lemma_add_mod_noop;
use vstd::arithmetic::div_mod::lemma_mod_self_0;
use vstd::arithmetic::div_mod::lemma_small_mod;
use vstd::prelude::*;

verus! {

/// Whether the charts are on screen or the options menu.
#[derive(Debug, Clone, Copy, PartialEq, Eq, Structural)]
pub enum UiMode {
    Normal,
    OptionsMenu,
}

/// A key, as far as the screen tells keys apart.
#[derive(Debug, Clone, Copy, PartialEq, Eq, Structural)]
pub enum Key {
    Char(char),
    Esc,
    Up,
    Down,
    Left,
    Right,
    Enter,
    Tab,
    /// Any other key.
    Other,
}

/// One chart, and where its data comes from.
#[derive(Debug, Clone, Copy, PartialEq, Eq, Structural)]
pub enum Panel {
    /// Processor usage from the platform collector.
    UnixCpu,
    /// Processor usage from the generic collector.
    Cpu,
    /// Graphics from the platform collector.
    UnixGpu,
    /// Graphics from the generic collector.
    Gpu,
    /// The neural accelerator.
    Npu,
    /// The image processor.
    Rga,
    /// Memory.
    Memory,
    /// Network throughput.
    Network,
}

/// Which platform collectors there are.
#[derive(Debug, Clone, Copy, PartialEq, Eq, Structural)]
pub struct PlatformSources {
    pub cpu: bool,
    pub gpu: bool,
    pub npu: bool,
    pub rga: bool,
}

/// What a key did besides changing the screen.
#[derive(Debug, Clone, Copy, PartialEq, Eq, Structural)]
pub struct KeyOutcome {
    /// The user asked to leave.
    pub quit: bool,
    /// A setting changed and is to be saved.
    pub config_changed: bool,
}

/// The state of the screen.
pub struct Ui {
    pub mode: UiMode,
    pub show_cpu: bool,
    pub show_memory: bool,
    pub show_gpu: bool,
    pub show_network: bool,
    pub show_npu: bool,
    pub show_rga: bool,
    /// The line of the options menu that the cursor is on.
    pub selected_option: usize,
    /// The place of the chosen interface among the interfaces.
    pub selected_interface: usize,
    /// The times between two samples that can be chosen, in
    /// milliseconds.
    pub update_interval_presets: Vec<u64>,
    /// The place of the chosen time among the presets.
    pub selected_update_interval_idx: usize,
}

/// The times between two samples that can be chosen, in milliseconds.
pub open spec fn interval_presets() -> Seq<u64> {
    seq![500u64, 1000u64, 2000u64, 5000u64]
}

/// The last line of the options menu: two more lines are there with
/// platform metrics.
pub open spec fn last_option(has_unix: bool) -> int {
    if has_unix {
        6
    } else {
        4
    }
}

/// Whether `key` is Enter, Left or Right: the keys that change the line
/// under the cursor.
pub open spec fn is_change_key(key: Key) -> bool {
    key == Key::Enter || key == Key::Left || key == Key::Right
}

/// The place after `idx` among `len` places, going round.
pub open spec fn next_round(idx: int, len: int) -> int {
    (idx + 1) % len
}

/// The place before `idx` among `len` places, going round.
pub open spec fn previous_round(idx: int, len: int) -> int {
    if idx == 0 {
        len - 1
    } else {
        idx - 1
    }
}

/// The place of the first of `presets` from `i` on that is `rate`.
pub open spec fn preset_position(presets: Seq<u64>, rate: u64, i: int) -> Option<int>
    decreases presets.len() - i,
{
    if i < 0 || i >= presets.len() {
        None
    } else if presets[i] == rate {
        Some(i)
    } else {
        preset_position(presets, rate, i + 1)
    }
}

/// The place of the first of `names` from `i` on that is `name`.
pub open spec fn name_position(names: Seq<Seq<char>>, name: Seq<char>, i: int) -> Option<int>
    decreases names.len() - i,
{
    if i < 0 || i >= names.len() {
        None
    } else if names[i] == name {
        Some(i)
    } else {
        name_position(names, name, i + 1)
    }
}

/// The preset that stands for the sampling time `rate`: its place among
/// the presets, or the second preset where it is none of them.
pub open spec fn preset_for(rate: u64) -> int {
    match preset_position(interval_presets(), rate, 0) {
        Some(i) => i,
        None => 1,
    }
}

/// The place of the interface that `config` names among `names`, or the
/// first place where it names none or one that is not there.
pub open spec fn interface_for(config: Config, names: Seq<Seq<char>>) -> int {
    match config.selected_network_interface {
        Some(name) => match name_position(names, name@, 0) {
            Some(i) => i,
            None => 0,
        },
        None => 0,
    }
}

/// One chart where `shown` holds, else none.
pub open spec fn panel_if(shown: bool, panel: Panel) -> Seq<Panel> {
    if shown {
        seq![panel]
    } else {
        Seq::empty()
    }
}

/// The place after `idx` among `len` places, going round.
fn following(idx: usize, len: usize) -> (r: usize)
    requires
        len > 0,
    ensures
        r == next_round(idx as int, len as int),
        r < len,
{
    let at = idx % len;
    proof {
        lemma_add_mod_noop(idx as int, 1, len as int);
        if at + 1 < len {
            lemma_small_mod((at + 1) as nat, len as nat);
        }
        if len > 1 {
            lemma_small_mod(1, len as nat);
        }
        lemma_mod_self_0(len as int);
    }
    if at + 1 == len {
        0
    } else {
        at + 1
    }
}

/// Adds `panel` to `out` where `shown` holds.
fn push_if(out: &mut Vec<Panel>, shown: bool, panel: Panel)
    ensures
        final(out)@ == old(out)@ + panel_if(shown, panel),
{
    if shown {
        out.push(panel);
        assert(final(out)@ =~= old(out)@ + panel_if(shown, panel));
    } else {
        assert(final(out)@ =~= old(out)@ + panel_if(shown, panel));
    }
}

impl Ui {
    /// A preset is chosen, and it is one of those that there are.
    pub open spec fn wf(&self) -> bool {
        self.selected_update_interval_idx < self.update_interval_presets@.len()
    }

    /// Whether this is the screen that `Ui::new` makes.
    pub open spec fn is_initial(&self) -> bool {
        &&& self.mode == UiMode::Normal
        &&& self.show_cpu
        &&& self.show_memory
        &&& self.show_gpu
        &&& self.show_network
        &&& !self.show_npu
        &&& !self.show_rga
        &&& self.selected_option == 0
        &&& self.selected_interface == 0
        &&& self.update_interval_presets@ == interval_presets()
        &&& self.selected_update_interval_idx == 1
    }

    /// The mode after `key`.
    pub open spec fn mode_after(&self, key: Key) -> UiMode {
        match self.mode {
            UiMode::Normal => if key == Key::Char('o') || key == Key::Char('O') {
                UiMode::OptionsMenu
            } else {
                UiMode::Normal
            },
            UiMode::OptionsMenu => if key == Key::Char('o') || key == Key::Esc {
                UiMode::Normal
            } else {
                UiMode::OptionsMenu
            },
        }
    }

    /// Whether `key` asks to leave.
    pub open spec fn quits_on(&self, key: Key) -> bool {
        self.mode == UiMode::Normal && (key == Key::Char('q') || key == Key::Char('Q') || key
            == Key::Esc)
    }

    /// Whether `key` changes the line `option` of the options menu.
    pub open spec fn changes_option(&self, key: Key, option: int) -> bool {
        self.mode == UiMode::OptionsMenu && is_change_key(key) && self.selected_option == option
    }

    /// The line under the cursor after `key`.
    pub open spec fn option_after(&self, key: Key, has_unix: bool) -> int {
        if self.mode == UiMode::OptionsMenu && key == Key::Up && self.selected_option > 0 {
            self.selected_option - 1
        } else if self.mode == UiMode::OptionsMenu && key == Key::Down && self.selected_option
            < last_option(has_unix) {
            self.selected_option + 1
        } else {
            self.selected_option as int
        }
    }

    /// The place of the chosen preset after `key`.
    pub open spec fn interval_after(&self, key: Key) -> int {
        if self.changes_option(key, 0) {
            if key == Key::Left {
                previous_round(
                    self.selected_update_interval_idx as int,
                    self.update_interval_presets@.len() as int,
                )
            } else {
                next_round(
                    self.selected_update_interval_idx as int,
                    self.update_interval_presets@.len() as int,
                )
            }
        } else {
            self.selected_update_interval_idx as int
        }
    }

    /// Whether `key` moves on to the next interface.
    pub open spec fn cycles_interface(&self, key: Key, interface_count: usize) -> bool {
        self.mode == UiMode::OptionsMenu && key == Key::Tab && self.show_network && interface_count
            > 0
    }

    /// The place of the chosen interface after `key`.
    pub open spec fn interface_after(&self, key: Key, interface_count: usize) -> int {
        if self.cycles_interface(key, interface_count) {
            next_round(self.selected_interface as int, interface_count as int)
        } else {
            self.selected_interface as int
        }
    }

    /// Whether `key` changes a setting that is saved: Enter, Left or
    /// Right in the options menu, and Tab where it moves on to another
    /// interface.
    pub open spec fn changes_config(&self, key: Key, interface_count: usize) -> bool {
        self.mode == UiMode::OptionsMenu && (is_change_key(key) || self.cycles_interface(
            key,
            interface_count,
        ))
    }

    /// Whether `next` is this screen after `key`.
    pub open spec fn after_key(&self, next: &Ui, key: Key, has_unix: bool, interface_count: usize)
        -> bool {
        &&& next.mode == self.mode_after(key)
        &&& next.selected_option == self.option_after(key, has_unix)
        &&& next.selected_update_interval_idx == self.interval_after(key)
        &&& next.selected_interface == self.interface_after(key, interface_count)
        &&& next.update_interval_presets@ == self.update_interval_presets@
        &&& next.show_cpu == (self.show_cpu != self.changes_option(key, 1))
        &&& next.show_memory == (self.show_memory != self.changes_option(key, 2))
        &&& next.show_gpu == (self.show_gpu != self.changes_option(key, 3))
        &&& next.show_network == (self.show_network != self.changes_option(key, 4))
        &&& next.show_npu == (self.show_npu != (has_unix && self.changes_option(key, 5)))
        &&& next.show_rga == (self.show_rga != (has_unix && self.changes_option(key, 6)))
    }

    /// The charts that are drawn, in order. Each family that is shown
    /// takes the platform collector where there is one, else the generic
    /// one, and is left out where there is neither.
    pub open spec fn panels(&self, unix: Option<PlatformSources>, generic_gpu: bool) -> Seq<Panel> {
        let cpu = match unix {
            Some(u) => if u.cpu {
                Panel::UnixCpu
            } else {
                Panel::Cpu
            },
            None => Panel::Cpu,
        };
        let unix_gpu = unix matches Some(u) && u.gpu;
        panel_if(self.show_cpu, cpu) + panel_if(self.show_gpu && unix_gpu, Panel::UnixGpu)
            + panel_if(self.show_gpu && !unix_gpu && generic_gpu, Panel::Gpu) + panel_if(
            self.show_npu && (unix matches Some(u) && u.npu),
            Panel::Npu,
        ) + panel_if(self.show_rga && (unix matches Some(u) && u.rga), Panel::Rga) + panel_if(
            self.show_memory,
            Panel::Memory,
        ) + panel_if(self.show_network, Panel::Network)
    }

    /// The place of the interface that is drawn among `count`
    /// interfaces: the chosen one, or the last where the choice lies
    /// beyond it; none where there is no interface.
    pub open spec fn drawn_interface(&self, count: usize) -> Option<int> {
        if count == 0 {
            None
        } else if self.selected_interface < count {
            Some(self.selected_interface as int)
        } else {
            Some(count - 1)
        }
    }

    /// The screen at the start: the charts, all four portable families
    /// shown, a sample each second.
    pub fn new() -> (r: Self)
        ensures
            r.is_initial(),
            r.wf(),
    {
        let mut presets: Vec<u64> = Vec::new();
        presets.push(500);
        presets.push(1000);
        presets.push(2000);
        presets.push(5000);
        assert(presets@ =~= interval_presets());
        Ui {
            mode: UiMode::Normal,
            show_cpu: true,
            show_memory: true,
            show_gpu: true,
            show_network: true,
            show_npu: false,
            show_rga: false,
            selected_option: 0,
            selected_interface: 0,
            update_interval_presets: presets,
            selected_update_interval_idx: 1,
        }
    }

    /// Takes in one key. `has_unix` tells whether there are platform
    /// metrics, `interface_count` how many interfaces there are.
    pub fn handle_key(&mut self, key: Key, has_unix: bool, interface_count: usize) -> (r:
        KeyOutcome)
        requires
            old(self).changes_option(key, 0) ==> old(self).update_interval_presets@.len() > 0,
        ensures
            old(self).wf() ==> final(self).wf(),
            old(self).after_key(final(self), key, has_unix, interface_count),
            r.quit == old(self).quits_on(key),
            r.config_changed == old(self).changes_config(key, interface_count),
    {
        let mut outcome = KeyOutcome { quit: false, config_changed: false };
        match self.mode {
            UiMode::Normal => {
                match key {
                    Key::Char(c) => {
                        if c == 'q' || c == 'Q' {
                            outcome.quit = true;
                        } else if c == 'o' || c == 'O' {
                            self.mode = UiMode::OptionsMenu;
                        }
                    },
                    Key::Esc => {
                        outcome.quit = true;
                    },
                    _ => {},
                }
            },
            UiMode::OptionsMenu => {
                match key {
                    Key::Char(c) => {
                        if c == 'o' {
                            self.mode = UiMode::Normal;
                        }
                    },
                    Key::Esc => {
                        self.mode = UiMode::Normal;
                    },
                    Key::Up => {
                        if self.selected_option > 0 {
                            self.selected_option -= 1;
                        }
                    },
                    Key::Down => {
                        let max_option: usize = if has_unix {
                            6
                        } else {
                            4
                        };
                        if self.selected_option < max_option {
                            self.selected_option += 1;
                        }
                    },
                    Key::Enter | Key::Left | Key::Right => {
                        if self.selected_option == 0 {
                            let presets_len = self.update_interval_presets.len();
                            let idx = self.selected_update_interval_idx;
                            if key == Key::Left {
                                if idx == 0 {
                                    self.selected_update_interval_idx = presets_len - 1;
                                } else {
                                    self.selected_update_interval_idx = idx - 1;
                                }
                            } else {
                                self.selected_update_interval_idx = following(idx, presets_len);
                            }
                        } else if self.selected_option == 1 {
                            self.show_cpu = !self.show_cpu;
                        } else if self.selected_option == 2 {
                            self.show_memory = !self.show_memory;
                        } else if self.selected_option == 3 {
                            self.show_gpu = !self.show_gpu;
                        } else if self.selected_option == 4 {
                            self.show_network = !self.show_network;
                        } else if self.selected_option == 5 {
                            if has_unix {
                                self.show_npu = !self.show_npu;
                            }
                        } else if self.selected_option == 6 {
                            if has_unix {
                                self.show_rga = !self.show_rga;
                            }
                        }
                        outcome.config_changed = true;
                    },
                    Key::Tab => {
                        if self.show_network && interface_count > 0 {
                            self.selected_interface = following(
                                self.selected_interface,
                                interface_count,
                            );
                            outcome.config_changed = true;
                        }
                    },
                    Key::Other => {},
                }
            },
        }
        outcome
    }

    /// The charts that are drawn, in order.
    pub fn enabled_panels(&self, unix: Option<PlatformSources>, generic_gpu: bool) -> (r: Vec<
        Panel,
    >)
        ensures
            r@ == self.panels(unix, generic_gpu),
    {
        let u = match unix {
            Some(u) => u,
            None => PlatformSources { cpu: false, gpu: false, npu: false, rga: false },
        };
        let cpu = if u.cpu {
            Panel::UnixCpu
        } else {
            Panel::Cpu
        };
        let mut out: Vec<Panel> = Vec::new();
        push_if(&mut out, self.show_cpu, cpu);
        assert(out@ =~= panel_if(self.show_cpu, cpu));
        push_if(&mut out, self.show_gpu && u.gpu, Panel::UnixGpu);
        push_if(&mut out, self.show_gpu && !u.gpu && generic_gpu, Panel::Gpu);
        push_if(&mut out, self.show_npu && u.npu, Panel::Npu);
        push_if(&mut out, self.show_rga && u.rga, Panel::Rga);
        push_if(&mut out, self.show_memory, Panel::Memory);
        push_if(&mut out, self.show_network, Panel::Network);
        out
    }

    /// The place of the interface that is drawn among `count`
    /// interfaces.
    pub fn interface_to_draw(&self, count: usize) -> (r: Option<usize>)
        ensures
            match r {
                Some(i) => self.drawn_interface(count) == Some(i as int) && i < count,
                None => self.drawn_interface(count) is None,
            },
    {
        if count == 0 {
            None
        } else if self.selected_interface < count {
            Some(self.selected_interface)
        } else {
            Some(count - 1)
        }
    }
}

} // verus!
