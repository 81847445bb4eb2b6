//! The state of a running dashboard: settings, collectors, screen, and
//! when what was last done.

use crate::config::Config;
use crate::error::AppError;
use crate::metrics::metrics::{SystemMetrics, SystemReadings};
use crate::metrics::network::elapsed_between;
use crate::metrics::unix_metrics::{name_texts, or_else, UnixReadings, UnixSystemMetrics};
use crate::text::texts;
use crate::ui::{
    interface_for, interval_presets, name_position, preset_for, preset_position, Key, Ui, UiMode,
};
use vstd::prelude::*;

verus! {

/// How long the same key is not taken in again, in nanoseconds: a fifth
/// of a second.
pub const KEY_DEBOUNCE_NANOS: u64 = 200_000_000;

/// Whether `key` at `now` repeats the key that was taken in at
/// `last_time`: it is the same key and comes less than a fifth of a
/// second later.
pub open spec fn is_key_repeat(last_key: Option<Key>, last_time: u64, key: Key, now: u64) -> bool {
    last_key == Some(key) && elapsed_between(last_time, now) < KEY_DEBOUNCE_NANOS
}

/// Tells whether `key` at `now` repeats the key that was taken in at
/// `last_time`.
pub fn key_repeats(last_key: Option<Key>, last_time: u64, key: Key, now: u64) -> (b: bool)
    ensures
        b == is_key_repeat(last_key, last_time, key, now),
{
    let elapsed: u64 = if now >= last_time {
        now - last_time
    } else {
        0
    };
    match last_key {
        Some(k) => k == key && elapsed < KEY_DEBOUNCE_NANOS,
        None => false,
    }
}

/// Whether a sample is due at `now` after one at `last`, with
/// `interval_ms` milliseconds between two samples.
pub open spec fn is_sample_due(last: u64, now: u64, interval_ms: u64) -> bool {
    elapsed_between(last, now) >= interval_ms * 1_000_000
}

/// Whether `config` holds what the screen `ui` shows, with the
/// interfaces `names`: the chosen preset, the four flags of the portable
/// families, and the chosen interface, or none where the choice lies
/// beyond the interfaces.
pub open spec fn config_matches(config: Config, ui: Ui, names: Seq<Seq<char>>) -> bool {
    &&& config.refresh_rate == ui.update_interval_presets@[ui.selected_update_interval_idx as int]
    &&& config.show_cpu == ui.show_cpu
    &&& config.show_memory == ui.show_memory
    &&& config.show_gpu == ui.show_gpu
    &&& config.show_network == ui.show_network
    &&& match config.selected_network_interface {
        Some(name) => ui.selected_interface < names.len() && name@
            == names[ui.selected_interface as int],
        None => ui.selected_interface >= names.len(),
    }
}

/// The names of the four portable families.
pub open spec fn portable_names() -> Seq<Seq<char>> {
    seq!["CPU"@, "Memory"@, "Network"@, "GPU"@]
}

/// The place of the first of `presets` that is `rate`.
fn find_preset(presets: &Vec<u64>, rate: u64) -> (r: Option<usize>)
    ensures
        match r {
            Some(i) => preset_position(presets@, rate, 0) == Some(i as int) && i < presets@.len(),
            None => preset_position(presets@, rate, 0) is None,
        },
{
    let mut i: usize = 0;
    while i < presets.len()
        invariant
            i <= presets@.len(),
            preset_position(presets@, rate, 0) == preset_position(presets@, rate, i as int),
        decreases presets@.len() - i,
    {
        if presets[i] == rate {
            return Some(i);
        }
        i += 1;
    }
    None
}

/// The place of the first of `names` that is `name`.
fn find_name(names: &Vec<String>, name: &String) -> (r: Option<usize>)
    ensures
        match r {
            Some(i) => name_position(texts(names@), name@, 0) == Some(i as int) && i
                < names@.len(),
            None => name_position(texts(names@), name@, 0) is None,
        },
{
    let mut i: usize = 0;
    while i < names.len()
        invariant
            i <= names@.len(),
            name_position(texts(names@), name@, 0) == name_position(
                texts(names@),
                name@,
                i as int,
            ),
        decreases names@.len() - i,
    {
        assert(texts(names@)[i as int] == names@[i as int]@);
        if names[i] == *name {
            return Some(i);
        }
        i += 1;
    }
    None
}

/// A running dashboard.
pub struct App {
    config: Config,
    system: SystemMetrics,
    unix_metrics: Option<UnixSystemMetrics>,
    ui: Ui,
    last_update: u64,
    should_quit: bool,
    stats_refreshed: bool,
    last_key: Option<Key>,
    last_key_time: u64,
}

impl App {
    /// The settings.
    pub closed spec fn settings(&self) -> Config {
        self.config
    }

    /// The generic aggregate.
    pub closed spec fn system_part(&self) -> SystemMetrics {
        self.system
    }

    /// The platform aggregate, if platform metrics are in use.
    pub closed spec fn unix_part(&self) -> Option<UnixSystemMetrics> {
        self.unix_metrics
    }

    /// The screen.
    pub closed spec fn screen(&self) -> Ui {
        self.ui
    }

    /// When the last sample was taken.
    pub closed spec fn sampled_at(&self) -> u64 {
        self.last_update
    }

    /// Whether the user asked to leave.
    pub closed spec fn quitting(&self) -> bool {
        self.should_quit
    }

    /// Whether a sample was taken since the screen was last drawn.
    pub closed spec fn refreshed(&self) -> bool {
        self.stats_refreshed
    }

    /// The key that was last taken in, if any.
    pub closed spec fn key_seen(&self) -> Option<Key> {
        self.last_key
    }

    /// When the last key was taken in.
    pub closed spec fn key_seen_at(&self) -> u64 {
        self.last_key_time
    }

    /// The names of the interfaces seen so far.
    pub closed spec fn interfaces(&self) -> Seq<Seq<char>> {
        self.system.network_part()@.map_values(
            |e: crate::metrics::network::InterfaceView| e.name,
        )
    }

    /// The screen and both aggregates are well formed.
    pub open spec fn wf(&self) -> bool {
        &&& self.screen().wf()
        &&& self.system_part().wf()
        &&& self.unix_part() matches Some(u) ==> u.wf()
    }

    /// The time between two samples that is chosen, in milliseconds.
    pub open spec fn interval(&self) -> u64 {
        self.screen().update_interval_presets@[self.screen().selected_update_interval_idx as int]
    }

    /// Whether this is the dashboard that is made at `now` from the
    /// settings `config` and the two aggregates: nothing was sampled
    /// or pressed yet, and the screen shows the charts with the flags,
    /// the sampling time and the interface of `config`, and the neural
    /// accelerator and the image processor just where the platform
    /// aggregate has them.
    pub open spec fn starts_from(
        &self,
        config: Config,
        system: SystemMetrics,
        unix_metrics: Option<UnixSystemMetrics>,
        now: u64,
    ) -> bool {
        &&& self.wf()
        &&& self.settings() == config
        &&& self.system_part() == system
        &&& self.unix_part() == unix_metrics
        &&& self.sampled_at() == now
        &&& !self.quitting()
        &&& !self.refreshed()
        &&& self.key_seen() is None
        &&& self.screen().mode == UiMode::Normal
        &&& self.screen().show_cpu == config.show_cpu
        &&& self.screen().show_memory == config.show_memory
        &&& self.screen().show_gpu == config.show_gpu
        &&& self.screen().show_network == config.show_network
        &&& self.screen().show_npu == (unix_metrics matches Some(u) && u.npu_part() is Some)
        &&& self.screen().show_rga == (unix_metrics matches Some(u) && u.rga_part() is Some)
        &&& self.screen().selected_option == 0
        &&& self.screen().selected_interface == interface_for(config, self.interfaces())
        &&& self.screen().update_interval_presets@ == interval_presets()
        &&& self.screen().selected_update_interval_idx == preset_for(config.refresh_rate)
    }

    /// A dashboard without platform metrics.
    pub fn new(config: Config, system: SystemMetrics, now: u64) -> (r: Result<Self, AppError>)
        requires
            system.wf(),
        ensures
            r matches Ok(a) && a.starts_from(config, system, None, now),
    {
        Self::new_with_metrics(config, system, None, now)
    }

    /// A dashboard over the given aggregates, made at `now`. The screen
    /// starts from `config`; the neural accelerator and the image
    /// processor are shown where the platform aggregate has them.
    pub fn new_with_metrics(
        config: Config,
        system: SystemMetrics,
        unix_metrics: Option<UnixSystemMetrics>,
        now: u64,
    ) -> (r: Result<Self, AppError>)
        requires
            system.wf(),
            unix_metrics matches Some(u) ==> u.wf(),
        ensures
            r matches Ok(a) && a.starts_from(config, system, unix_metrics, now),
    {
        let mut ui = Ui::new();
        ui.show_cpu = config.show_cpu;
        ui.show_memory = config.show_memory;
        ui.show_gpu = config.show_gpu;
        ui.show_network = config.show_network;
        ui.selected_update_interval_idx =
        match find_preset(&ui.update_interval_presets, config.refresh_rate) {
            Some(i) => i,
            None => 1,
        };
        if let Some(iface) = &config.selected_network_interface {
            let names = system.network().interface_names();
            assert(texts(names@) =~= system.network_part()@.map_values(
                |e: crate::metrics::network::InterfaceView| e.name,
            ));
            ui.selected_interface = match find_name(&names, iface) {
                Some(i) => i,
                None => 0,
            };
        }
        if let Some(unix) = &unix_metrics {
            if unix.has_npu() {
                ui.show_npu = true;
            }
            if unix.has_rga() {
                ui.show_rga = true;
            }
        }
        Ok(
            App {
                config,
                system,
                unix_metrics,
                ui,
                last_update: now,
                should_quit: false,
                stats_refreshed: false,
                last_key: None,
                last_key_time: now,
            },
        )
    }

    /// Whether the event at `now` would be a sample: enough time has
    /// passed since the last one.
    pub fn is_due(&self, now: u64) -> (b: bool)
        requires
            self.wf(),
        ensures
            b == is_sample_due(self.sampled_at(), now, self.interval()),
    {
        let elapsed: u64 = if now >= self.last_update {
            now - self.last_update
        } else {
            0
        };
        let interval = self.ui.update_interval_presets[self.ui.selected_update_interval_idx];
        elapsed as u128 >= interval as u128 * 1_000_000
    }

    /// Takes in one key pressed at `now`, and tells whether the
    /// settings changed and are to be saved. The same key again within
    /// a fifth of a second is passed over.
    pub fn handle_event(&mut self, key: Key, now: u64) -> (changed: bool)
        requires
            old(self).wf(),
        ensures
            final(self).wf(),
            final(self).system_part() == old(self).system_part(),
            final(self).unix_part() == old(self).unix_part(),
            final(self).sampled_at() == old(self).sampled_at(),
            final(self).refreshed() == old(self).refreshed(),
            is_key_repeat(old(self).key_seen(), old(self).key_seen_at(), key, now) ==> {
                &&& !changed
                &&& final(self).screen() == old(self).screen()
                &&& final(self).settings() == old(self).settings()
                &&& final(self).quitting() == old(self).quitting()
                &&& final(self).key_seen() == old(self).key_seen()
                &&& final(self).key_seen_at() == old(self).key_seen_at()
            },
            !is_key_repeat(old(self).key_seen(), old(self).key_seen_at(), key, now) ==> {
                &&& final(self).key_seen() == Some(key)
                &&& final(self).key_seen_at() == now
                &&& old(self).screen().after_key(
                    &final(self).screen(),
                    key,
                    old(self).unix_part() is Some,
                    old(self).interfaces().len() as usize,
                )
                &&& final(self).quitting() == (old(self).quitting() || old(self).screen().quits_on(
                    key,
                ))
                &&& changed == old(self).screen().changes_config(
                    key,
                    old(self).interfaces().len() as usize,
                )
                &&& changed ==> config_matches(
                    final(self).settings(),
                    final(self).screen(),
                    old(self).interfaces(),
                )
                &&& !changed ==> final(self).settings() == old(self).settings()
            },
    {
        if key_repeats(self.last_key, self.last_key_time, key, now) {
            return false;
        }
        self.last_key = Some(key);
        self.last_key_time = now;
        let names = self.system.network().interface_names();
        assert(texts(names@) =~= self.interfaces());
        let outcome = self.ui.handle_key(key, self.unix_metrics.is_some(), names.len());
        if outcome.quit {
            self.should_quit = true;
        }
        if outcome.config_changed {
            self.config.refresh_rate =
            self.ui.update_interval_presets[self.ui.selected_update_interval_idx];
            self.config.show_cpu = self.ui.show_cpu;
            self.config.show_memory = self.ui.show_memory;
            self.config.show_gpu = self.ui.show_gpu;
            self.config.show_network = self.ui.show_network;
            if self.ui.selected_interface < names.len() {
                let name = names[self.ui.selected_interface].clone();
                assert(texts(names@)[self.ui.selected_interface as int] == name@);
                self.config.selected_network_interface = Some(name);
            } else {
                self.config.selected_network_interface = None;
            }
        }
        outcome.config_changed
    }

    /// Takes in what was read at `now`, where a sample is due; where
    /// none is due nothing changes. Both aggregates take in their
    /// readings, whatever becomes of the other, and the first failure
    /// is returned, that of the generic aggregate before that of the
    /// platform aggregate.
    pub fn update(&mut self, now: u64, system: SystemReadings, unix: &UnixReadings) -> (r: Result<
        (),
        AppError,
    >)
        requires
            old(self).wf(),
        ensures
            final(self).wf(),
            final(self).screen() == old(self).screen(),
            final(self).settings() == old(self).settings(),
            final(self).quitting() == old(self).quitting(),
            final(self).key_seen() == old(self).key_seen(),
            final(self).key_seen_at() == old(self).key_seen_at(),
            final(self).unix_part() is Some <==> old(self).unix_part() is Some,
            !is_sample_due(old(self).sampled_at(), now, old(self).interval()) ==> {
                &&& r is Ok
                &&& final(self).system_part() == old(self).system_part()
                &&& final(self).unix_part() == old(self).unix_part()
                &&& final(self).sampled_at() == old(self).sampled_at()
                &&& final(self).refreshed() == old(self).refreshed()
            },
            is_sample_due(old(self).sampled_at(), now, old(self).interval()) ==> {
                &&& old(self).system_part().stepped(&final(self).system_part(), &system)
                &&& old(self).unix_part() matches Some(u) ==> u.stepped(
                    &final(self).unix_part()->0,
                    unix,
                )
                &&& final(self).sampled_at() == now
                &&& final(self).refreshed()
                &&& match r {
                    Ok(_) => old(self).sample_error(&system, unix) is None,
                    Err(e) => old(self).sample_error(&system, unix) matches Some(m)
                        && e.is_system(m),
                }
            },
    {
        if !self.is_due(now) {
            return Ok(());
        }
        let mut first: Option<AppError> = None;
        match self.system.update(system) {
            Ok(_) => {},
            Err(e) => {
                first = Some(e);
            },
        }
        if let Some(unix_metrics) = &mut self.unix_metrics {
            match unix_metrics.update(unix) {
                Ok(_) => {},
                Err(e) => {
                    if first.is_none() {
                        first = Some(e);
                    }
                },
            }
        }
        self.last_update = now;
        self.stats_refreshed = true;
        match first {
            Some(e) => Err(e),
            None => Ok(()),
        }
    }

    /// The message of the first error of one sample, if there is one.
    pub open spec fn sample_error(&self, system: &SystemReadings, unix: &UnixReadings) -> Option<
        Seq<char>,
    > {
        or_else(
            self.system_part().update_error(system),
            match self.unix_part() {
                Some(u) => u.update_error(unix),
                None => None,
            },
        )
    }

    /// Tells whether a sample was taken since this was last asked, and
    /// forgets it.
    pub fn take_refreshed(&mut self) -> (b: bool)
        requires
            old(self).wf(),
        ensures
            b == old(self).refreshed(),
            !final(self).refreshed(),
            final(self).wf(),
            final(self).screen() == old(self).screen(),
            final(self).settings() == old(self).settings(),
            final(self).system_part() == old(self).system_part(),
            final(self).unix_part() == old(self).unix_part(),
            final(self).quitting() == old(self).quitting(),
            final(self).sampled_at() == old(self).sampled_at(),
    {
        let b = self.stats_refreshed;
        self.stats_refreshed = false;
        b
    }

    /// Whether the user asked to leave.
    pub fn should_quit(&self) -> (b: bool)
        ensures
            b == self.quitting(),
    {
        self.should_quit
    }

    /// The names of the metric families that there are: those of the
    /// platform aggregate where it is in use, else the four portable
    /// ones.
    pub fn available_metrics(&self) -> (r: Vec<&'static str>)
        ensures
            name_texts(r@) == match self.unix_part() {
                Some(u) => u.capabilities(),
                None => portable_names(),
            },
    {
        if let Some(unix_metrics) = &self.unix_metrics {
            unix_metrics.available_metrics()
        } else {
            let mut v: Vec<&'static str> = Vec::new();
            v.push("CPU");
            v.push("Memory");
            v.push("Network");
            v.push("GPU");
            assert(name_texts(v@) =~= portable_names());
            v
        }
    }

    /// Whether platform metrics are in use.
    pub fn is_using_unix_metrics(&self) -> (b: bool)
        ensures
            b == self.unix_part() is Some,
    {
        self.unix_metrics.is_some()
    }

    /// The screen.
    pub fn ui(&self) -> (r: &Ui)
        ensures
            *r == self.screen(),
    {
        &self.ui
    }

    /// The settings.
    pub fn config(&self) -> (r: &Config)
        ensures
            *r == self.settings(),
    {
        &self.config
    }

    /// The generic aggregate.
    pub fn system(&self) -> (r: &SystemMetrics)
        ensures
            *r == self.system_part(),
    {
        &self.system
    }

    /// The platform aggregate, if platform metrics are in use.
    pub fn unix_metrics(&self) -> (r: Option<&UnixSystemMetrics>)
        ensures
            r is Some <==> self.unix_part() is Some,
            r matches Some(u) ==> Some(*u) == self.unix_part(),
    {
        self.unix_metrics.as_ref()
    }
}

} // verus!
