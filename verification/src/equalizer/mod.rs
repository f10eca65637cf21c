//! The 18-band equalizer: its bands, the gains in use, the preset they came
//! from, and the commands that hand them to the audio engine.

use vstd::prelude::*;

use crate::audio::pipeline::AudioCommand;
use crate::config::models::EQPreset;
use crate::config::{first_named, same_presets, without_name, custom_name, AppConfig};
use crate::text::{owned, str_eq};
use crate::tui::app::next_preset_index;

verus! {

/// 18-band EQ frequencies in Hz.
pub const EQ_BANDS: [u32; 18] = [
    65, 92, 131, 185, 262, 370, 523, 740, 1047, 1480, 2093, 2960, 4186, 5920, 8372, 11840, 16744,
    20000,
];

/// The short label of each band.
pub const EQ_BAND_LABELS: [&'static str; 18] = [
    "65", "92", "131", "185", "262", "370", "523", "740", "1K", "1.5K", "2.1K", "3K", "4.2K",
    "5.9K", "8.4K", "12K", "17K", "20K",
];

/// The frequencies of the bands, in order.
pub open spec fn band_frequencies() -> Seq<u32> {
    seq![
        65u32, 92, 131, 185, 262, 370, 523, 740, 1047, 1480, 2093, 2960, 4186, 5920, 8372, 11840,
        16744, 20000,
    ]
}

/// The labels of the bands, in order.
pub open spec fn band_labels() -> Seq<Seq<char>> {
    seq![
        "65"@, "92"@, "131"@, "185"@, "262"@, "370"@, "523"@, "740"@, "1K"@, "1.5K"@, "2.1K"@,
        "3K"@, "4.2K"@, "5.9K"@, "8.4K"@, "12K"@, "17K"@, "20K"@,
    ]
}

/// The gains, whether the equalizer is on, and the name of the preset in use.
pub struct Equalizer {
    pub gains: Vec<u64>,
    pub enabled: bool,
    pub current_preset: String,
}

/// The commands that hand gains and on/off state to the engine.
pub open spec fn apply_commands(r: Seq<AudioCommand>, gains: Seq<u64>, enabled: bool) -> bool {
    &&& r.len() == 2
    &&& r[0] matches AudioCommand::SetEqGains(g) && g@ == gains
    &&& r[1] == AudioCommand::SetEqEnabled(enabled)
}

/// Copies a list of gains.
fn copy_gains(g: &Vec<u64>) -> (r: Vec<u64>)
    ensures
        r@ == g@,
{
    vstd::slice::slice_to_vec(g.as_slice())
}

/// The position of the preset that cycling forward (or backward) from the
/// preset named `current` loads: from the first preset of that name, or from
/// the first preset when none has it; none when there is no preset.
pub open spec fn preset_cycle_target(p: Seq<EQPreset>, current: Seq<char>, backward: bool) -> Option<
    int,
> {
    if p.len() == 0 {
        None
    } else {
        let idx: int = match first_named(p, current) {
            Some(k) => k,
            None => 0,
        };
        Some(
            if backward {
                if idx == 0 {
                    p.len() - 1
                } else {
                    idx - 1
                }
            } else {
                (idx + 1) % (p.len() as int)
            },
        )
    }
}

/// The position of the preset to load when cycling from the preset named `current`.
pub fn cycled_preset_index(presets: &[EQPreset], current: &str, backward: bool) -> (r: Option<
    usize,
>)
    ensures
        match r {
            Some(i) => preset_cycle_target(presets@, current@, backward) == Some(i as int)
                && i < presets@.len(),
            None => preset_cycle_target(presets@, current@, backward) is None,
        },
{
    let len = presets.len();
    if len == 0 {
        return None;
    }
    let idx = match first_preset_named(presets, current) {
        Some(k) => k,
        None => 0,
    };
    Some(next_preset_index(idx, len, backward))
}

/// The position of the first preset named `name`.
fn first_preset_named(presets: &[EQPreset], name: &str) -> (r: Option<usize>)
    ensures
        match r {
            Some(i) => first_named(presets@, name@) == Some(i as int) && i < presets@.len(),
            None => first_named(presets@, name@) is None,
        },
{
    let ghost all = presets@;
    assert(all.skip(0) =~= all);
    let mut i: usize = 0;
    while i < presets.len()
        invariant
            i <= all.len(),
            all == presets@,
            first_named(all, name@) == match first_named(all.skip(i as int), name@) {
                Some(k) => Some(k + i),
                None => None::<int>,
            },
        decreases all.len() - i,
    {
        assert(all.skip(i as int).drop_first() =~= all.skip(i + 1));
        assert(all.skip(i as int)[0] == all[i as int]);
        if str_eq(presets[i].name.as_str(), name) {
            return Some(i);
        }
        i = i + 1;
    }
    assert(all.skip(i as int).len() == 0);
    None
}

/// A preset's name is found, at its own position or at an earlier one of the same name.
proof fn lemma_first_named_found(p: Seq<EQPreset>, j: int)
    requires
        0 <= j < p.len(),
    ensures
        first_named(p, p[j].name@) matches Some(k) && 0 <= k <= j && p[k].name@ == p[j].name@,
        (forall|k: int| 0 <= k < j ==> (#[trigger] p[k]).name@ != p[j].name@) ==> first_named(
            p,
            p[j].name@,
        ) == Some(j),
    decreases j,
{
    if j > 0 && p[0].name@ != p[j].name@ {
        let q = p.drop_first();
        assert(q[j - 1] == p[j]);
        lemma_first_named_found(q, j - 1);
        assert(forall|k: int| 0 <= k < j - 1 ==> #[trigger] q[k] == p[k + 1]);
    }
}

/// The name of the preset in use after cycling forward `steps` times from
/// the preset named `name`.
pub open spec fn cycled_name(p: Seq<EQPreset>, name: Seq<char>, steps: nat) -> Seq<char>
    decreases steps,
{
    if steps == 0 {
        name
    } else {
        let prev = cycled_name(p, name, (steps - 1) as nat);
        match preset_cycle_target(p, prev, false) {
            Some(j) => p[j].name@,
            None => prev,
        }
    }
}

/// Among presets with distinct names, cycling forward `k` times from the
/// preset at `i` reaches the preset `k` places further on, wrapping around.
pub proof fn lemma_cycle_forward_steps(p: Seq<EQPreset>, i: int, k: nat)
    requires
        0 <= i < p.len(),
        forall|a: int, b: int| 0 <= a < b < p.len() ==> (#[trigger] p[a]).name@ != (#[trigger] p[b]).name@,
    ensures
        cycled_name(p, p[i].name@, k) == p[(i + k) % (p.len() as int)].name@,
    decreases k,
{
    let n = p.len() as int;
    if k == 0 {
        vstd::arithmetic::div_mod::lemma_small_mod(i as nat, n as nat);
    } else {
        lemma_cycle_forward_steps(p, i, (k - 1) as nat);
        let m = (i + k - 1) % n;
        assert(0 <= m < n) by {
            vstd::arithmetic::div_mod::lemma_mod_bound(i + k - 1, n);
        }
        lemma_first_named_found(p, m);
        assert forall|a: int| 0 <= a < m implies (#[trigger] p[a]).name@ != p[m].name@ by {
            assert(p[a].name@ != p[m].name@);
        }
        assert(first_named(p, p[m].name@) == Some(m));
        vstd::arithmetic::div_mod::lemma_add_mod_noop_right(1, i + k - 1, n);
        assert(1 + (i + k - 1) == i + k);
        if m + 1 < n {
            vstd::arithmetic::div_mod::lemma_small_mod((m + 1) as nat, n as nat);
        } else {
            assert(m + 1 == n);
            vstd::arithmetic::div_mod::lemma_mod_self_0(n);
        }
    }
}

/// Among presets with distinct names, cycling forward once per preset comes
/// back to the preset it started from.
pub proof fn lemma_cycle_forward_returns(p: Seq<EQPreset>, i: int)
    requires
        0 <= i < p.len(),
        forall|a: int, b: int| 0 <= a < b < p.len() ==> (#[trigger] p[a]).name@ != (#[trigger] p[b]).name@,
    ensures
        cycled_name(p, p[i].name@, p.len()) == p[i].name@,
{
    lemma_cycle_forward_steps(p, i, p.len());
    let n = p.len() as int;
    vstd::arithmetic::div_mod::lemma_add_mod_noop_right(i, n, n);
    vstd::arithmetic::div_mod::lemma_mod_self_0(n);
    vstd::arithmetic::div_mod::lemma_small_mod(i as nat, n as nat);
}

impl Equalizer {
    /// The name of the preset in use.
    pub open spec fn preset_name(&self) -> Seq<char> {
        self.current_preset@
    }

    /// The equalizer for the configuration: the gains of the active preset,
    /// or the custom gains when no preset has that name; enabled.
    pub fn new(config: &AppConfig) -> (r: Equalizer)
        ensures
            r.gains@ == (match first_named(config.eq_presets@, config.active_eq_preset@) {
                Some(k) => config.eq_presets@[k].gains@,
                None => config.custom_eq_gains@,
            }),
            r.enabled,
            r.preset_name() == config.active_eq_preset@,
    {
        let gains = match config.get_eq_preset(config.active_eq_preset.as_str()) {
            Some(preset) => copy_gains(&preset.gains),
            None => copy_gains(&config.custom_eq_gains),
        };
        Equalizer { gains, enabled: true, current_preset: config.active_eq_preset.clone() }
    }

    /// The commands that hand the gains and the on/off state to the engine.
    pub fn apply(&self) -> (r: Vec<AudioCommand>)
        ensures
            apply_commands(r@, self.gains@, self.enabled),
    {
        let mut r: Vec<AudioCommand> = Vec::new();
        r.push(AudioCommand::SetEqGains(copy_gains(&self.gains)));
        r.push(AudioCommand::SetEqEnabled(self.enabled));
        r
    }

    /// Stores the gain of one band (double bits, already limited to the
    /// gain range) and applies; an index past the last band is ignored.
    pub fn store_band(&mut self, index: usize, gain: u64) -> (r: Vec<AudioCommand>)
        requires
            index < 18 ==> index < old(self).gains@.len(),
        ensures
            final(self).gains@ == (if index < 18 {
                old(self).gains@.update(index as int, gain)
            } else {
                old(self).gains@
            }),
            final(self).enabled == old(self).enabled,
            final(self).preset_name() == old(self).preset_name(),
            index < 18 ==> apply_commands(r@, final(self).gains@, final(self).enabled),
            index >= 18 ==> r@.len() == 0,
    {
        if index < 18 {
            self.gains.set(index, gain);
            self.apply()
        } else {
            Vec::new()
        }
    }

    /// Stores the first 18 gains given (double bits, already limited to the
    /// gain range) over the first bands, and applies.
    pub fn store_all_bands(&mut self, gains: &[u64]) -> (r: Vec<AudioCommand>)
        requires
            old(self).gains@.len() >= 18 || old(self).gains@.len() >= gains@.len(),
        ensures
            final(self).gains@.len() == old(self).gains@.len(),
            forall|k: int|
                0 <= k < final(self).gains@.len() ==> #[trigger] final(self).gains@[k] == (if k
                    < 18 && k < gains@.len() {
                    gains@[k]
                } else {
                    old(self).gains@[k]
                }),
            final(self).enabled == old(self).enabled,
            final(self).preset_name() == old(self).preset_name(),
            apply_commands(r@, final(self).gains@, final(self).enabled),
    {
        let mut i: usize = 0;
        while i < gains.len() && i < 18
            invariant
                i <= gains@.len(),
                i <= 18,
                old(self).gains@.len() >= 18 || old(self).gains@.len() >= gains@.len(),
                self.gains@.len() == old(self).gains@.len(),
                self.enabled == old(self).enabled,
                self.current_preset@ == old(self).current_preset@,
                forall|k: int|
                    0 <= k < self.gains@.len() ==> #[trigger] self.gains@[k] == (if k < i {
                        gains@[k]
                    } else {
                        old(self).gains@[k]
                    }),
            decreases 18 - i,
        {
            self.gains.set(i, gains[i]);
            i = i + 1;
        }
        self.apply()
    }

    /// Sets every band to 0 dB and applies.
    pub fn reset(&mut self) -> (r: Vec<AudioCommand>)
        ensures
            final(self).gains@ == Seq::new(18, |k: int| 0u64),
            final(self).enabled == old(self).enabled,
            final(self).preset_name() == old(self).preset_name(),
            apply_commands(r@, final(self).gains@, final(self).enabled),
    {
        let mut g: Vec<u64> = Vec::new();
        let mut i: usize = 0;
        while i < 18
            invariant
                i <= 18,
                g@ == Seq::new(i as nat, |k: int| 0u64),
            decreases 18 - i,
        {
            g.push(0);
            assert(g@ =~= Seq::new((i + 1) as nat, |k: int| 0u64));
            i = i + 1;
        }
        self.gains = g;
        self.apply()
    }

    /// Turns the equalizer on or off and applies.
    pub fn toggle(&mut self) -> (r: Vec<AudioCommand>)
        ensures
            final(self).enabled == !old(self).enabled,
            final(self).gains@ == old(self).gains@,
            final(self).preset_name() == old(self).preset_name(),
            apply_commands(r@, final(self).gains@, final(self).enabled),
    {
        self.enabled = !self.enabled;
        self.apply()
    }

    /// Loads the first preset named `preset_name`, makes it the active one in
    /// the configuration, and applies; nothing happens when there is none.
    pub fn load_preset(&mut self, preset_name: &str, config: &mut AppConfig) -> (r: Vec<
        AudioCommand,
    >)
        ensures
            match first_named(old(config).eq_presets@, preset_name@) {
                Some(k) => {
                    &&& final(self).gains@ == old(config).eq_presets@[k].gains@
                    &&& final(self).preset_name() == preset_name@
                    &&& final(config).active_eq_preset@ == preset_name@
                    &&& apply_commands(r@, final(self).gains@, final(self).enabled)
                },
                None => {
                    &&& final(self).gains@ == old(self).gains@
                    &&& final(self).preset_name() == old(self).preset_name()
                    &&& final(config).active_eq_preset@ == old(config).active_eq_preset@
                    &&& r@.len() == 0
                },
            },
            final(self).enabled == old(self).enabled,
            final(config).key == old(config).key,
            final(config).servers@ == old(config).servers@,
            final(config).active_server_index == old(config).active_server_index,
            final(config).eq_presets@ == old(config).eq_presets@,
            final(config).custom_eq_gains@ == old(config).custom_eq_gains@,
            final(config).volume == old(config).volume,
            final(config).shuffle == old(config).shuffle,
            final(config).repeat_mode@ == old(config).repeat_mode@,
            final(config).audio_device@ == old(config).audio_device@,
    {
        let found = match config.get_eq_preset(preset_name) {
            Some(preset) => Some(copy_gains(&preset.gains)),
            None => None,
        };
        match found {
            Some(gains) => {
                self.gains = gains;
                self.current_preset = owned(preset_name);
                config.active_eq_preset = owned(preset_name);
                self.apply()
            },
            None => Vec::new(),
        }
    }

    /// Loads the preset after (or before) the one in use, in the
    /// configuration's order, wrapping around (see `preset_cycle_target`): it
    /// is loaded by name, as `load_preset` does, and becomes the active one in
    /// the configuration. Nothing happens when there is no preset.
    pub fn cycle_preset(&mut self, config: &mut AppConfig, backward: bool) -> (r: Vec<AudioCommand>)
        ensures
            match preset_cycle_target(old(config).eq_presets@, old(self).preset_name(), backward) {
                Some(j) => {
                    let ps = old(config).eq_presets@;
                    &&& 0 <= j < ps.len()
                    &&& first_named(ps, ps[j].name@) matches Some(k) && 0 <= k <= j
                        && ps[k].name@ == ps[j].name@
                        && final(self).gains@ == ps[k].gains@
                    &&& (forall|k: int| 0 <= k < j ==> (#[trigger] ps[k]).name@ != ps[j].name@)
                        ==> final(self).gains@ == ps[j].gains@
                    &&& final(self).preset_name() == ps[j].name@
                    &&& final(config).active_eq_preset@ == ps[j].name@
                    &&& apply_commands(r@, final(self).gains@, final(self).enabled)
                },
                None => {
                    &&& final(self).gains@ == old(self).gains@
                    &&& final(self).preset_name() == old(self).preset_name()
                    &&& final(config).active_eq_preset@ == old(config).active_eq_preset@
                    &&& r@.len() == 0
                },
            },
            final(self).enabled == old(self).enabled,
            final(config).key == old(config).key,
            final(config).servers@ == old(config).servers@,
            final(config).active_server_index == old(config).active_server_index,
            final(config).eq_presets@ == old(config).eq_presets@,
            final(config).custom_eq_gains@ == old(config).custom_eq_gains@,
            final(config).volume == old(config).volume,
            final(config).shuffle == old(config).shuffle,
            final(config).repeat_mode@ == old(config).repeat_mode@,
            final(config).audio_device@ == old(config).audio_device@,
    {
        match cycled_preset_index(config.eq_presets.as_slice(), self.current_preset.as_str(), backward) {
            Some(j) => {
                let name = owned(config.eq_presets[j].name.as_str());
                proof {
                    lemma_first_named_found(config.eq_presets@, j as int);
                }
                self.load_preset(name.as_str(), config)
            },
            None => Vec::new(),
        }
    }

    /// Saves the current gains as a custom preset of the configuration.
    pub fn save_as_preset(&self, name: &str, config: &mut AppConfig)
        ensures
            final(config).eq_presets@.len() > 0,
            same_presets(
                final(config).eq_presets@.drop_last(),
                without_name(old(config).eq_presets@, custom_name(name@)),
            ),
            final(config).eq_presets@.last().name@ == custom_name(name@),
            final(config).eq_presets@.last().gains@ == self.gains@,
            final(config).key == old(config).key,
            final(config).servers@ == old(config).servers@,
            final(config).active_server_index == old(config).active_server_index,
            final(config).active_eq_preset@ == old(config).active_eq_preset@,
            final(config).custom_eq_gains@ == old(config).custom_eq_gains@,
            final(config).volume == old(config).volume,
            final(config).shuffle == old(config).shuffle,
            final(config).repeat_mode@ == old(config).repeat_mode@,
            final(config).audio_device@ == old(config).audio_device@,
    {
        config.save_custom_eq_preset(name, self.gains.as_slice());
    }

    /// The presets of the configuration, in order.
    pub fn get_presets(&self, config: &AppConfig) -> (r: Vec<EQPreset>)
        ensures
            same_presets(r@, config.eq_presets@),
    {
        let mut out: Vec<EQPreset> = Vec::new();
        let mut i: usize = 0;
        while i < config.eq_presets.len()
            invariant
                i <= config.eq_presets@.len(),
                out@.len() == i,
                forall|k: int|
                    0 <= k < i ==> (#[trigger] out@[k]).name@ == config.eq_presets@[k].name@
                        && out@[k].gains@ == config.eq_presets@[k].gains@,
            decreases config.eq_presets@.len() - i,
        {
            out.push(config.eq_presets[i].duplicate());
            i = i + 1;
        }
        out
    }

    /// The name of the preset in use.
    pub fn current_preset_name(&self) -> (r: &str)
        ensures
            r@ == self.preset_name(),
    {
        self.current_preset.as_str()
    }

    /// The label of a band, "?" past the last one.
    pub fn band_label(index: usize) -> (r: &'static str)
        ensures
            index < 18 ==> r@ == band_labels()[index as int],
            index >= 18 ==> r@ == "?"@,
    {
        if index < 18 {
            EQ_BAND_LABELS[index]
        } else {
            "?"
        }
    }

    /// The frequency of a band in Hz, 0 past the last one.
    pub fn band_frequency(index: usize) -> (r: u32)
        ensures
            r == (if index < 18 {
                band_frequencies()[index as int]
            } else {
                0
            }),
    {
        if index < 18 {
            EQ_BANDS[index]
        } else {
            0
        }
    }
}

} // verus!
