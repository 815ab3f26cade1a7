//! The sound module: samples the audio subsystem's current sink (volume and
//! mute flag) through a shared, lock-guarded resource handle.  The handle's
//! query answers `None` when there is nothing to report this cycle; then no
//! message is emitted and the aggregator keeps the last fragment.

use vstd::prelude::*;
use vstd::string::StringExecFns;

use crate::text::dec_padded3;
use crate::text::push_char;
use crate::text::u32_string_padded3;
use crate::Config as MainConfig;
use crate::ModuleMsg;

verus! {

/// The user's sound options; every unset field falls back to its default.
pub struct Config {
    pub index: Option<u32>,
    pub tick: Option<u32>,
    pub placeholder: Option<String>,
    pub label: Option<String>,
    pub mute_label: Option<String>,
    pub format: Option<String>,
}

/// The sound module's effective sampling settings, defaults merged with the
/// user's options.
pub struct InternalConfig {
    pub tick_ms: u64,
    pub label: String,
    pub mute_label: String,
}

/// The effective tick interval in milliseconds: the configured one, or 50.
pub open spec fn spec_tick_ms(config: MainConfig) -> u64 {
    match config.sound {
        Some(c) => match c.tick {
            Some(t) => t as u64,
            None => 50,
        },
        None => 50,
    }
}

/// The effective label: the configured one, or `sou`.
pub open spec fn spec_label(config: MainConfig) -> Seq<char> {
    match config.sound {
        Some(c) => match c.label {
            Some(l) => l@,
            None => "sou"@,
        },
        None => "sou"@,
    }
}

/// The effective mute label: the configured one, or `.so`.
pub open spec fn spec_mute_label(config: MainConfig) -> Seq<char> {
    match config.sound {
        Some(c) => match c.mute_label {
            Some(l) => l@,
            None => ".so"@,
        },
        None => ".so"@,
    }
}

/// The effective placeholder: the configured one, or `-`.
pub open spec fn spec_placeholder(config: MainConfig) -> Seq<char> {
    match config.sound {
        Some(c) => match c.placeholder {
            Some(p) => p@,
            None => "-"@,
        },
        None => "-"@,
    }
}

/// The effective format template: the configured one, or `%l:%v`.
pub open spec fn spec_format(config: MainConfig) -> Seq<char> {
    match config.sound {
        Some(c) => match c.format {
            Some(f) => f@,
            None => "%l:%v"@,
        },
        None => "%l:%v"@,
    }
}

impl InternalConfig {
    /// Merges the defaults with the user's sound options.
    pub fn from(config: &MainConfig) -> (r: InternalConfig)
        ensures
            r.tick_ms == spec_tick_ms(*config),
            r.label@ == spec_label(*config),
            r.mute_label@ == spec_mute_label(*config),
    {
        let mut tick_ms: u64 = 50;
        let mut label = String::from_str("sou");
        let mut mute_label = String::from_str(".so");
        if let Some(c) = &config.sound {
            if let Some(t) = c.tick {
                tick_ms = t as u64;
            }
            if let Some(v) = &c.label {
                label = v.clone();
            }
            if let Some(v) = &c.mute_label {
                mute_label = v.clone();
            }
        }
        InternalConfig { tick_ms, label, mute_label }
    }
}

/// The sound module as the registry sees it: its placeholder and format
/// template, merged from defaults and the user's options.
pub struct Sound {
    pub placeholder: String,
    pub format: String,
}

impl Sound {
    /// Builds the module from the configuration snapshot.
    pub fn with_config(config: &MainConfig) -> (r: Sound)
        ensures
            r.placeholder@ == spec_placeholder(*config),
            r.format@ == spec_format(*config),
    {
        let mut placeholder = String::from_str("-");
        let mut format = String::from_str("%l:%v");
        if let Some(c) = &config.sound {
            if let Some(p) = &c.placeholder {
                placeholder = p.clone();
            }
            if let Some(v) = &c.format {
                format = v.clone();
            }
        }
        Sound { placeholder, format }
    }

    /// The module's fixed name.
    pub fn name(&self) -> (r: &'static str)
        ensures
            r@ == "sound"@,
    {
        "sound"
    }

    /// The fragment shown before the first message.
    pub fn placeholder(&self) -> (r: &str)
        ensures
            r@ == self.placeholder@,
    {
        self.placeholder.as_str()
    }

    /// The output format template.
    pub fn format(&self) -> (r: &str)
        ensures
            r@ == self.format@,
    {
        self.format.as_str()
    }
}

/// The value text for one successful sample: the volume right-aligned to
/// width three, then a percent sign.
pub open spec fn spec_value(volume: u32) -> Seq<char> {
    dec_padded3(volume as nat) + seq!['%']
}

/// One sampling cycle's decision, from the shared resource query's answer.
/// No answer means no message at all — the fragment upstream stays as it
/// was.  An answer `(volume, muted)` becomes a message carrying the volume
/// as its value and the mute label or the label.
pub fn cycle(key: char, config: &InternalConfig, data: Option<(u32, bool)>) -> (r: Option<
    ModuleMsg,
>)
    ensures
        data is None ==> r is None,
        data matches Some(d) ==> {
            &&& r matches Some(m)
            &&& m.0 == key
            &&& m.1 matches Some(v) && v@ == spec_value(d.0)
            &&& m.2 matches Some(l) && l@ == (if d.1 {
                config.mute_label@
            } else {
                config.label@
            })
        },
{
    match data {
        Some(d) => {
            let label = if d.1 {
                config.mute_label.clone()
            } else {
                config.label.clone()
            };
            let mut value = u32_string_padded3(d.0);
            push_char(&mut value, '%');
            Some(ModuleMsg(key, Some(value), Some(label)))
        },
        None => None,
    }
}

} // verus!
