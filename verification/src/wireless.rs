//! The wireless module: samples the state of one network interface and
//! renders it in one of three display modes (signal strength, truncated
//! network name, or fixed text).

use vstd::prelude::*;
use vstd::string::StrSliceExecFns;
use vstd::string::StringExecFns;

use crate::text::dec_padded3;
use crate::text::push_char;
use crate::text::u32_string_padded3;
use crate::Config as MainConfig;
use crate::ModuleMsg;

verus! {

/// What the fragment shows: the network name, the signal strength, or the
/// fixed text alone.
#[derive(Debug, Clone, Copy, PartialEq, Eq, Structural)]
pub enum Display {
    Essid,
    Signal,
    TextOnly,
}

/// The user's wireless options; every unset field falls back to its
/// default.
pub struct Config {
    pub tick: Option<u32>,
    pub display: Option<Display>,
    pub max_essid_len: Option<usize>,
    pub interface: Option<String>,
    pub placeholder: Option<String>,
    pub text: Option<String>,
    pub disconnected_text: Option<String>,
}

/// The wireless module's effective sampling settings, defaults merged with
/// the user's options.
pub struct InternalConfig {
    pub display: Display,
    pub max_essid_len: usize,
    pub interface: String,
    pub tick_ms: u64,
    pub text: String,
    pub disconnected_text: String,
}

/// What one link query reports for a connected interface; either part may
/// be missing this cycle.
pub struct ConnectedData {
    pub essid: Option<String>,
    pub signal: Option<u32>,
}

/// The sampled state of the watched interface.
pub enum WirelessState {
    Connected(ConnectedData),
    Disconnected,
}

/// The effective tick interval in milliseconds: the configured one, or 500.
pub open spec fn spec_tick_ms(config: MainConfig) -> u64 {
    match config.wireless {
        Some(c) => match c.tick {
            Some(t) => t as u64,
            None => 500,
        },
        None => 500,
    }
}

/// The effective display mode: the configured one, or the signal strength.
pub open spec fn spec_display(config: MainConfig) -> Display {
    match config.wireless {
        Some(c) => match c.display {
            Some(d) => d,
            None => Display::Signal,
        },
        None => Display::Signal,
    }
}

/// The effective network-name length cap: the configured one, or 10.
pub open spec fn spec_max_essid_len(config: MainConfig) -> usize {
    match config.wireless {
        Some(c) => match c.max_essid_len {
            Some(m) => m,
            None => 10,
        },
        None => 10,
    }
}

/// The effective interface name: the configured one, or `wlan0`.
pub open spec fn spec_interface(config: MainConfig) -> Seq<char> {
    match config.wireless {
        Some(c) => match c.interface {
            Some(i) => i@,
            None => "wlan0"@,
        },
        None => "wlan0"@,
    }
}

/// The effective connected text: the configured one, or `wle`.
pub open spec fn spec_text(config: MainConfig) -> Seq<char> {
    match config.wireless {
        Some(c) => match c.text {
            Some(t) => t@,
            None => "wle"@,
        },
        None => "wle"@,
    }
}

/// The effective disconnected text: the configured one, or `.wl`.
pub open spec fn spec_disconnected_text(config: MainConfig) -> Seq<char> {
    match config.wireless {
        Some(c) => match c.disconnected_text {
            Some(t) => t@,
            None => ".wl"@,
        },
        None => ".wl"@,
    }
}

/// The effective placeholder: the configured one, or `-`.
pub open spec fn spec_placeholder(config: MainConfig) -> Seq<char> {
    match config.wireless {
        Some(c) => match c.placeholder {
            Some(p) => p@,
            None => "-"@,
        },
        None => "-"@,
    }
}

impl InternalConfig {
    /// Merges the defaults with the user's wireless options.
    pub fn from(config: &MainConfig) -> (r: InternalConfig)
        ensures
            r.tick_ms == spec_tick_ms(*config),
            r.display == spec_display(*config),
            r.max_essid_len == spec_max_essid_len(*config),
            r.interface@ == spec_interface(*config),
            r.text@ == spec_text(*config),
            r.disconnected_text@ == spec_disconnected_text(*config),
    {
        let mut tick_ms: u64 = 500;
        let mut display = Display::Signal;
        let mut max_essid_len: usize = 10;
        let mut interface = String::from_str("wlan0");
        let mut text = String::from_str("wle");
        let mut disconnected_text = String::from_str(".wl");
        if let Some(c) = &config.wireless {
            if let Some(t) = c.tick {
                tick_ms = t as u64;
            }
            if let Some(d) = c.display {
                display = d;
            }
            if let Some(m) = c.max_essid_len {
                max_essid_len = m;
            }
            if let Some(i) = &c.interface {
                interface = i.clone();
            }
            if let Some(v) = &c.text {
                text = v.clone();
            }
            if let Some(v) = &c.disconnected_text {
                disconnected_text = v.clone();
            }
        }
        InternalConfig { display, max_essid_len, interface, tick_ms, text, disconnected_text }
    }
}

/// The wireless module as the registry sees it: its placeholder, merged
/// from defaults and the user's options.
pub struct Wireless {
    pub placeholder: String,
}

impl Wireless {
    /// Builds the module from the configuration snapshot.
    pub fn with_config(config: &MainConfig) -> (r: Wireless)
        ensures
            r.placeholder@ == spec_placeholder(*config),
    {
        let mut placeholder = String::from_str("-");
        if let Some(c) = &config.wireless {
            if let Some(p) = &c.placeholder {
                placeholder = p.clone();
            }
        }
        Wireless { placeholder }
    }

    /// The fragment shown before the first message.
    pub fn placeholder(&self) -> (r: &str)
        ensures
            r@ == self.placeholder@,
    {
        self.placeholder.as_str()
    }

    /// The module's fixed name.
    pub fn name(&self) -> (r: &'static str)
        ensures
            r@ == "wireless"@,
    {
        "wireless"
    }
}

/// The first `max` characters of a network name that is longer than `max`;
/// a shorter name is kept whole.
pub open spec fn truncated(essid: Seq<char>, max: nat) -> Seq<char> {
    if essid.len() > max {
        essid.take(max as int)
    } else {
        essid
    }
}

/// Truncates a network name to at most `max` characters.
pub fn truncate_chars(s: &str, max: usize) -> (r: String)
    ensures
        r@ == truncated(s@, max as nat),
{
    let n = s.unicode_len();
    if n > max {
        let t = s.substring_char(0, max);
        t.to_owned()
    } else {
        s.to_owned()
    }
}

/// The network name a cycle shows: the (truncated) reported name when
/// connected and known, nothing otherwise.
pub open spec fn spec_essid(config: InternalConfig, state: WirelessState) -> Seq<char> {
    match state {
        WirelessState::Connected(d) => match d.essid {
            Some(e) => truncated(e@, config.max_essid_len as nat),
            None => Seq::empty(),
        },
        WirelessState::Disconnected => Seq::empty(),
    }
}

/// The signal strength a cycle shows, when connected and reported.
pub open spec fn spec_signal(state: WirelessState) -> Option<u32> {
    match state {
        WirelessState::Connected(d) => d.signal,
        WirelessState::Disconnected => None,
    }
}

/// The value text of one cycle's message, per display mode.  The trailing
/// text is the connected text, or the disconnected text when the link is
/// down; an unknown signal strength shows as four spaces.
pub open spec fn spec_value(config: InternalConfig, state: WirelessState) -> Seq<char> {
    let text = match state {
        WirelessState::Connected(_) => config.text@,
        WirelessState::Disconnected => config.disconnected_text@,
    };
    match config.display {
        Display::TextOnly => text,
        Display::Essid => spec_essid(config, state) + text,
        Display::Signal => match spec_signal(state) {
            Some(s) => dec_padded3(s as nat) + seq!['%'] + text,
            None => "    "@ + text,
        },
    }
}

/// One sampling cycle's decision, from the sampled link state.  The
/// wireless module reports every cycle: the message carries the value for
/// the configured display mode and no label.
pub fn cycle(key: char, config: &InternalConfig, state: &WirelessState) -> (r: ModuleMsg)
    ensures
        r.0 == key,
        r.1 matches Some(v) && v@ == spec_value(*config, *state),
        r.2 is None,
{
    let text: &str = match state {
        WirelessState::Connected(_) => config.text.as_str(),
        WirelessState::Disconnected => config.disconnected_text.as_str(),
    };
    let value: String = match config.display {
        Display::TextOnly => text.to_owned(),
        Display::Essid => {
            let essid: String = match state {
                WirelessState::Connected(d) => match &d.essid {
                    Some(e) => truncate_chars(e.as_str(), config.max_essid_len),
                    None => String::new(),
                },
                WirelessState::Disconnected => String::new(),
            };
            essid.concat(text)
        },
        Display::Signal => {
            let signal: Option<u32> = match state {
                WirelessState::Connected(d) => d.signal,
                WirelessState::Disconnected => None,
            };
            match signal {
                Some(s) => {
                    let mut v = u32_string_padded3(s);
                    push_char(&mut v, '%');
                    v.concat(text)
                },
                None => {
                    let v = String::from_str("    ");
                    v.concat(text)
                },
            }
        },
    };
    proof {
        assert(value@ =~= spec_value(*config, *state));
    }
    ModuleMsg(key, Some(value), None)
}

} // verus!
