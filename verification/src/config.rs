//! The values the firmware runs with, resolved once at startup from an
//! optional key/value store: every key is optional and an absent value
//! falls back to its documented default, never to an error.

use vstd::prelude::*;
use vstd::string::StringExecFns;

verus! {

/// The default identifier of the output pin.
pub const DEFAULT_LED_GPIO: u8 = 2;

/// The default base time unit, in milliseconds.
pub const DEFAULT_DOT_MS: u32 = 200;

/// The pattern played when none is configured.
pub open spec fn default_pattern() -> Seq<char> {
    "... --- ..."@
}

/// The resolved configuration, passed by value into the rest of the
/// program; nothing reads the store after startup.
pub struct Config {
    /// Name of the wireless network to join; empty means none.
    pub wifi_ssid: String,
    /// Credential for that network.
    pub wifi_pass: String,
    /// Identifier of the output pin to drive.
    pub led_gpio: u8,
    /// The dot/dash/space pattern to play.
    pub pattern: String,
    /// The base time unit in milliseconds.
    pub dot_ms: u32,
}

impl Config {
    /// Fill each field from the store's value for it, or from the
    /// documented default where the store had none.
    pub fn resolve(
        wifi_ssid: Option<String>,
        wifi_pass: Option<String>,
        led_gpio: Option<u8>,
        pattern: Option<String>,
        dot_ms: Option<u32>,
    ) -> (c: Config)
        ensures
            c.wifi_ssid@ == (match wifi_ssid {
                Some(s) => s@,
                None => Seq::<char>::empty(),
            }),
            c.wifi_pass@ == (match wifi_pass {
                Some(s) => s@,
                None => Seq::<char>::empty(),
            }),
            c.led_gpio == (match led_gpio {
                Some(g) => g,
                None => DEFAULT_LED_GPIO,
            }),
            c.pattern@ == (match pattern {
                Some(p) => p@,
                None => default_pattern(),
            }),
            c.dot_ms == (match dot_ms {
                Some(d) => d,
                None => DEFAULT_DOT_MS,
            }),
    {
        let wifi_ssid = match wifi_ssid {
            Some(s) => s,
            None => String::new(),
        };
        let wifi_pass = match wifi_pass {
            Some(s) => s,
            None => String::new(),
        };
        let led_gpio = match led_gpio {
            Some(g) => g,
            None => DEFAULT_LED_GPIO,
        };
        let pattern = match pattern {
            Some(p) => p,
            None => String::from_str("... --- ..."),
        };
        let dot_ms = match dot_ms {
            Some(d) => d,
            None => DEFAULT_DOT_MS,
        };
        Config { wifi_ssid, wifi_pass, led_gpio, pattern, dot_ms }
    }

    /// The network is joined only when an SSID is configured; an empty
    /// one means the whole join step is skipped.
    pub fn join_wifi(&self) -> (r: bool)
        ensures
            r <==> self.wifi_ssid@.len() != 0,
    {
        self.wifi_ssid.as_str().unicode_len() != 0
    }
}

/// The fixed allow-list of pin identifiers the hardware accepts for
/// the output.
pub open spec fn supported_gpio_spec(pin: u8) -> bool {
    ||| pin == 2
    ||| pin == 4
    ||| pin == 5
    ||| 12 <= pin <= 19
    ||| 21 <= pin <= 23
    ||| 25 <= pin <= 27
    ||| 32 <= pin <= 33
}

/// Whether the configured pin identifier is on the allow-list. Any
/// other identifier is a fatal startup error, raised before any
/// hardware is touched.
pub fn supported_gpio(pin: u8) -> (r: bool)
    ensures
        r == supported_gpio_spec(pin),
{
    pin == 2 || pin == 4 || pin == 5 || (12 <= pin && pin <= 19) || (21 <= pin && pin <= 23) || (25
        <= pin && pin <= 27) || (32 <= pin && pin <= 33)
}

} // verus!
