use vstd::prelude::*;
use vstd::string::StringExecFns;
use crate::text::decimal_text;
use crate::text::decimal_value;
use crate::text::format_decimal;
use crate::text::lemma_decimal_roundtrip;
use crate::text::parse_decimal;

verus! {

/// The key under which the slideshow's interval is stored.
pub const SCREENSAVER_INTERVAL_KEY: &'static str = "screensaver.interval";

/// The interval that is read where none is stored: two minutes, in seconds.
pub const DEFAULT_SCREENSAVER_INTERVAL: &'static str = "120";

/// Why a stored setting could not be used.
#[derive(Debug, Clone, Copy, PartialEq, Eq, Structural)]
pub enum ConfigError {
    /// The stored text is no unsigned number.
    Unparsable,
}

/// The settings that are kept in the store, each as a text under its key.
pub struct ConfigSvc;

impl ConfigSvc {
    /// The text of a setting: what is stored, or the default where nothing is.
    pub open spec fn value_or(stored: Option<String>, default_value: Seq<char>) -> Seq<char> {
        match stored {
            Some(value) => value@,
            None => default_value,
        }
    }

    /// The interval that a stored text stands for, in seconds: the text as an unsigned
    /// decimal number of 64 bits, and 120 where nothing is stored.
    pub open spec fn interval_of(stored: Option<String>) -> Option<nat> {
        match stored {
            Some(value) => decimal_value(value@, 0xffff_ffff_ffff_ffff),
            None => Some(120nat),
        }
    }

    /// The value of a setting: what the store holds under its key, or the default where
    /// it holds nothing.
    pub fn get_config_value(stored: Option<String>, default_value: &str) -> (value: String)
        ensures
            value@ == Self::value_or(stored, default_value@),
    {
        match stored {
            Some(value) => value,
            None => String::from_str(default_value),
        }
    }

    /// The slideshow's interval in seconds, read from what the store holds under
    /// [`SCREENSAVER_INTERVAL_KEY`]. Where nothing is stored the interval is 120; a text
    /// that is no unsigned number is an error.
    pub fn get_screensaver_interval(stored: Option<String>) -> (r: Result<u64, ConfigError>)
        ensures
            match r {
                Ok(seconds) => Self::interval_of(stored) == Some(seconds as nat),
                Err(e) => e == ConfigError::Unparsable && Self::interval_of(stored).is_none(),
            },
    {
        match stored {
            Some(value) => match parse_decimal(value.as_str(), 0xffff_ffff_ffff_ffff) {
                Some(seconds) => Ok(seconds),
                None => Err(ConfigError::Unparsable),
            },
            None => Ok(120),
        }
    }

    /// The text to store under [`SCREENSAVER_INTERVAL_KEY`] for an interval in seconds.
    pub fn set_screensaver_interval(seconds: u64) -> (value: String)
        ensures
            value@ == decimal_text(seconds as nat),
    {
        format_decimal(seconds)
    }
}

/// An interval that was stored is read back as it was set.
pub proof fn lemma_interval_roundtrip(seconds: u64, stored: String)
    requires
        stored@ == decimal_text(seconds as nat),
    ensures
        ConfigSvc::interval_of(Some(stored)) == Some(seconds as nat),
{
    lemma_decimal_roundtrip(seconds as nat, 0xffff_ffff_ffff_ffff);
}

/// The default that is read where nothing is stored is the number that the default text
/// spells.
pub proof fn lemma_default_interval()
    ensures
        decimal_value(DEFAULT_SCREENSAVER_INTERVAL@, 0xffff_ffff_ffff_ffff) == Some(120nat),
{
    reveal_strlit("120");
    let text = DEFAULT_SCREENSAVER_INTERVAL@;
    assert(text =~= seq!['1', '2', '0']);
    assert(text.drop_last() =~= seq!['1', '2']);
    assert(text.drop_last().drop_last() =~= seq!['1']);
    assert(text.drop_last().drop_last().drop_last() =~= Seq::<char>::empty());
    reveal_with_fuel(crate::text::digits_value, 4);
}

} // verus!
