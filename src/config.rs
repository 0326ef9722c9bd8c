use vstd::prelude::*;

verus! {

/// Name of the per-user directory that holds the configuration file.
pub const CONFIG_DIR_NAME: &'static str = "krabby";

/// Name of the configuration file inside that directory.
pub const CONFIG_FILE_NAME: &'static str = "config.toml";

/// IEEE-754 binary64 bit pattern of the default shiny rate, 1/128 (2^-7).
pub const DEFAULT_SHINY_RATE_BITS: u64 = 0x3F80_0000_0000_0000;

/// The language used when the file does not name one.
pub open spec fn default_language() -> Seq<char> {
    seq!['e', 'n']
}

/// Mathematical model of a configuration.
pub struct ConfigModel {
    pub language: Seq<char>,
    pub shiny_rate_bits: u64,
}

/// The default configuration.
pub open spec fn default_model() -> ConfigModel {
    ConfigModel { language: default_language(), shiny_rate_bits: DEFAULT_SHINY_RATE_BITS }
}

/// The user's configuration.
///
/// The shiny rate is a probability held as the bit pattern of an IEEE-754
/// binary64 number, so that it passes through the library unchanged.
#[derive(Clone, Debug)]
pub struct Config {
    /// Language used when printing pokemon names and descriptions.
    pub language: String,
    /// Bit pattern of the probability to display a shiny pokemon with the
    /// random command.
    pub shiny_rate_bits: u64,
}

impl View for Config {
    type V = ConfigModel;

    open spec fn view(&self) -> ConfigModel {
        ConfigModel { language: self.language@, shiny_rate_bits: self.shiny_rate_bits }
    }
}

impl PartialEq for Config {
    fn eq(&self, other: &Config) -> (r: bool)
        ensures
            r == (self@ == other@),
    {
        let same_rate = self.shiny_rate_bits == other.shiny_rate_bits;
        let same_language = self.language == other.language;
        proof {
            if same_language && same_rate {
                assert(self@ == other@);
            }
        }
        same_language && same_rate
    }
}

impl vstd::std_specs::cmp::PartialEqSpecImpl for Config {
    open spec fn obeys_eq_spec() -> bool {
        true
    }

    open spec fn eq_spec(&self, other: &Config) -> bool {
        self@ == other@
    }
}

impl Default for Config {
    /// The configuration used when no file exists: language "en" and a shiny
    /// rate of 1/128.
    fn default() -> (r: Self)
        ensures
            r@ == default_model(),
    {
        let language = String::from_str("en");
        proof {
            reveal_strlit("en");
        }
        assert(language@ =~= default_language());
        Config { language, shiny_rate_bits: DEFAULT_SHINY_RATE_BITS }
    }
}

/// Mathematical model of the fields that a configuration file sets.
pub struct FieldsModel {
    pub language: Option<Seq<char>>,
    pub shiny_rate_bits: Option<u64>,
}

/// The configuration that a file setting `f` stands for: each field the file
/// leaves out takes its default, independently of the other.
pub open spec fn resolve(f: FieldsModel) -> ConfigModel {
    ConfigModel {
        language: match f.language {
            Some(l) => l,
            None => default_language(),
        },
        shiny_rate_bits: match f.shiny_rate_bits {
            Some(b) => b,
            None => DEFAULT_SHINY_RATE_BITS,
        },
    }
}

/// The fields of a file that sets every field of `c`.
pub open spec fn fields_of(c: ConfigModel) -> FieldsModel {
    FieldsModel { language: Some(c.language), shiny_rate_bits: Some(c.shiny_rate_bits) }
}

/// The fields that a configuration file sets, as it was parsed.
#[derive(Clone, Debug)]
pub struct ConfigFields {
    pub language: Option<String>,
    pub shiny_rate_bits: Option<u64>,
}

impl View for ConfigFields {
    type V = FieldsModel;

    open spec fn view(&self) -> FieldsModel {
        FieldsModel {
            language: match self.language {
                Some(l) => Some(l@),
                None => None,
            },
            shiny_rate_bits: self.shiny_rate_bits,
        }
    }
}

impl Config {
    /// The configuration that `fields` stands for, with the default of each
    /// field that it leaves out.
    pub fn with_defaults(fields: ConfigFields) -> (r: Config)
        ensures
            r@ == resolve(fields@),
    {
        let default = Config::default();
        let language = match fields.language {
            Some(l) => l,
            None => default.language,
        };
        let shiny_rate_bits = match fields.shiny_rate_bits {
            Some(b) => b,
            None => default.shiny_rate_bits,
        };
        Config { language, shiny_rate_bits }
    }
}

} // verus!
