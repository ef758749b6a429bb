//! The rule's configuration surface: three options and their validation.
//! The host engine hands the user's configuration over as one plain
//! configuration value; validation runs once per rule run, before any site
//! is evaluated, and fails on an unrecognized key, a bad enum value or an
//! invalid regular-expression source.

use vstd::prelude::*;
use crate::pattern::{regex_compiles, NamePattern};

verus! {

/// When an empty interface declaration is allowed.
#[derive(Clone, Copy, Debug, PartialEq, Eq, Structural)]
pub enum AllowInterfaces {
    Always,
    Never,
    WithSingleExtends,
}

/// When an empty object-type literal (or an alias to one) is allowed.
#[derive(Clone, Copy, Debug, PartialEq, Eq, Structural)]
pub enum AllowObjectTypes {
    Always,
    Never,
}

/// A plain configuration value, as the host engine's configuration layer
/// hands it over. Only the shapes this rule recognizes are told apart; the
/// magnitude of a numeric value is never consulted.
#[derive(Debug)]
pub enum ConfigValue {
    Null,
    Bool(bool),
    Number,
    Str(String),
    Array(Vec<ConfigValue>),
    Object(Vec<(String, ConfigValue)>),
}

/// Why a configuration failed validation.
#[derive(Debug)]
pub enum ConfigError {
    /// The configuration is not an object.
    NotAnObject,
    /// The named key is not one this rule recognizes.
    UnrecognizedKey(String),
    /// The named key carries a value of the wrong shape or an unknown
    /// enum value.
    InvalidValue(String),
    /// The `allowWithName` value is not a valid regular-expression source.
    InvalidPattern(String),
}

/// Validated configuration: immutable for the rest of the rule run.
#[derive(Debug)]
pub struct RuleOptions {
    pub allow_interfaces: AllowInterfaces,
    pub allow_object_types: AllowObjectTypes,
    /// The compiled `allowWithName` pattern; no configured pattern means no
    /// name-based exemption is ever granted.
    pub allow_with_name: Option<NamePattern>,
}

/// The validated settings stripped of the compiled pattern: what the
/// verdict may depend on.
pub ghost struct RawOptions {
    pub allow_interfaces: AllowInterfaces,
    pub allow_object_types: AllowObjectTypes,
    pub allow_with_name: Option<Seq<char>>,
}

impl RuleOptions {
    /// The source of the configured pattern, if one is configured.
    pub open spec fn pattern_source(self) -> Option<Seq<char>> {
        match self.allow_with_name {
            Some(p) => Some(p.source()),
            None => None,
        }
    }

    /// The settings this option record carries.
    pub open spec fn raw(self) -> RawOptions {
        RawOptions {
            allow_interfaces: self.allow_interfaces,
            allow_object_types: self.allow_object_types,
            allow_with_name: self.pattern_source(),
        }
    }
}

/// The settings that hold when the user configures nothing.
pub open spec fn default_raw_options() -> RawOptions {
    RawOptions {
        allow_interfaces: AllowInterfaces::Never,
        allow_object_types: AllowObjectTypes::Never,
        allow_with_name: None,
    }
}

impl Default for RuleOptions {
    /// Every option takes its default: interfaces and object types are
    /// never exempt, and no name pattern is configured.
    fn default() -> (options: RuleOptions)
        ensures
            options.raw() == default_raw_options(),
    {
        RuleOptions {
            allow_interfaces: AllowInterfaces::Never,
            allow_object_types: AllowObjectTypes::Never,
            allow_with_name: None,
        }
    }
}

/// The `allowInterfaces` setting a configuration value stands for, if any.
pub open spec fn spec_allow_interfaces_value(value: ConfigValue) -> Option<AllowInterfaces> {
    match value {
        ConfigValue::Str(s) => if s@ == "always"@ {
            Some(AllowInterfaces::Always)
        } else if s@ == "never"@ {
            Some(AllowInterfaces::Never)
        } else if s@ == "with-single-extends"@ {
            Some(AllowInterfaces::WithSingleExtends)
        } else {
            None
        },
        _ => None,
    }
}

/// The `allowObjectTypes` setting a configuration value stands for, if any.
pub open spec fn spec_allow_object_types_value(value: ConfigValue) -> Option<AllowObjectTypes> {
    match value {
        ConfigValue::Str(s) => if s@ == "always"@ {
            Some(AllowObjectTypes::Always)
        } else if s@ == "never"@ {
            Some(AllowObjectTypes::Never)
        } else {
            None
        },
        _ => None,
    }
}

/// Validates the entries of the configuration object from position `i` on,
/// folding recognized settings into `acc`. Entries are read in order; a
/// later entry for the same key overrides an earlier one.
pub open spec fn spec_validate_from(
    entries: Seq<(String, ConfigValue)>,
    i: int,
    acc: RawOptions,
) -> Result<RawOptions, ConfigError>
    decreases entries.len() - i,
{
    if i < 0 || i >= entries.len() {
        Ok(acc)
    } else {
        let (key, value) = entries[i];
        if key@ == "allowInterfaces"@ {
            match spec_allow_interfaces_value(value) {
                Some(setting) => spec_validate_from(
                    entries,
                    i + 1,
                    RawOptions { allow_interfaces: setting, ..acc },
                ),
                None => Err(ConfigError::InvalidValue(key)),
            }
        } else if key@ == "allowObjectTypes"@ {
            match spec_allow_object_types_value(value) {
                Some(setting) => spec_validate_from(
                    entries,
                    i + 1,
                    RawOptions { allow_object_types: setting, ..acc },
                ),
                None => Err(ConfigError::InvalidValue(key)),
            }
        } else if key@ == "allowWithName"@ {
            match value {
                ConfigValue::Str(s) => spec_validate_from(
                    entries,
                    i + 1,
                    RawOptions { allow_with_name: Some(s@), ..acc },
                ),
                _ => Err(ConfigError::InvalidValue(key)),
            }
        } else {
            Err(ConfigError::UnrecognizedKey(key))
        }
    }
}

/// The settings a configuration stands for: the configuration must be an
/// object, every key must be recognized and every value well-shaped.
/// Whether the resulting pattern source compiles is decided only by the
/// regular-expression engine, so it is not settled here.
pub open spec fn spec_validate(config: ConfigValue) -> Result<RawOptions, ConfigError> {
    match config {
        ConfigValue::Object(entries) => spec_validate_from(entries@, 0, default_raw_options()),
        _ => Err(ConfigError::NotAnObject),
    }
}

/// The settings carried by exec state during validation.
pub open spec fn raw_of(
    allow_interfaces: AllowInterfaces,
    allow_object_types: AllowObjectTypes,
    pattern_source: Option<String>,
) -> RawOptions {
    RawOptions {
        allow_interfaces,
        allow_object_types,
        allow_with_name: match pattern_source {
            Some(s) => Some(s@),
            None => None,
        },
    }
}

/// Reads the `allowInterfaces` value.
fn parse_allow_interfaces(value: &ConfigValue) -> (setting: Option<AllowInterfaces>)
    ensures
        setting == spec_allow_interfaces_value(*value),
{
    match value {
        ConfigValue::Str(s) => {
            if *s == "always".to_owned() {
                Some(AllowInterfaces::Always)
            } else if *s == "never".to_owned() {
                Some(AllowInterfaces::Never)
            } else if *s == "with-single-extends".to_owned() {
                Some(AllowInterfaces::WithSingleExtends)
            } else {
                None
            }
        },
        _ => None,
    }
}

/// Reads the `allowObjectTypes` value.
fn parse_allow_object_types(value: &ConfigValue) -> (setting: Option<AllowObjectTypes>)
    ensures
        setting == spec_allow_object_types_value(*value),
{
    match value {
        ConfigValue::Str(s) => {
            if *s == "always".to_owned() {
                Some(AllowObjectTypes::Always)
            } else if *s == "never".to_owned() {
                Some(AllowObjectTypes::Never)
            } else {
                None
            }
        },
        _ => None,
    }
}

impl RuleOptions {
    /// Validates a user configuration. Exactly the configurations that
    /// `spec_validate` accepts come back `Ok`, with one further demand that
    /// only the regular-expression engine decides: a configured
    /// `allowWithName` source must compile. Validation fails with
    /// `InvalidPattern` carrying that source exactly when it does not.
    pub fn from_config(config: &ConfigValue) -> (result: Result<RuleOptions, ConfigError>)
        ensures
            match spec_validate(*config) {
                Err(e) => result == Err::<RuleOptions, ConfigError>(e),
                Ok(raw) => {
                    &&& (result is Err <==> (raw.allow_with_name matches Some(s)
                        && !regex_compiles(s)))
                    &&& match result {
                        Ok(options) => options.raw() == raw,
                        Err(e) => {
                            &&& e matches ConfigError::InvalidPattern(s) && raw.allow_with_name
                                == Some(s@)
                        },
                    }
                },
            },
    {
        match config {
            ConfigValue::Object(entries) => Self::from_entries(entries),
            _ => Err(ConfigError::NotAnObject),
        }
    }

    /// Validates the entries of the configuration object.
    fn from_entries(entries: &Vec<(String, ConfigValue)>) -> (result: Result<
        RuleOptions,
        ConfigError,
    >)
        ensures
            match spec_validate_from(entries@, 0, default_raw_options()) {
                Err(e) => result == Err::<RuleOptions, ConfigError>(e),
                Ok(raw) => {
                    &&& (result is Err <==> (raw.allow_with_name matches Some(s)
                        && !regex_compiles(s)))
                    &&& match result {
                        Ok(options) => options.raw() == raw,
                        Err(e) => {
                            &&& e matches ConfigError::InvalidPattern(s) && raw.allow_with_name
                                == Some(s@)
                        },
                    }
                },
            },
    {
        let mut allow_interfaces = AllowInterfaces::Never;
        let mut allow_object_types = AllowObjectTypes::Never;
        let mut pattern_source: Option<String> = None;
        let count = entries.len();
        let mut i: usize = 0;
        while i < count
            invariant
                i <= count,
                count == entries@.len(),
                spec_validate_from(entries@, 0, default_raw_options()) == spec_validate_from(
                    entries@,
                    i as int,
                    raw_of(allow_interfaces, allow_object_types, pattern_source),
                ),
            decreases count - i,
        {
            let entry = &entries[i];
            if entry.0 == "allowInterfaces".to_owned() {
                match parse_allow_interfaces(&entry.1) {
                    Some(setting) => { allow_interfaces = setting; },
                    None => { return Err(ConfigError::InvalidValue(entry.0.clone())); },
                }
            } else if entry.0 == "allowObjectTypes".to_owned() {
                match parse_allow_object_types(&entry.1) {
                    Some(setting) => { allow_object_types = setting; },
                    None => { return Err(ConfigError::InvalidValue(entry.0.clone())); },
                }
            } else if entry.0 == "allowWithName".to_owned() {
                match &entry.1 {
                    ConfigValue::Str(s) => { pattern_source = Some(s.clone()); },
                    _ => { return Err(ConfigError::InvalidValue(entry.0.clone())); },
                }
            } else {
                return Err(ConfigError::UnrecognizedKey(entry.0.clone()));
            }
            i += 1;
        }
        match pattern_source {
            None => Ok(
                RuleOptions { allow_interfaces, allow_object_types, allow_with_name: None },
            ),
            Some(source) => match NamePattern::compile(source.as_str()) {
                Some(pattern) => Ok(
                    RuleOptions {
                        allow_interfaces,
                        allow_object_types,
                        allow_with_name: Some(pattern),
                    },
                ),
                None => Err(ConfigError::InvalidPattern(source)),
            },
        }
    }
}

} // verus!
