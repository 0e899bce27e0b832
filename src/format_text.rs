use vstd::prelude::*;

use crate::configuration::{ConfigError, PyConfiguration, ResolvedConfiguration};
use crate::configuration_builder::PyConfigurationBuilder;
use crate::engine::{format_source, formatted_of, opt_view, starts_with_bom};
use crate::text::{has_two_boms, starts_with_two_boms};

verus! {

/// What a file is formatted with: its path (its extension selects the dialect), an
/// extension that replaces the path's, its text, and the configuration.
#[derive(Clone, Debug)]
pub struct PyFormatTextOptions {
    pub path: String,
    pub extension: Option<String>,
    pub text: String,
    pub config: PyConfiguration,
}

impl PyFormatTextOptions {
    /// Gathers the options of one formatting call.
    pub fn new(
        path: String,
        extension: Option<String>,
        text: String,
        config: PyConfiguration,
    ) -> (r: PyFormatTextOptions)
        ensures
            r.path == path,
            r.extension == extension,
            r.text == text,
            r.config == config,
    {
        PyFormatTextOptions { path, extension, text, config }
    }

    /// The settings that formatting with these options hands to the engine: every setting
    /// of the validated configuration, each under its own property.
    pub fn engine_settings(&self) -> (r: Result<PyConfigurationBuilder, ConfigError>)
        ensures
            r is Ok <==> self.config.first_invalid() is None,
            r matches Ok(d) ==> exists|c: ResolvedConfiguration|
                self.config.describes(c) && d@ == PyConfigurationBuilder::settings_for(c),
            self.config.first_invalid() matches Some(p) ==> (r matches Err(e) && e.is_invalid_value(
                p.0,
                p.1,
            )),
    {
        match self.config.resolve() {
            Ok(c) => {
                let draft = PyConfigurationBuilder::from_configuration(&c);
                assert(self.config.describes(c) && draft@ == PyConfigurationBuilder::settings_for(c));
                Ok(draft)
            },
            Err(e) => Err(e),
        }
    }
}

/// Why a file could not be formatted.
#[derive(Clone, Debug, PartialEq, Eq)]
pub enum FormatError {
    /// The configuration was refused.
    Config(ConfigError),
    /// The text does not parse; the parser's message.
    Parse(String),
    /// The text begins with two byte order marks.
    RepeatedByteOrderMark,
}

/// `r` is what the engine made of the file: the text it handed back, or a parse error when
/// it made nothing of it.
pub open spec fn is_outcome(r: Result<Option<String>, FormatError>, f: Option<Option<Seq<char>>>) -> bool {
    match f {
        Some(x) => r matches Ok(y) && opt_view(y) == x,
        None => r matches Err(FormatError::Parse(_)),
    }
}

/// Formats a file with the settings of [`PyFormatTextOptions::engine_settings`]. Returns `None`
/// when the text is already formatted, the new text otherwise, or an error when the
/// configuration is refused, the text begins with two byte order marks, or the text does
/// not parse.
pub fn format_text_py(options: PyFormatTextOptions) -> (r: Result<Option<String>, FormatError>)
    ensures
        options.config.first_invalid() matches Some(p) ==> (r matches Err(FormatError::Config(e))
            && e.is_invalid_value(p.0, p.1)),
        options.config.first_invalid() is None && starts_with_two_boms(options.text@) ==> r
            == Err::<Option<String>, FormatError>(FormatError::RepeatedByteOrderMark),
        options.config.first_invalid() is None && !starts_with_two_boms(options.text@) ==> exists|
            c: ResolvedConfiguration,
        |
            options.config.describes(c) && is_outcome(
                r,
                formatted_of(
                    options.path@,
                    opt_view(options.extension),
                    options.text@,
                    PyConfigurationBuilder::settings_for(c),
                ),
            ),
        !starts_with_bom(options.text@) ==> (r matches Ok(Some(t)) ==> t@ != options.text@),
{
    let draft = match options.engine_settings() {
        Ok(d) => d,
        Err(e) => {
            return Err(FormatError::Config(e));
        },
    };
    if has_two_boms(options.text.as_str()) {
        return Err(FormatError::RepeatedByteOrderMark);
    }
    let ghost c = choose|c: ResolvedConfiguration|
        options.config.describes(c) && draft@ == PyConfigurationBuilder::settings_for(c);
    let ghost ext = opt_view(options.extension);
    let ghost text = options.text@;
    let r = match format_source(options.path.as_str(), &options.extension, options.text, draft.settings()) {
        Ok(formatted) => Ok(formatted),
        Err(message) => Err(FormatError::Parse(message)),
    };
    assert(is_outcome(r, formatted_of(options.path@, ext, text, PyConfigurationBuilder::settings_for(c))));
    r
}

} // verus!
