use vstd::prelude::*;

use dprint_core::configuration::{ConfigKeyMap, ConfigKeyValue, GlobalConfiguration};
use dprint_plugin_typescript::configuration::resolve_config;
use dprint_plugin_typescript::{format_text, FormatTextOptions};

use crate::configuration_builder::{settings_map, settings_view};
use crate::text::starts_with_two_boms;

verus! {

/// The formatting engine's own configuration.
#[verifier::external_type_specification]
#[verifier::external_body]
pub struct ExEngineConfiguration(dprint_plugin_typescript::configuration::Configuration);

/// The text begins with a byte order mark.
pub open spec fn starts_with_bom(s: Seq<char>) -> bool {
    s.len() > 0 && s[0] == '\u{FEFF}'
}

/// The characters of an optional text.
pub open spec fn opt_view(o: Option<String>) -> Option<Seq<char>> {
    match o {
        Some(s) => Some(s@),
        None => None,
    }
}

/// The properties, in the engine's order, that the engine cannot use among these settings.
pub uninterp spec fn unresolved_of(settings: Seq<(Seq<char>, Seq<char>)>) -> Seq<Seq<char>>;

/// What the engine makes of a file (path, extension, text) formatted with the configuration
/// that these settings resolve to: `None` when the text does not parse, `Some(None)` when
/// it is left as it is, `Some(Some(t))` with the new text otherwise.
pub uninterp spec fn formatted_of(
    path: Seq<char>,
    extension: Option<Seq<char>>,
    text: Seq<char>,
    settings: Map<Seq<char>, Seq<char>>,
) -> Option<Option<Seq<char>>>;

/// Relies on `dprint_plugin_typescript::configuration::resolve_config`: it builds the
/// engine's configuration from the properties given (each value read from its text; a later
/// setting of a key replaces an earlier one), with the recommended global settings, and
/// names each property that it cannot use; with no properties it names none.
#[verifier::external_body]
pub(crate) fn resolve_settings(settings: &Vec<(String, String)>) -> (r: (
    dprint_plugin_typescript::configuration::Configuration,
    Vec<String>,
))
    ensures
        r.1@.map_values(|s: String| s@) == unresolved_of(settings_view(settings@)),
        settings@.len() == 0 ==> r.1@.len() == 0,
{
    let map: ConfigKeyMap = settings.iter().map(
        |(k, v)| (k.clone(), ConfigKeyValue::String(v.clone())),
    ).collect();
    let result = resolve_config(map, &GlobalConfiguration::default());
    (result.config, result.diagnostics.into_iter().map(|d| d.property_name).collect())
}

/// Relies on `dprint_plugin_typescript::format_text`, with the configuration that
/// `resolve_config` makes of the settings: the result depends on the path, extension, text
/// and settings alone; an error when the text does not parse. Without a byte order mark, a
/// text handed back differs from the input. Two leading byte order marks are left out: the
/// parser stops on the second one.
#[verifier::external_body]
pub(crate) fn format_source(
    path: &str,
    extension: &Option<String>,
    text: String,
    settings: &Vec<(String, String)>,
) -> (r: Result<Option<String>, String>)
    requires
        !starts_with_two_boms(text@),
    ensures
        r is Ok <==> formatted_of(path@, opt_view(*extension), text@, settings_map(settings_view(settings@))) is Some,
        r matches Ok(x) ==> Some(opt_view(x)) == formatted_of(path@, opt_view(*extension), text@, settings_map(settings_view(settings@))),
        !starts_with_bom(text@) ==> (r matches Ok(Some(t)) ==> t@ != text@),
{
    let map: ConfigKeyMap = settings.iter().map(
        |(k, v)| (k.clone(), ConfigKeyValue::String(v.clone())),
    ).collect();
    let config = resolve_config(map, &GlobalConfiguration::default()).config;
    let path = std::path::Path::new(path);
    let options = FormatTextOptions { path, extension: extension.as_deref(), text, config: &config, external_formatter: None };
    format_text(options).map_err(|error| error.to_string())
}

} // verus!
