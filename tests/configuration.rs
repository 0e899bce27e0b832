use formate_js::configuration::FIELD_COUNT;
use formate_js::options::{
    BracePosition, NamedTypeImportsExportsOrder, NewLineKind, OperatorPosition, QuoteStyle, SortOrder,
};
use formate_js::{ConfigError, ConfigValue, PyConfiguration, ResolvedConfiguration};

fn invalid(field: &str, value: &str) -> ConfigError {
    ConfigError::InvalidEnumValue { field: field.to_string(), value: value.to_string() }
}

#[test]
fn tokens_read_back_to_their_value() {
    for v in [
        BracePosition::Maintain,
        BracePosition::SameLine,
        BracePosition::NextLine,
        BracePosition::SameLineUnlessHanging,
    ] {
        assert_eq!(BracePosition::parse(v.as_str()), Some(v));
    }
    assert_eq!(NewLineKind::parse("crlf"), Some(NewLineKind::CarriageReturnLineFeed));
    assert_eq!(
        NamedTypeImportsExportsOrder::parse("none"),
        Some(NamedTypeImportsExportsOrder::Unordered)
    );
    assert_eq!(QuoteStyle::PreferSingle.as_str(), "preferSingle");
}

#[test]
fn unknown_tokens_are_not_read() {
    assert_eq!(BracePosition::parse("samelineunlesshanging"), None);
    assert_eq!(BracePosition::parse(""), None);
    assert_eq!(QuoteStyle::parse("single"), None);
    assert_eq!(NewLineKind::parse("system"), None);
}

#[test]
fn defaults_are_the_recommended_configuration() {
    let raw = PyConfiguration::new();
    assert_eq!(raw.indent_width, 2);
    assert_eq!(raw.line_width, 120);
    assert!(!raw.use_tabs);
    assert_eq!(raw.new_line_kind, "lf");
    assert_eq!(raw.quote_style, "alwaysDouble");
    assert_eq!(raw.semi_colons, "prefer");
    assert_eq!(raw.binary_expression_operator_position, "nextLine");
    assert_eq!(raw.ignore_node_comment_text, "dprint-ignore");
    assert_eq!(raw.ignore_file_comment_text, "dprint-ignore-file");
    let resolved = raw.resolve().unwrap();
    assert_eq!(resolved, ResolvedConfiguration::default());
    assert_eq!(resolved.if_statement_brace_position, BracePosition::SameLineUnlessHanging);
    assert_eq!(resolved.import_declaration_sort_named_imports, SortOrder::CaseInsensitive);
}

#[test]
fn an_out_of_set_token_fails_resolution() {
    let mut raw = PyConfiguration::new();
    raw.quote_style = "single".to_string();
    assert_eq!(raw.resolve(), Err(invalid("quote_style", "single")));
}

#[test]
fn an_out_of_set_token_is_never_replaced_by_the_default() {
    let mut raw = PyConfiguration::new();
    raw.while_statement_brace_position = "".to_string();
    assert_eq!(raw.resolve(), Err(invalid("while_statement_brace_position", "")));
}

#[test]
fn the_first_invalid_setting_is_reported() {
    let mut raw = PyConfiguration::new();
    raw.quote_style = "x".to_string();
    raw.new_line_kind = "y".to_string();
    assert_eq!(raw.resolve(), Err(invalid("new_line_kind", "y")));
}

#[test]
fn the_written_form_resolves_back() {
    let mut c = ResolvedConfiguration::default();
    c.line_width = 80;
    c.use_tabs = true;
    c.binary_expression_operator_position = OperatorPosition::SameLine;
    c.ignore_node_comment_text = "keep-as-is".to_string();
    let raw = PyConfiguration::from_configuration(&c);
    assert_eq!(raw.binary_expression_operator_position, "sameLine");
    assert_eq!(raw.resolve(), Ok(c));
}

#[test]
fn settings_are_independent_per_construct() {
    let mut raw = PyConfiguration::new();
    raw.if_statement_brace_position = "nextLine".to_string();
    let c = raw.resolve().unwrap();
    assert_eq!(c.if_statement_brace_position, BracePosition::NextLine);
    assert_eq!(c.class_declaration_brace_position, BracePosition::SameLineUnlessHanging);
}

#[test]
fn the_dict_of_a_default_configuration_has_no_changes() {
    let raw = PyConfiguration::new();
    assert!(raw.to_dict(true).is_empty());
    let all = raw.to_dict(false);
    assert_eq!(all.len(), FIELD_COUNT);
    assert_eq!(all[0], ("indent_width".to_string(), ConfigValue::Int(2)));
    assert_eq!(all[3], ("new_line_kind".to_string(), ConfigValue::Str("lf".to_string())));
}

#[test]
fn the_dict_of_changes_lists_changed_settings_in_order() {
    let mut raw = PyConfiguration::new();
    raw.quote_style = "preferSingle".to_string();
    raw.line_width = 80;
    raw.use_tabs = true;
    assert_eq!(
        raw.to_dict(true),
        vec![
            ("line_width".to_string(), ConfigValue::Int(80)),
            ("use_tabs".to_string(), ConfigValue::Bool(true)),
            ("quote_style".to_string(), ConfigValue::Str("preferSingle".to_string())),
        ]
    );
}

#[test]
fn items_keys_and_values_agree() {
    let raw = PyConfiguration::new();
    let items = raw.items();
    let keys = raw.keys();
    let values = raw.values();
    assert_eq!(raw.len(), FIELD_COUNT);
    assert_eq!(items.len(), FIELD_COUNT);
    for i in 0..FIELD_COUNT {
        assert_eq!(items[i].0, keys[i]);
        assert_eq!(items[i].1, values[i]);
    }
    assert_eq!(keys[FIELD_COUNT - 1], "while_statement_space_around");
}

#[test]
fn lookup_by_name() {
    let mut raw = PyConfiguration::new();
    raw.file_indent_level = 3;
    assert_eq!(raw.get_item("quote_style"), Some(ConfigValue::Str("alwaysDouble".to_string())));
    assert_eq!(raw.get_item("file_indent_level"), Some(ConfigValue::Int(3)));
    assert_eq!(raw.get_item("use_tabs"), Some(ConfigValue::Bool(false)));
    assert_eq!(raw.get_item("quoteStyle"), None);
    assert!(raw.contains_key("jsx_quote_style"));
    assert!(!raw.contains_key(""));
}
