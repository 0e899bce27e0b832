use formate_js::{format_text_py, ConfigError, FormatError, PyConfiguration, PyFormatTextOptions};

fn format_with(text: &str, config: PyConfiguration) -> Result<Option<String>, FormatError> {
    format_text_py(PyFormatTextOptions::new("file.ts".to_string(), None, text.to_string(), config))
}

fn format(text: &str) -> Result<Option<String>, FormatError> {
    format_with(text, PyConfiguration::new())
}

#[test]
fn an_if_statement_is_spaced_and_terminated() {
    // The default brace policy drops the braces of a body that fits on one line.
    assert_eq!(format("if(x){y()}"), Ok(Some("if (x) y();\n".to_string())));
}

#[test]
fn an_if_statement_keeps_its_brace_on_the_same_line() {
    let mut config = PyConfiguration::new();
    config.if_statement_use_braces = "always".to_string();
    assert_eq!(format_with("if(x){y()}", config), Ok(Some("if (x) { y(); }\n".to_string())));
}

#[test]
fn named_imports_are_sorted_case_insensitively() {
    let mut config = PyConfiguration::new();
    config.import_declaration_sort_named_imports = "caseInsensitive".to_string();
    assert_eq!(
        format_with("import { c, B, a } from \"./mod\";\n", config),
        Ok(Some("import { a, B, c } from \"./mod\";\n".to_string()))
    );
}

#[test]
fn a_long_binary_expression_breaks_before_the_operator() {
    let mut config = PyConfiguration::new();
    config.line_width = 40;
    let text = "const total = first_value_in_the_sum + second_value_in_the_sum + third;\n";
    let out = format_with(text, config).unwrap().unwrap();
    let lines: Vec<&str> = out.lines().collect();
    assert!(lines.len() > 1);
    assert!(!lines[0].ends_with('+'));
    for line in &lines[1..] {
        assert!(line.starts_with("  + "), "{:?}", out);
    }
}

#[test]
fn a_file_ignore_comment_leaves_the_text_unchanged() {
    let mut config = PyConfiguration::new();
    config.quote_style = "alwaysSingle".to_string();
    config.indent_width = 8;
    assert_eq!(format_with("// dprint-ignore-file\nconst  x  =  \"a\"\n", config), Ok(None));
}

#[test]
fn formatting_is_idempotent() {
    let text = "function  f(a,b){return a+b}\nconst o={a:1,b:[1,2,3]}";
    let once = format(text).unwrap().unwrap();
    assert_ne!(once, text);
    assert_eq!(format(&once), Ok(None));
}

#[test]
fn a_short_group_stays_on_one_line() {
    assert_eq!(format("call(a, b, c);\n"), Ok(None));
    let mut config = PyConfiguration::new();
    config.line_width = 20;
    assert_eq!(format_with("call(a, b, c);\n", config), Ok(None));
}

#[test]
fn a_node_ignore_comment_keeps_the_construct_verbatim() {
    let text = "// dprint-ignore\nconst  m  =  [1,0,\n  0,1];\nconst  n  =  2\n";
    assert_eq!(
        format(text),
        Ok(Some("// dprint-ignore\nconst  m  =  [1,0,\n  0,1];\nconst n = 2;\n".to_string()))
    );
}

#[test]
fn a_configured_ignore_comment_is_honoured() {
    let mut config = PyConfiguration::new();
    config.ignore_node_comment_text = "keep".to_string();
    assert_eq!(
        format_with("// keep\nconst  a=1\n", config),
        Ok(None)
    );
}

#[test]
fn text_that_does_not_parse_is_an_error() {
    assert!(matches!(format("const = ;"), Err(FormatError::Parse(_))));
}

#[test]
fn an_invalid_configuration_is_an_error() {
    let mut config = PyConfiguration::new();
    config.arguments_trailing_commas = "sometimes".to_string();
    assert_eq!(
        format_with("f(a)\n", config),
        Err(FormatError::Config(ConfigError::InvalidEnumValue {
            field: "arguments_trailing_commas".to_string(),
            value: "sometimes".to_string(),
        }))
    );
}

#[test]
fn the_extension_selects_the_dialect() {
    let text = "const x = <div>{a}</div>;\n";
    let as_tsx = PyFormatTextOptions::new(
        "component".to_string(),
        Some("tsx".to_string()),
        text.to_string(),
        PyConfiguration::new(),
    );
    assert_eq!(format_text_py(as_tsx), Ok(None));
}

#[test]
fn an_empty_file_is_already_formatted() {
    assert_eq!(format(""), Ok(None));
}

#[test]
fn a_changed_text_differs_from_the_input() {
    let text = "let  a =1";
    let out = format(text).unwrap().unwrap();
    assert_eq!(out, "let a = 1;\n");
}

#[test]
fn the_engine_receives_every_validated_setting() {
    let mut config = PyConfiguration::new();
    config.quote_style = "preferSingle".to_string();
    config.line_width = 60;
    let options = PyFormatTextOptions::new("a.ts".to_string(), None, String::new(), config);
    let draft = options.engine_settings().unwrap();
    assert_eq!(draft.get("quoteStyle"), Some("preferSingle".to_string()));
    assert_eq!(draft.get("lineWidth"), Some("60".to_string()));
    assert_eq!(draft.get("bracePosition"), None);

    let mut bad = PyConfiguration::new();
    bad.semi_colons = "sometimes".to_string();
    let options = PyFormatTextOptions::new("a.ts".to_string(), None, String::new(), bad);
    assert_eq!(
        options.engine_settings().err(),
        Some(ConfigError::InvalidEnumValue {
            field: "semi_colons".to_string(),
            value: "sometimes".to_string(),
        })
    );
}

#[test]
fn two_byte_order_marks_are_refused() {
    assert_eq!(format("\u{FEFF}\u{FEFF}const a = 1;\n"), Err(FormatError::RepeatedByteOrderMark));
}

#[test]
fn one_byte_order_mark_is_dropped() {
    assert_eq!(format("\u{FEFF}let  a=1"), Ok(Some("let a = 1;\n".to_string())));
}
