use formate_js::{ConfigError, PyConfigurationBuilder, ResolvedConfiguration};

#[test]
fn an_empty_draft_has_no_settings() {
    let b = PyConfigurationBuilder::new();
    assert_eq!(b.get("lineWidth"), None);
    assert!(b.build().is_ok());
}

#[test]
fn numbers_are_written_in_decimal() {
    let mut b = PyConfigurationBuilder::new();
    b.line_width(80);
    b.indent_width(4);
    b.file_indent_level(1000);
    assert_eq!(b.get("lineWidth"), Some("80".to_string()));
    assert_eq!(b.get("indentWidth"), Some("4".to_string()));
    assert_eq!(b.get("fileIndentLevel"), Some("1000".to_string()));
}

#[test]
fn booleans_are_written_as_tokens() {
    let mut b = PyConfigurationBuilder::new();
    b.use_tabs(true);
    b.prefer_hanging(false);
    assert_eq!(b.get("useTabs"), Some("true".to_string()));
    assert_eq!(b.get("preferHanging"), Some("false".to_string()));
}

#[test]
fn a_later_setting_replaces_an_earlier_one() {
    let mut b = PyConfigurationBuilder::new();
    b.quote_style("preferSingle").unwrap();
    b.line_width(100);
    b.quote_style("alwaysDouble").unwrap();
    assert_eq!(b.get("quoteStyle"), Some("alwaysDouble".to_string()));
    assert_eq!(b.get("lineWidth"), Some("100".to_string()));
}

#[test]
fn an_out_of_set_token_is_refused_by_the_draft() {
    let mut b = PyConfigurationBuilder::new();
    b.brace_position("sameLine").unwrap();
    let r = b.if_statement_brace_position("sideways");
    assert_eq!(
        r,
        Err(ConfigError::InvalidEnumValue {
            field: "if_statement_brace_position".to_string(),
            value: "sideways".to_string(),
        })
    );
    assert_eq!(b.get("ifStatement.bracePosition"), None);
    assert_eq!(b.get("bracePosition"), Some("sameLine".to_string()));
}

#[test]
fn the_deno_preset() {
    let mut b = PyConfigurationBuilder::new();
    b.deno();
    assert_eq!(b.get("lineWidth"), Some("80".to_string()));
    assert_eq!(b.get("indentWidth"), Some("2".to_string()));
    assert_eq!(b.get("bracePosition"), Some("sameLine".to_string()));
    assert_eq!(b.get("arrowFunction.useParentheses"), Some("force".to_string()));
    assert_eq!(b.get("ignoreNodeCommentText"), Some("deno-fmt-ignore".to_string()));
    assert_eq!(b.get("importDeclaration.sortTypeOnlyImports"), Some("none".to_string()));
    assert!(b.build().is_ok());
}

#[test]
fn a_draft_of_a_configuration_states_every_setting() {
    let c = ResolvedConfiguration::default();
    let b = PyConfigurationBuilder::from_configuration(&c);
    assert_eq!(b.get("ifStatement.bracePosition"), Some("sameLineUnlessHanging".to_string()));
    assert_eq!(b.get("lineWidth"), Some("120".to_string()));
    assert_eq!(b.get("conditionalExpression.linePerExpression"), Some("true".to_string()));
    assert_eq!(b.get("ignoreFileCommentText"), Some("dprint-ignore-file".to_string()));
    assert!(b.build().is_ok());
}

#[test]
fn the_largest_line_width_is_written_in_full() {
    let mut b = PyConfigurationBuilder::new();
    b.line_width(u32::MAX);
    assert_eq!(b.get("lineWidth"), Some("4294967295".to_string()));
    assert!(b.build().is_ok());
}

#[test]
fn extreme_widths_are_accepted() {
    let mut b = PyConfigurationBuilder::new();
    b.indent_width(0);
    b.line_width(0);
    assert!(b.build().is_ok());
    let mut c = ResolvedConfiguration::default();
    c.indent_width = 255;
    assert!(PyConfigurationBuilder::from_configuration(&c).build().is_ok());
}
