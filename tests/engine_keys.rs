use dprint_plugin_typescript::configuration::ConfigurationBuilder;
use dprint_plugin_typescript::{format_text, FormatTextOptions};
use formate_js::PyConfigurationBuilder;

#[test]
fn every_property_of_the_draft_is_known_to_the_engine() {
    let mut b = PyConfigurationBuilder::new();
    b.line_width(3);
    b.use_tabs(true);
    b.indent_width(3);
    b.new_line_kind("crlf").unwrap();
    b.quote_style("preferSingle").unwrap();
    b.jsx_quote_style("preferSingle").unwrap();
    b.jsx_multi_line_parens("always").unwrap();
    b.jsx_force_new_lines_surrounding_content(true);
    b.jsx_bracket_position("nextLine").unwrap();
    b.jsx_opening_element_bracket_position("nextLine").unwrap();
    b.jsx_self_closing_element_bracket_position("nextLine").unwrap();
    b.semi_colons("asi").unwrap();
    b.prefer_hanging(true);
    b.quote_props("preserve").unwrap();
    b.brace_position("sameLineUnlessHanging").unwrap();
    b.next_control_flow_position("nextLine").unwrap();
    b.operator_position("nextLine").unwrap();
    b.single_body_position("nextLine").unwrap();
    b.file_indent_level(3);
    b.trailing_commas("onlyMultiLine").unwrap();
    b.use_braces("preferNone").unwrap();
    b.prefer_single_line(true);
    b.binary_expression_space_surrounding_bitwise_and_arithmetic_operator(true);
    b.comment_line_force_space_after_slashes(true);
    b.construct_signature_space_after_new_keyword(true);
    b.constructor_space_before_parentheses(true);
    b.constructor_type_space_after_new_keyword(true);
    b.do_while_statement_space_after_while_keyword(true);
    b.export_declaration_space_surrounding_named_exports(true);
    b.for_statement_space_after_for_keyword(true);
    b.for_statement_space_after_semi_colons(true);
    b.for_in_statement_space_after_for_keyword(true);
    b.for_of_statement_space_after_for_keyword(true);
    b.function_declaration_space_before_parentheses(true);
    b.function_expression_space_before_parentheses(true);
    b.function_expression_space_after_function_keyword(true);
    b.get_accessor_space_before_parentheses(true);
    b.if_statement_space_after_if_keyword(true);
    b.import_declaration_space_surrounding_named_imports(true);
    b.jsx_expression_container_space_surrounding_expression(true);
    b.jsx_self_closing_element_space_before_slash(true);
    b.object_expression_space_surrounding_properties(true);
    b.object_pattern_space_surrounding_properties(true);
    b.method_space_before_parentheses(true);
    b.set_accessor_space_before_parentheses(true);
    b.space_surrounding_properties(true);
    b.tagged_template_space_before_literal(true);
    b.type_annotation_space_before_colon(true);
    b.type_assertion_space_before_expression(true);
    b.type_literal_space_surrounding_properties(true);
    b.while_statement_space_after_while_keyword(true);
    b.space_around(true);
    b.arrow_function_use_parentheses("preferNone").unwrap();
    b.binary_expression_line_per_expression(true);
    b.conditional_expression_line_per_expression(true);
    b.member_expression_line_per_expression(true);
    b.type_literal_separator_kind("comma").unwrap();
    b.type_literal_separator_kind_single_line("comma").unwrap();
    b.type_literal_separator_kind_multi_line("comma").unwrap();
    b.module_sort_import_declarations("caseInsensitive").unwrap();
    b.module_sort_export_declarations("caseInsensitive").unwrap();
    b.import_declaration_sort_named_imports("caseInsensitive").unwrap();
    b.import_declaration_sort_type_only_imports("none").unwrap();
    b.export_declaration_sort_named_exports("caseInsensitive").unwrap();
    b.export_declaration_sort_type_only_exports("none").unwrap();
    b.ignore_node_comment_text("keep");
    b.ignore_file_comment_text("keep");
    b.arrow_function_brace_position("sameLineUnlessHanging").unwrap();
    b.class_declaration_brace_position("sameLineUnlessHanging").unwrap();
    b.class_expression_brace_position("sameLineUnlessHanging").unwrap();
    b.constructor_brace_position("sameLineUnlessHanging").unwrap();
    b.do_while_statement_brace_position("sameLineUnlessHanging").unwrap();
    b.enum_declaration_brace_position("sameLineUnlessHanging").unwrap();
    b.for_statement_brace_position("sameLineUnlessHanging").unwrap();
    b.for_in_statement_brace_position("sameLineUnlessHanging").unwrap();
    b.for_of_statement_brace_position("sameLineUnlessHanging").unwrap();
    b.get_accessor_brace_position("sameLineUnlessHanging").unwrap();
    b.if_statement_brace_position("sameLineUnlessHanging").unwrap();
    b.interface_declaration_brace_position("sameLineUnlessHanging").unwrap();
    b.function_declaration_brace_position("sameLineUnlessHanging").unwrap();
    b.function_expression_brace_position("sameLineUnlessHanging").unwrap();
    b.method_brace_position("sameLineUnlessHanging").unwrap();
    b.module_declaration_brace_position("sameLineUnlessHanging").unwrap();
    b.set_accessor_brace_position("sameLineUnlessHanging").unwrap();
    b.static_block_brace_position("sameLineUnlessHanging").unwrap();
    b.switch_case_brace_position("sameLineUnlessHanging").unwrap();
    b.switch_statement_brace_position("sameLineUnlessHanging").unwrap();
    b.try_statement_brace_position("sameLineUnlessHanging").unwrap();
    b.while_statement_brace_position("sameLineUnlessHanging").unwrap();
    b.arguments_prefer_hanging("always").unwrap();
    b.array_expression_prefer_hanging("always").unwrap();
    b.array_pattern_prefer_hanging(true);
    b.do_while_statement_prefer_hanging(true);
    b.export_declaration_prefer_hanging(true);
    b.extends_clause_prefer_hanging(true);
    b.for_in_statement_prefer_hanging(true);
    b.for_of_statement_prefer_hanging(true);
    b.for_statement_prefer_hanging(true);
    b.if_statement_prefer_hanging(true);
    b.implements_clause_prefer_hanging(true);
    b.import_declaration_prefer_hanging(true);
    b.jsx_attributes_prefer_hanging(true);
    b.object_expression_prefer_hanging(true);
    b.object_pattern_prefer_hanging(true);
    b.parameters_prefer_hanging("always").unwrap();
    b.sequence_expression_prefer_hanging(true);
    b.switch_statement_prefer_hanging(true);
    b.tuple_type_prefer_hanging("always").unwrap();
    b.type_literal_prefer_hanging(true);
    b.type_parameters_prefer_hanging("always").unwrap();
    b.union_and_intersection_type_prefer_hanging(true);
    b.variable_statement_prefer_hanging(true);
    b.while_statement_prefer_hanging(true);
    b.export_declaration_force_single_line(true);
    b.import_declaration_force_single_line(true);
    b.export_declaration_force_multi_line("whenMultiple").unwrap();
    b.import_declaration_force_multi_line("whenMultiple").unwrap();
    b.enum_declaration_member_spacing("newLine").unwrap();
    b.if_statement_next_control_flow_position("nextLine").unwrap();
    b.try_statement_next_control_flow_position("nextLine").unwrap();
    b.do_while_statement_next_control_flow_position("nextLine").unwrap();
    b.binary_expression_operator_position("nextLine").unwrap();
    b.conditional_expression_operator_position("nextLine").unwrap();
    b.conditional_type_operator_position("nextLine").unwrap();
    b.if_statement_single_body_position("nextLine").unwrap();
    b.for_statement_single_body_position("nextLine").unwrap();
    b.for_in_statement_single_body_position("nextLine").unwrap();
    b.for_of_statement_single_body_position("nextLine").unwrap();
    b.while_statement_single_body_position("nextLine").unwrap();
    b.arguments_trailing_commas("onlyMultiLine").unwrap();
    b.parameters_trailing_commas("onlyMultiLine").unwrap();
    b.array_expression_trailing_commas("onlyMultiLine").unwrap();
    b.array_pattern_trailing_commas("onlyMultiLine").unwrap();
    b.enum_declaration_trailing_commas("onlyMultiLine").unwrap();
    b.export_declaration_trailing_commas("onlyMultiLine").unwrap();
    b.import_declaration_trailing_commas("onlyMultiLine").unwrap();
    b.object_expression_trailing_commas("onlyMultiLine").unwrap();
    b.object_pattern_trailing_commas("onlyMultiLine").unwrap();
    b.tuple_type_trailing_commas("onlyMultiLine").unwrap();
    b.type_literal_trailing_commas("onlyMultiLine").unwrap();
    b.type_parameters_trailing_commas("onlyMultiLine").unwrap();
    b.if_statement_use_braces("preferNone").unwrap();
    b.for_statement_use_braces("preferNone").unwrap();
    b.for_in_statement_use_braces("preferNone").unwrap();
    b.for_of_statement_use_braces("preferNone").unwrap();
    b.while_statement_use_braces("preferNone").unwrap();
    b.array_expression_prefer_single_line(true);
    b.array_pattern_prefer_single_line(true);
    b.arguments_prefer_single_line(true);
    b.binary_expression_prefer_single_line(true);
    b.computed_prefer_single_line(true);
    b.conditional_expression_prefer_single_line(true);
    b.conditional_type_prefer_single_line(true);
    b.decorators_prefer_single_line(true);
    b.export_declaration_prefer_single_line(true);
    b.for_statement_prefer_single_line(true);
    b.import_declaration_prefer_single_line(true);
    b.jsx_attributes_prefer_single_line(true);
    b.jsx_element_prefer_single_line(true);
    b.mapped_type_prefer_single_line(true);
    b.member_expression_prefer_single_line(true);
    b.object_expression_prefer_single_line(true);
    b.object_pattern_prefer_single_line(true);
    b.parameters_prefer_single_line(true);
    b.parentheses_prefer_single_line(true);
    b.tuple_type_prefer_single_line(true);
    b.type_literal_prefer_single_line(true);
    b.type_parameters_prefer_single_line(true);
    b.union_and_intersection_type_prefer_single_line(true);
    b.variable_statement_prefer_single_line(true);
    b.arguments_space_around(true);
    b.array_expression_space_around(true);
    b.array_pattern_space_around(true);
    b.catch_clause_space_around(true);
    b.do_while_statement_space_around(true);
    b.for_in_statement_space_around(true);
    b.for_of_statement_space_around(true);
    b.for_statement_space_around(true);
    b.if_statement_space_around(true);
    b.parameters_space_around(true);
    b.paren_expression_space_around(true);
    b.switch_statement_space_around(true);
    b.tuple_type_space_around(true);
    b.while_statement_space_around(true);
    assert_eq!(b.build().err(), None);
}

fn format_with(config: &dprint_plugin_typescript::configuration::Configuration, text: &str) -> Option<String> {
    let path = std::path::PathBuf::from("sample.ts");
    format_text(FormatTextOptions {
        path: &path,
        extension: None,
        text: text.to_string(),
        config,
        external_formatter: None,
    })
    .unwrap()
}

#[test]
fn the_deno_preset_formats_as_the_engine_preset() {
    let mut mine = PyConfigurationBuilder::new();
    mine.deno();
    let mine = mine.build().unwrap();
    let theirs = ConfigurationBuilder::new().deno().build();
    let text = "import {b,a} from 'm'\nconst long_name_of_a_value = first_operand_value + second_operand_value + third_operand;\nclass A\n{\n  m() { return function() { return `x`; } }\n}\nif (a) { b() }\nelse { c() }\nconst t = a ? b : c;\n";
    assert_eq!(format_with(&mine, text), format_with(&theirs, text));
}

