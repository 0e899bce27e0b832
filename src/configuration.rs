use vstd::prelude::*;

use crate::options::{
    BracePosition, ForceMultiLine, JsxMultiLineParens, JsxQuoteStyle, MemberSpacing, NamedTypeImportsExportsOrder, NewLineKind, NextControlFlowPosition, OperatorPosition, PreferHanging, QuoteProps, QuoteStyle, SameOrNextLinePosition, SemiColonOrComma, SemiColons, SortOrder, TrailingCommas, UseBraces, UseParentheses,
};
use crate::text::str_eq;

verus! {

/// The number of settings of a configuration.
pub const FIELD_COUNT: usize = 173;

/// A value of the key-value view of a configuration.
#[derive(Clone, Debug, PartialEq, Eq)]
pub enum ConfigValue {
    Bool(bool),
    Int(u32),
    Str(String),
}

/// What a [`ConfigValue`] holds.
pub enum ConfigValueView {
    Bool(bool),
    Int(u32),
    Str(Seq<char>),
}

impl View for ConfigValue {
    type V = ConfigValueView;

    open spec fn view(&self) -> ConfigValueView {
        match self {
            ConfigValue::Bool(b) => ConfigValueView::Bool(*b),
            ConfigValue::Int(n) => ConfigValueView::Int(*n),
            ConfigValue::Str(s) => ConfigValueView::Str(s@),
        }
    }
}

/// Compares two values of the key-value view.
pub fn value_eq(a: &ConfigValue, b: &ConfigValue) -> (r: bool)
    ensures
        r == (a@ == b@),
{
    match (a, b) {
        (ConfigValue::Bool(x), ConfigValue::Bool(y)) => *x == *y,
        (ConfigValue::Int(x), ConfigValue::Int(y)) => *x == *y,
        (ConfigValue::Str(x), ConfigValue::Str(y)) => *x == *y,
        _ => false,
    }
}

/// One setting of the key-value view: its name and its value.
pub type Entry = (Seq<char>, ConfigValueView);

/// The view of key-value pairs as handed out.
pub open spec fn pairs_view(v: Seq<(String, ConfigValue)>) -> Seq<Entry> {
    v.map_values(|e: (String, ConfigValue)| (e.0@, e.1@))
}

/// The entries of `a` that are kept: all of them, or, when `changed`, those whose value
/// differs from the entry at the same place in `d`.
pub open spec fn select_entries(a: Seq<Entry>, d: Seq<Entry>, changed: bool) -> Seq<Entry>
    decreases a.len(),
{
    if a.len() == 0 {
        Seq::empty()
    } else {
        let rest = select_entries(a.drop_last(), d, changed);
        if changed && a.last().1 == d[a.len() - 1].1 {
            rest
        } else {
            rest.push(a.last())
        }
    }
}

/// Keeping every entry keeps the sequence as it is.
pub proof fn lemma_select_all(a: Seq<Entry>, d: Seq<Entry>)
    ensures
        select_entries(a, d, false) == a,
    decreases a.len(),
{
    if a.len() > 0 {
        lemma_select_all(a.drop_last(), d);
        assert(a.drop_last().push(a.last()) =~= a);
    }
}

/// Why a configuration was refused.
#[derive(Clone, Debug, PartialEq, Eq)]
pub enum ConfigError {
    /// A setting that takes one of a closed set of tokens was given another string.
    InvalidEnumValue { field: String, value: String },
    /// The formatting engine could not use the named properties.
    Unresolved { properties: Vec<String> },
}

impl ConfigError {
    /// This error reports `value` as given for the setting `field`.
    pub open spec fn is_invalid_value(&self, field: Seq<char>, value: Seq<char>) -> bool {
        &&& self matches ConfigError::InvalidEnumValue { field: f, value: v }
        &&& f@ == field
        &&& v@ == value
    }

    /// The error for `value`, given for the setting `field`.
    pub fn invalid_value(field: &str, value: &str) -> (e: ConfigError)
        ensures
            e.is_invalid_value(field@, value@),
    {
        ConfigError::InvalidEnumValue { field: field.to_owned(), value: value.to_owned() }
    }
}

/// A resolved configuration: one typed field per setting, validated.
#[derive(Clone, Debug, PartialEq, Eq)]
pub struct ResolvedConfiguration {
    pub indent_width: u8,
    pub line_width: u32,
    pub use_tabs: bool,
    pub new_line_kind: NewLineKind,
    pub quote_style: QuoteStyle,
    pub quote_props: QuoteProps,
    pub semi_colons: SemiColons,
    pub file_indent_level: u32,
    pub arrow_function_use_parentheses: UseParentheses,
    pub binary_expression_line_per_expression: bool,
    pub conditional_expression_line_per_expression: bool,
    pub jsx_quote_style: JsxQuoteStyle,
    pub jsx_multi_line_parens: JsxMultiLineParens,
    pub jsx_force_new_lines_surrounding_content: bool,
    pub jsx_opening_element_bracket_position: SameOrNextLinePosition,
    pub jsx_self_closing_element_bracket_position: SameOrNextLinePosition,
    pub member_expression_line_per_expression: bool,
    pub type_literal_separator_kind_single_line: SemiColonOrComma,
    pub type_literal_separator_kind_multi_line: SemiColonOrComma,
    pub module_sort_import_declarations: SortOrder,
    pub module_sort_export_declarations: SortOrder,
    pub import_declaration_sort_named_imports: SortOrder,
    pub import_declaration_sort_type_only_imports: NamedTypeImportsExportsOrder,
    pub export_declaration_sort_named_exports: SortOrder,
    pub export_declaration_sort_type_only_exports: NamedTypeImportsExportsOrder,
    pub ignore_node_comment_text: String,
    pub ignore_file_comment_text: String,
    pub arrow_function_brace_position: BracePosition,
    pub class_declaration_brace_position: BracePosition,
    pub class_expression_brace_position: BracePosition,
    pub constructor_brace_position: BracePosition,
    pub do_while_statement_brace_position: BracePosition,
    pub enum_declaration_brace_position: BracePosition,
    pub get_accessor_brace_position: BracePosition,
    pub if_statement_brace_position: BracePosition,
    pub interface_declaration_brace_position: BracePosition,
    pub for_statement_brace_position: BracePosition,
    pub for_in_statement_brace_position: BracePosition,
    pub for_of_statement_brace_position: BracePosition,
    pub function_declaration_brace_position: BracePosition,
    pub function_expression_brace_position: BracePosition,
    pub method_brace_position: BracePosition,
    pub module_declaration_brace_position: BracePosition,
    pub set_accessor_brace_position: BracePosition,
    pub static_block_brace_position: BracePosition,
    pub switch_case_brace_position: BracePosition,
    pub switch_statement_brace_position: BracePosition,
    pub try_statement_brace_position: BracePosition,
    pub while_statement_brace_position: BracePosition,
    pub arguments_prefer_hanging: PreferHanging,
    pub array_expression_prefer_hanging: PreferHanging,
    pub array_pattern_prefer_hanging: bool,
    pub do_while_statement_prefer_hanging: bool,
    pub export_declaration_prefer_hanging: bool,
    pub extends_clause_prefer_hanging: bool,
    pub for_statement_prefer_hanging: bool,
    pub for_in_statement_prefer_hanging: bool,
    pub for_of_statement_prefer_hanging: bool,
    pub if_statement_prefer_hanging: bool,
    pub implements_clause_prefer_hanging: bool,
    pub import_declaration_prefer_hanging: bool,
    pub jsx_attributes_prefer_hanging: bool,
    pub object_expression_prefer_hanging: bool,
    pub object_pattern_prefer_hanging: bool,
    pub parameters_prefer_hanging: PreferHanging,
    pub sequence_expression_prefer_hanging: bool,
    pub switch_statement_prefer_hanging: bool,
    pub tuple_type_prefer_hanging: PreferHanging,
    pub type_literal_prefer_hanging: bool,
    pub type_parameters_prefer_hanging: PreferHanging,
    pub union_and_intersection_type_prefer_hanging: bool,
    pub variable_statement_prefer_hanging: bool,
    pub while_statement_prefer_hanging: bool,
    pub enum_declaration_member_spacing: MemberSpacing,
    pub if_statement_next_control_flow_position: NextControlFlowPosition,
    pub try_statement_next_control_flow_position: NextControlFlowPosition,
    pub do_while_statement_next_control_flow_position: NextControlFlowPosition,
    pub binary_expression_operator_position: OperatorPosition,
    pub conditional_expression_operator_position: OperatorPosition,
    pub conditional_type_operator_position: OperatorPosition,
    pub if_statement_single_body_position: SameOrNextLinePosition,
    pub for_statement_single_body_position: SameOrNextLinePosition,
    pub for_in_statement_single_body_position: SameOrNextLinePosition,
    pub for_of_statement_single_body_position: SameOrNextLinePosition,
    pub while_statement_single_body_position: SameOrNextLinePosition,
    pub arguments_trailing_commas: TrailingCommas,
    pub parameters_trailing_commas: TrailingCommas,
    pub array_expression_trailing_commas: TrailingCommas,
    pub array_pattern_trailing_commas: TrailingCommas,
    pub enum_declaration_trailing_commas: TrailingCommas,
    pub export_declaration_trailing_commas: TrailingCommas,
    pub import_declaration_trailing_commas: TrailingCommas,
    pub object_pattern_trailing_commas: TrailingCommas,
    pub object_expression_trailing_commas: TrailingCommas,
    pub tuple_type_trailing_commas: TrailingCommas,
    pub type_literal_trailing_commas: TrailingCommas,
    pub type_parameters_trailing_commas: TrailingCommas,
    pub if_statement_use_braces: UseBraces,
    pub for_statement_use_braces: UseBraces,
    pub for_of_statement_use_braces: UseBraces,
    pub for_in_statement_use_braces: UseBraces,
    pub while_statement_use_braces: UseBraces,
    pub array_expression_prefer_single_line: bool,
    pub array_pattern_prefer_single_line: bool,
    pub arguments_prefer_single_line: bool,
    pub binary_expression_prefer_single_line: bool,
    pub computed_prefer_single_line: bool,
    pub conditional_expression_prefer_single_line: bool,
    pub conditional_type_prefer_single_line: bool,
    pub decorators_prefer_single_line: bool,
    pub export_declaration_prefer_single_line: bool,
    pub for_statement_prefer_single_line: bool,
    pub import_declaration_prefer_single_line: bool,
    pub jsx_attributes_prefer_single_line: bool,
    pub jsx_element_prefer_single_line: bool,
    pub mapped_type_prefer_single_line: bool,
    pub member_expression_prefer_single_line: bool,
    pub object_expression_prefer_single_line: bool,
    pub object_pattern_prefer_single_line: bool,
    pub parameters_prefer_single_line: bool,
    pub parentheses_prefer_single_line: bool,
    pub tuple_type_prefer_single_line: bool,
    pub type_literal_prefer_single_line: bool,
    pub type_parameters_prefer_single_line: bool,
    pub union_and_intersection_type_prefer_single_line: bool,
    pub variable_statement_prefer_single_line: bool,
    pub import_declaration_force_single_line: bool,
    pub export_declaration_force_single_line: bool,
    pub export_declaration_force_multi_line: ForceMultiLine,
    pub import_declaration_force_multi_line: ForceMultiLine,
    pub binary_expression_space_surrounding_bitwise_and_arithmetic_operator: bool,
    pub comment_line_force_space_after_slashes: bool,
    pub construct_signature_space_after_new_keyword: bool,
    pub constructor_space_before_parentheses: bool,
    pub constructor_type_space_after_new_keyword: bool,
    pub do_while_statement_space_after_while_keyword: bool,
    pub export_declaration_space_surrounding_named_exports: bool,
    pub for_statement_space_after_for_keyword: bool,
    pub for_statement_space_after_semi_colons: bool,
    pub for_in_statement_space_after_for_keyword: bool,
    pub for_of_statement_space_after_for_keyword: bool,
    pub function_declaration_space_before_parentheses: bool,
    pub function_expression_space_before_parentheses: bool,
    pub function_expression_space_after_function_keyword: bool,
    pub get_accessor_space_before_parentheses: bool,
    pub if_statement_space_after_if_keyword: bool,
    pub import_declaration_space_surrounding_named_imports: bool,
    pub jsx_expression_container_space_surrounding_expression: bool,
    pub jsx_self_closing_element_space_before_slash: bool,
    pub method_space_before_parentheses: bool,
    pub object_expression_space_surrounding_properties: bool,
    pub object_pattern_space_surrounding_properties: bool,
    pub set_accessor_space_before_parentheses: bool,
    pub space_surrounding_properties: bool,
    pub tagged_template_space_before_literal: bool,
    pub type_annotation_space_before_colon: bool,
    pub type_assertion_space_before_expression: bool,
    pub type_literal_space_surrounding_properties: bool,
    pub while_statement_space_after_while_keyword: bool,
    pub arguments_space_around: bool,
    pub array_expression_space_around: bool,
    pub array_pattern_space_around: bool,
    pub catch_clause_space_around: bool,
    pub do_while_statement_space_around: bool,
    pub for_in_statement_space_around: bool,
    pub for_of_statement_space_around: bool,
    pub for_statement_space_around: bool,
    pub if_statement_space_around: bool,
    pub parameters_space_around: bool,
    pub paren_expression_space_around: bool,
    pub switch_statement_space_around: bool,
    pub tuple_type_space_around: bool,
    pub while_statement_space_around: bool,
}

impl ResolvedConfiguration {
    /// Every setting holds its recommended value.
    pub open spec fn is_recommended(&self) -> bool {
        &&& self.indent_width == 2
        &&& self.line_width == 120
        &&& self.use_tabs == false
        &&& self.new_line_kind == NewLineKind::LineFeed
        &&& self.quote_style == QuoteStyle::AlwaysDouble
        &&& self.quote_props == QuoteProps::Preserve
        &&& self.semi_colons == SemiColons::Prefer
        &&& self.file_indent_level == 0
        &&& self.arrow_function_use_parentheses == UseParentheses::Maintain
        &&& self.binary_expression_line_per_expression == false
        &&& self.conditional_expression_line_per_expression == true
        &&& self.jsx_quote_style == JsxQuoteStyle::PreferDouble
        &&& self.jsx_multi_line_parens == JsxMultiLineParens::Prefer
        &&& self.jsx_force_new_lines_surrounding_content == false
        &&& self.jsx_opening_element_bracket_position == SameOrNextLinePosition::NextLine
        &&& self.jsx_self_closing_element_bracket_position == SameOrNextLinePosition::NextLine
        &&& self.member_expression_line_per_expression == false
        &&& self.type_literal_separator_kind_single_line == SemiColonOrComma::SemiColon
        &&& self.type_literal_separator_kind_multi_line == SemiColonOrComma::SemiColon
        &&& self.module_sort_import_declarations == SortOrder::CaseInsensitive
        &&& self.module_sort_export_declarations == SortOrder::CaseInsensitive
        &&& self.import_declaration_sort_named_imports == SortOrder::CaseInsensitive
        &&& self.import_declaration_sort_type_only_imports == NamedTypeImportsExportsOrder::Unordered
        &&& self.export_declaration_sort_named_exports == SortOrder::CaseInsensitive
        &&& self.export_declaration_sort_type_only_exports == NamedTypeImportsExportsOrder::Unordered
        &&& self.ignore_node_comment_text@ == "dprint-ignore"@
        &&& self.ignore_file_comment_text@ == "dprint-ignore-file"@
        &&& self.arrow_function_brace_position == BracePosition::SameLineUnlessHanging
        &&& self.class_declaration_brace_position == BracePosition::SameLineUnlessHanging
        &&& self.class_expression_brace_position == BracePosition::SameLineUnlessHanging
        &&& self.constructor_brace_position == BracePosition::SameLineUnlessHanging
        &&& self.do_while_statement_brace_position == BracePosition::SameLineUnlessHanging
        &&& self.enum_declaration_brace_position == BracePosition::SameLineUnlessHanging
        &&& self.get_accessor_brace_position == BracePosition::SameLineUnlessHanging
        &&& self.if_statement_brace_position == BracePosition::SameLineUnlessHanging
        &&& self.interface_declaration_brace_position == BracePosition::SameLineUnlessHanging
        &&& self.for_statement_brace_position == BracePosition::SameLineUnlessHanging
        &&& self.for_in_statement_brace_position == BracePosition::SameLineUnlessHanging
        &&& self.for_of_statement_brace_position == BracePosition::SameLineUnlessHanging
        &&& self.function_declaration_brace_position == BracePosition::SameLineUnlessHanging
        &&& self.function_expression_brace_position == BracePosition::SameLineUnlessHanging
        &&& self.method_brace_position == BracePosition::SameLineUnlessHanging
        &&& self.module_declaration_brace_position == BracePosition::SameLineUnlessHanging
        &&& self.set_accessor_brace_position == BracePosition::SameLineUnlessHanging
        &&& self.static_block_brace_position == BracePosition::SameLineUnlessHanging
        &&& self.switch_case_brace_position == BracePosition::SameLineUnlessHanging
        &&& self.switch_statement_brace_position == BracePosition::SameLineUnlessHanging
        &&& self.try_statement_brace_position == BracePosition::SameLineUnlessHanging
        &&& self.while_statement_brace_position == BracePosition::SameLineUnlessHanging
        &&& self.arguments_prefer_hanging == PreferHanging::Never
        &&& self.array_expression_prefer_hanging == PreferHanging::Never
        &&& self.array_pattern_prefer_hanging == false
        &&& self.do_while_statement_prefer_hanging == false
        &&& self.export_declaration_prefer_hanging == false
        &&& self.extends_clause_prefer_hanging == false
        &&& self.for_statement_prefer_hanging == false
        &&& self.for_in_statement_prefer_hanging == false
        &&& self.for_of_statement_prefer_hanging == false
        &&& self.if_statement_prefer_hanging == false
        &&& self.implements_clause_prefer_hanging == false
        &&& self.import_declaration_prefer_hanging == false
        &&& self.jsx_attributes_prefer_hanging == false
        &&& self.object_expression_prefer_hanging == false
        &&& self.object_pattern_prefer_hanging == false
        &&& self.parameters_prefer_hanging == PreferHanging::Never
        &&& self.sequence_expression_prefer_hanging == false
        &&& self.switch_statement_prefer_hanging == false
        &&& self.tuple_type_prefer_hanging == PreferHanging::Never
        &&& self.type_literal_prefer_hanging == false
        &&& self.type_parameters_prefer_hanging == PreferHanging::Never
        &&& self.union_and_intersection_type_prefer_hanging == false
        &&& self.variable_statement_prefer_hanging == false
        &&& self.while_statement_prefer_hanging == false
        &&& self.enum_declaration_member_spacing == MemberSpacing::Maintain
        &&& self.if_statement_next_control_flow_position == NextControlFlowPosition::SameLine
        &&& self.try_statement_next_control_flow_position == NextControlFlowPosition::SameLine
        &&& self.do_while_statement_next_control_flow_position == NextControlFlowPosition::SameLine
        &&& self.binary_expression_operator_position == OperatorPosition::NextLine
        &&& self.conditional_expression_operator_position == OperatorPosition::NextLine
        &&& self.conditional_type_operator_position == OperatorPosition::NextLine
        &&& self.if_statement_single_body_position == SameOrNextLinePosition::Maintain
        &&& self.for_statement_single_body_position == SameOrNextLinePosition::Maintain
        &&& self.for_in_statement_single_body_position == SameOrNextLinePosition::Maintain
        &&& self.for_of_statement_single_body_position == SameOrNextLinePosition::Maintain
        &&& self.while_statement_single_body_position == SameOrNextLinePosition::Maintain
        &&& self.arguments_trailing_commas == TrailingCommas::OnlyMultiLine
        &&& self.parameters_trailing_commas == TrailingCommas::OnlyMultiLine
        &&& self.array_expression_trailing_commas == TrailingCommas::OnlyMultiLine
        &&& self.array_pattern_trailing_commas == TrailingCommas::OnlyMultiLine
        &&& self.enum_declaration_trailing_commas == TrailingCommas::OnlyMultiLine
        &&& self.export_declaration_trailing_commas == TrailingCommas::OnlyMultiLine
        &&& self.import_declaration_trailing_commas == TrailingCommas::OnlyMultiLine
        &&& self.object_pattern_trailing_commas == TrailingCommas::OnlyMultiLine
        &&& self.object_expression_trailing_commas == TrailingCommas::OnlyMultiLine
        &&& self.tuple_type_trailing_commas == TrailingCommas::OnlyMultiLine
        &&& self.type_literal_trailing_commas == TrailingCommas::OnlyMultiLine
        &&& self.type_parameters_trailing_commas == TrailingCommas::OnlyMultiLine
        &&& self.if_statement_use_braces == UseBraces::WhenNotSingleLine
        &&& self.for_statement_use_braces == UseBraces::WhenNotSingleLine
        &&& self.for_of_statement_use_braces == UseBraces::WhenNotSingleLine
        &&& self.for_in_statement_use_braces == UseBraces::WhenNotSingleLine
        &&& self.while_statement_use_braces == UseBraces::WhenNotSingleLine
        &&& self.array_expression_prefer_single_line == false
        &&& self.array_pattern_prefer_single_line == false
        &&& self.arguments_prefer_single_line == false
        &&& self.binary_expression_prefer_single_line == false
        &&& self.computed_prefer_single_line == false
        &&& self.conditional_expression_prefer_single_line == false
        &&& self.conditional_type_prefer_single_line == false
        &&& self.decorators_prefer_single_line == false
        &&& self.export_declaration_prefer_single_line == false
        &&& self.for_statement_prefer_single_line == false
        &&& self.import_declaration_prefer_single_line == false
        &&& self.jsx_attributes_prefer_single_line == false
        &&& self.jsx_element_prefer_single_line == false
        &&& self.mapped_type_prefer_single_line == false
        &&& self.member_expression_prefer_single_line == false
        &&& self.object_expression_prefer_single_line == false
        &&& self.object_pattern_prefer_single_line == false
        &&& self.parameters_prefer_single_line == false
        &&& self.parentheses_prefer_single_line == false
        &&& self.tuple_type_prefer_single_line == false
        &&& self.type_literal_prefer_single_line == false
        &&& self.type_parameters_prefer_single_line == false
        &&& self.union_and_intersection_type_prefer_single_line == false
        &&& self.variable_statement_prefer_single_line == false
        &&& self.import_declaration_force_single_line == false
        &&& self.export_declaration_force_single_line == false
        &&& self.export_declaration_force_multi_line == ForceMultiLine::Never
        &&& self.import_declaration_force_multi_line == ForceMultiLine::Never
        &&& self.binary_expression_space_surrounding_bitwise_and_arithmetic_operator == true
        &&& self.comment_line_force_space_after_slashes == true
        &&& self.construct_signature_space_after_new_keyword == false
        &&& self.constructor_space_before_parentheses == false
        &&& self.constructor_type_space_after_new_keyword == false
        &&& self.do_while_statement_space_after_while_keyword == true
        &&& self.export_declaration_space_surrounding_named_exports == true
        &&& self.for_statement_space_after_for_keyword == true
        &&& self.for_statement_space_after_semi_colons == true
        &&& self.for_in_statement_space_after_for_keyword == true
        &&& self.for_of_statement_space_after_for_keyword == true
        &&& self.function_declaration_space_before_parentheses == false
        &&& self.function_expression_space_before_parentheses == false
        &&& self.function_expression_space_after_function_keyword == false
        &&& self.get_accessor_space_before_parentheses == false
        &&& self.if_statement_space_after_if_keyword == true
        &&& self.import_declaration_space_surrounding_named_imports == true
        &&& self.jsx_expression_container_space_surrounding_expression == false
        &&& self.jsx_self_closing_element_space_before_slash == true
        &&& self.method_space_before_parentheses == true
        &&& self.object_expression_space_surrounding_properties == true
        &&& self.object_pattern_space_surrounding_properties == true
        &&& self.set_accessor_space_before_parentheses == false
        &&& self.space_surrounding_properties == true
        &&& self.tagged_template_space_before_literal == false
        &&& self.type_annotation_space_before_colon == false
        &&& self.type_assertion_space_before_expression == true
        &&& self.type_literal_space_surrounding_properties == true
        &&& self.while_statement_space_after_while_keyword == true
        &&& self.arguments_space_around == false
        &&& self.array_expression_space_around == false
        &&& self.array_pattern_space_around == false
        &&& self.catch_clause_space_around == false
        &&& self.do_while_statement_space_around == false
        &&& self.for_in_statement_space_around == false
        &&& self.for_of_statement_space_around == false
        &&& self.for_statement_space_around == false
        &&& self.if_statement_space_around == false
        &&& self.parameters_space_around == false
        &&& self.paren_expression_space_around == false
        &&& self.switch_statement_space_around == false
        &&& self.tuple_type_space_around == false
        &&& self.while_statement_space_around == false
    }

    /// The two configurations hold the same settings; texts are compared by their characters.
    pub open spec fn same_settings(&self, other: &ResolvedConfiguration) -> bool {
        &&& self.indent_width == other.indent_width
        &&& self.line_width == other.line_width
        &&& self.use_tabs == other.use_tabs
        &&& self.new_line_kind == other.new_line_kind
        &&& self.quote_style == other.quote_style
        &&& self.quote_props == other.quote_props
        &&& self.semi_colons == other.semi_colons
        &&& self.file_indent_level == other.file_indent_level
        &&& self.arrow_function_use_parentheses == other.arrow_function_use_parentheses
        &&& self.binary_expression_line_per_expression == other.binary_expression_line_per_expression
        &&& self.conditional_expression_line_per_expression == other.conditional_expression_line_per_expression
        &&& self.jsx_quote_style == other.jsx_quote_style
        &&& self.jsx_multi_line_parens == other.jsx_multi_line_parens
        &&& self.jsx_force_new_lines_surrounding_content == other.jsx_force_new_lines_surrounding_content
        &&& self.jsx_opening_element_bracket_position == other.jsx_opening_element_bracket_position
        &&& self.jsx_self_closing_element_bracket_position == other.jsx_self_closing_element_bracket_position
        &&& self.member_expression_line_per_expression == other.member_expression_line_per_expression
        &&& self.type_literal_separator_kind_single_line == other.type_literal_separator_kind_single_line
        &&& self.type_literal_separator_kind_multi_line == other.type_literal_separator_kind_multi_line
        &&& self.module_sort_import_declarations == other.module_sort_import_declarations
        &&& self.module_sort_export_declarations == other.module_sort_export_declarations
        &&& self.import_declaration_sort_named_imports == other.import_declaration_sort_named_imports
        &&& self.import_declaration_sort_type_only_imports == other.import_declaration_sort_type_only_imports
        &&& self.export_declaration_sort_named_exports == other.export_declaration_sort_named_exports
        &&& self.export_declaration_sort_type_only_exports == other.export_declaration_sort_type_only_exports
        &&& self.ignore_node_comment_text@ == other.ignore_node_comment_text@
        &&& self.ignore_file_comment_text@ == other.ignore_file_comment_text@
        &&& self.arrow_function_brace_position == other.arrow_function_brace_position
        &&& self.class_declaration_brace_position == other.class_declaration_brace_position
        &&& self.class_expression_brace_position == other.class_expression_brace_position
        &&& self.constructor_brace_position == other.constructor_brace_position
        &&& self.do_while_statement_brace_position == other.do_while_statement_brace_position
        &&& self.enum_declaration_brace_position == other.enum_declaration_brace_position
        &&& self.get_accessor_brace_position == other.get_accessor_brace_position
        &&& self.if_statement_brace_position == other.if_statement_brace_position
        &&& self.interface_declaration_brace_position == other.interface_declaration_brace_position
        &&& self.for_statement_brace_position == other.for_statement_brace_position
        &&& self.for_in_statement_brace_position == other.for_in_statement_brace_position
        &&& self.for_of_statement_brace_position == other.for_of_statement_brace_position
        &&& self.function_declaration_brace_position == other.function_declaration_brace_position
        &&& self.function_expression_brace_position == other.function_expression_brace_position
        &&& self.method_brace_position == other.method_brace_position
        &&& self.module_declaration_brace_position == other.module_declaration_brace_position
        &&& self.set_accessor_brace_position == other.set_accessor_brace_position
        &&& self.static_block_brace_position == other.static_block_brace_position
        &&& self.switch_case_brace_position == other.switch_case_brace_position
        &&& self.switch_statement_brace_position == other.switch_statement_brace_position
        &&& self.try_statement_brace_position == other.try_statement_brace_position
        &&& self.while_statement_brace_position == other.while_statement_brace_position
        &&& self.arguments_prefer_hanging == other.arguments_prefer_hanging
        &&& self.array_expression_prefer_hanging == other.array_expression_prefer_hanging
        &&& self.array_pattern_prefer_hanging == other.array_pattern_prefer_hanging
        &&& self.do_while_statement_prefer_hanging == other.do_while_statement_prefer_hanging
        &&& self.export_declaration_prefer_hanging == other.export_declaration_prefer_hanging
        &&& self.extends_clause_prefer_hanging == other.extends_clause_prefer_hanging
        &&& self.for_statement_prefer_hanging == other.for_statement_prefer_hanging
        &&& self.for_in_statement_prefer_hanging == other.for_in_statement_prefer_hanging
        &&& self.for_of_statement_prefer_hanging == other.for_of_statement_prefer_hanging
        &&& self.if_statement_prefer_hanging == other.if_statement_prefer_hanging
        &&& self.implements_clause_prefer_hanging == other.implements_clause_prefer_hanging
        &&& self.import_declaration_prefer_hanging == other.import_declaration_prefer_hanging
        &&& self.jsx_attributes_prefer_hanging == other.jsx_attributes_prefer_hanging
        &&& self.object_expression_prefer_hanging == other.object_expression_prefer_hanging
        &&& self.object_pattern_prefer_hanging == other.object_pattern_prefer_hanging
        &&& self.parameters_prefer_hanging == other.parameters_prefer_hanging
        &&& self.sequence_expression_prefer_hanging == other.sequence_expression_prefer_hanging
        &&& self.switch_statement_prefer_hanging == other.switch_statement_prefer_hanging
        &&& self.tuple_type_prefer_hanging == other.tuple_type_prefer_hanging
        &&& self.type_literal_prefer_hanging == other.type_literal_prefer_hanging
        &&& self.type_parameters_prefer_hanging == other.type_parameters_prefer_hanging
        &&& self.union_and_intersection_type_prefer_hanging == other.union_and_intersection_type_prefer_hanging
        &&& self.variable_statement_prefer_hanging == other.variable_statement_prefer_hanging
        &&& self.while_statement_prefer_hanging == other.while_statement_prefer_hanging
        &&& self.enum_declaration_member_spacing == other.enum_declaration_member_spacing
        &&& self.if_statement_next_control_flow_position == other.if_statement_next_control_flow_position
        &&& self.try_statement_next_control_flow_position == other.try_statement_next_control_flow_position
        &&& self.do_while_statement_next_control_flow_position == other.do_while_statement_next_control_flow_position
        &&& self.binary_expression_operator_position == other.binary_expression_operator_position
        &&& self.conditional_expression_operator_position == other.conditional_expression_operator_position
        &&& self.conditional_type_operator_position == other.conditional_type_operator_position
        &&& self.if_statement_single_body_position == other.if_statement_single_body_position
        &&& self.for_statement_single_body_position == other.for_statement_single_body_position
        &&& self.for_in_statement_single_body_position == other.for_in_statement_single_body_position
        &&& self.for_of_statement_single_body_position == other.for_of_statement_single_body_position
        &&& self.while_statement_single_body_position == other.while_statement_single_body_position
        &&& self.arguments_trailing_commas == other.arguments_trailing_commas
        &&& self.parameters_trailing_commas == other.parameters_trailing_commas
        &&& self.array_expression_trailing_commas == other.array_expression_trailing_commas
        &&& self.array_pattern_trailing_commas == other.array_pattern_trailing_commas
        &&& self.enum_declaration_trailing_commas == other.enum_declaration_trailing_commas
        &&& self.export_declaration_trailing_commas == other.export_declaration_trailing_commas
        &&& self.import_declaration_trailing_commas == other.import_declaration_trailing_commas
        &&& self.object_pattern_trailing_commas == other.object_pattern_trailing_commas
        &&& self.object_expression_trailing_commas == other.object_expression_trailing_commas
        &&& self.tuple_type_trailing_commas == other.tuple_type_trailing_commas
        &&& self.type_literal_trailing_commas == other.type_literal_trailing_commas
        &&& self.type_parameters_trailing_commas == other.type_parameters_trailing_commas
        &&& self.if_statement_use_braces == other.if_statement_use_braces
        &&& self.for_statement_use_braces == other.for_statement_use_braces
        &&& self.for_of_statement_use_braces == other.for_of_statement_use_braces
        &&& self.for_in_statement_use_braces == other.for_in_statement_use_braces
        &&& self.while_statement_use_braces == other.while_statement_use_braces
        &&& self.array_expression_prefer_single_line == other.array_expression_prefer_single_line
        &&& self.array_pattern_prefer_single_line == other.array_pattern_prefer_single_line
        &&& self.arguments_prefer_single_line == other.arguments_prefer_single_line
        &&& self.binary_expression_prefer_single_line == other.binary_expression_prefer_single_line
        &&& self.computed_prefer_single_line == other.computed_prefer_single_line
        &&& self.conditional_expression_prefer_single_line == other.conditional_expression_prefer_single_line
        &&& self.conditional_type_prefer_single_line == other.conditional_type_prefer_single_line
        &&& self.decorators_prefer_single_line == other.decorators_prefer_single_line
        &&& self.export_declaration_prefer_single_line == other.export_declaration_prefer_single_line
        &&& self.for_statement_prefer_single_line == other.for_statement_prefer_single_line
        &&& self.import_declaration_prefer_single_line == other.import_declaration_prefer_single_line
        &&& self.jsx_attributes_prefer_single_line == other.jsx_attributes_prefer_single_line
        &&& self.jsx_element_prefer_single_line == other.jsx_element_prefer_single_line
        &&& self.mapped_type_prefer_single_line == other.mapped_type_prefer_single_line
        &&& self.member_expression_prefer_single_line == other.member_expression_prefer_single_line
        &&& self.object_expression_prefer_single_line == other.object_expression_prefer_single_line
        &&& self.object_pattern_prefer_single_line == other.object_pattern_prefer_single_line
        &&& self.parameters_prefer_single_line == other.parameters_prefer_single_line
        &&& self.parentheses_prefer_single_line == other.parentheses_prefer_single_line
        &&& self.tuple_type_prefer_single_line == other.tuple_type_prefer_single_line
        &&& self.type_literal_prefer_single_line == other.type_literal_prefer_single_line
        &&& self.type_parameters_prefer_single_line == other.type_parameters_prefer_single_line
        &&& self.union_and_intersection_type_prefer_single_line == other.union_and_intersection_type_prefer_single_line
        &&& self.variable_statement_prefer_single_line == other.variable_statement_prefer_single_line
        &&& self.import_declaration_force_single_line == other.import_declaration_force_single_line
        &&& self.export_declaration_force_single_line == other.export_declaration_force_single_line
        &&& self.export_declaration_force_multi_line == other.export_declaration_force_multi_line
        &&& self.import_declaration_force_multi_line == other.import_declaration_force_multi_line
        &&& self.binary_expression_space_surrounding_bitwise_and_arithmetic_operator == other.binary_expression_space_surrounding_bitwise_and_arithmetic_operator
        &&& self.comment_line_force_space_after_slashes == other.comment_line_force_space_after_slashes
        &&& self.construct_signature_space_after_new_keyword == other.construct_signature_space_after_new_keyword
        &&& self.constructor_space_before_parentheses == other.constructor_space_before_parentheses
        &&& self.constructor_type_space_after_new_keyword == other.constructor_type_space_after_new_keyword
        &&& self.do_while_statement_space_after_while_keyword == other.do_while_statement_space_after_while_keyword
        &&& self.export_declaration_space_surrounding_named_exports == other.export_declaration_space_surrounding_named_exports
        &&& self.for_statement_space_after_for_keyword == other.for_statement_space_after_for_keyword
        &&& self.for_statement_space_after_semi_colons == other.for_statement_space_after_semi_colons
        &&& self.for_in_statement_space_after_for_keyword == other.for_in_statement_space_after_for_keyword
        &&& self.for_of_statement_space_after_for_keyword == other.for_of_statement_space_after_for_keyword
        &&& self.function_declaration_space_before_parentheses == other.function_declaration_space_before_parentheses
        &&& self.function_expression_space_before_parentheses == other.function_expression_space_before_parentheses
        &&& self.function_expression_space_after_function_keyword == other.function_expression_space_after_function_keyword
        &&& self.get_accessor_space_before_parentheses == other.get_accessor_space_before_parentheses
        &&& self.if_statement_space_after_if_keyword == other.if_statement_space_after_if_keyword
        &&& self.import_declaration_space_surrounding_named_imports == other.import_declaration_space_surrounding_named_imports
        &&& self.jsx_expression_container_space_surrounding_expression == other.jsx_expression_container_space_surrounding_expression
        &&& self.jsx_self_closing_element_space_before_slash == other.jsx_self_closing_element_space_before_slash
        &&& self.method_space_before_parentheses == other.method_space_before_parentheses
        &&& self.object_expression_space_surrounding_properties == other.object_expression_space_surrounding_properties
        &&& self.object_pattern_space_surrounding_properties == other.object_pattern_space_surrounding_properties
        &&& self.set_accessor_space_before_parentheses == other.set_accessor_space_before_parentheses
        &&& self.space_surrounding_properties == other.space_surrounding_properties
        &&& self.tagged_template_space_before_literal == other.tagged_template_space_before_literal
        &&& self.type_annotation_space_before_colon == other.type_annotation_space_before_colon
        &&& self.type_assertion_space_before_expression == other.type_assertion_space_before_expression
        &&& self.type_literal_space_surrounding_properties == other.type_literal_space_surrounding_properties
        &&& self.while_statement_space_after_while_keyword == other.while_statement_space_after_while_keyword
        &&& self.arguments_space_around == other.arguments_space_around
        &&& self.array_expression_space_around == other.array_expression_space_around
        &&& self.array_pattern_space_around == other.array_pattern_space_around
        &&& self.catch_clause_space_around == other.catch_clause_space_around
        &&& self.do_while_statement_space_around == other.do_while_statement_space_around
        &&& self.for_in_statement_space_around == other.for_in_statement_space_around
        &&& self.for_of_statement_space_around == other.for_of_statement_space_around
        &&& self.for_statement_space_around == other.for_statement_space_around
        &&& self.if_statement_space_around == other.if_statement_space_around
        &&& self.parameters_space_around == other.parameters_space_around
        &&& self.paren_expression_space_around == other.paren_expression_space_around
        &&& self.switch_statement_space_around == other.switch_statement_space_around
        &&& self.tuple_type_space_around == other.tuple_type_space_around
        &&& self.while_statement_space_around == other.while_statement_space_around
    }
}

impl Default for ResolvedConfiguration {
    /// The recommended configuration.
    fn default() -> (r: ResolvedConfiguration)
        ensures
            r.is_recommended(),
    {
        ResolvedConfiguration {
            indent_width: 2,
            line_width: 120,
            use_tabs: false,
            new_line_kind: NewLineKind::LineFeed,
            quote_style: QuoteStyle::AlwaysDouble,
            quote_props: QuoteProps::Preserve,
            semi_colons: SemiColons::Prefer,
            file_indent_level: 0,
            arrow_function_use_parentheses: UseParentheses::Maintain,
            binary_expression_line_per_expression: false,
            conditional_expression_line_per_expression: true,
            jsx_quote_style: JsxQuoteStyle::PreferDouble,
            jsx_multi_line_parens: JsxMultiLineParens::Prefer,
            jsx_force_new_lines_surrounding_content: false,
            jsx_opening_element_bracket_position: SameOrNextLinePosition::NextLine,
            jsx_self_closing_element_bracket_position: SameOrNextLinePosition::NextLine,
            member_expression_line_per_expression: false,
            type_literal_separator_kind_single_line: SemiColonOrComma::SemiColon,
            type_literal_separator_kind_multi_line: SemiColonOrComma::SemiColon,
            module_sort_import_declarations: SortOrder::CaseInsensitive,
            module_sort_export_declarations: SortOrder::CaseInsensitive,
            import_declaration_sort_named_imports: SortOrder::CaseInsensitive,
            import_declaration_sort_type_only_imports: NamedTypeImportsExportsOrder::Unordered,
            export_declaration_sort_named_exports: SortOrder::CaseInsensitive,
            export_declaration_sort_type_only_exports: NamedTypeImportsExportsOrder::Unordered,
            ignore_node_comment_text: "dprint-ignore".to_owned(),
            ignore_file_comment_text: "dprint-ignore-file".to_owned(),
            arrow_function_brace_position: BracePosition::SameLineUnlessHanging,
            class_declaration_brace_position: BracePosition::SameLineUnlessHanging,
            class_expression_brace_position: BracePosition::SameLineUnlessHanging,
            constructor_brace_position: BracePosition::SameLineUnlessHanging,
            do_while_statement_brace_position: BracePosition::SameLineUnlessHanging,
            enum_declaration_brace_position: BracePosition::SameLineUnlessHanging,
            get_accessor_brace_position: BracePosition::SameLineUnlessHanging,
            if_statement_brace_position: BracePosition::SameLineUnlessHanging,
            interface_declaration_brace_position: BracePosition::SameLineUnlessHanging,
            for_statement_brace_position: BracePosition::SameLineUnlessHanging,
            for_in_statement_brace_position: BracePosition::SameLineUnlessHanging,
            for_of_statement_brace_position: BracePosition::SameLineUnlessHanging,
            function_declaration_brace_position: BracePosition::SameLineUnlessHanging,
            function_expression_brace_position: BracePosition::SameLineUnlessHanging,
            method_brace_position: BracePosition::SameLineUnlessHanging,
            module_declaration_brace_position: BracePosition::SameLineUnlessHanging,
            set_accessor_brace_position: BracePosition::SameLineUnlessHanging,
            static_block_brace_position: BracePosition::SameLineUnlessHanging,
            switch_case_brace_position: BracePosition::SameLineUnlessHanging,
            switch_statement_brace_position: BracePosition::SameLineUnlessHanging,
            try_statement_brace_position: BracePosition::SameLineUnlessHanging,
            while_statement_brace_position: BracePosition::SameLineUnlessHanging,
            arguments_prefer_hanging: PreferHanging::Never,
            array_expression_prefer_hanging: PreferHanging::Never,
            array_pattern_prefer_hanging: false,
            do_while_statement_prefer_hanging: false,
            export_declaration_prefer_hanging: false,
            extends_clause_prefer_hanging: false,
            for_statement_prefer_hanging: false,
            for_in_statement_prefer_hanging: false,
            for_of_statement_prefer_hanging: false,
            if_statement_prefer_hanging: false,
            implements_clause_prefer_hanging: false,
            import_declaration_prefer_hanging: false,
            jsx_attributes_prefer_hanging: false,
            object_expression_prefer_hanging: false,
            object_pattern_prefer_hanging: false,
            parameters_prefer_hanging: PreferHanging::Never,
            sequence_expression_prefer_hanging: false,
            switch_statement_prefer_hanging: false,
            tuple_type_prefer_hanging: PreferHanging::Never,
            type_literal_prefer_hanging: false,
            type_parameters_prefer_hanging: PreferHanging::Never,
            union_and_intersection_type_prefer_hanging: false,
            variable_statement_prefer_hanging: false,
            while_statement_prefer_hanging: false,
            enum_declaration_member_spacing: MemberSpacing::Maintain,
            if_statement_next_control_flow_position: NextControlFlowPosition::SameLine,
            try_statement_next_control_flow_position: NextControlFlowPosition::SameLine,
            do_while_statement_next_control_flow_position: NextControlFlowPosition::SameLine,
            binary_expression_operator_position: OperatorPosition::NextLine,
            conditional_expression_operator_position: OperatorPosition::NextLine,
            conditional_type_operator_position: OperatorPosition::NextLine,
            if_statement_single_body_position: SameOrNextLinePosition::Maintain,
            for_statement_single_body_position: SameOrNextLinePosition::Maintain,
            for_in_statement_single_body_position: SameOrNextLinePosition::Maintain,
            for_of_statement_single_body_position: SameOrNextLinePosition::Maintain,
            while_statement_single_body_position: SameOrNextLinePosition::Maintain,
            arguments_trailing_commas: TrailingCommas::OnlyMultiLine,
            parameters_trailing_commas: TrailingCommas::OnlyMultiLine,
            array_expression_trailing_commas: TrailingCommas::OnlyMultiLine,
            array_pattern_trailing_commas: TrailingCommas::OnlyMultiLine,
            enum_declaration_trailing_commas: TrailingCommas::OnlyMultiLine,
            export_declaration_trailing_commas: TrailingCommas::OnlyMultiLine,
            import_declaration_trailing_commas: TrailingCommas::OnlyMultiLine,
            object_pattern_trailing_commas: TrailingCommas::OnlyMultiLine,
            object_expression_trailing_commas: TrailingCommas::OnlyMultiLine,
            tuple_type_trailing_commas: TrailingCommas::OnlyMultiLine,
            type_literal_trailing_commas: TrailingCommas::OnlyMultiLine,
            type_parameters_trailing_commas: TrailingCommas::OnlyMultiLine,
            if_statement_use_braces: UseBraces::WhenNotSingleLine,
            for_statement_use_braces: UseBraces::WhenNotSingleLine,
            for_of_statement_use_braces: UseBraces::WhenNotSingleLine,
            for_in_statement_use_braces: UseBraces::WhenNotSingleLine,
            while_statement_use_braces: UseBraces::WhenNotSingleLine,
            array_expression_prefer_single_line: false,
            array_pattern_prefer_single_line: false,
            arguments_prefer_single_line: false,
            binary_expression_prefer_single_line: false,
            computed_prefer_single_line: false,
            conditional_expression_prefer_single_line: false,
            conditional_type_prefer_single_line: false,
            decorators_prefer_single_line: false,
            export_declaration_prefer_single_line: false,
            for_statement_prefer_single_line: false,
            import_declaration_prefer_single_line: false,
            jsx_attributes_prefer_single_line: false,
            jsx_element_prefer_single_line: false,
            mapped_type_prefer_single_line: false,
            member_expression_prefer_single_line: false,
            object_expression_prefer_single_line: false,
            object_pattern_prefer_single_line: false,
            parameters_prefer_single_line: false,
            parentheses_prefer_single_line: false,
            tuple_type_prefer_single_line: false,
            type_literal_prefer_single_line: false,
            type_parameters_prefer_single_line: false,
            union_and_intersection_type_prefer_single_line: false,
            variable_statement_prefer_single_line: false,
            import_declaration_force_single_line: false,
            export_declaration_force_single_line: false,
            export_declaration_force_multi_line: ForceMultiLine::Never,
            import_declaration_force_multi_line: ForceMultiLine::Never,
            binary_expression_space_surrounding_bitwise_and_arithmetic_operator: true,
            comment_line_force_space_after_slashes: true,
            construct_signature_space_after_new_keyword: false,
            constructor_space_before_parentheses: false,
            constructor_type_space_after_new_keyword: false,
            do_while_statement_space_after_while_keyword: true,
            export_declaration_space_surrounding_named_exports: true,
            for_statement_space_after_for_keyword: true,
            for_statement_space_after_semi_colons: true,
            for_in_statement_space_after_for_keyword: true,
            for_of_statement_space_after_for_keyword: true,
            function_declaration_space_before_parentheses: false,
            function_expression_space_before_parentheses: false,
            function_expression_space_after_function_keyword: false,
            get_accessor_space_before_parentheses: false,
            if_statement_space_after_if_keyword: true,
            import_declaration_space_surrounding_named_imports: true,
            jsx_expression_container_space_surrounding_expression: false,
            jsx_self_closing_element_space_before_slash: true,
            method_space_before_parentheses: true,
            object_expression_space_surrounding_properties: true,
            object_pattern_space_surrounding_properties: true,
            set_accessor_space_before_parentheses: false,
            space_surrounding_properties: true,
            tagged_template_space_before_literal: false,
            type_annotation_space_before_colon: false,
            type_assertion_space_before_expression: true,
            type_literal_space_surrounding_properties: true,
            while_statement_space_after_while_keyword: true,
            arguments_space_around: false,
            array_expression_space_around: false,
            array_pattern_space_around: false,
            catch_clause_space_around: false,
            do_while_statement_space_around: false,
            for_in_statement_space_around: false,
            for_of_statement_space_around: false,
            for_statement_space_around: false,
            if_statement_space_around: false,
            parameters_space_around: false,
            paren_expression_space_around: false,
            switch_statement_space_around: false,
            tuple_type_space_around: false,
            while_statement_space_around: false,
        }
    }
}

/// A configuration as its users write it: closed-set settings are held as tokens,
/// not yet validated.
#[derive(Clone, Debug, PartialEq, Eq)]
pub struct PyConfiguration {
    pub indent_width: u8,
    pub line_width: u32,
    pub use_tabs: bool,
    pub new_line_kind: String,
    pub quote_style: String,
    pub quote_props: String,
    pub semi_colons: String,
    pub file_indent_level: u32,
    pub arrow_function_use_parentheses: String,
    pub binary_expression_line_per_expression: bool,
    pub conditional_expression_line_per_expression: bool,
    pub jsx_quote_style: String,
    pub jsx_multi_line_parens: String,
    pub jsx_force_new_lines_surrounding_content: bool,
    pub jsx_opening_element_bracket_position: String,
    pub jsx_self_closing_element_bracket_position: String,
    pub member_expression_line_per_expression: bool,
    pub type_literal_separator_kind_single_line: String,
    pub type_literal_separator_kind_multi_line: String,
    pub module_sort_import_declarations: String,
    pub module_sort_export_declarations: String,
    pub import_declaration_sort_named_imports: String,
    pub import_declaration_sort_type_only_imports: String,
    pub export_declaration_sort_named_exports: String,
    pub export_declaration_sort_type_only_exports: String,
    pub ignore_node_comment_text: String,
    pub ignore_file_comment_text: String,
    pub arrow_function_brace_position: String,
    pub class_declaration_brace_position: String,
    pub class_expression_brace_position: String,
    pub constructor_brace_position: String,
    pub do_while_statement_brace_position: String,
    pub enum_declaration_brace_position: String,
    pub get_accessor_brace_position: String,
    pub if_statement_brace_position: String,
    pub interface_declaration_brace_position: String,
    pub for_statement_brace_position: String,
    pub for_in_statement_brace_position: String,
    pub for_of_statement_brace_position: String,
    pub function_declaration_brace_position: String,
    pub function_expression_brace_position: String,
    pub method_brace_position: String,
    pub module_declaration_brace_position: String,
    pub set_accessor_brace_position: String,
    pub static_block_brace_position: String,
    pub switch_case_brace_position: String,
    pub switch_statement_brace_position: String,
    pub try_statement_brace_position: String,
    pub while_statement_brace_position: String,
    pub arguments_prefer_hanging: String,
    pub array_expression_prefer_hanging: String,
    pub array_pattern_prefer_hanging: bool,
    pub do_while_statement_prefer_hanging: bool,
    pub export_declaration_prefer_hanging: bool,
    pub extends_clause_prefer_hanging: bool,
    pub for_statement_prefer_hanging: bool,
    pub for_in_statement_prefer_hanging: bool,
    pub for_of_statement_prefer_hanging: bool,
    pub if_statement_prefer_hanging: bool,
    pub implements_clause_prefer_hanging: bool,
    pub import_declaration_prefer_hanging: bool,
    pub jsx_attributes_prefer_hanging: bool,
    pub object_expression_prefer_hanging: bool,
    pub object_pattern_prefer_hanging: bool,
    pub parameters_prefer_hanging: String,
    pub sequence_expression_prefer_hanging: bool,
    pub switch_statement_prefer_hanging: bool,
    pub tuple_type_prefer_hanging: String,
    pub type_literal_prefer_hanging: bool,
    pub type_parameters_prefer_hanging: String,
    pub union_and_intersection_type_prefer_hanging: bool,
    pub variable_statement_prefer_hanging: bool,
    pub while_statement_prefer_hanging: bool,
    pub enum_declaration_member_spacing: String,
    pub if_statement_next_control_flow_position: String,
    pub try_statement_next_control_flow_position: String,
    pub do_while_statement_next_control_flow_position: String,
    pub binary_expression_operator_position: String,
    pub conditional_expression_operator_position: String,
    pub conditional_type_operator_position: String,
    pub if_statement_single_body_position: String,
    pub for_statement_single_body_position: String,
    pub for_in_statement_single_body_position: String,
    pub for_of_statement_single_body_position: String,
    pub while_statement_single_body_position: String,
    pub arguments_trailing_commas: String,
    pub parameters_trailing_commas: String,
    pub array_expression_trailing_commas: String,
    pub array_pattern_trailing_commas: String,
    pub enum_declaration_trailing_commas: String,
    pub export_declaration_trailing_commas: String,
    pub import_declaration_trailing_commas: String,
    pub object_pattern_trailing_commas: String,
    pub object_expression_trailing_commas: String,
    pub tuple_type_trailing_commas: String,
    pub type_literal_trailing_commas: String,
    pub type_parameters_trailing_commas: String,
    pub if_statement_use_braces: String,
    pub for_statement_use_braces: String,
    pub for_of_statement_use_braces: String,
    pub for_in_statement_use_braces: String,
    pub while_statement_use_braces: String,
    pub array_expression_prefer_single_line: bool,
    pub array_pattern_prefer_single_line: bool,
    pub arguments_prefer_single_line: bool,
    pub binary_expression_prefer_single_line: bool,
    pub computed_prefer_single_line: bool,
    pub conditional_expression_prefer_single_line: bool,
    pub conditional_type_prefer_single_line: bool,
    pub decorators_prefer_single_line: bool,
    pub export_declaration_prefer_single_line: bool,
    pub for_statement_prefer_single_line: bool,
    pub import_declaration_prefer_single_line: bool,
    pub jsx_attributes_prefer_single_line: bool,
    pub jsx_element_prefer_single_line: bool,
    pub mapped_type_prefer_single_line: bool,
    pub member_expression_prefer_single_line: bool,
    pub object_expression_prefer_single_line: bool,
    pub object_pattern_prefer_single_line: bool,
    pub parameters_prefer_single_line: bool,
    pub parentheses_prefer_single_line: bool,
    pub tuple_type_prefer_single_line: bool,
    pub type_literal_prefer_single_line: bool,
    pub type_parameters_prefer_single_line: bool,
    pub union_and_intersection_type_prefer_single_line: bool,
    pub variable_statement_prefer_single_line: bool,
    pub import_declaration_force_single_line: bool,
    pub export_declaration_force_single_line: bool,
    pub export_declaration_force_multi_line: String,
    pub import_declaration_force_multi_line: String,
    pub binary_expression_space_surrounding_bitwise_and_arithmetic_operator: bool,
    pub comment_line_force_space_after_slashes: bool,
    pub construct_signature_space_after_new_keyword: bool,
    pub constructor_space_before_parentheses: bool,
    pub constructor_type_space_after_new_keyword: bool,
    pub do_while_statement_space_after_while_keyword: bool,
    pub export_declaration_space_surrounding_named_exports: bool,
    pub for_statement_space_after_for_keyword: bool,
    pub for_statement_space_after_semi_colons: bool,
    pub for_in_statement_space_after_for_keyword: bool,
    pub for_of_statement_space_after_for_keyword: bool,
    pub function_declaration_space_before_parentheses: bool,
    pub function_expression_space_before_parentheses: bool,
    pub function_expression_space_after_function_keyword: bool,
    pub get_accessor_space_before_parentheses: bool,
    pub if_statement_space_after_if_keyword: bool,
    pub import_declaration_space_surrounding_named_imports: bool,
    pub jsx_expression_container_space_surrounding_expression: bool,
    pub jsx_self_closing_element_space_before_slash: bool,
    pub method_space_before_parentheses: bool,
    pub object_expression_space_surrounding_properties: bool,
    pub object_pattern_space_surrounding_properties: bool,
    pub set_accessor_space_before_parentheses: bool,
    pub space_surrounding_properties: bool,
    pub tagged_template_space_before_literal: bool,
    pub type_annotation_space_before_colon: bool,
    pub type_assertion_space_before_expression: bool,
    pub type_literal_space_surrounding_properties: bool,
    pub while_statement_space_after_while_keyword: bool,
    pub arguments_space_around: bool,
    pub array_expression_space_around: bool,
    pub array_pattern_space_around: bool,
    pub catch_clause_space_around: bool,
    pub do_while_statement_space_around: bool,
    pub for_in_statement_space_around: bool,
    pub for_of_statement_space_around: bool,
    pub for_statement_space_around: bool,
    pub if_statement_space_around: bool,
    pub parameters_space_around: bool,
    pub paren_expression_space_around: bool,
    pub switch_statement_space_around: bool,
    pub tuple_type_space_around: bool,
    pub while_statement_space_around: bool,
}

impl PyConfiguration {
    /// The name of the setting at place `i` of the key-value view.
    pub open spec fn name_at(i: int) -> Seq<char> {
        if i == 0 {
            "indent_width"@
        } else if i == 1 {
            "line_width"@
        } else if i == 2 {
            "use_tabs"@
        } else if i == 3 {
            "new_line_kind"@
        } else if i == 4 {
            "quote_style"@
        } else if i == 5 {
            "quote_props"@
        } else if i == 6 {
            "semi_colons"@
        } else if i == 7 {
            "file_indent_level"@
        } else if i == 8 {
            "arrow_function_use_parentheses"@
        } else if i == 9 {
            "binary_expression_line_per_expression"@
        } else if i == 10 {
            "conditional_expression_line_per_expression"@
        } else if i == 11 {
            "jsx_quote_style"@
        } else if i == 12 {
            "jsx_multi_line_parens"@
        } else if i == 13 {
            "jsx_force_new_lines_surrounding_content"@
        } else if i == 14 {
            "jsx_opening_element_bracket_position"@
        } else if i == 15 {
            "jsx_self_closing_element_bracket_position"@
        } else if i == 16 {
            "member_expression_line_per_expression"@
        } else if i == 17 {
            "type_literal_separator_kind_single_line"@
        } else if i == 18 {
            "type_literal_separator_kind_multi_line"@
        } else if i == 19 {
            "module_sort_import_declarations"@
        } else if i == 20 {
            "module_sort_export_declarations"@
        } else if i == 21 {
            "import_declaration_sort_named_imports"@
        } else if i == 22 {
            "import_declaration_sort_type_only_imports"@
        } else if i == 23 {
            "export_declaration_sort_named_exports"@
        } else if i == 24 {
            "export_declaration_sort_type_only_exports"@
        } else if i == 25 {
            "ignore_node_comment_text"@
        } else if i == 26 {
            "ignore_file_comment_text"@
        } else if i == 27 {
            "arrow_function_brace_position"@
        } else if i == 28 {
            "class_declaration_brace_position"@
        } else if i == 29 {
            "class_expression_brace_position"@
        } else if i == 30 {
            "constructor_brace_position"@
        } else if i == 31 {
            "do_while_statement_brace_position"@
        } else if i == 32 {
            "enum_declaration_brace_position"@
        } else if i == 33 {
            "get_accessor_brace_position"@
        } else if i == 34 {
            "if_statement_brace_position"@
        } else if i == 35 {
            "interface_declaration_brace_position"@
        } else if i == 36 {
            "for_statement_brace_position"@
        } else if i == 37 {
            "for_in_statement_brace_position"@
        } else if i == 38 {
            "for_of_statement_brace_position"@
        } else if i == 39 {
            "function_declaration_brace_position"@
        } else if i == 40 {
            "function_expression_brace_position"@
        } else if i == 41 {
            "method_brace_position"@
        } else if i == 42 {
            "module_declaration_brace_position"@
        } else if i == 43 {
            "set_accessor_brace_position"@
        } else if i == 44 {
            "static_block_brace_position"@
        } else if i == 45 {
            "switch_case_brace_position"@
        } else if i == 46 {
            "switch_statement_brace_position"@
        } else if i == 47 {
            "try_statement_brace_position"@
        } else if i == 48 {
            "while_statement_brace_position"@
        } else if i == 49 {
            "arguments_prefer_hanging"@
        } else if i == 50 {
            "array_expression_prefer_hanging"@
        } else if i == 51 {
            "array_pattern_prefer_hanging"@
        } else if i == 52 {
            "do_while_statement_prefer_hanging"@
        } else if i == 53 {
            "export_declaration_prefer_hanging"@
        } else if i == 54 {
            "extends_clause_prefer_hanging"@
        } else if i == 55 {
            "for_statement_prefer_hanging"@
        } else if i == 56 {
            "for_in_statement_prefer_hanging"@
        } else if i == 57 {
            "for_of_statement_prefer_hanging"@
        } else if i == 58 {
            "if_statement_prefer_hanging"@
        } else if i == 59 {
            "implements_clause_prefer_hanging"@
        } else if i == 60 {
            "import_declaration_prefer_hanging"@
        } else if i == 61 {
            "jsx_attributes_prefer_hanging"@
        } else if i == 62 {
            "object_expression_prefer_hanging"@
        } else if i == 63 {
            "object_pattern_prefer_hanging"@
        } else if i == 64 {
            "parameters_prefer_hanging"@
        } else if i == 65 {
            "sequence_expression_prefer_hanging"@
        } else if i == 66 {
            "switch_statement_prefer_hanging"@
        } else if i == 67 {
            "tuple_type_prefer_hanging"@
        } else if i == 68 {
            "type_literal_prefer_hanging"@
        } else if i == 69 {
            "type_parameters_prefer_hanging"@
        } else if i == 70 {
            "union_and_intersection_type_prefer_hanging"@
        } else if i == 71 {
            "variable_statement_prefer_hanging"@
        } else if i == 72 {
            "while_statement_prefer_hanging"@
        } else if i == 73 {
            "enum_declaration_member_spacing"@
        } else if i == 74 {
            "if_statement_next_control_flow_position"@
        } else if i == 75 {
            "try_statement_next_control_flow_position"@
        } else if i == 76 {
            "do_while_statement_next_control_flow_position"@
        } else if i == 77 {
            "binary_expression_operator_position"@
        } else if i == 78 {
            "conditional_expression_operator_position"@
        } else if i == 79 {
            "conditional_type_operator_position"@
        } else if i == 80 {
            "if_statement_single_body_position"@
        } else if i == 81 {
            "for_statement_single_body_position"@
        } else if i == 82 {
            "for_in_statement_single_body_position"@
        } else if i == 83 {
            "for_of_statement_single_body_position"@
        } else if i == 84 {
            "while_statement_single_body_position"@
        } else if i == 85 {
            "arguments_trailing_commas"@
        } else if i == 86 {
            "parameters_trailing_commas"@
        } else if i == 87 {
            "array_expression_trailing_commas"@
        } else if i == 88 {
            "array_pattern_trailing_commas"@
        } else if i == 89 {
            "enum_declaration_trailing_commas"@
        } else if i == 90 {
            "export_declaration_trailing_commas"@
        } else if i == 91 {
            "import_declaration_trailing_commas"@
        } else if i == 92 {
            "object_pattern_trailing_commas"@
        } else if i == 93 {
            "object_expression_trailing_commas"@
        } else if i == 94 {
            "tuple_type_trailing_commas"@
        } else if i == 95 {
            "type_literal_trailing_commas"@
        } else if i == 96 {
            "type_parameters_trailing_commas"@
        } else if i == 97 {
            "if_statement_use_braces"@
        } else if i == 98 {
            "for_statement_use_braces"@
        } else if i == 99 {
            "for_of_statement_use_braces"@
        } else if i == 100 {
            "for_in_statement_use_braces"@
        } else if i == 101 {
            "while_statement_use_braces"@
        } else if i == 102 {
            "array_expression_prefer_single_line"@
        } else if i == 103 {
            "array_pattern_prefer_single_line"@
        } else if i == 104 {
            "arguments_prefer_single_line"@
        } else if i == 105 {
            "binary_expression_prefer_single_line"@
        } else if i == 106 {
            "computed_prefer_single_line"@
        } else if i == 107 {
            "conditional_expression_prefer_single_line"@
        } else if i == 108 {
            "conditional_type_prefer_single_line"@
        } else if i == 109 {
            "decorators_prefer_single_line"@
        } else if i == 110 {
            "export_declaration_prefer_single_line"@
        } else if i == 111 {
            "for_statement_prefer_single_line"@
        } else if i == 112 {
            "import_declaration_prefer_single_line"@
        } else if i == 113 {
            "jsx_attributes_prefer_single_line"@
        } else if i == 114 {
            "jsx_element_prefer_single_line"@
        } else if i == 115 {
            "mapped_type_prefer_single_line"@
        } else if i == 116 {
            "member_expression_prefer_single_line"@
        } else if i == 117 {
            "object_expression_prefer_single_line"@
        } else if i == 118 {
            "object_pattern_prefer_single_line"@
        } else if i == 119 {
            "parameters_prefer_single_line"@
        } else if i == 120 {
            "parentheses_prefer_single_line"@
        } else if i == 121 {
            "tuple_type_prefer_single_line"@
        } else if i == 122 {
            "type_literal_prefer_single_line"@
        } else if i == 123 {
            "type_parameters_prefer_single_line"@
        } else if i == 124 {
            "union_and_intersection_type_prefer_single_line"@
        } else if i == 125 {
            "variable_statement_prefer_single_line"@
        } else if i == 126 {
            "import_declaration_force_single_line"@
        } else if i == 127 {
            "export_declaration_force_single_line"@
        } else if i == 128 {
            "export_declaration_force_multi_line"@
        } else if i == 129 {
            "import_declaration_force_multi_line"@
        } else if i == 130 {
            "binary_expression_space_surrounding_bitwise_and_arithmetic_operator"@
        } else if i == 131 {
            "comment_line_force_space_after_slashes"@
        } else if i == 132 {
            "construct_signature_space_after_new_keyword"@
        } else if i == 133 {
            "constructor_space_before_parentheses"@
        } else if i == 134 {
            "constructor_type_space_after_new_keyword"@
        } else if i == 135 {
            "do_while_statement_space_after_while_keyword"@
        } else if i == 136 {
            "export_declaration_space_surrounding_named_exports"@
        } else if i == 137 {
            "for_statement_space_after_for_keyword"@
        } else if i == 138 {
            "for_statement_space_after_semi_colons"@
        } else if i == 139 {
            "for_in_statement_space_after_for_keyword"@
        } else if i == 140 {
            "for_of_statement_space_after_for_keyword"@
        } else if i == 141 {
            "function_declaration_space_before_parentheses"@
        } else if i == 142 {
            "function_expression_space_before_parentheses"@
        } else if i == 143 {
            "function_expression_space_after_function_keyword"@
        } else if i == 144 {
            "get_accessor_space_before_parentheses"@
        } else if i == 145 {
            "if_statement_space_after_if_keyword"@
        } else if i == 146 {
            "import_declaration_space_surrounding_named_imports"@
        } else if i == 147 {
            "jsx_expression_container_space_surrounding_expression"@
        } else if i == 148 {
            "jsx_self_closing_element_space_before_slash"@
        } else if i == 149 {
            "method_space_before_parentheses"@
        } else if i == 150 {
            "object_expression_space_surrounding_properties"@
        } else if i == 151 {
            "object_pattern_space_surrounding_properties"@
        } else if i == 152 {
            "set_accessor_space_before_parentheses"@
        } else if i == 153 {
            "space_surrounding_properties"@
        } else if i == 154 {
            "tagged_template_space_before_literal"@
        } else if i == 155 {
            "type_annotation_space_before_colon"@
        } else if i == 156 {
            "type_assertion_space_before_expression"@
        } else if i == 157 {
            "type_literal_space_surrounding_properties"@
        } else if i == 158 {
            "while_statement_space_after_while_keyword"@
        } else if i == 159 {
            "arguments_space_around"@
        } else if i == 160 {
            "array_expression_space_around"@
        } else if i == 161 {
            "array_pattern_space_around"@
        } else if i == 162 {
            "catch_clause_space_around"@
        } else if i == 163 {
            "do_while_statement_space_around"@
        } else if i == 164 {
            "for_in_statement_space_around"@
        } else if i == 165 {
            "for_of_statement_space_around"@
        } else if i == 166 {
            "for_statement_space_around"@
        } else if i == 167 {
            "if_statement_space_around"@
        } else if i == 168 {
            "parameters_space_around"@
        } else if i == 169 {
            "paren_expression_space_around"@
        } else if i == 170 {
            "switch_statement_space_around"@
        } else if i == 171 {
            "tuple_type_space_around"@
        } else {
            "while_statement_space_around"@
        }
    }

    /// The value of the setting at place `i` of the key-value view.
    pub open spec fn value_at(&self, i: int) -> ConfigValueView {
        if i == 0 {
            ConfigValueView::Int(self.indent_width as u32)
        } else if i == 1 {
            ConfigValueView::Int(self.line_width as u32)
        } else if i == 2 {
            ConfigValueView::Bool(self.use_tabs)
        } else if i == 3 {
            ConfigValueView::Str(self.new_line_kind@)
        } else if i == 4 {
            ConfigValueView::Str(self.quote_style@)
        } else if i == 5 {
            ConfigValueView::Str(self.quote_props@)
        } else if i == 6 {
            ConfigValueView::Str(self.semi_colons@)
        } else if i == 7 {
            ConfigValueView::Int(self.file_indent_level as u32)
        } else if i == 8 {
            ConfigValueView::Str(self.arrow_function_use_parentheses@)
        } else if i == 9 {
            ConfigValueView::Bool(self.binary_expression_line_per_expression)
        } else if i == 10 {
            ConfigValueView::Bool(self.conditional_expression_line_per_expression)
        } else if i == 11 {
            ConfigValueView::Str(self.jsx_quote_style@)
        } else if i == 12 {
            ConfigValueView::Str(self.jsx_multi_line_parens@)
        } else if i == 13 {
            ConfigValueView::Bool(self.jsx_force_new_lines_surrounding_content)
        } else if i == 14 {
            ConfigValueView::Str(self.jsx_opening_element_bracket_position@)
        } else if i == 15 {
            ConfigValueView::Str(self.jsx_self_closing_element_bracket_position@)
        } else if i == 16 {
            ConfigValueView::Bool(self.member_expression_line_per_expression)
        } else if i == 17 {
            ConfigValueView::Str(self.type_literal_separator_kind_single_line@)
        } else if i == 18 {
            ConfigValueView::Str(self.type_literal_separator_kind_multi_line@)
        } else if i == 19 {
            ConfigValueView::Str(self.module_sort_import_declarations@)
        } else if i == 20 {
            ConfigValueView::Str(self.module_sort_export_declarations@)
        } else if i == 21 {
            ConfigValueView::Str(self.import_declaration_sort_named_imports@)
        } else if i == 22 {
            ConfigValueView::Str(self.import_declaration_sort_type_only_imports@)
        } else if i == 23 {
            ConfigValueView::Str(self.export_declaration_sort_named_exports@)
        } else if i == 24 {
            ConfigValueView::Str(self.export_declaration_sort_type_only_exports@)
        } else if i == 25 {
            ConfigValueView::Str(self.ignore_node_comment_text@)
        } else if i == 26 {
            ConfigValueView::Str(self.ignore_file_comment_text@)
        } else if i == 27 {
            ConfigValueView::Str(self.arrow_function_brace_position@)
        } else if i == 28 {
            ConfigValueView::Str(self.class_declaration_brace_position@)
        } else if i == 29 {
            ConfigValueView::Str(self.class_expression_brace_position@)
        } else if i == 30 {
            ConfigValueView::Str(self.constructor_brace_position@)
        } else if i == 31 {
            ConfigValueView::Str(self.do_while_statement_brace_position@)
        } else if i == 32 {
            ConfigValueView::Str(self.enum_declaration_brace_position@)
        } else if i == 33 {
            ConfigValueView::Str(self.get_accessor_brace_position@)
        } else if i == 34 {
            ConfigValueView::Str(self.if_statement_brace_position@)
        } else if i == 35 {
            ConfigValueView::Str(self.interface_declaration_brace_position@)
        } else if i == 36 {
            ConfigValueView::Str(self.for_statement_brace_position@)
        } else if i == 37 {
            ConfigValueView::Str(self.for_in_statement_brace_position@)
        } else if i == 38 {
            ConfigValueView::Str(self.for_of_statement_brace_position@)
        } else if i == 39 {
            ConfigValueView::Str(self.function_declaration_brace_position@)
        } else if i == 40 {
            ConfigValueView::Str(self.function_expression_brace_position@)
        } else if i == 41 {
            ConfigValueView::Str(self.method_brace_position@)
        } else if i == 42 {
            ConfigValueView::Str(self.module_declaration_brace_position@)
        } else if i == 43 {
            ConfigValueView::Str(self.set_accessor_brace_position@)
        } else if i == 44 {
            ConfigValueView::Str(self.static_block_brace_position@)
        } else if i == 45 {
            ConfigValueView::Str(self.switch_case_brace_position@)
        } else if i == 46 {
            ConfigValueView::Str(self.switch_statement_brace_position@)
        } else if i == 47 {
            ConfigValueView::Str(self.try_statement_brace_position@)
        } else if i == 48 {
            ConfigValueView::Str(self.while_statement_brace_position@)
        } else if i == 49 {
            ConfigValueView::Str(self.arguments_prefer_hanging@)
        } else if i == 50 {
            ConfigValueView::Str(self.array_expression_prefer_hanging@)
        } else if i == 51 {
            ConfigValueView::Bool(self.array_pattern_prefer_hanging)
        } else if i == 52 {
            ConfigValueView::Bool(self.do_while_statement_prefer_hanging)
        } else if i == 53 {
            ConfigValueView::Bool(self.export_declaration_prefer_hanging)
        } else if i == 54 {
            ConfigValueView::Bool(self.extends_clause_prefer_hanging)
        } else if i == 55 {
            ConfigValueView::Bool(self.for_statement_prefer_hanging)
        } else if i == 56 {
            ConfigValueView::Bool(self.for_in_statement_prefer_hanging)
        } else if i == 57 {
            ConfigValueView::Bool(self.for_of_statement_prefer_hanging)
        } else if i == 58 {
            ConfigValueView::Bool(self.if_statement_prefer_hanging)
        } else if i == 59 {
            ConfigValueView::Bool(self.implements_clause_prefer_hanging)
        } else if i == 60 {
            ConfigValueView::Bool(self.import_declaration_prefer_hanging)
        } else if i == 61 {
            ConfigValueView::Bool(self.jsx_attributes_prefer_hanging)
        } else if i == 62 {
            ConfigValueView::Bool(self.object_expression_prefer_hanging)
        } else if i == 63 {
            ConfigValueView::Bool(self.object_pattern_prefer_hanging)
        } else if i == 64 {
            ConfigValueView::Str(self.parameters_prefer_hanging@)
        } else if i == 65 {
            ConfigValueView::Bool(self.sequence_expression_prefer_hanging)
        } else if i == 66 {
            ConfigValueView::Bool(self.switch_statement_prefer_hanging)
        } else if i == 67 {
            ConfigValueView::Str(self.tuple_type_prefer_hanging@)
        } else if i == 68 {
            ConfigValueView::Bool(self.type_literal_prefer_hanging)
        } else if i == 69 {
            ConfigValueView::Str(self.type_parameters_prefer_hanging@)
        } else if i == 70 {
            ConfigValueView::Bool(self.union_and_intersection_type_prefer_hanging)
        } else if i == 71 {
            ConfigValueView::Bool(self.variable_statement_prefer_hanging)
        } else if i == 72 {
            ConfigValueView::Bool(self.while_statement_prefer_hanging)
        } else if i == 73 {
            ConfigValueView::Str(self.enum_declaration_member_spacing@)
        } else if i == 74 {
            ConfigValueView::Str(self.if_statement_next_control_flow_position@)
        } else if i == 75 {
            ConfigValueView::Str(self.try_statement_next_control_flow_position@)
        } else if i == 76 {
            ConfigValueView::Str(self.do_while_statement_next_control_flow_position@)
        } else if i == 77 {
            ConfigValueView::Str(self.binary_expression_operator_position@)
        } else if i == 78 {
            ConfigValueView::Str(self.conditional_expression_operator_position@)
        } else if i == 79 {
            ConfigValueView::Str(self.conditional_type_operator_position@)
        } else if i == 80 {
            ConfigValueView::Str(self.if_statement_single_body_position@)
        } else if i == 81 {
            ConfigValueView::Str(self.for_statement_single_body_position@)
        } else if i == 82 {
            ConfigValueView::Str(self.for_in_statement_single_body_position@)
        } else if i == 83 {
            ConfigValueView::Str(self.for_of_statement_single_body_position@)
        } else if i == 84 {
            ConfigValueView::Str(self.while_statement_single_body_position@)
        } else if i == 85 {
            ConfigValueView::Str(self.arguments_trailing_commas@)
        } else if i == 86 {
            ConfigValueView::Str(self.parameters_trailing_commas@)
        } else if i == 87 {
            ConfigValueView::Str(self.array_expression_trailing_commas@)
        } else if i == 88 {
            ConfigValueView::Str(self.array_pattern_trailing_commas@)
        } else if i == 89 {
            ConfigValueView::Str(self.enum_declaration_trailing_commas@)
        } else if i == 90 {
            ConfigValueView::Str(self.export_declaration_trailing_commas@)
        } else if i == 91 {
            ConfigValueView::Str(self.import_declaration_trailing_commas@)
        } else if i == 92 {
            ConfigValueView::Str(self.object_pattern_trailing_commas@)
        } else if i == 93 {
            ConfigValueView::Str(self.object_expression_trailing_commas@)
        } else if i == 94 {
            ConfigValueView::Str(self.tuple_type_trailing_commas@)
        } else if i == 95 {
            ConfigValueView::Str(self.type_literal_trailing_commas@)
        } else if i == 96 {
            ConfigValueView::Str(self.type_parameters_trailing_commas@)
        } else if i == 97 {
            ConfigValueView::Str(self.if_statement_use_braces@)
        } else if i == 98 {
            ConfigValueView::Str(self.for_statement_use_braces@)
        } else if i == 99 {
            ConfigValueView::Str(self.for_of_statement_use_braces@)
        } else if i == 100 {
            ConfigValueView::Str(self.for_in_statement_use_braces@)
        } else if i == 101 {
            ConfigValueView::Str(self.while_statement_use_braces@)
        } else if i == 102 {
            ConfigValueView::Bool(self.array_expression_prefer_single_line)
        } else if i == 103 {
            ConfigValueView::Bool(self.array_pattern_prefer_single_line)
        } else if i == 104 {
            ConfigValueView::Bool(self.arguments_prefer_single_line)
        } else if i == 105 {
            ConfigValueView::Bool(self.binary_expression_prefer_single_line)
        } else if i == 106 {
            ConfigValueView::Bool(self.computed_prefer_single_line)
        } else if i == 107 {
            ConfigValueView::Bool(self.conditional_expression_prefer_single_line)
        } else if i == 108 {
            ConfigValueView::Bool(self.conditional_type_prefer_single_line)
        } else if i == 109 {
            ConfigValueView::Bool(self.decorators_prefer_single_line)
        } else if i == 110 {
            ConfigValueView::Bool(self.export_declaration_prefer_single_line)
        } else if i == 111 {
            ConfigValueView::Bool(self.for_statement_prefer_single_line)
        } else if i == 112 {
            ConfigValueView::Bool(self.import_declaration_prefer_single_line)
        } else if i == 113 {
            ConfigValueView::Bool(self.jsx_attributes_prefer_single_line)
        } else if i == 114 {
            ConfigValueView::Bool(self.jsx_element_prefer_single_line)
        } else if i == 115 {
            ConfigValueView::Bool(self.mapped_type_prefer_single_line)
        } else if i == 116 {
            ConfigValueView::Bool(self.member_expression_prefer_single_line)
        } else if i == 117 {
            ConfigValueView::Bool(self.object_expression_prefer_single_line)
        } else if i == 118 {
            ConfigValueView::Bool(self.object_pattern_prefer_single_line)
        } else if i == 119 {
            ConfigValueView::Bool(self.parameters_prefer_single_line)
        } else if i == 120 {
            ConfigValueView::Bool(self.parentheses_prefer_single_line)
        } else if i == 121 {
            ConfigValueView::Bool(self.tuple_type_prefer_single_line)
        } else if i == 122 {
            ConfigValueView::Bool(self.type_literal_prefer_single_line)
        } else if i == 123 {
            ConfigValueView::Bool(self.type_parameters_prefer_single_line)
        } else if i == 124 {
            ConfigValueView::Bool(self.union_and_intersection_type_prefer_single_line)
        } else if i == 125 {
            ConfigValueView::Bool(self.variable_statement_prefer_single_line)
        } else if i == 126 {
            ConfigValueView::Bool(self.import_declaration_force_single_line)
        } else if i == 127 {
            ConfigValueView::Bool(self.export_declaration_force_single_line)
        } else if i == 128 {
            ConfigValueView::Str(self.export_declaration_force_multi_line@)
        } else if i == 129 {
            ConfigValueView::Str(self.import_declaration_force_multi_line@)
        } else if i == 130 {
            ConfigValueView::Bool(self.binary_expression_space_surrounding_bitwise_and_arithmetic_operator)
        } else if i == 131 {
            ConfigValueView::Bool(self.comment_line_force_space_after_slashes)
        } else if i == 132 {
            ConfigValueView::Bool(self.construct_signature_space_after_new_keyword)
        } else if i == 133 {
            ConfigValueView::Bool(self.constructor_space_before_parentheses)
        } else if i == 134 {
            ConfigValueView::Bool(self.constructor_type_space_after_new_keyword)
        } else if i == 135 {
            ConfigValueView::Bool(self.do_while_statement_space_after_while_keyword)
        } else if i == 136 {
            ConfigValueView::Bool(self.export_declaration_space_surrounding_named_exports)
        } else if i == 137 {
            ConfigValueView::Bool(self.for_statement_space_after_for_keyword)
        } else if i == 138 {
            ConfigValueView::Bool(self.for_statement_space_after_semi_colons)
        } else if i == 139 {
            ConfigValueView::Bool(self.for_in_statement_space_after_for_keyword)
        } else if i == 140 {
            ConfigValueView::Bool(self.for_of_statement_space_after_for_keyword)
        } else if i == 141 {
            ConfigValueView::Bool(self.function_declaration_space_before_parentheses)
        } else if i == 142 {
            ConfigValueView::Bool(self.function_expression_space_before_parentheses)
        } else if i == 143 {
            ConfigValueView::Bool(self.function_expression_space_after_function_keyword)
        } else if i == 144 {
            ConfigValueView::Bool(self.get_accessor_space_before_parentheses)
        } else if i == 145 {
            ConfigValueView::Bool(self.if_statement_space_after_if_keyword)
        } else if i == 146 {
            ConfigValueView::Bool(self.import_declaration_space_surrounding_named_imports)
        } else if i == 147 {
            ConfigValueView::Bool(self.jsx_expression_container_space_surrounding_expression)
        } else if i == 148 {
            ConfigValueView::Bool(self.jsx_self_closing_element_space_before_slash)
        } else if i == 149 {
            ConfigValueView::Bool(self.method_space_before_parentheses)
        } else if i == 150 {
            ConfigValueView::Bool(self.object_expression_space_surrounding_properties)
        } else if i == 151 {
            ConfigValueView::Bool(self.object_pattern_space_surrounding_properties)
        } else if i == 152 {
            ConfigValueView::Bool(self.set_accessor_space_before_parentheses)
        } else if i == 153 {
            ConfigValueView::Bool(self.space_surrounding_properties)
        } else if i == 154 {
            ConfigValueView::Bool(self.tagged_template_space_before_literal)
        } else if i == 155 {
            ConfigValueView::Bool(self.type_annotation_space_before_colon)
        } else if i == 156 {
            ConfigValueView::Bool(self.type_assertion_space_before_expression)
        } else if i == 157 {
            ConfigValueView::Bool(self.type_literal_space_surrounding_properties)
        } else if i == 158 {
            ConfigValueView::Bool(self.while_statement_space_after_while_keyword)
        } else if i == 159 {
            ConfigValueView::Bool(self.arguments_space_around)
        } else if i == 160 {
            ConfigValueView::Bool(self.array_expression_space_around)
        } else if i == 161 {
            ConfigValueView::Bool(self.array_pattern_space_around)
        } else if i == 162 {
            ConfigValueView::Bool(self.catch_clause_space_around)
        } else if i == 163 {
            ConfigValueView::Bool(self.do_while_statement_space_around)
        } else if i == 164 {
            ConfigValueView::Bool(self.for_in_statement_space_around)
        } else if i == 165 {
            ConfigValueView::Bool(self.for_of_statement_space_around)
        } else if i == 166 {
            ConfigValueView::Bool(self.for_statement_space_around)
        } else if i == 167 {
            ConfigValueView::Bool(self.if_statement_space_around)
        } else if i == 168 {
            ConfigValueView::Bool(self.parameters_space_around)
        } else if i == 169 {
            ConfigValueView::Bool(self.paren_expression_space_around)
        } else if i == 170 {
            ConfigValueView::Bool(self.switch_statement_space_around)
        } else if i == 171 {
            ConfigValueView::Bool(self.tuple_type_space_around)
        } else {
            ConfigValueView::Bool(self.while_statement_space_around)
        }
    }

    /// The default value of the setting at place `i` of the key-value view.
    pub open spec fn default_value_at(i: int) -> ConfigValueView {
        if i == 0 {
            ConfigValueView::Int(2)
        } else if i == 1 {
            ConfigValueView::Int(120)
        } else if i == 2 {
            ConfigValueView::Bool(false)
        } else if i == 3 {
            ConfigValueView::Str("lf"@)
        } else if i == 4 {
            ConfigValueView::Str("alwaysDouble"@)
        } else if i == 5 {
            ConfigValueView::Str("preserve"@)
        } else if i == 6 {
            ConfigValueView::Str("prefer"@)
        } else if i == 7 {
            ConfigValueView::Int(0)
        } else if i == 8 {
            ConfigValueView::Str("maintain"@)
        } else if i == 9 {
            ConfigValueView::Bool(false)
        } else if i == 10 {
            ConfigValueView::Bool(true)
        } else if i == 11 {
            ConfigValueView::Str("preferDouble"@)
        } else if i == 12 {
            ConfigValueView::Str("prefer"@)
        } else if i == 13 {
            ConfigValueView::Bool(false)
        } else if i == 14 {
            ConfigValueView::Str("nextLine"@)
        } else if i == 15 {
            ConfigValueView::Str("nextLine"@)
        } else if i == 16 {
            ConfigValueView::Bool(false)
        } else if i == 17 {
            ConfigValueView::Str("semiColon"@)
        } else if i == 18 {
            ConfigValueView::Str("semiColon"@)
        } else if i == 19 {
            ConfigValueView::Str("caseInsensitive"@)
        } else if i == 20 {
            ConfigValueView::Str("caseInsensitive"@)
        } else if i == 21 {
            ConfigValueView::Str("caseInsensitive"@)
        } else if i == 22 {
            ConfigValueView::Str("none"@)
        } else if i == 23 {
            ConfigValueView::Str("caseInsensitive"@)
        } else if i == 24 {
            ConfigValueView::Str("none"@)
        } else if i == 25 {
            ConfigValueView::Str("dprint-ignore"@)
        } else if i == 26 {
            ConfigValueView::Str("dprint-ignore-file"@)
        } else if i == 27 {
            ConfigValueView::Str("sameLineUnlessHanging"@)
        } else if i == 28 {
            ConfigValueView::Str("sameLineUnlessHanging"@)
        } else if i == 29 {
            ConfigValueView::Str("sameLineUnlessHanging"@)
        } else if i == 30 {
            ConfigValueView::Str("sameLineUnlessHanging"@)
        } else if i == 31 {
            ConfigValueView::Str("sameLineUnlessHanging"@)
        } else if i == 32 {
            ConfigValueView::Str("sameLineUnlessHanging"@)
        } else if i == 33 {
            ConfigValueView::Str("sameLineUnlessHanging"@)
        } else if i == 34 {
            ConfigValueView::Str("sameLineUnlessHanging"@)
        } else if i == 35 {
            ConfigValueView::Str("sameLineUnlessHanging"@)
        } else if i == 36 {
            ConfigValueView::Str("sameLineUnlessHanging"@)
        } else if i == 37 {
            ConfigValueView::Str("sameLineUnlessHanging"@)
        } else if i == 38 {
            ConfigValueView::Str("sameLineUnlessHanging"@)
        } else if i == 39 {
            ConfigValueView::Str("sameLineUnlessHanging"@)
        } else if i == 40 {
            ConfigValueView::Str("sameLineUnlessHanging"@)
        } else if i == 41 {
            ConfigValueView::Str("sameLineUnlessHanging"@)
        } else if i == 42 {
            ConfigValueView::Str("sameLineUnlessHanging"@)
        } else if i == 43 {
            ConfigValueView::Str("sameLineUnlessHanging"@)
        } else if i == 44 {
            ConfigValueView::Str("sameLineUnlessHanging"@)
        } else if i == 45 {
            ConfigValueView::Str("sameLineUnlessHanging"@)
        } else if i == 46 {
            ConfigValueView::Str("sameLineUnlessHanging"@)
        } else if i == 47 {
            ConfigValueView::Str("sameLineUnlessHanging"@)
        } else if i == 48 {
            ConfigValueView::Str("sameLineUnlessHanging"@)
        } else if i == 49 {
            ConfigValueView::Str("never"@)
        } else if i == 50 {
            ConfigValueView::Str("never"@)
        } else if i == 51 {
            ConfigValueView::Bool(false)
        } else if i == 52 {
            ConfigValueView::Bool(false)
        } else if i == 53 {
            ConfigValueView::Bool(false)
        } else if i == 54 {
            ConfigValueView::Bool(false)
        } else if i == 55 {
            ConfigValueView::Bool(false)
        } else if i == 56 {
            ConfigValueView::Bool(false)
        } else if i == 57 {
            ConfigValueView::Bool(false)
        } else if i == 58 {
            ConfigValueView::Bool(false)
        } else if i == 59 {
            ConfigValueView::Bool(false)
        } else if i == 60 {
            ConfigValueView::Bool(false)
        } else if i == 61 {
            ConfigValueView::Bool(false)
        } else if i == 62 {
            ConfigValueView::Bool(false)
        } else if i == 63 {
            ConfigValueView::Bool(false)
        } else if i == 64 {
            ConfigValueView::Str("never"@)
        } else if i == 65 {
            ConfigValueView::Bool(false)
        } else if i == 66 {
            ConfigValueView::Bool(false)
        } else if i == 67 {
            ConfigValueView::Str("never"@)
        } else if i == 68 {
            ConfigValueView::Bool(false)
        } else if i == 69 {
            ConfigValueView::Str("never"@)
        } else if i == 70 {
            ConfigValueView::Bool(false)
        } else if i == 71 {
            ConfigValueView::Bool(false)
        } else if i == 72 {
            ConfigValueView::Bool(false)
        } else if i == 73 {
            ConfigValueView::Str("maintain"@)
        } else if i == 74 {
            ConfigValueView::Str("sameLine"@)
        } else if i == 75 {
            ConfigValueView::Str("sameLine"@)
        } else if i == 76 {
            ConfigValueView::Str("sameLine"@)
        } else if i == 77 {
            ConfigValueView::Str("nextLine"@)
        } else if i == 78 {
            ConfigValueView::Str("nextLine"@)
        } else if i == 79 {
            ConfigValueView::Str("nextLine"@)
        } else if i == 80 {
            ConfigValueView::Str("maintain"@)
        } else if i == 81 {
            ConfigValueView::Str("maintain"@)
        } else if i == 82 {
            ConfigValueView::Str("maintain"@)
        } else if i == 83 {
            ConfigValueView::Str("maintain"@)
        } else if i == 84 {
            ConfigValueView::Str("maintain"@)
        } else if i == 85 {
            ConfigValueView::Str("onlyMultiLine"@)
        } else if i == 86 {
            ConfigValueView::Str("onlyMultiLine"@)
        } else if i == 87 {
            ConfigValueView::Str("onlyMultiLine"@)
        } else if i == 88 {
            ConfigValueView::Str("onlyMultiLine"@)
        } else if i == 89 {
            ConfigValueView::Str("onlyMultiLine"@)
        } else if i == 90 {
            ConfigValueView::Str("onlyMultiLine"@)
        } else if i == 91 {
            ConfigValueView::Str("onlyMultiLine"@)
        } else if i == 92 {
            ConfigValueView::Str("onlyMultiLine"@)
        } else if i == 93 {
            ConfigValueView::Str("onlyMultiLine"@)
        } else if i == 94 {
            ConfigValueView::Str("onlyMultiLine"@)
        } else if i == 95 {
            ConfigValueView::Str("onlyMultiLine"@)
        } else if i == 96 {
            ConfigValueView::Str("onlyMultiLine"@)
        } else if i == 97 {
            ConfigValueView::Str("whenNotSingleLine"@)
        } else if i == 98 {
            ConfigValueView::Str("whenNotSingleLine"@)
        } else if i == 99 {
            ConfigValueView::Str("whenNotSingleLine"@)
        } else if i == 100 {
            ConfigValueView::Str("whenNotSingleLine"@)
        } else if i == 101 {
            ConfigValueView::Str("whenNotSingleLine"@)
        } else if i == 102 {
            ConfigValueView::Bool(false)
        } else if i == 103 {
            ConfigValueView::Bool(false)
        } else if i == 104 {
            ConfigValueView::Bool(false)
        } else if i == 105 {
            ConfigValueView::Bool(false)
        } else if i == 106 {
            ConfigValueView::Bool(false)
        } else if i == 107 {
            ConfigValueView::Bool(false)
        } else if i == 108 {
            ConfigValueView::Bool(false)
        } else if i == 109 {
            ConfigValueView::Bool(false)
        } else if i == 110 {
            ConfigValueView::Bool(false)
        } else if i == 111 {
            ConfigValueView::Bool(false)
        } else if i == 112 {
            ConfigValueView::Bool(false)
        } else if i == 113 {
            ConfigValueView::Bool(false)
        } else if i == 114 {
            ConfigValueView::Bool(false)
        } else if i == 115 {
            ConfigValueView::Bool(false)
        } else if i == 116 {
            ConfigValueView::Bool(false)
        } else if i == 117 {
            ConfigValueView::Bool(false)
        } else if i == 118 {
            ConfigValueView::Bool(false)
        } else if i == 119 {
            ConfigValueView::Bool(false)
        } else if i == 120 {
            ConfigValueView::Bool(false)
        } else if i == 121 {
            ConfigValueView::Bool(false)
        } else if i == 122 {
            ConfigValueView::Bool(false)
        } else if i == 123 {
            ConfigValueView::Bool(false)
        } else if i == 124 {
            ConfigValueView::Bool(false)
        } else if i == 125 {
            ConfigValueView::Bool(false)
        } else if i == 126 {
            ConfigValueView::Bool(false)
        } else if i == 127 {
            ConfigValueView::Bool(false)
        } else if i == 128 {
            ConfigValueView::Str("never"@)
        } else if i == 129 {
            ConfigValueView::Str("never"@)
        } else if i == 130 {
            ConfigValueView::Bool(true)
        } else if i == 131 {
            ConfigValueView::Bool(true)
        } else if i == 132 {
            ConfigValueView::Bool(false)
        } else if i == 133 {
            ConfigValueView::Bool(false)
        } else if i == 134 {
            ConfigValueView::Bool(false)
        } else if i == 135 {
            ConfigValueView::Bool(true)
        } else if i == 136 {
            ConfigValueView::Bool(true)
        } else if i == 137 {
            ConfigValueView::Bool(true)
        } else if i == 138 {
            ConfigValueView::Bool(true)
        } else if i == 139 {
            ConfigValueView::Bool(true)
        } else if i == 140 {
            ConfigValueView::Bool(true)
        } else if i == 141 {
            ConfigValueView::Bool(false)
        } else if i == 142 {
            ConfigValueView::Bool(false)
        } else if i == 143 {
            ConfigValueView::Bool(false)
        } else if i == 144 {
            ConfigValueView::Bool(false)
        } else if i == 145 {
            ConfigValueView::Bool(true)
        } else if i == 146 {
            ConfigValueView::Bool(true)
        } else if i == 147 {
            ConfigValueView::Bool(false)
        } else if i == 148 {
            ConfigValueView::Bool(true)
        } else if i == 149 {
            ConfigValueView::Bool(true)
        } else if i == 150 {
            ConfigValueView::Bool(true)
        } else if i == 151 {
            ConfigValueView::Bool(true)
        } else if i == 152 {
            ConfigValueView::Bool(false)
        } else if i == 153 {
            ConfigValueView::Bool(true)
        } else if i == 154 {
            ConfigValueView::Bool(false)
        } else if i == 155 {
            ConfigValueView::Bool(false)
        } else if i == 156 {
            ConfigValueView::Bool(true)
        } else if i == 157 {
            ConfigValueView::Bool(true)
        } else if i == 158 {
            ConfigValueView::Bool(true)
        } else if i == 159 {
            ConfigValueView::Bool(false)
        } else if i == 160 {
            ConfigValueView::Bool(false)
        } else if i == 161 {
            ConfigValueView::Bool(false)
        } else if i == 162 {
            ConfigValueView::Bool(false)
        } else if i == 163 {
            ConfigValueView::Bool(false)
        } else if i == 164 {
            ConfigValueView::Bool(false)
        } else if i == 165 {
            ConfigValueView::Bool(false)
        } else if i == 166 {
            ConfigValueView::Bool(false)
        } else if i == 167 {
            ConfigValueView::Bool(false)
        } else if i == 168 {
            ConfigValueView::Bool(false)
        } else if i == 169 {
            ConfigValueView::Bool(false)
        } else if i == 170 {
            ConfigValueView::Bool(false)
        } else if i == 171 {
            ConfigValueView::Bool(false)
        } else {
            ConfigValueView::Bool(false)
        }
    }

    /// The key-value view: every setting, by name, in declaration order.
    pub open spec fn entries(&self) -> Seq<Entry> {
        Seq::new(FIELD_COUNT as nat, |i: int| (PyConfiguration::name_at(i), self.value_at(i)))
    }

    /// The key-value view of the default configuration.
    pub open spec fn default_entries() -> Seq<Entry> {
        Seq::new(
            FIELD_COUNT as nat,
            |i: int| (PyConfiguration::name_at(i), PyConfiguration::default_value_at(i)),
        )
    }

    /// Every setting holds its default.
    pub open spec fn is_default(&self) -> bool {
        self.entries() == PyConfiguration::default_entries()
    }

    /// This raw configuration is the written form of `c`.
    pub open spec fn describes(&self, c: ResolvedConfiguration) -> bool {
        &&& self.indent_width == c.indent_width
        &&& self.line_width == c.line_width
        &&& self.use_tabs == c.use_tabs
        &&& self.new_line_kind@ == c.new_line_kind.token()
        &&& self.quote_style@ == c.quote_style.token()
        &&& self.quote_props@ == c.quote_props.token()
        &&& self.semi_colons@ == c.semi_colons.token()
        &&& self.file_indent_level == c.file_indent_level
        &&& self.arrow_function_use_parentheses@ == c.arrow_function_use_parentheses.token()
        &&& self.binary_expression_line_per_expression == c.binary_expression_line_per_expression
        &&& self.conditional_expression_line_per_expression == c.conditional_expression_line_per_expression
        &&& self.jsx_quote_style@ == c.jsx_quote_style.token()
        &&& self.jsx_multi_line_parens@ == c.jsx_multi_line_parens.token()
        &&& self.jsx_force_new_lines_surrounding_content == c.jsx_force_new_lines_surrounding_content
        &&& self.jsx_opening_element_bracket_position@ == c.jsx_opening_element_bracket_position.token()
        &&& self.jsx_self_closing_element_bracket_position@ == c.jsx_self_closing_element_bracket_position.token()
        &&& self.member_expression_line_per_expression == c.member_expression_line_per_expression
        &&& self.type_literal_separator_kind_single_line@ == c.type_literal_separator_kind_single_line.token()
        &&& self.type_literal_separator_kind_multi_line@ == c.type_literal_separator_kind_multi_line.token()
        &&& self.module_sort_import_declarations@ == c.module_sort_import_declarations.token()
        &&& self.module_sort_export_declarations@ == c.module_sort_export_declarations.token()
        &&& self.import_declaration_sort_named_imports@ == c.import_declaration_sort_named_imports.token()
        &&& self.import_declaration_sort_type_only_imports@ == c.import_declaration_sort_type_only_imports.token()
        &&& self.export_declaration_sort_named_exports@ == c.export_declaration_sort_named_exports.token()
        &&& self.export_declaration_sort_type_only_exports@ == c.export_declaration_sort_type_only_exports.token()
        &&& self.ignore_node_comment_text@ == c.ignore_node_comment_text@
        &&& self.ignore_file_comment_text@ == c.ignore_file_comment_text@
        &&& self.arrow_function_brace_position@ == c.arrow_function_brace_position.token()
        &&& self.class_declaration_brace_position@ == c.class_declaration_brace_position.token()
        &&& self.class_expression_brace_position@ == c.class_expression_brace_position.token()
        &&& self.constructor_brace_position@ == c.constructor_brace_position.token()
        &&& self.do_while_statement_brace_position@ == c.do_while_statement_brace_position.token()
        &&& self.enum_declaration_brace_position@ == c.enum_declaration_brace_position.token()
        &&& self.get_accessor_brace_position@ == c.get_accessor_brace_position.token()
        &&& self.if_statement_brace_position@ == c.if_statement_brace_position.token()
        &&& self.interface_declaration_brace_position@ == c.interface_declaration_brace_position.token()
        &&& self.for_statement_brace_position@ == c.for_statement_brace_position.token()
        &&& self.for_in_statement_brace_position@ == c.for_in_statement_brace_position.token()
        &&& self.for_of_statement_brace_position@ == c.for_of_statement_brace_position.token()
        &&& self.function_declaration_brace_position@ == c.function_declaration_brace_position.token()
        &&& self.function_expression_brace_position@ == c.function_expression_brace_position.token()
        &&& self.method_brace_position@ == c.method_brace_position.token()
        &&& self.module_declaration_brace_position@ == c.module_declaration_brace_position.token()
        &&& self.set_accessor_brace_position@ == c.set_accessor_brace_position.token()
        &&& self.static_block_brace_position@ == c.static_block_brace_position.token()
        &&& self.switch_case_brace_position@ == c.switch_case_brace_position.token()
        &&& self.switch_statement_brace_position@ == c.switch_statement_brace_position.token()
        &&& self.try_statement_brace_position@ == c.try_statement_brace_position.token()
        &&& self.while_statement_brace_position@ == c.while_statement_brace_position.token()
        &&& self.arguments_prefer_hanging@ == c.arguments_prefer_hanging.token()
        &&& self.array_expression_prefer_hanging@ == c.array_expression_prefer_hanging.token()
        &&& self.array_pattern_prefer_hanging == c.array_pattern_prefer_hanging
        &&& self.do_while_statement_prefer_hanging == c.do_while_statement_prefer_hanging
        &&& self.export_declaration_prefer_hanging == c.export_declaration_prefer_hanging
        &&& self.extends_clause_prefer_hanging == c.extends_clause_prefer_hanging
        &&& self.for_statement_prefer_hanging == c.for_statement_prefer_hanging
        &&& self.for_in_statement_prefer_hanging == c.for_in_statement_prefer_hanging
        &&& self.for_of_statement_prefer_hanging == c.for_of_statement_prefer_hanging
        &&& self.if_statement_prefer_hanging == c.if_statement_prefer_hanging
        &&& self.implements_clause_prefer_hanging == c.implements_clause_prefer_hanging
        &&& self.import_declaration_prefer_hanging == c.import_declaration_prefer_hanging
        &&& self.jsx_attributes_prefer_hanging == c.jsx_attributes_prefer_hanging
        &&& self.object_expression_prefer_hanging == c.object_expression_prefer_hanging
        &&& self.object_pattern_prefer_hanging == c.object_pattern_prefer_hanging
        &&& self.parameters_prefer_hanging@ == c.parameters_prefer_hanging.token()
        &&& self.sequence_expression_prefer_hanging == c.sequence_expression_prefer_hanging
        &&& self.switch_statement_prefer_hanging == c.switch_statement_prefer_hanging
        &&& self.tuple_type_prefer_hanging@ == c.tuple_type_prefer_hanging.token()
        &&& self.type_literal_prefer_hanging == c.type_literal_prefer_hanging
        &&& self.type_parameters_prefer_hanging@ == c.type_parameters_prefer_hanging.token()
        &&& self.union_and_intersection_type_prefer_hanging == c.union_and_intersection_type_prefer_hanging
        &&& self.variable_statement_prefer_hanging == c.variable_statement_prefer_hanging
        &&& self.while_statement_prefer_hanging == c.while_statement_prefer_hanging
        &&& self.enum_declaration_member_spacing@ == c.enum_declaration_member_spacing.token()
        &&& self.if_statement_next_control_flow_position@ == c.if_statement_next_control_flow_position.token()
        &&& self.try_statement_next_control_flow_position@ == c.try_statement_next_control_flow_position.token()
        &&& self.do_while_statement_next_control_flow_position@ == c.do_while_statement_next_control_flow_position.token()
        &&& self.binary_expression_operator_position@ == c.binary_expression_operator_position.token()
        &&& self.conditional_expression_operator_position@ == c.conditional_expression_operator_position.token()
        &&& self.conditional_type_operator_position@ == c.conditional_type_operator_position.token()
        &&& self.if_statement_single_body_position@ == c.if_statement_single_body_position.token()
        &&& self.for_statement_single_body_position@ == c.for_statement_single_body_position.token()
        &&& self.for_in_statement_single_body_position@ == c.for_in_statement_single_body_position.token()
        &&& self.for_of_statement_single_body_position@ == c.for_of_statement_single_body_position.token()
        &&& self.while_statement_single_body_position@ == c.while_statement_single_body_position.token()
        &&& self.arguments_trailing_commas@ == c.arguments_trailing_commas.token()
        &&& self.parameters_trailing_commas@ == c.parameters_trailing_commas.token()
        &&& self.array_expression_trailing_commas@ == c.array_expression_trailing_commas.token()
        &&& self.array_pattern_trailing_commas@ == c.array_pattern_trailing_commas.token()
        &&& self.enum_declaration_trailing_commas@ == c.enum_declaration_trailing_commas.token()
        &&& self.export_declaration_trailing_commas@ == c.export_declaration_trailing_commas.token()
        &&& self.import_declaration_trailing_commas@ == c.import_declaration_trailing_commas.token()
        &&& self.object_pattern_trailing_commas@ == c.object_pattern_trailing_commas.token()
        &&& self.object_expression_trailing_commas@ == c.object_expression_trailing_commas.token()
        &&& self.tuple_type_trailing_commas@ == c.tuple_type_trailing_commas.token()
        &&& self.type_literal_trailing_commas@ == c.type_literal_trailing_commas.token()
        &&& self.type_parameters_trailing_commas@ == c.type_parameters_trailing_commas.token()
        &&& self.if_statement_use_braces@ == c.if_statement_use_braces.token()
        &&& self.for_statement_use_braces@ == c.for_statement_use_braces.token()
        &&& self.for_of_statement_use_braces@ == c.for_of_statement_use_braces.token()
        &&& self.for_in_statement_use_braces@ == c.for_in_statement_use_braces.token()
        &&& self.while_statement_use_braces@ == c.while_statement_use_braces.token()
        &&& self.array_expression_prefer_single_line == c.array_expression_prefer_single_line
        &&& self.array_pattern_prefer_single_line == c.array_pattern_prefer_single_line
        &&& self.arguments_prefer_single_line == c.arguments_prefer_single_line
        &&& self.binary_expression_prefer_single_line == c.binary_expression_prefer_single_line
        &&& self.computed_prefer_single_line == c.computed_prefer_single_line
        &&& self.conditional_expression_prefer_single_line == c.conditional_expression_prefer_single_line
        &&& self.conditional_type_prefer_single_line == c.conditional_type_prefer_single_line
        &&& self.decorators_prefer_single_line == c.decorators_prefer_single_line
        &&& self.export_declaration_prefer_single_line == c.export_declaration_prefer_single_line
        &&& self.for_statement_prefer_single_line == c.for_statement_prefer_single_line
        &&& self.import_declaration_prefer_single_line == c.import_declaration_prefer_single_line
        &&& self.jsx_attributes_prefer_single_line == c.jsx_attributes_prefer_single_line
        &&& self.jsx_element_prefer_single_line == c.jsx_element_prefer_single_line
        &&& self.mapped_type_prefer_single_line == c.mapped_type_prefer_single_line
        &&& self.member_expression_prefer_single_line == c.member_expression_prefer_single_line
        &&& self.object_expression_prefer_single_line == c.object_expression_prefer_single_line
        &&& self.object_pattern_prefer_single_line == c.object_pattern_prefer_single_line
        &&& self.parameters_prefer_single_line == c.parameters_prefer_single_line
        &&& self.parentheses_prefer_single_line == c.parentheses_prefer_single_line
        &&& self.tuple_type_prefer_single_line == c.tuple_type_prefer_single_line
        &&& self.type_literal_prefer_single_line == c.type_literal_prefer_single_line
        &&& self.type_parameters_prefer_single_line == c.type_parameters_prefer_single_line
        &&& self.union_and_intersection_type_prefer_single_line == c.union_and_intersection_type_prefer_single_line
        &&& self.variable_statement_prefer_single_line == c.variable_statement_prefer_single_line
        &&& self.import_declaration_force_single_line == c.import_declaration_force_single_line
        &&& self.export_declaration_force_single_line == c.export_declaration_force_single_line
        &&& self.export_declaration_force_multi_line@ == c.export_declaration_force_multi_line.token()
        &&& self.import_declaration_force_multi_line@ == c.import_declaration_force_multi_line.token()
        &&& self.binary_expression_space_surrounding_bitwise_and_arithmetic_operator == c.binary_expression_space_surrounding_bitwise_and_arithmetic_operator
        &&& self.comment_line_force_space_after_slashes == c.comment_line_force_space_after_slashes
        &&& self.construct_signature_space_after_new_keyword == c.construct_signature_space_after_new_keyword
        &&& self.constructor_space_before_parentheses == c.constructor_space_before_parentheses
        &&& self.constructor_type_space_after_new_keyword == c.constructor_type_space_after_new_keyword
        &&& self.do_while_statement_space_after_while_keyword == c.do_while_statement_space_after_while_keyword
        &&& self.export_declaration_space_surrounding_named_exports == c.export_declaration_space_surrounding_named_exports
        &&& self.for_statement_space_after_for_keyword == c.for_statement_space_after_for_keyword
        &&& self.for_statement_space_after_semi_colons == c.for_statement_space_after_semi_colons
        &&& self.for_in_statement_space_after_for_keyword == c.for_in_statement_space_after_for_keyword
        &&& self.for_of_statement_space_after_for_keyword == c.for_of_statement_space_after_for_keyword
        &&& self.function_declaration_space_before_parentheses == c.function_declaration_space_before_parentheses
        &&& self.function_expression_space_before_parentheses == c.function_expression_space_before_parentheses
        &&& self.function_expression_space_after_function_keyword == c.function_expression_space_after_function_keyword
        &&& self.get_accessor_space_before_parentheses == c.get_accessor_space_before_parentheses
        &&& self.if_statement_space_after_if_keyword == c.if_statement_space_after_if_keyword
        &&& self.import_declaration_space_surrounding_named_imports == c.import_declaration_space_surrounding_named_imports
        &&& self.jsx_expression_container_space_surrounding_expression == c.jsx_expression_container_space_surrounding_expression
        &&& self.jsx_self_closing_element_space_before_slash == c.jsx_self_closing_element_space_before_slash
        &&& self.method_space_before_parentheses == c.method_space_before_parentheses
        &&& self.object_expression_space_surrounding_properties == c.object_expression_space_surrounding_properties
        &&& self.object_pattern_space_surrounding_properties == c.object_pattern_space_surrounding_properties
        &&& self.set_accessor_space_before_parentheses == c.set_accessor_space_before_parentheses
        &&& self.space_surrounding_properties == c.space_surrounding_properties
        &&& self.tagged_template_space_before_literal == c.tagged_template_space_before_literal
        &&& self.type_annotation_space_before_colon == c.type_annotation_space_before_colon
        &&& self.type_assertion_space_before_expression == c.type_assertion_space_before_expression
        &&& self.type_literal_space_surrounding_properties == c.type_literal_space_surrounding_properties
        &&& self.while_statement_space_after_while_keyword == c.while_statement_space_after_while_keyword
        &&& self.arguments_space_around == c.arguments_space_around
        &&& self.array_expression_space_around == c.array_expression_space_around
        &&& self.array_pattern_space_around == c.array_pattern_space_around
        &&& self.catch_clause_space_around == c.catch_clause_space_around
        &&& self.do_while_statement_space_around == c.do_while_statement_space_around
        &&& self.for_in_statement_space_around == c.for_in_statement_space_around
        &&& self.for_of_statement_space_around == c.for_of_statement_space_around
        &&& self.for_statement_space_around == c.for_statement_space_around
        &&& self.if_statement_space_around == c.if_statement_space_around
        &&& self.parameters_space_around == c.parameters_space_around
        &&& self.paren_expression_space_around == c.paren_expression_space_around
        &&& self.switch_statement_space_around == c.switch_statement_space_around
        &&& self.tuple_type_space_around == c.tuple_type_space_around
        &&& self.while_statement_space_around == c.while_statement_space_around
    }

    /// The first closed-set setting, in declaration order, whose token names no value:
    /// its name and the token given.
    pub open spec fn first_invalid(&self) -> Option<(Seq<char>, Seq<char>)> {
        if NewLineKind::from_token(self.new_line_kind@) is None {
            Some(("new_line_kind"@, self.new_line_kind@))
        } else if QuoteStyle::from_token(self.quote_style@) is None {
            Some(("quote_style"@, self.quote_style@))
        } else if QuoteProps::from_token(self.quote_props@) is None {
            Some(("quote_props"@, self.quote_props@))
        } else if SemiColons::from_token(self.semi_colons@) is None {
            Some(("semi_colons"@, self.semi_colons@))
        } else if UseParentheses::from_token(self.arrow_function_use_parentheses@) is None {
            Some(("arrow_function_use_parentheses"@, self.arrow_function_use_parentheses@))
        } else if JsxQuoteStyle::from_token(self.jsx_quote_style@) is None {
            Some(("jsx_quote_style"@, self.jsx_quote_style@))
        } else if JsxMultiLineParens::from_token(self.jsx_multi_line_parens@) is None {
            Some(("jsx_multi_line_parens"@, self.jsx_multi_line_parens@))
        } else if SameOrNextLinePosition::from_token(self.jsx_opening_element_bracket_position@) is None {
            Some(("jsx_opening_element_bracket_position"@, self.jsx_opening_element_bracket_position@))
        } else if SameOrNextLinePosition::from_token(self.jsx_self_closing_element_bracket_position@) is None {
            Some(("jsx_self_closing_element_bracket_position"@, self.jsx_self_closing_element_bracket_position@))
        } else if SemiColonOrComma::from_token(self.type_literal_separator_kind_single_line@) is None {
            Some(("type_literal_separator_kind_single_line"@, self.type_literal_separator_kind_single_line@))
        } else if SemiColonOrComma::from_token(self.type_literal_separator_kind_multi_line@) is None {
            Some(("type_literal_separator_kind_multi_line"@, self.type_literal_separator_kind_multi_line@))
        } else if SortOrder::from_token(self.module_sort_import_declarations@) is None {
            Some(("module_sort_import_declarations"@, self.module_sort_import_declarations@))
        } else if SortOrder::from_token(self.module_sort_export_declarations@) is None {
            Some(("module_sort_export_declarations"@, self.module_sort_export_declarations@))
        } else if SortOrder::from_token(self.import_declaration_sort_named_imports@) is None {
            Some(("import_declaration_sort_named_imports"@, self.import_declaration_sort_named_imports@))
        } else if NamedTypeImportsExportsOrder::from_token(self.import_declaration_sort_type_only_imports@) is None {
            Some(("import_declaration_sort_type_only_imports"@, self.import_declaration_sort_type_only_imports@))
        } else if SortOrder::from_token(self.export_declaration_sort_named_exports@) is None {
            Some(("export_declaration_sort_named_exports"@, self.export_declaration_sort_named_exports@))
        } else if NamedTypeImportsExportsOrder::from_token(self.export_declaration_sort_type_only_exports@) is None {
            Some(("export_declaration_sort_type_only_exports"@, self.export_declaration_sort_type_only_exports@))
        } else if BracePosition::from_token(self.arrow_function_brace_position@) is None {
            Some(("arrow_function_brace_position"@, self.arrow_function_brace_position@))
        } else if BracePosition::from_token(self.class_declaration_brace_position@) is None {
            Some(("class_declaration_brace_position"@, self.class_declaration_brace_position@))
        } else if BracePosition::from_token(self.class_expression_brace_position@) is None {
            Some(("class_expression_brace_position"@, self.class_expression_brace_position@))
        } else if BracePosition::from_token(self.constructor_brace_position@) is None {
            Some(("constructor_brace_position"@, self.constructor_brace_position@))
        } else if BracePosition::from_token(self.do_while_statement_brace_position@) is None {
            Some(("do_while_statement_brace_position"@, self.do_while_statement_brace_position@))
        } else if BracePosition::from_token(self.enum_declaration_brace_position@) is None {
            Some(("enum_declaration_brace_position"@, self.enum_declaration_brace_position@))
        } else if BracePosition::from_token(self.get_accessor_brace_position@) is None {
            Some(("get_accessor_brace_position"@, self.get_accessor_brace_position@))
        } else if BracePosition::from_token(self.if_statement_brace_position@) is None {
            Some(("if_statement_brace_position"@, self.if_statement_brace_position@))
        } else if BracePosition::from_token(self.interface_declaration_brace_position@) is None {
            Some(("interface_declaration_brace_position"@, self.interface_declaration_brace_position@))
        } else if BracePosition::from_token(self.for_statement_brace_position@) is None {
            Some(("for_statement_brace_position"@, self.for_statement_brace_position@))
        } else if BracePosition::from_token(self.for_in_statement_brace_position@) is None {
            Some(("for_in_statement_brace_position"@, self.for_in_statement_brace_position@))
        } else if BracePosition::from_token(self.for_of_statement_brace_position@) is None {
            Some(("for_of_statement_brace_position"@, self.for_of_statement_brace_position@))
        } else if BracePosition::from_token(self.function_declaration_brace_position@) is None {
            Some(("function_declaration_brace_position"@, self.function_declaration_brace_position@))
        } else if BracePosition::from_token(self.function_expression_brace_position@) is None {
            Some(("function_expression_brace_position"@, self.function_expression_brace_position@))
        } else if BracePosition::from_token(self.method_brace_position@) is None {
            Some(("method_brace_position"@, self.method_brace_position@))
        } else if BracePosition::from_token(self.module_declaration_brace_position@) is None {
            Some(("module_declaration_brace_position"@, self.module_declaration_brace_position@))
        } else if BracePosition::from_token(self.set_accessor_brace_position@) is None {
            Some(("set_accessor_brace_position"@, self.set_accessor_brace_position@))
        } else if BracePosition::from_token(self.static_block_brace_position@) is None {
            Some(("static_block_brace_position"@, self.static_block_brace_position@))
        } else if BracePosition::from_token(self.switch_case_brace_position@) is None {
            Some(("switch_case_brace_position"@, self.switch_case_brace_position@))
        } else if BracePosition::from_token(self.switch_statement_brace_position@) is None {
            Some(("switch_statement_brace_position"@, self.switch_statement_brace_position@))
        } else if BracePosition::from_token(self.try_statement_brace_position@) is None {
            Some(("try_statement_brace_position"@, self.try_statement_brace_position@))
        } else if BracePosition::from_token(self.while_statement_brace_position@) is None {
            Some(("while_statement_brace_position"@, self.while_statement_brace_position@))
        } else if PreferHanging::from_token(self.arguments_prefer_hanging@) is None {
            Some(("arguments_prefer_hanging"@, self.arguments_prefer_hanging@))
        } else if PreferHanging::from_token(self.array_expression_prefer_hanging@) is None {
            Some(("array_expression_prefer_hanging"@, self.array_expression_prefer_hanging@))
        } else if PreferHanging::from_token(self.parameters_prefer_hanging@) is None {
            Some(("parameters_prefer_hanging"@, self.parameters_prefer_hanging@))
        } else if PreferHanging::from_token(self.tuple_type_prefer_hanging@) is None {
            Some(("tuple_type_prefer_hanging"@, self.tuple_type_prefer_hanging@))
        } else if PreferHanging::from_token(self.type_parameters_prefer_hanging@) is None {
            Some(("type_parameters_prefer_hanging"@, self.type_parameters_prefer_hanging@))
        } else if MemberSpacing::from_token(self.enum_declaration_member_spacing@) is None {
            Some(("enum_declaration_member_spacing"@, self.enum_declaration_member_spacing@))
        } else if NextControlFlowPosition::from_token(self.if_statement_next_control_flow_position@) is None {
            Some(("if_statement_next_control_flow_position"@, self.if_statement_next_control_flow_position@))
        } else if NextControlFlowPosition::from_token(self.try_statement_next_control_flow_position@) is None {
            Some(("try_statement_next_control_flow_position"@, self.try_statement_next_control_flow_position@))
        } else if NextControlFlowPosition::from_token(self.do_while_statement_next_control_flow_position@) is None {
            Some(("do_while_statement_next_control_flow_position"@, self.do_while_statement_next_control_flow_position@))
        } else if OperatorPosition::from_token(self.binary_expression_operator_position@) is None {
            Some(("binary_expression_operator_position"@, self.binary_expression_operator_position@))
        } else if OperatorPosition::from_token(self.conditional_expression_operator_position@) is None {
            Some(("conditional_expression_operator_position"@, self.conditional_expression_operator_position@))
        } else if OperatorPosition::from_token(self.conditional_type_operator_position@) is None {
            Some(("conditional_type_operator_position"@, self.conditional_type_operator_position@))
        } else if SameOrNextLinePosition::from_token(self.if_statement_single_body_position@) is None {
            Some(("if_statement_single_body_position"@, self.if_statement_single_body_position@))
        } else if SameOrNextLinePosition::from_token(self.for_statement_single_body_position@) is None {
            Some(("for_statement_single_body_position"@, self.for_statement_single_body_position@))
        } else if SameOrNextLinePosition::from_token(self.for_in_statement_single_body_position@) is None {
            Some(("for_in_statement_single_body_position"@, self.for_in_statement_single_body_position@))
        } else if SameOrNextLinePosition::from_token(self.for_of_statement_single_body_position@) is None {
            Some(("for_of_statement_single_body_position"@, self.for_of_statement_single_body_position@))
        } else if SameOrNextLinePosition::from_token(self.while_statement_single_body_position@) is None {
            Some(("while_statement_single_body_position"@, self.while_statement_single_body_position@))
        } else if TrailingCommas::from_token(self.arguments_trailing_commas@) is None {
            Some(("arguments_trailing_commas"@, self.arguments_trailing_commas@))
        } else if TrailingCommas::from_token(self.parameters_trailing_commas@) is None {
            Some(("parameters_trailing_commas"@, self.parameters_trailing_commas@))
        } else if TrailingCommas::from_token(self.array_expression_trailing_commas@) is None {
            Some(("array_expression_trailing_commas"@, self.array_expression_trailing_commas@))
        } else if TrailingCommas::from_token(self.array_pattern_trailing_commas@) is None {
            Some(("array_pattern_trailing_commas"@, self.array_pattern_trailing_commas@))
        } else if TrailingCommas::from_token(self.enum_declaration_trailing_commas@) is None {
            Some(("enum_declaration_trailing_commas"@, self.enum_declaration_trailing_commas@))
        } else if TrailingCommas::from_token(self.export_declaration_trailing_commas@) is None {
            Some(("export_declaration_trailing_commas"@, self.export_declaration_trailing_commas@))
        } else if TrailingCommas::from_token(self.import_declaration_trailing_commas@) is None {
            Some(("import_declaration_trailing_commas"@, self.import_declaration_trailing_commas@))
        } else if TrailingCommas::from_token(self.object_pattern_trailing_commas@) is None {
            Some(("object_pattern_trailing_commas"@, self.object_pattern_trailing_commas@))
        } else if TrailingCommas::from_token(self.object_expression_trailing_commas@) is None {
            Some(("object_expression_trailing_commas"@, self.object_expression_trailing_commas@))
        } else if TrailingCommas::from_token(self.tuple_type_trailing_commas@) is None {
            Some(("tuple_type_trailing_commas"@, self.tuple_type_trailing_commas@))
        } else if TrailingCommas::from_token(self.type_literal_trailing_commas@) is None {
            Some(("type_literal_trailing_commas"@, self.type_literal_trailing_commas@))
        } else if TrailingCommas::from_token(self.type_parameters_trailing_commas@) is None {
            Some(("type_parameters_trailing_commas"@, self.type_parameters_trailing_commas@))
        } else if UseBraces::from_token(self.if_statement_use_braces@) is None {
            Some(("if_statement_use_braces"@, self.if_statement_use_braces@))
        } else if UseBraces::from_token(self.for_statement_use_braces@) is None {
            Some(("for_statement_use_braces"@, self.for_statement_use_braces@))
        } else if UseBraces::from_token(self.for_of_statement_use_braces@) is None {
            Some(("for_of_statement_use_braces"@, self.for_of_statement_use_braces@))
        } else if UseBraces::from_token(self.for_in_statement_use_braces@) is None {
            Some(("for_in_statement_use_braces"@, self.for_in_statement_use_braces@))
        } else if UseBraces::from_token(self.while_statement_use_braces@) is None {
            Some(("while_statement_use_braces"@, self.while_statement_use_braces@))
        } else if ForceMultiLine::from_token(self.export_declaration_force_multi_line@) is None {
            Some(("export_declaration_force_multi_line"@, self.export_declaration_force_multi_line@))
        } else if ForceMultiLine::from_token(self.import_declaration_force_multi_line@) is None {
            Some(("import_declaration_force_multi_line"@, self.import_declaration_force_multi_line@))
        } else {
            None
        }
    }

    /// The name of the setting at place `i` of the key-value view.
    pub fn field_name(i: usize) -> (r: &'static str)
        requires
            i < FIELD_COUNT,
        ensures
            r@ == PyConfiguration::name_at(i as int),
    {
        if i == 0 {
            "indent_width"
        } else if i == 1 {
            "line_width"
        } else if i == 2 {
            "use_tabs"
        } else if i == 3 {
            "new_line_kind"
        } else if i == 4 {
            "quote_style"
        } else if i == 5 {
            "quote_props"
        } else if i == 6 {
            "semi_colons"
        } else if i == 7 {
            "file_indent_level"
        } else if i == 8 {
            "arrow_function_use_parentheses"
        } else if i == 9 {
            "binary_expression_line_per_expression"
        } else if i == 10 {
            "conditional_expression_line_per_expression"
        } else if i == 11 {
            "jsx_quote_style"
        } else if i == 12 {
            "jsx_multi_line_parens"
        } else if i == 13 {
            "jsx_force_new_lines_surrounding_content"
        } else if i == 14 {
            "jsx_opening_element_bracket_position"
        } else if i == 15 {
            "jsx_self_closing_element_bracket_position"
        } else if i == 16 {
            "member_expression_line_per_expression"
        } else if i == 17 {
            "type_literal_separator_kind_single_line"
        } else if i == 18 {
            "type_literal_separator_kind_multi_line"
        } else if i == 19 {
            "module_sort_import_declarations"
        } else if i == 20 {
            "module_sort_export_declarations"
        } else if i == 21 {
            "import_declaration_sort_named_imports"
        } else if i == 22 {
            "import_declaration_sort_type_only_imports"
        } else if i == 23 {
            "export_declaration_sort_named_exports"
        } else if i == 24 {
            "export_declaration_sort_type_only_exports"
        } else if i == 25 {
            "ignore_node_comment_text"
        } else if i == 26 {
            "ignore_file_comment_text"
        } else if i == 27 {
            "arrow_function_brace_position"
        } else if i == 28 {
            "class_declaration_brace_position"
        } else if i == 29 {
            "class_expression_brace_position"
        } else if i == 30 {
            "constructor_brace_position"
        } else if i == 31 {
            "do_while_statement_brace_position"
        } else if i == 32 {
            "enum_declaration_brace_position"
        } else if i == 33 {
            "get_accessor_brace_position"
        } else if i == 34 {
            "if_statement_brace_position"
        } else if i == 35 {
            "interface_declaration_brace_position"
        } else if i == 36 {
            "for_statement_brace_position"
        } else if i == 37 {
            "for_in_statement_brace_position"
        } else if i == 38 {
            "for_of_statement_brace_position"
        } else if i == 39 {
            "function_declaration_brace_position"
        } else if i == 40 {
            "function_expression_brace_position"
        } else if i == 41 {
            "method_brace_position"
        } else if i == 42 {
            "module_declaration_brace_position"
        } else if i == 43 {
            "set_accessor_brace_position"
        } else if i == 44 {
            "static_block_brace_position"
        } else if i == 45 {
            "switch_case_brace_position"
        } else if i == 46 {
            "switch_statement_brace_position"
        } else if i == 47 {
            "try_statement_brace_position"
        } else if i == 48 {
            "while_statement_brace_position"
        } else if i == 49 {
            "arguments_prefer_hanging"
        } else if i == 50 {
            "array_expression_prefer_hanging"
        } else if i == 51 {
            "array_pattern_prefer_hanging"
        } else if i == 52 {
            "do_while_statement_prefer_hanging"
        } else if i == 53 {
            "export_declaration_prefer_hanging"
        } else if i == 54 {
            "extends_clause_prefer_hanging"
        } else if i == 55 {
            "for_statement_prefer_hanging"
        } else if i == 56 {
            "for_in_statement_prefer_hanging"
        } else if i == 57 {
            "for_of_statement_prefer_hanging"
        } else if i == 58 {
            "if_statement_prefer_hanging"
        } else if i == 59 {
            "implements_clause_prefer_hanging"
        } else if i == 60 {
            "import_declaration_prefer_hanging"
        } else if i == 61 {
            "jsx_attributes_prefer_hanging"
        } else if i == 62 {
            "object_expression_prefer_hanging"
        } else if i == 63 {
            "object_pattern_prefer_hanging"
        } else if i == 64 {
            "parameters_prefer_hanging"
        } else if i == 65 {
            "sequence_expression_prefer_hanging"
        } else if i == 66 {
            "switch_statement_prefer_hanging"
        } else if i == 67 {
            "tuple_type_prefer_hanging"
        } else if i == 68 {
            "type_literal_prefer_hanging"
        } else if i == 69 {
            "type_parameters_prefer_hanging"
        } else if i == 70 {
            "union_and_intersection_type_prefer_hanging"
        } else if i == 71 {
            "variable_statement_prefer_hanging"
        } else if i == 72 {
            "while_statement_prefer_hanging"
        } else if i == 73 {
            "enum_declaration_member_spacing"
        } else if i == 74 {
            "if_statement_next_control_flow_position"
        } else if i == 75 {
            "try_statement_next_control_flow_position"
        } else if i == 76 {
            "do_while_statement_next_control_flow_position"
        } else if i == 77 {
            "binary_expression_operator_position"
        } else if i == 78 {
            "conditional_expression_operator_position"
        } else if i == 79 {
            "conditional_type_operator_position"
        } else if i == 80 {
            "if_statement_single_body_position"
        } else if i == 81 {
            "for_statement_single_body_position"
        } else if i == 82 {
            "for_in_statement_single_body_position"
        } else if i == 83 {
            "for_of_statement_single_body_position"
        } else if i == 84 {
            "while_statement_single_body_position"
        } else if i == 85 {
            "arguments_trailing_commas"
        } else if i == 86 {
            "parameters_trailing_commas"
        } else if i == 87 {
            "array_expression_trailing_commas"
        } else if i == 88 {
            "array_pattern_trailing_commas"
        } else if i == 89 {
            "enum_declaration_trailing_commas"
        } else if i == 90 {
            "export_declaration_trailing_commas"
        } else if i == 91 {
            "import_declaration_trailing_commas"
        } else if i == 92 {
            "object_pattern_trailing_commas"
        } else if i == 93 {
            "object_expression_trailing_commas"
        } else if i == 94 {
            "tuple_type_trailing_commas"
        } else if i == 95 {
            "type_literal_trailing_commas"
        } else if i == 96 {
            "type_parameters_trailing_commas"
        } else if i == 97 {
            "if_statement_use_braces"
        } else if i == 98 {
            "for_statement_use_braces"
        } else if i == 99 {
            "for_of_statement_use_braces"
        } else if i == 100 {
            "for_in_statement_use_braces"
        } else if i == 101 {
            "while_statement_use_braces"
        } else if i == 102 {
            "array_expression_prefer_single_line"
        } else if i == 103 {
            "array_pattern_prefer_single_line"
        } else if i == 104 {
            "arguments_prefer_single_line"
        } else if i == 105 {
            "binary_expression_prefer_single_line"
        } else if i == 106 {
            "computed_prefer_single_line"
        } else if i == 107 {
            "conditional_expression_prefer_single_line"
        } else if i == 108 {
            "conditional_type_prefer_single_line"
        } else if i == 109 {
            "decorators_prefer_single_line"
        } else if i == 110 {
            "export_declaration_prefer_single_line"
        } else if i == 111 {
            "for_statement_prefer_single_line"
        } else if i == 112 {
            "import_declaration_prefer_single_line"
        } else if i == 113 {
            "jsx_attributes_prefer_single_line"
        } else if i == 114 {
            "jsx_element_prefer_single_line"
        } else if i == 115 {
            "mapped_type_prefer_single_line"
        } else if i == 116 {
            "member_expression_prefer_single_line"
        } else if i == 117 {
            "object_expression_prefer_single_line"
        } else if i == 118 {
            "object_pattern_prefer_single_line"
        } else if i == 119 {
            "parameters_prefer_single_line"
        } else if i == 120 {
            "parentheses_prefer_single_line"
        } else if i == 121 {
            "tuple_type_prefer_single_line"
        } else if i == 122 {
            "type_literal_prefer_single_line"
        } else if i == 123 {
            "type_parameters_prefer_single_line"
        } else if i == 124 {
            "union_and_intersection_type_prefer_single_line"
        } else if i == 125 {
            "variable_statement_prefer_single_line"
        } else if i == 126 {
            "import_declaration_force_single_line"
        } else if i == 127 {
            "export_declaration_force_single_line"
        } else if i == 128 {
            "export_declaration_force_multi_line"
        } else if i == 129 {
            "import_declaration_force_multi_line"
        } else if i == 130 {
            "binary_expression_space_surrounding_bitwise_and_arithmetic_operator"
        } else if i == 131 {
            "comment_line_force_space_after_slashes"
        } else if i == 132 {
            "construct_signature_space_after_new_keyword"
        } else if i == 133 {
            "constructor_space_before_parentheses"
        } else if i == 134 {
            "constructor_type_space_after_new_keyword"
        } else if i == 135 {
            "do_while_statement_space_after_while_keyword"
        } else if i == 136 {
            "export_declaration_space_surrounding_named_exports"
        } else if i == 137 {
            "for_statement_space_after_for_keyword"
        } else if i == 138 {
            "for_statement_space_after_semi_colons"
        } else if i == 139 {
            "for_in_statement_space_after_for_keyword"
        } else if i == 140 {
            "for_of_statement_space_after_for_keyword"
        } else if i == 141 {
            "function_declaration_space_before_parentheses"
        } else if i == 142 {
            "function_expression_space_before_parentheses"
        } else if i == 143 {
            "function_expression_space_after_function_keyword"
        } else if i == 144 {
            "get_accessor_space_before_parentheses"
        } else if i == 145 {
            "if_statement_space_after_if_keyword"
        } else if i == 146 {
            "import_declaration_space_surrounding_named_imports"
        } else if i == 147 {
            "jsx_expression_container_space_surrounding_expression"
        } else if i == 148 {
            "jsx_self_closing_element_space_before_slash"
        } else if i == 149 {
            "method_space_before_parentheses"
        } else if i == 150 {
            "object_expression_space_surrounding_properties"
        } else if i == 151 {
            "object_pattern_space_surrounding_properties"
        } else if i == 152 {
            "set_accessor_space_before_parentheses"
        } else if i == 153 {
            "space_surrounding_properties"
        } else if i == 154 {
            "tagged_template_space_before_literal"
        } else if i == 155 {
            "type_annotation_space_before_colon"
        } else if i == 156 {
            "type_assertion_space_before_expression"
        } else if i == 157 {
            "type_literal_space_surrounding_properties"
        } else if i == 158 {
            "while_statement_space_after_while_keyword"
        } else if i == 159 {
            "arguments_space_around"
        } else if i == 160 {
            "array_expression_space_around"
        } else if i == 161 {
            "array_pattern_space_around"
        } else if i == 162 {
            "catch_clause_space_around"
        } else if i == 163 {
            "do_while_statement_space_around"
        } else if i == 164 {
            "for_in_statement_space_around"
        } else if i == 165 {
            "for_of_statement_space_around"
        } else if i == 166 {
            "for_statement_space_around"
        } else if i == 167 {
            "if_statement_space_around"
        } else if i == 168 {
            "parameters_space_around"
        } else if i == 169 {
            "paren_expression_space_around"
        } else if i == 170 {
            "switch_statement_space_around"
        } else if i == 171 {
            "tuple_type_space_around"
        } else {
            "while_statement_space_around"
        }
    }

    /// The value of the setting at place `i` of the key-value view.
    pub fn field_value(&self, i: usize) -> (r: ConfigValue)
        requires
            i < FIELD_COUNT,
        ensures
            r@ == self.value_at(i as int),
    {
        if i == 0 {
            ConfigValue::Int(self.indent_width as u32)
        } else if i == 1 {
            ConfigValue::Int(self.line_width as u32)
        } else if i == 2 {
            ConfigValue::Bool(self.use_tabs)
        } else if i == 3 {
            ConfigValue::Str(self.new_line_kind.clone())
        } else if i == 4 {
            ConfigValue::Str(self.quote_style.clone())
        } else if i == 5 {
            ConfigValue::Str(self.quote_props.clone())
        } else if i == 6 {
            ConfigValue::Str(self.semi_colons.clone())
        } else if i == 7 {
            ConfigValue::Int(self.file_indent_level as u32)
        } else if i == 8 {
            ConfigValue::Str(self.arrow_function_use_parentheses.clone())
        } else if i == 9 {
            ConfigValue::Bool(self.binary_expression_line_per_expression)
        } else if i == 10 {
            ConfigValue::Bool(self.conditional_expression_line_per_expression)
        } else if i == 11 {
            ConfigValue::Str(self.jsx_quote_style.clone())
        } else if i == 12 {
            ConfigValue::Str(self.jsx_multi_line_parens.clone())
        } else if i == 13 {
            ConfigValue::Bool(self.jsx_force_new_lines_surrounding_content)
        } else if i == 14 {
            ConfigValue::Str(self.jsx_opening_element_bracket_position.clone())
        } else if i == 15 {
            ConfigValue::Str(self.jsx_self_closing_element_bracket_position.clone())
        } else if i == 16 {
            ConfigValue::Bool(self.member_expression_line_per_expression)
        } else if i == 17 {
            ConfigValue::Str(self.type_literal_separator_kind_single_line.clone())
        } else if i == 18 {
            ConfigValue::Str(self.type_literal_separator_kind_multi_line.clone())
        } else if i == 19 {
            ConfigValue::Str(self.module_sort_import_declarations.clone())
        } else if i == 20 {
            ConfigValue::Str(self.module_sort_export_declarations.clone())
        } else if i == 21 {
            ConfigValue::Str(self.import_declaration_sort_named_imports.clone())
        } else if i == 22 {
            ConfigValue::Str(self.import_declaration_sort_type_only_imports.clone())
        } else if i == 23 {
            ConfigValue::Str(self.export_declaration_sort_named_exports.clone())
        } else if i == 24 {
            ConfigValue::Str(self.export_declaration_sort_type_only_exports.clone())
        } else if i == 25 {
            ConfigValue::Str(self.ignore_node_comment_text.clone())
        } else if i == 26 {
            ConfigValue::Str(self.ignore_file_comment_text.clone())
        } else if i == 27 {
            ConfigValue::Str(self.arrow_function_brace_position.clone())
        } else if i == 28 {
            ConfigValue::Str(self.class_declaration_brace_position.clone())
        } else if i == 29 {
            ConfigValue::Str(self.class_expression_brace_position.clone())
        } else if i == 30 {
            ConfigValue::Str(self.constructor_brace_position.clone())
        } else if i == 31 {
            ConfigValue::Str(self.do_while_statement_brace_position.clone())
        } else if i == 32 {
            ConfigValue::Str(self.enum_declaration_brace_position.clone())
        } else if i == 33 {
            ConfigValue::Str(self.get_accessor_brace_position.clone())
        } else if i == 34 {
            ConfigValue::Str(self.if_statement_brace_position.clone())
        } else if i == 35 {
            ConfigValue::Str(self.interface_declaration_brace_position.clone())
        } else if i == 36 {
            ConfigValue::Str(self.for_statement_brace_position.clone())
        } else if i == 37 {
            ConfigValue::Str(self.for_in_statement_brace_position.clone())
        } else if i == 38 {
            ConfigValue::Str(self.for_of_statement_brace_position.clone())
        } else if i == 39 {
            ConfigValue::Str(self.function_declaration_brace_position.clone())
        } else if i == 40 {
            ConfigValue::Str(self.function_expression_brace_position.clone())
        } else if i == 41 {
            ConfigValue::Str(self.method_brace_position.clone())
        } else if i == 42 {
            ConfigValue::Str(self.module_declaration_brace_position.clone())
        } else if i == 43 {
            ConfigValue::Str(self.set_accessor_brace_position.clone())
        } else if i == 44 {
            ConfigValue::Str(self.static_block_brace_position.clone())
        } else if i == 45 {
            ConfigValue::Str(self.switch_case_brace_position.clone())
        } else if i == 46 {
            ConfigValue::Str(self.switch_statement_brace_position.clone())
        } else if i == 47 {
            ConfigValue::Str(self.try_statement_brace_position.clone())
        } else if i == 48 {
            ConfigValue::Str(self.while_statement_brace_position.clone())
        } else if i == 49 {
            ConfigValue::Str(self.arguments_prefer_hanging.clone())
        } else if i == 50 {
            ConfigValue::Str(self.array_expression_prefer_hanging.clone())
        } else if i == 51 {
            ConfigValue::Bool(self.array_pattern_prefer_hanging)
        } else if i == 52 {
            ConfigValue::Bool(self.do_while_statement_prefer_hanging)
        } else if i == 53 {
            ConfigValue::Bool(self.export_declaration_prefer_hanging)
        } else if i == 54 {
            ConfigValue::Bool(self.extends_clause_prefer_hanging)
        } else if i == 55 {
            ConfigValue::Bool(self.for_statement_prefer_hanging)
        } else if i == 56 {
            ConfigValue::Bool(self.for_in_statement_prefer_hanging)
        } else if i == 57 {
            ConfigValue::Bool(self.for_of_statement_prefer_hanging)
        } else if i == 58 {
            ConfigValue::Bool(self.if_statement_prefer_hanging)
        } else if i == 59 {
            ConfigValue::Bool(self.implements_clause_prefer_hanging)
        } else if i == 60 {
            ConfigValue::Bool(self.import_declaration_prefer_hanging)
        } else if i == 61 {
            ConfigValue::Bool(self.jsx_attributes_prefer_hanging)
        } else if i == 62 {
            ConfigValue::Bool(self.object_expression_prefer_hanging)
        } else if i == 63 {
            ConfigValue::Bool(self.object_pattern_prefer_hanging)
        } else if i == 64 {
            ConfigValue::Str(self.parameters_prefer_hanging.clone())
        } else if i == 65 {
            ConfigValue::Bool(self.sequence_expression_prefer_hanging)
        } else if i == 66 {
            ConfigValue::Bool(self.switch_statement_prefer_hanging)
        } else if i == 67 {
            ConfigValue::Str(self.tuple_type_prefer_hanging.clone())
        } else if i == 68 {
            ConfigValue::Bool(self.type_literal_prefer_hanging)
        } else if i == 69 {
            ConfigValue::Str(self.type_parameters_prefer_hanging.clone())
        } else if i == 70 {
            ConfigValue::Bool(self.union_and_intersection_type_prefer_hanging)
        } else if i == 71 {
            ConfigValue::Bool(self.variable_statement_prefer_hanging)
        } else if i == 72 {
            ConfigValue::Bool(self.while_statement_prefer_hanging)
        } else if i == 73 {
            ConfigValue::Str(self.enum_declaration_member_spacing.clone())
        } else if i == 74 {
            ConfigValue::Str(self.if_statement_next_control_flow_position.clone())
        } else if i == 75 {
            ConfigValue::Str(self.try_statement_next_control_flow_position.clone())
        } else if i == 76 {
            ConfigValue::Str(self.do_while_statement_next_control_flow_position.clone())
        } else if i == 77 {
            ConfigValue::Str(self.binary_expression_operator_position.clone())
        } else if i == 78 {
            ConfigValue::Str(self.conditional_expression_operator_position.clone())
        } else if i == 79 {
            ConfigValue::Str(self.conditional_type_operator_position.clone())
        } else if i == 80 {
            ConfigValue::Str(self.if_statement_single_body_position.clone())
        } else if i == 81 {
            ConfigValue::Str(self.for_statement_single_body_position.clone())
        } else if i == 82 {
            ConfigValue::Str(self.for_in_statement_single_body_position.clone())
        } else if i == 83 {
            ConfigValue::Str(self.for_of_statement_single_body_position.clone())
        } else if i == 84 {
            ConfigValue::Str(self.while_statement_single_body_position.clone())
        } else if i == 85 {
            ConfigValue::Str(self.arguments_trailing_commas.clone())
        } else if i == 86 {
            ConfigValue::Str(self.parameters_trailing_commas.clone())
        } else if i == 87 {
            ConfigValue::Str(self.array_expression_trailing_commas.clone())
        } else if i == 88 {
            ConfigValue::Str(self.array_pattern_trailing_commas.clone())
        } else if i == 89 {
            ConfigValue::Str(self.enum_declaration_trailing_commas.clone())
        } else if i == 90 {
            ConfigValue::Str(self.export_declaration_trailing_commas.clone())
        } else if i == 91 {
            ConfigValue::Str(self.import_declaration_trailing_commas.clone())
        } else if i == 92 {
            ConfigValue::Str(self.object_pattern_trailing_commas.clone())
        } else if i == 93 {
            ConfigValue::Str(self.object_expression_trailing_commas.clone())
        } else if i == 94 {
            ConfigValue::Str(self.tuple_type_trailing_commas.clone())
        } else if i == 95 {
            ConfigValue::Str(self.type_literal_trailing_commas.clone())
        } else if i == 96 {
            ConfigValue::Str(self.type_parameters_trailing_commas.clone())
        } else if i == 97 {
            ConfigValue::Str(self.if_statement_use_braces.clone())
        } else if i == 98 {
            ConfigValue::Str(self.for_statement_use_braces.clone())
        } else if i == 99 {
            ConfigValue::Str(self.for_of_statement_use_braces.clone())
        } else if i == 100 {
            ConfigValue::Str(self.for_in_statement_use_braces.clone())
        } else if i == 101 {
            ConfigValue::Str(self.while_statement_use_braces.clone())
        } else if i == 102 {
            ConfigValue::Bool(self.array_expression_prefer_single_line)
        } else if i == 103 {
            ConfigValue::Bool(self.array_pattern_prefer_single_line)
        } else if i == 104 {
            ConfigValue::Bool(self.arguments_prefer_single_line)
        } else if i == 105 {
            ConfigValue::Bool(self.binary_expression_prefer_single_line)
        } else if i == 106 {
            ConfigValue::Bool(self.computed_prefer_single_line)
        } else if i == 107 {
            ConfigValue::Bool(self.conditional_expression_prefer_single_line)
        } else if i == 108 {
            ConfigValue::Bool(self.conditional_type_prefer_single_line)
        } else if i == 109 {
            ConfigValue::Bool(self.decorators_prefer_single_line)
        } else if i == 110 {
            ConfigValue::Bool(self.export_declaration_prefer_single_line)
        } else if i == 111 {
            ConfigValue::Bool(self.for_statement_prefer_single_line)
        } else if i == 112 {
            ConfigValue::Bool(self.import_declaration_prefer_single_line)
        } else if i == 113 {
            ConfigValue::Bool(self.jsx_attributes_prefer_single_line)
        } else if i == 114 {
            ConfigValue::Bool(self.jsx_element_prefer_single_line)
        } else if i == 115 {
            ConfigValue::Bool(self.mapped_type_prefer_single_line)
        } else if i == 116 {
            ConfigValue::Bool(self.member_expression_prefer_single_line)
        } else if i == 117 {
            ConfigValue::Bool(self.object_expression_prefer_single_line)
        } else if i == 118 {
            ConfigValue::Bool(self.object_pattern_prefer_single_line)
        } else if i == 119 {
            ConfigValue::Bool(self.parameters_prefer_single_line)
        } else if i == 120 {
            ConfigValue::Bool(self.parentheses_prefer_single_line)
        } else if i == 121 {
            ConfigValue::Bool(self.tuple_type_prefer_single_line)
        } else if i == 122 {
            ConfigValue::Bool(self.type_literal_prefer_single_line)
        } else if i == 123 {
            ConfigValue::Bool(self.type_parameters_prefer_single_line)
        } else if i == 124 {
            ConfigValue::Bool(self.union_and_intersection_type_prefer_single_line)
        } else if i == 125 {
            ConfigValue::Bool(self.variable_statement_prefer_single_line)
        } else if i == 126 {
            ConfigValue::Bool(self.import_declaration_force_single_line)
        } else if i == 127 {
            ConfigValue::Bool(self.export_declaration_force_single_line)
        } else if i == 128 {
            ConfigValue::Str(self.export_declaration_force_multi_line.clone())
        } else if i == 129 {
            ConfigValue::Str(self.import_declaration_force_multi_line.clone())
        } else if i == 130 {
            ConfigValue::Bool(self.binary_expression_space_surrounding_bitwise_and_arithmetic_operator)
        } else if i == 131 {
            ConfigValue::Bool(self.comment_line_force_space_after_slashes)
        } else if i == 132 {
            ConfigValue::Bool(self.construct_signature_space_after_new_keyword)
        } else if i == 133 {
            ConfigValue::Bool(self.constructor_space_before_parentheses)
        } else if i == 134 {
            ConfigValue::Bool(self.constructor_type_space_after_new_keyword)
        } else if i == 135 {
            ConfigValue::Bool(self.do_while_statement_space_after_while_keyword)
        } else if i == 136 {
            ConfigValue::Bool(self.export_declaration_space_surrounding_named_exports)
        } else if i == 137 {
            ConfigValue::Bool(self.for_statement_space_after_for_keyword)
        } else if i == 138 {
            ConfigValue::Bool(self.for_statement_space_after_semi_colons)
        } else if i == 139 {
            ConfigValue::Bool(self.for_in_statement_space_after_for_keyword)
        } else if i == 140 {
            ConfigValue::Bool(self.for_of_statement_space_after_for_keyword)
        } else if i == 141 {
            ConfigValue::Bool(self.function_declaration_space_before_parentheses)
        } else if i == 142 {
            ConfigValue::Bool(self.function_expression_space_before_parentheses)
        } else if i == 143 {
            ConfigValue::Bool(self.function_expression_space_after_function_keyword)
        } else if i == 144 {
            ConfigValue::Bool(self.get_accessor_space_before_parentheses)
        } else if i == 145 {
            ConfigValue::Bool(self.if_statement_space_after_if_keyword)
        } else if i == 146 {
            ConfigValue::Bool(self.import_declaration_space_surrounding_named_imports)
        } else if i == 147 {
            ConfigValue::Bool(self.jsx_expression_container_space_surrounding_expression)
        } else if i == 148 {
            ConfigValue::Bool(self.jsx_self_closing_element_space_before_slash)
        } else if i == 149 {
            ConfigValue::Bool(self.method_space_before_parentheses)
        } else if i == 150 {
            ConfigValue::Bool(self.object_expression_space_surrounding_properties)
        } else if i == 151 {
            ConfigValue::Bool(self.object_pattern_space_surrounding_properties)
        } else if i == 152 {
            ConfigValue::Bool(self.set_accessor_space_before_parentheses)
        } else if i == 153 {
            ConfigValue::Bool(self.space_surrounding_properties)
        } else if i == 154 {
            ConfigValue::Bool(self.tagged_template_space_before_literal)
        } else if i == 155 {
            ConfigValue::Bool(self.type_annotation_space_before_colon)
        } else if i == 156 {
            ConfigValue::Bool(self.type_assertion_space_before_expression)
        } else if i == 157 {
            ConfigValue::Bool(self.type_literal_space_surrounding_properties)
        } else if i == 158 {
            ConfigValue::Bool(self.while_statement_space_after_while_keyword)
        } else if i == 159 {
            ConfigValue::Bool(self.arguments_space_around)
        } else if i == 160 {
            ConfigValue::Bool(self.array_expression_space_around)
        } else if i == 161 {
            ConfigValue::Bool(self.array_pattern_space_around)
        } else if i == 162 {
            ConfigValue::Bool(self.catch_clause_space_around)
        } else if i == 163 {
            ConfigValue::Bool(self.do_while_statement_space_around)
        } else if i == 164 {
            ConfigValue::Bool(self.for_in_statement_space_around)
        } else if i == 165 {
            ConfigValue::Bool(self.for_of_statement_space_around)
        } else if i == 166 {
            ConfigValue::Bool(self.for_statement_space_around)
        } else if i == 167 {
            ConfigValue::Bool(self.if_statement_space_around)
        } else if i == 168 {
            ConfigValue::Bool(self.parameters_space_around)
        } else if i == 169 {
            ConfigValue::Bool(self.paren_expression_space_around)
        } else if i == 170 {
            ConfigValue::Bool(self.switch_statement_space_around)
        } else if i == 171 {
            ConfigValue::Bool(self.tuple_type_space_around)
        } else {
            ConfigValue::Bool(self.while_statement_space_around)
        }
    }

    /// The default configuration.
    pub fn new() -> (r: PyConfiguration)
        ensures
            r.is_default(),
    {
        let r = PyConfiguration {
            indent_width: 2,
            line_width: 120,
            use_tabs: false,
            new_line_kind: "lf".to_owned(),
            quote_style: "alwaysDouble".to_owned(),
            quote_props: "preserve".to_owned(),
            semi_colons: "prefer".to_owned(),
            file_indent_level: 0,
            arrow_function_use_parentheses: "maintain".to_owned(),
            binary_expression_line_per_expression: false,
            conditional_expression_line_per_expression: true,
            jsx_quote_style: "preferDouble".to_owned(),
            jsx_multi_line_parens: "prefer".to_owned(),
            jsx_force_new_lines_surrounding_content: false,
            jsx_opening_element_bracket_position: "nextLine".to_owned(),
            jsx_self_closing_element_bracket_position: "nextLine".to_owned(),
            member_expression_line_per_expression: false,
            type_literal_separator_kind_single_line: "semiColon".to_owned(),
            type_literal_separator_kind_multi_line: "semiColon".to_owned(),
            module_sort_import_declarations: "caseInsensitive".to_owned(),
            module_sort_export_declarations: "caseInsensitive".to_owned(),
            import_declaration_sort_named_imports: "caseInsensitive".to_owned(),
            import_declaration_sort_type_only_imports: "none".to_owned(),
            export_declaration_sort_named_exports: "caseInsensitive".to_owned(),
            export_declaration_sort_type_only_exports: "none".to_owned(),
            ignore_node_comment_text: "dprint-ignore".to_owned(),
            ignore_file_comment_text: "dprint-ignore-file".to_owned(),
            arrow_function_brace_position: "sameLineUnlessHanging".to_owned(),
            class_declaration_brace_position: "sameLineUnlessHanging".to_owned(),
            class_expression_brace_position: "sameLineUnlessHanging".to_owned(),
            constructor_brace_position: "sameLineUnlessHanging".to_owned(),
            do_while_statement_brace_position: "sameLineUnlessHanging".to_owned(),
            enum_declaration_brace_position: "sameLineUnlessHanging".to_owned(),
            get_accessor_brace_position: "sameLineUnlessHanging".to_owned(),
            if_statement_brace_position: "sameLineUnlessHanging".to_owned(),
            interface_declaration_brace_position: "sameLineUnlessHanging".to_owned(),
            for_statement_brace_position: "sameLineUnlessHanging".to_owned(),
            for_in_statement_brace_position: "sameLineUnlessHanging".to_owned(),
            for_of_statement_brace_position: "sameLineUnlessHanging".to_owned(),
            function_declaration_brace_position: "sameLineUnlessHanging".to_owned(),
            function_expression_brace_position: "sameLineUnlessHanging".to_owned(),
            method_brace_position: "sameLineUnlessHanging".to_owned(),
            module_declaration_brace_position: "sameLineUnlessHanging".to_owned(),
            set_accessor_brace_position: "sameLineUnlessHanging".to_owned(),
            static_block_brace_position: "sameLineUnlessHanging".to_owned(),
            switch_case_brace_position: "sameLineUnlessHanging".to_owned(),
            switch_statement_brace_position: "sameLineUnlessHanging".to_owned(),
            try_statement_brace_position: "sameLineUnlessHanging".to_owned(),
            while_statement_brace_position: "sameLineUnlessHanging".to_owned(),
            arguments_prefer_hanging: "never".to_owned(),
            array_expression_prefer_hanging: "never".to_owned(),
            array_pattern_prefer_hanging: false,
            do_while_statement_prefer_hanging: false,
            export_declaration_prefer_hanging: false,
            extends_clause_prefer_hanging: false,
            for_statement_prefer_hanging: false,
            for_in_statement_prefer_hanging: false,
            for_of_statement_prefer_hanging: false,
            if_statement_prefer_hanging: false,
            implements_clause_prefer_hanging: false,
            import_declaration_prefer_hanging: false,
            jsx_attributes_prefer_hanging: false,
            object_expression_prefer_hanging: false,
            object_pattern_prefer_hanging: false,
            parameters_prefer_hanging: "never".to_owned(),
            sequence_expression_prefer_hanging: false,
            switch_statement_prefer_hanging: false,
            tuple_type_prefer_hanging: "never".to_owned(),
            type_literal_prefer_hanging: false,
            type_parameters_prefer_hanging: "never".to_owned(),
            union_and_intersection_type_prefer_hanging: false,
            variable_statement_prefer_hanging: false,
            while_statement_prefer_hanging: false,
            enum_declaration_member_spacing: "maintain".to_owned(),
            if_statement_next_control_flow_position: "sameLine".to_owned(),
            try_statement_next_control_flow_position: "sameLine".to_owned(),
            do_while_statement_next_control_flow_position: "sameLine".to_owned(),
            binary_expression_operator_position: "nextLine".to_owned(),
            conditional_expression_operator_position: "nextLine".to_owned(),
            conditional_type_operator_position: "nextLine".to_owned(),
            if_statement_single_body_position: "maintain".to_owned(),
            for_statement_single_body_position: "maintain".to_owned(),
            for_in_statement_single_body_position: "maintain".to_owned(),
            for_of_statement_single_body_position: "maintain".to_owned(),
            while_statement_single_body_position: "maintain".to_owned(),
            arguments_trailing_commas: "onlyMultiLine".to_owned(),
            parameters_trailing_commas: "onlyMultiLine".to_owned(),
            array_expression_trailing_commas: "onlyMultiLine".to_owned(),
            array_pattern_trailing_commas: "onlyMultiLine".to_owned(),
            enum_declaration_trailing_commas: "onlyMultiLine".to_owned(),
            export_declaration_trailing_commas: "onlyMultiLine".to_owned(),
            import_declaration_trailing_commas: "onlyMultiLine".to_owned(),
            object_pattern_trailing_commas: "onlyMultiLine".to_owned(),
            object_expression_trailing_commas: "onlyMultiLine".to_owned(),
            tuple_type_trailing_commas: "onlyMultiLine".to_owned(),
            type_literal_trailing_commas: "onlyMultiLine".to_owned(),
            type_parameters_trailing_commas: "onlyMultiLine".to_owned(),
            if_statement_use_braces: "whenNotSingleLine".to_owned(),
            for_statement_use_braces: "whenNotSingleLine".to_owned(),
            for_of_statement_use_braces: "whenNotSingleLine".to_owned(),
            for_in_statement_use_braces: "whenNotSingleLine".to_owned(),
            while_statement_use_braces: "whenNotSingleLine".to_owned(),
            array_expression_prefer_single_line: false,
            array_pattern_prefer_single_line: false,
            arguments_prefer_single_line: false,
            binary_expression_prefer_single_line: false,
            computed_prefer_single_line: false,
            conditional_expression_prefer_single_line: false,
            conditional_type_prefer_single_line: false,
            decorators_prefer_single_line: false,
            export_declaration_prefer_single_line: false,
            for_statement_prefer_single_line: false,
            import_declaration_prefer_single_line: false,
            jsx_attributes_prefer_single_line: false,
            jsx_element_prefer_single_line: false,
            mapped_type_prefer_single_line: false,
            member_expression_prefer_single_line: false,
            object_expression_prefer_single_line: false,
            object_pattern_prefer_single_line: false,
            parameters_prefer_single_line: false,
            parentheses_prefer_single_line: false,
            tuple_type_prefer_single_line: false,
            type_literal_prefer_single_line: false,
            type_parameters_prefer_single_line: false,
            union_and_intersection_type_prefer_single_line: false,
            variable_statement_prefer_single_line: false,
            import_declaration_force_single_line: false,
            export_declaration_force_single_line: false,
            export_declaration_force_multi_line: "never".to_owned(),
            import_declaration_force_multi_line: "never".to_owned(),
            binary_expression_space_surrounding_bitwise_and_arithmetic_operator: true,
            comment_line_force_space_after_slashes: true,
            construct_signature_space_after_new_keyword: false,
            constructor_space_before_parentheses: false,
            constructor_type_space_after_new_keyword: false,
            do_while_statement_space_after_while_keyword: true,
            export_declaration_space_surrounding_named_exports: true,
            for_statement_space_after_for_keyword: true,
            for_statement_space_after_semi_colons: true,
            for_in_statement_space_after_for_keyword: true,
            for_of_statement_space_after_for_keyword: true,
            function_declaration_space_before_parentheses: false,
            function_expression_space_before_parentheses: false,
            function_expression_space_after_function_keyword: false,
            get_accessor_space_before_parentheses: false,
            if_statement_space_after_if_keyword: true,
            import_declaration_space_surrounding_named_imports: true,
            jsx_expression_container_space_surrounding_expression: false,
            jsx_self_closing_element_space_before_slash: true,
            method_space_before_parentheses: true,
            object_expression_space_surrounding_properties: true,
            object_pattern_space_surrounding_properties: true,
            set_accessor_space_before_parentheses: false,
            space_surrounding_properties: true,
            tagged_template_space_before_literal: false,
            type_annotation_space_before_colon: false,
            type_assertion_space_before_expression: true,
            type_literal_space_surrounding_properties: true,
            while_statement_space_after_while_keyword: true,
            arguments_space_around: false,
            array_expression_space_around: false,
            array_pattern_space_around: false,
            catch_clause_space_around: false,
            do_while_statement_space_around: false,
            for_in_statement_space_around: false,
            for_of_statement_space_around: false,
            for_statement_space_around: false,
            if_statement_space_around: false,
            parameters_space_around: false,
            paren_expression_space_around: false,
            switch_statement_space_around: false,
            tuple_type_space_around: false,
            while_statement_space_around: false,
        };
        assert(r.entries() =~= PyConfiguration::default_entries());
        r
    }

    /// Checks every closed-set setting, in declaration order; the first whose token
    /// names no value is reported.
    pub fn check_tokens(&self) -> (r: Result<(), ConfigError>)
        ensures
            r is Ok <==> self.first_invalid() is None,
            self.first_invalid() matches Some(p) ==> (r matches Err(e) && e.is_invalid_value(p.0, p.1)),
    {
        if NewLineKind::parse(self.new_line_kind.as_str()).is_none() {
            return Err(ConfigError::invalid_value("new_line_kind", self.new_line_kind.as_str()));
        }
        if QuoteStyle::parse(self.quote_style.as_str()).is_none() {
            return Err(ConfigError::invalid_value("quote_style", self.quote_style.as_str()));
        }
        if QuoteProps::parse(self.quote_props.as_str()).is_none() {
            return Err(ConfigError::invalid_value("quote_props", self.quote_props.as_str()));
        }
        if SemiColons::parse(self.semi_colons.as_str()).is_none() {
            return Err(ConfigError::invalid_value("semi_colons", self.semi_colons.as_str()));
        }
        if UseParentheses::parse(self.arrow_function_use_parentheses.as_str()).is_none() {
            return Err(ConfigError::invalid_value("arrow_function_use_parentheses", self.arrow_function_use_parentheses.as_str()));
        }
        if JsxQuoteStyle::parse(self.jsx_quote_style.as_str()).is_none() {
            return Err(ConfigError::invalid_value("jsx_quote_style", self.jsx_quote_style.as_str()));
        }
        if JsxMultiLineParens::parse(self.jsx_multi_line_parens.as_str()).is_none() {
            return Err(ConfigError::invalid_value("jsx_multi_line_parens", self.jsx_multi_line_parens.as_str()));
        }
        if SameOrNextLinePosition::parse(self.jsx_opening_element_bracket_position.as_str()).is_none() {
            return Err(ConfigError::invalid_value("jsx_opening_element_bracket_position", self.jsx_opening_element_bracket_position.as_str()));
        }
        if SameOrNextLinePosition::parse(self.jsx_self_closing_element_bracket_position.as_str()).is_none() {
            return Err(ConfigError::invalid_value("jsx_self_closing_element_bracket_position", self.jsx_self_closing_element_bracket_position.as_str()));
        }
        if SemiColonOrComma::parse(self.type_literal_separator_kind_single_line.as_str()).is_none() {
            return Err(ConfigError::invalid_value("type_literal_separator_kind_single_line", self.type_literal_separator_kind_single_line.as_str()));
        }
        if SemiColonOrComma::parse(self.type_literal_separator_kind_multi_line.as_str()).is_none() {
            return Err(ConfigError::invalid_value("type_literal_separator_kind_multi_line", self.type_literal_separator_kind_multi_line.as_str()));
        }
        if SortOrder::parse(self.module_sort_import_declarations.as_str()).is_none() {
            return Err(ConfigError::invalid_value("module_sort_import_declarations", self.module_sort_import_declarations.as_str()));
        }
        if SortOrder::parse(self.module_sort_export_declarations.as_str()).is_none() {
            return Err(ConfigError::invalid_value("module_sort_export_declarations", self.module_sort_export_declarations.as_str()));
        }
        if SortOrder::parse(self.import_declaration_sort_named_imports.as_str()).is_none() {
            return Err(ConfigError::invalid_value("import_declaration_sort_named_imports", self.import_declaration_sort_named_imports.as_str()));
        }
        if NamedTypeImportsExportsOrder::parse(self.import_declaration_sort_type_only_imports.as_str()).is_none() {
            return Err(ConfigError::invalid_value("import_declaration_sort_type_only_imports", self.import_declaration_sort_type_only_imports.as_str()));
        }
        if SortOrder::parse(self.export_declaration_sort_named_exports.as_str()).is_none() {
            return Err(ConfigError::invalid_value("export_declaration_sort_named_exports", self.export_declaration_sort_named_exports.as_str()));
        }
        if NamedTypeImportsExportsOrder::parse(self.export_declaration_sort_type_only_exports.as_str()).is_none() {
            return Err(ConfigError::invalid_value("export_declaration_sort_type_only_exports", self.export_declaration_sort_type_only_exports.as_str()));
        }
        if BracePosition::parse(self.arrow_function_brace_position.as_str()).is_none() {
            return Err(ConfigError::invalid_value("arrow_function_brace_position", self.arrow_function_brace_position.as_str()));
        }
        if BracePosition::parse(self.class_declaration_brace_position.as_str()).is_none() {
            return Err(ConfigError::invalid_value("class_declaration_brace_position", self.class_declaration_brace_position.as_str()));
        }
        if BracePosition::parse(self.class_expression_brace_position.as_str()).is_none() {
            return Err(ConfigError::invalid_value("class_expression_brace_position", self.class_expression_brace_position.as_str()));
        }
        if BracePosition::parse(self.constructor_brace_position.as_str()).is_none() {
            return Err(ConfigError::invalid_value("constructor_brace_position", self.constructor_brace_position.as_str()));
        }
        if BracePosition::parse(self.do_while_statement_brace_position.as_str()).is_none() {
            return Err(ConfigError::invalid_value("do_while_statement_brace_position", self.do_while_statement_brace_position.as_str()));
        }
        if BracePosition::parse(self.enum_declaration_brace_position.as_str()).is_none() {
            return Err(ConfigError::invalid_value("enum_declaration_brace_position", self.enum_declaration_brace_position.as_str()));
        }
        if BracePosition::parse(self.get_accessor_brace_position.as_str()).is_none() {
            return Err(ConfigError::invalid_value("get_accessor_brace_position", self.get_accessor_brace_position.as_str()));
        }
        if BracePosition::parse(self.if_statement_brace_position.as_str()).is_none() {
            return Err(ConfigError::invalid_value("if_statement_brace_position", self.if_statement_brace_position.as_str()));
        }
        if BracePosition::parse(self.interface_declaration_brace_position.as_str()).is_none() {
            return Err(ConfigError::invalid_value("interface_declaration_brace_position", self.interface_declaration_brace_position.as_str()));
        }
        if BracePosition::parse(self.for_statement_brace_position.as_str()).is_none() {
            return Err(ConfigError::invalid_value("for_statement_brace_position", self.for_statement_brace_position.as_str()));
        }
        if BracePosition::parse(self.for_in_statement_brace_position.as_str()).is_none() {
            return Err(ConfigError::invalid_value("for_in_statement_brace_position", self.for_in_statement_brace_position.as_str()));
        }
        if BracePosition::parse(self.for_of_statement_brace_position.as_str()).is_none() {
            return Err(ConfigError::invalid_value("for_of_statement_brace_position", self.for_of_statement_brace_position.as_str()));
        }
        if BracePosition::parse(self.function_declaration_brace_position.as_str()).is_none() {
            return Err(ConfigError::invalid_value("function_declaration_brace_position", self.function_declaration_brace_position.as_str()));
        }
        if BracePosition::parse(self.function_expression_brace_position.as_str()).is_none() {
            return Err(ConfigError::invalid_value("function_expression_brace_position", self.function_expression_brace_position.as_str()));
        }
        if BracePosition::parse(self.method_brace_position.as_str()).is_none() {
            return Err(ConfigError::invalid_value("method_brace_position", self.method_brace_position.as_str()));
        }
        if BracePosition::parse(self.module_declaration_brace_position.as_str()).is_none() {
            return Err(ConfigError::invalid_value("module_declaration_brace_position", self.module_declaration_brace_position.as_str()));
        }
        if BracePosition::parse(self.set_accessor_brace_position.as_str()).is_none() {
            return Err(ConfigError::invalid_value("set_accessor_brace_position", self.set_accessor_brace_position.as_str()));
        }
        if BracePosition::parse(self.static_block_brace_position.as_str()).is_none() {
            return Err(ConfigError::invalid_value("static_block_brace_position", self.static_block_brace_position.as_str()));
        }
        if BracePosition::parse(self.switch_case_brace_position.as_str()).is_none() {
            return Err(ConfigError::invalid_value("switch_case_brace_position", self.switch_case_brace_position.as_str()));
        }
        if BracePosition::parse(self.switch_statement_brace_position.as_str()).is_none() {
            return Err(ConfigError::invalid_value("switch_statement_brace_position", self.switch_statement_brace_position.as_str()));
        }
        if BracePosition::parse(self.try_statement_brace_position.as_str()).is_none() {
            return Err(ConfigError::invalid_value("try_statement_brace_position", self.try_statement_brace_position.as_str()));
        }
        if BracePosition::parse(self.while_statement_brace_position.as_str()).is_none() {
            return Err(ConfigError::invalid_value("while_statement_brace_position", self.while_statement_brace_position.as_str()));
        }
        if PreferHanging::parse(self.arguments_prefer_hanging.as_str()).is_none() {
            return Err(ConfigError::invalid_value("arguments_prefer_hanging", self.arguments_prefer_hanging.as_str()));
        }
        if PreferHanging::parse(self.array_expression_prefer_hanging.as_str()).is_none() {
            return Err(ConfigError::invalid_value("array_expression_prefer_hanging", self.array_expression_prefer_hanging.as_str()));
        }
        if PreferHanging::parse(self.parameters_prefer_hanging.as_str()).is_none() {
            return Err(ConfigError::invalid_value("parameters_prefer_hanging", self.parameters_prefer_hanging.as_str()));
        }
        if PreferHanging::parse(self.tuple_type_prefer_hanging.as_str()).is_none() {
            return Err(ConfigError::invalid_value("tuple_type_prefer_hanging", self.tuple_type_prefer_hanging.as_str()));
        }
        if PreferHanging::parse(self.type_parameters_prefer_hanging.as_str()).is_none() {
            return Err(ConfigError::invalid_value("type_parameters_prefer_hanging", self.type_parameters_prefer_hanging.as_str()));
        }
        if MemberSpacing::parse(self.enum_declaration_member_spacing.as_str()).is_none() {
            return Err(ConfigError::invalid_value("enum_declaration_member_spacing", self.enum_declaration_member_spacing.as_str()));
        }
        if NextControlFlowPosition::parse(self.if_statement_next_control_flow_position.as_str()).is_none() {
            return Err(ConfigError::invalid_value("if_statement_next_control_flow_position", self.if_statement_next_control_flow_position.as_str()));
        }
        if NextControlFlowPosition::parse(self.try_statement_next_control_flow_position.as_str()).is_none() {
            return Err(ConfigError::invalid_value("try_statement_next_control_flow_position", self.try_statement_next_control_flow_position.as_str()));
        }
        if NextControlFlowPosition::parse(self.do_while_statement_next_control_flow_position.as_str()).is_none() {
            return Err(ConfigError::invalid_value("do_while_statement_next_control_flow_position", self.do_while_statement_next_control_flow_position.as_str()));
        }
        if OperatorPosition::parse(self.binary_expression_operator_position.as_str()).is_none() {
            return Err(ConfigError::invalid_value("binary_expression_operator_position", self.binary_expression_operator_position.as_str()));
        }
        if OperatorPosition::parse(self.conditional_expression_operator_position.as_str()).is_none() {
            return Err(ConfigError::invalid_value("conditional_expression_operator_position", self.conditional_expression_operator_position.as_str()));
        }
        if OperatorPosition::parse(self.conditional_type_operator_position.as_str()).is_none() {
            return Err(ConfigError::invalid_value("conditional_type_operator_position", self.conditional_type_operator_position.as_str()));
        }
        if SameOrNextLinePosition::parse(self.if_statement_single_body_position.as_str()).is_none() {
            return Err(ConfigError::invalid_value("if_statement_single_body_position", self.if_statement_single_body_position.as_str()));
        }
        if SameOrNextLinePosition::parse(self.for_statement_single_body_position.as_str()).is_none() {
            return Err(ConfigError::invalid_value("for_statement_single_body_position", self.for_statement_single_body_position.as_str()));
        }
        if SameOrNextLinePosition::parse(self.for_in_statement_single_body_position.as_str()).is_none() {
            return Err(ConfigError::invalid_value("for_in_statement_single_body_position", self.for_in_statement_single_body_position.as_str()));
        }
        if SameOrNextLinePosition::parse(self.for_of_statement_single_body_position.as_str()).is_none() {
            return Err(ConfigError::invalid_value("for_of_statement_single_body_position", self.for_of_statement_single_body_position.as_str()));
        }
        if SameOrNextLinePosition::parse(self.while_statement_single_body_position.as_str()).is_none() {
            return Err(ConfigError::invalid_value("while_statement_single_body_position", self.while_statement_single_body_position.as_str()));
        }
        if TrailingCommas::parse(self.arguments_trailing_commas.as_str()).is_none() {
            return Err(ConfigError::invalid_value("arguments_trailing_commas", self.arguments_trailing_commas.as_str()));
        }
        if TrailingCommas::parse(self.parameters_trailing_commas.as_str()).is_none() {
            return Err(ConfigError::invalid_value("parameters_trailing_commas", self.parameters_trailing_commas.as_str()));
        }
        if TrailingCommas::parse(self.array_expression_trailing_commas.as_str()).is_none() {
            return Err(ConfigError::invalid_value("array_expression_trailing_commas", self.array_expression_trailing_commas.as_str()));
        }
        if TrailingCommas::parse(self.array_pattern_trailing_commas.as_str()).is_none() {
            return Err(ConfigError::invalid_value("array_pattern_trailing_commas", self.array_pattern_trailing_commas.as_str()));
        }
        if TrailingCommas::parse(self.enum_declaration_trailing_commas.as_str()).is_none() {
            return Err(ConfigError::invalid_value("enum_declaration_trailing_commas", self.enum_declaration_trailing_commas.as_str()));
        }
        if TrailingCommas::parse(self.export_declaration_trailing_commas.as_str()).is_none() {
            return Err(ConfigError::invalid_value("export_declaration_trailing_commas", self.export_declaration_trailing_commas.as_str()));
        }
        if TrailingCommas::parse(self.import_declaration_trailing_commas.as_str()).is_none() {
            return Err(ConfigError::invalid_value("import_declaration_trailing_commas", self.import_declaration_trailing_commas.as_str()));
        }
        if TrailingCommas::parse(self.object_pattern_trailing_commas.as_str()).is_none() {
            return Err(ConfigError::invalid_value("object_pattern_trailing_commas", self.object_pattern_trailing_commas.as_str()));
        }
        if TrailingCommas::parse(self.object_expression_trailing_commas.as_str()).is_none() {
            return Err(ConfigError::invalid_value("object_expression_trailing_commas", self.object_expression_trailing_commas.as_str()));
        }
        if TrailingCommas::parse(self.tuple_type_trailing_commas.as_str()).is_none() {
            return Err(ConfigError::invalid_value("tuple_type_trailing_commas", self.tuple_type_trailing_commas.as_str()));
        }
        if TrailingCommas::parse(self.type_literal_trailing_commas.as_str()).is_none() {
            return Err(ConfigError::invalid_value("type_literal_trailing_commas", self.type_literal_trailing_commas.as_str()));
        }
        if TrailingCommas::parse(self.type_parameters_trailing_commas.as_str()).is_none() {
            return Err(ConfigError::invalid_value("type_parameters_trailing_commas", self.type_parameters_trailing_commas.as_str()));
        }
        if UseBraces::parse(self.if_statement_use_braces.as_str()).is_none() {
            return Err(ConfigError::invalid_value("if_statement_use_braces", self.if_statement_use_braces.as_str()));
        }
        if UseBraces::parse(self.for_statement_use_braces.as_str()).is_none() {
            return Err(ConfigError::invalid_value("for_statement_use_braces", self.for_statement_use_braces.as_str()));
        }
        if UseBraces::parse(self.for_of_statement_use_braces.as_str()).is_none() {
            return Err(ConfigError::invalid_value("for_of_statement_use_braces", self.for_of_statement_use_braces.as_str()));
        }
        if UseBraces::parse(self.for_in_statement_use_braces.as_str()).is_none() {
            return Err(ConfigError::invalid_value("for_in_statement_use_braces", self.for_in_statement_use_braces.as_str()));
        }
        if UseBraces::parse(self.while_statement_use_braces.as_str()).is_none() {
            return Err(ConfigError::invalid_value("while_statement_use_braces", self.while_statement_use_braces.as_str()));
        }
        if ForceMultiLine::parse(self.export_declaration_force_multi_line.as_str()).is_none() {
            return Err(ConfigError::invalid_value("export_declaration_force_multi_line", self.export_declaration_force_multi_line.as_str()));
        }
        if ForceMultiLine::parse(self.import_declaration_force_multi_line.as_str()).is_none() {
            return Err(ConfigError::invalid_value("import_declaration_force_multi_line", self.import_declaration_force_multi_line.as_str()));
        }
        Ok(())
    }

    /// Validates every closed-set setting and builds the typed configuration; the first
    /// setting, in declaration order, whose token names no value is reported.
    #[verifier::rlimit(50)]
    pub fn resolve(&self) -> (r: Result<ResolvedConfiguration, ConfigError>)
        ensures
            r is Ok <==> self.first_invalid() is None,
            r matches Ok(c) ==> self.describes(c),
            self.first_invalid() matches Some(p) ==> (r matches Err(e) && e.is_invalid_value(p.0, p.1)),
    {
        match self.check_tokens() {
            Ok(()) => {},
            Err(e) => {
                return Err(e);
            },
        }
        Ok(ResolvedConfiguration {
            indent_width: self.indent_width,
            line_width: self.line_width,
            use_tabs: self.use_tabs,
            new_line_kind: NewLineKind::parse(self.new_line_kind.as_str()).unwrap(),
            quote_style: QuoteStyle::parse(self.quote_style.as_str()).unwrap(),
            quote_props: QuoteProps::parse(self.quote_props.as_str()).unwrap(),
            semi_colons: SemiColons::parse(self.semi_colons.as_str()).unwrap(),
            file_indent_level: self.file_indent_level,
            arrow_function_use_parentheses: UseParentheses::parse(self.arrow_function_use_parentheses.as_str()).unwrap(),
            binary_expression_line_per_expression: self.binary_expression_line_per_expression,
            conditional_expression_line_per_expression: self.conditional_expression_line_per_expression,
            jsx_quote_style: JsxQuoteStyle::parse(self.jsx_quote_style.as_str()).unwrap(),
            jsx_multi_line_parens: JsxMultiLineParens::parse(self.jsx_multi_line_parens.as_str()).unwrap(),
            jsx_force_new_lines_surrounding_content: self.jsx_force_new_lines_surrounding_content,
            jsx_opening_element_bracket_position: SameOrNextLinePosition::parse(self.jsx_opening_element_bracket_position.as_str()).unwrap(),
            jsx_self_closing_element_bracket_position: SameOrNextLinePosition::parse(self.jsx_self_closing_element_bracket_position.as_str()).unwrap(),
            member_expression_line_per_expression: self.member_expression_line_per_expression,
            type_literal_separator_kind_single_line: SemiColonOrComma::parse(self.type_literal_separator_kind_single_line.as_str()).unwrap(),
            type_literal_separator_kind_multi_line: SemiColonOrComma::parse(self.type_literal_separator_kind_multi_line.as_str()).unwrap(),
            module_sort_import_declarations: SortOrder::parse(self.module_sort_import_declarations.as_str()).unwrap(),
            module_sort_export_declarations: SortOrder::parse(self.module_sort_export_declarations.as_str()).unwrap(),
            import_declaration_sort_named_imports: SortOrder::parse(self.import_declaration_sort_named_imports.as_str()).unwrap(),
            import_declaration_sort_type_only_imports: NamedTypeImportsExportsOrder::parse(self.import_declaration_sort_type_only_imports.as_str()).unwrap(),
            export_declaration_sort_named_exports: SortOrder::parse(self.export_declaration_sort_named_exports.as_str()).unwrap(),
            export_declaration_sort_type_only_exports: NamedTypeImportsExportsOrder::parse(self.export_declaration_sort_type_only_exports.as_str()).unwrap(),
            ignore_node_comment_text: self.ignore_node_comment_text.clone(),
            ignore_file_comment_text: self.ignore_file_comment_text.clone(),
            arrow_function_brace_position: BracePosition::parse(self.arrow_function_brace_position.as_str()).unwrap(),
            class_declaration_brace_position: BracePosition::parse(self.class_declaration_brace_position.as_str()).unwrap(),
            class_expression_brace_position: BracePosition::parse(self.class_expression_brace_position.as_str()).unwrap(),
            constructor_brace_position: BracePosition::parse(self.constructor_brace_position.as_str()).unwrap(),
            do_while_statement_brace_position: BracePosition::parse(self.do_while_statement_brace_position.as_str()).unwrap(),
            enum_declaration_brace_position: BracePosition::parse(self.enum_declaration_brace_position.as_str()).unwrap(),
            get_accessor_brace_position: BracePosition::parse(self.get_accessor_brace_position.as_str()).unwrap(),
            if_statement_brace_position: BracePosition::parse(self.if_statement_brace_position.as_str()).unwrap(),
            interface_declaration_brace_position: BracePosition::parse(self.interface_declaration_brace_position.as_str()).unwrap(),
            for_statement_brace_position: BracePosition::parse(self.for_statement_brace_position.as_str()).unwrap(),
            for_in_statement_brace_position: BracePosition::parse(self.for_in_statement_brace_position.as_str()).unwrap(),
            for_of_statement_brace_position: BracePosition::parse(self.for_of_statement_brace_position.as_str()).unwrap(),
            function_declaration_brace_position: BracePosition::parse(self.function_declaration_brace_position.as_str()).unwrap(),
            function_expression_brace_position: BracePosition::parse(self.function_expression_brace_position.as_str()).unwrap(),
            method_brace_position: BracePosition::parse(self.method_brace_position.as_str()).unwrap(),
            module_declaration_brace_position: BracePosition::parse(self.module_declaration_brace_position.as_str()).unwrap(),
            set_accessor_brace_position: BracePosition::parse(self.set_accessor_brace_position.as_str()).unwrap(),
            static_block_brace_position: BracePosition::parse(self.static_block_brace_position.as_str()).unwrap(),
            switch_case_brace_position: BracePosition::parse(self.switch_case_brace_position.as_str()).unwrap(),
            switch_statement_brace_position: BracePosition::parse(self.switch_statement_brace_position.as_str()).unwrap(),
            try_statement_brace_position: BracePosition::parse(self.try_statement_brace_position.as_str()).unwrap(),
            while_statement_brace_position: BracePosition::parse(self.while_statement_brace_position.as_str()).unwrap(),
            arguments_prefer_hanging: PreferHanging::parse(self.arguments_prefer_hanging.as_str()).unwrap(),
            array_expression_prefer_hanging: PreferHanging::parse(self.array_expression_prefer_hanging.as_str()).unwrap(),
            array_pattern_prefer_hanging: self.array_pattern_prefer_hanging,
            do_while_statement_prefer_hanging: self.do_while_statement_prefer_hanging,
            export_declaration_prefer_hanging: self.export_declaration_prefer_hanging,
            extends_clause_prefer_hanging: self.extends_clause_prefer_hanging,
            for_statement_prefer_hanging: self.for_statement_prefer_hanging,
            for_in_statement_prefer_hanging: self.for_in_statement_prefer_hanging,
            for_of_statement_prefer_hanging: self.for_of_statement_prefer_hanging,
            if_statement_prefer_hanging: self.if_statement_prefer_hanging,
            implements_clause_prefer_hanging: self.implements_clause_prefer_hanging,
            import_declaration_prefer_hanging: self.import_declaration_prefer_hanging,
            jsx_attributes_prefer_hanging: self.jsx_attributes_prefer_hanging,
            object_expression_prefer_hanging: self.object_expression_prefer_hanging,
            object_pattern_prefer_hanging: self.object_pattern_prefer_hanging,
            parameters_prefer_hanging: PreferHanging::parse(self.parameters_prefer_hanging.as_str()).unwrap(),
            sequence_expression_prefer_hanging: self.sequence_expression_prefer_hanging,
            switch_statement_prefer_hanging: self.switch_statement_prefer_hanging,
            tuple_type_prefer_hanging: PreferHanging::parse(self.tuple_type_prefer_hanging.as_str()).unwrap(),
            type_literal_prefer_hanging: self.type_literal_prefer_hanging,
            type_parameters_prefer_hanging: PreferHanging::parse(self.type_parameters_prefer_hanging.as_str()).unwrap(),
            union_and_intersection_type_prefer_hanging: self.union_and_intersection_type_prefer_hanging,
            variable_statement_prefer_hanging: self.variable_statement_prefer_hanging,
            while_statement_prefer_hanging: self.while_statement_prefer_hanging,
            enum_declaration_member_spacing: MemberSpacing::parse(self.enum_declaration_member_spacing.as_str()).unwrap(),
            if_statement_next_control_flow_position: NextControlFlowPosition::parse(self.if_statement_next_control_flow_position.as_str()).unwrap(),
            try_statement_next_control_flow_position: NextControlFlowPosition::parse(self.try_statement_next_control_flow_position.as_str()).unwrap(),
            do_while_statement_next_control_flow_position: NextControlFlowPosition::parse(self.do_while_statement_next_control_flow_position.as_str()).unwrap(),
            binary_expression_operator_position: OperatorPosition::parse(self.binary_expression_operator_position.as_str()).unwrap(),
            conditional_expression_operator_position: OperatorPosition::parse(self.conditional_expression_operator_position.as_str()).unwrap(),
            conditional_type_operator_position: OperatorPosition::parse(self.conditional_type_operator_position.as_str()).unwrap(),
            if_statement_single_body_position: SameOrNextLinePosition::parse(self.if_statement_single_body_position.as_str()).unwrap(),
            for_statement_single_body_position: SameOrNextLinePosition::parse(self.for_statement_single_body_position.as_str()).unwrap(),
            for_in_statement_single_body_position: SameOrNextLinePosition::parse(self.for_in_statement_single_body_position.as_str()).unwrap(),
            for_of_statement_single_body_position: SameOrNextLinePosition::parse(self.for_of_statement_single_body_position.as_str()).unwrap(),
            while_statement_single_body_position: SameOrNextLinePosition::parse(self.while_statement_single_body_position.as_str()).unwrap(),
            arguments_trailing_commas: TrailingCommas::parse(self.arguments_trailing_commas.as_str()).unwrap(),
            parameters_trailing_commas: TrailingCommas::parse(self.parameters_trailing_commas.as_str()).unwrap(),
            array_expression_trailing_commas: TrailingCommas::parse(self.array_expression_trailing_commas.as_str()).unwrap(),
            array_pattern_trailing_commas: TrailingCommas::parse(self.array_pattern_trailing_commas.as_str()).unwrap(),
            enum_declaration_trailing_commas: TrailingCommas::parse(self.enum_declaration_trailing_commas.as_str()).unwrap(),
            export_declaration_trailing_commas: TrailingCommas::parse(self.export_declaration_trailing_commas.as_str()).unwrap(),
            import_declaration_trailing_commas: TrailingCommas::parse(self.import_declaration_trailing_commas.as_str()).unwrap(),
            object_pattern_trailing_commas: TrailingCommas::parse(self.object_pattern_trailing_commas.as_str()).unwrap(),
            object_expression_trailing_commas: TrailingCommas::parse(self.object_expression_trailing_commas.as_str()).unwrap(),
            tuple_type_trailing_commas: TrailingCommas::parse(self.tuple_type_trailing_commas.as_str()).unwrap(),
            type_literal_trailing_commas: TrailingCommas::parse(self.type_literal_trailing_commas.as_str()).unwrap(),
            type_parameters_trailing_commas: TrailingCommas::parse(self.type_parameters_trailing_commas.as_str()).unwrap(),
            if_statement_use_braces: UseBraces::parse(self.if_statement_use_braces.as_str()).unwrap(),
            for_statement_use_braces: UseBraces::parse(self.for_statement_use_braces.as_str()).unwrap(),
            for_of_statement_use_braces: UseBraces::parse(self.for_of_statement_use_braces.as_str()).unwrap(),
            for_in_statement_use_braces: UseBraces::parse(self.for_in_statement_use_braces.as_str()).unwrap(),
            while_statement_use_braces: UseBraces::parse(self.while_statement_use_braces.as_str()).unwrap(),
            array_expression_prefer_single_line: self.array_expression_prefer_single_line,
            array_pattern_prefer_single_line: self.array_pattern_prefer_single_line,
            arguments_prefer_single_line: self.arguments_prefer_single_line,
            binary_expression_prefer_single_line: self.binary_expression_prefer_single_line,
            computed_prefer_single_line: self.computed_prefer_single_line,
            conditional_expression_prefer_single_line: self.conditional_expression_prefer_single_line,
            conditional_type_prefer_single_line: self.conditional_type_prefer_single_line,
            decorators_prefer_single_line: self.decorators_prefer_single_line,
            export_declaration_prefer_single_line: self.export_declaration_prefer_single_line,
            for_statement_prefer_single_line: self.for_statement_prefer_single_line,
            import_declaration_prefer_single_line: self.import_declaration_prefer_single_line,
            jsx_attributes_prefer_single_line: self.jsx_attributes_prefer_single_line,
            jsx_element_prefer_single_line: self.jsx_element_prefer_single_line,
            mapped_type_prefer_single_line: self.mapped_type_prefer_single_line,
            member_expression_prefer_single_line: self.member_expression_prefer_single_line,
            object_expression_prefer_single_line: self.object_expression_prefer_single_line,
            object_pattern_prefer_single_line: self.object_pattern_prefer_single_line,
            parameters_prefer_single_line: self.parameters_prefer_single_line,
            parentheses_prefer_single_line: self.parentheses_prefer_single_line,
            tuple_type_prefer_single_line: self.tuple_type_prefer_single_line,
            type_literal_prefer_single_line: self.type_literal_prefer_single_line,
            type_parameters_prefer_single_line: self.type_parameters_prefer_single_line,
            union_and_intersection_type_prefer_single_line: self.union_and_intersection_type_prefer_single_line,
            variable_statement_prefer_single_line: self.variable_statement_prefer_single_line,
            import_declaration_force_single_line: self.import_declaration_force_single_line,
            export_declaration_force_single_line: self.export_declaration_force_single_line,
            export_declaration_force_multi_line: ForceMultiLine::parse(self.export_declaration_force_multi_line.as_str()).unwrap(),
            import_declaration_force_multi_line: ForceMultiLine::parse(self.import_declaration_force_multi_line.as_str()).unwrap(),
            binary_expression_space_surrounding_bitwise_and_arithmetic_operator: self.binary_expression_space_surrounding_bitwise_and_arithmetic_operator,
            comment_line_force_space_after_slashes: self.comment_line_force_space_after_slashes,
            construct_signature_space_after_new_keyword: self.construct_signature_space_after_new_keyword,
            constructor_space_before_parentheses: self.constructor_space_before_parentheses,
            constructor_type_space_after_new_keyword: self.constructor_type_space_after_new_keyword,
            do_while_statement_space_after_while_keyword: self.do_while_statement_space_after_while_keyword,
            export_declaration_space_surrounding_named_exports: self.export_declaration_space_surrounding_named_exports,
            for_statement_space_after_for_keyword: self.for_statement_space_after_for_keyword,
            for_statement_space_after_semi_colons: self.for_statement_space_after_semi_colons,
            for_in_statement_space_after_for_keyword: self.for_in_statement_space_after_for_keyword,
            for_of_statement_space_after_for_keyword: self.for_of_statement_space_after_for_keyword,
            function_declaration_space_before_parentheses: self.function_declaration_space_before_parentheses,
            function_expression_space_before_parentheses: self.function_expression_space_before_parentheses,
            function_expression_space_after_function_keyword: self.function_expression_space_after_function_keyword,
            get_accessor_space_before_parentheses: self.get_accessor_space_before_parentheses,
            if_statement_space_after_if_keyword: self.if_statement_space_after_if_keyword,
            import_declaration_space_surrounding_named_imports: self.import_declaration_space_surrounding_named_imports,
            jsx_expression_container_space_surrounding_expression: self.jsx_expression_container_space_surrounding_expression,
            jsx_self_closing_element_space_before_slash: self.jsx_self_closing_element_space_before_slash,
            method_space_before_parentheses: self.method_space_before_parentheses,
            object_expression_space_surrounding_properties: self.object_expression_space_surrounding_properties,
            object_pattern_space_surrounding_properties: self.object_pattern_space_surrounding_properties,
            set_accessor_space_before_parentheses: self.set_accessor_space_before_parentheses,
            space_surrounding_properties: self.space_surrounding_properties,
            tagged_template_space_before_literal: self.tagged_template_space_before_literal,
            type_annotation_space_before_colon: self.type_annotation_space_before_colon,
            type_assertion_space_before_expression: self.type_assertion_space_before_expression,
            type_literal_space_surrounding_properties: self.type_literal_space_surrounding_properties,
            while_statement_space_after_while_keyword: self.while_statement_space_after_while_keyword,
            arguments_space_around: self.arguments_space_around,
            array_expression_space_around: self.array_expression_space_around,
            array_pattern_space_around: self.array_pattern_space_around,
            catch_clause_space_around: self.catch_clause_space_around,
            do_while_statement_space_around: self.do_while_statement_space_around,
            for_in_statement_space_around: self.for_in_statement_space_around,
            for_of_statement_space_around: self.for_of_statement_space_around,
            for_statement_space_around: self.for_statement_space_around,
            if_statement_space_around: self.if_statement_space_around,
            parameters_space_around: self.parameters_space_around,
            paren_expression_space_around: self.paren_expression_space_around,
            switch_statement_space_around: self.switch_statement_space_around,
            tuple_type_space_around: self.tuple_type_space_around,
            while_statement_space_around: self.while_statement_space_around,
        })
    }

    /// The written form of a typed configuration.
    pub fn from_configuration(c: &ResolvedConfiguration) -> (r: PyConfiguration)
        ensures
            r.describes(*c),
    {
        PyConfiguration {
            indent_width: c.indent_width,
            line_width: c.line_width,
            use_tabs: c.use_tabs,
            new_line_kind: c.new_line_kind.as_str().to_owned(),
            quote_style: c.quote_style.as_str().to_owned(),
            quote_props: c.quote_props.as_str().to_owned(),
            semi_colons: c.semi_colons.as_str().to_owned(),
            file_indent_level: c.file_indent_level,
            arrow_function_use_parentheses: c.arrow_function_use_parentheses.as_str().to_owned(),
            binary_expression_line_per_expression: c.binary_expression_line_per_expression,
            conditional_expression_line_per_expression: c.conditional_expression_line_per_expression,
            jsx_quote_style: c.jsx_quote_style.as_str().to_owned(),
            jsx_multi_line_parens: c.jsx_multi_line_parens.as_str().to_owned(),
            jsx_force_new_lines_surrounding_content: c.jsx_force_new_lines_surrounding_content,
            jsx_opening_element_bracket_position: c.jsx_opening_element_bracket_position.as_str().to_owned(),
            jsx_self_closing_element_bracket_position: c.jsx_self_closing_element_bracket_position.as_str().to_owned(),
            member_expression_line_per_expression: c.member_expression_line_per_expression,
            type_literal_separator_kind_single_line: c.type_literal_separator_kind_single_line.as_str().to_owned(),
            type_literal_separator_kind_multi_line: c.type_literal_separator_kind_multi_line.as_str().to_owned(),
            module_sort_import_declarations: c.module_sort_import_declarations.as_str().to_owned(),
            module_sort_export_declarations: c.module_sort_export_declarations.as_str().to_owned(),
            import_declaration_sort_named_imports: c.import_declaration_sort_named_imports.as_str().to_owned(),
            import_declaration_sort_type_only_imports: c.import_declaration_sort_type_only_imports.as_str().to_owned(),
            export_declaration_sort_named_exports: c.export_declaration_sort_named_exports.as_str().to_owned(),
            export_declaration_sort_type_only_exports: c.export_declaration_sort_type_only_exports.as_str().to_owned(),
            ignore_node_comment_text: c.ignore_node_comment_text.clone(),
            ignore_file_comment_text: c.ignore_file_comment_text.clone(),
            arrow_function_brace_position: c.arrow_function_brace_position.as_str().to_owned(),
            class_declaration_brace_position: c.class_declaration_brace_position.as_str().to_owned(),
            class_expression_brace_position: c.class_expression_brace_position.as_str().to_owned(),
            constructor_brace_position: c.constructor_brace_position.as_str().to_owned(),
            do_while_statement_brace_position: c.do_while_statement_brace_position.as_str().to_owned(),
            enum_declaration_brace_position: c.enum_declaration_brace_position.as_str().to_owned(),
            get_accessor_brace_position: c.get_accessor_brace_position.as_str().to_owned(),
            if_statement_brace_position: c.if_statement_brace_position.as_str().to_owned(),
            interface_declaration_brace_position: c.interface_declaration_brace_position.as_str().to_owned(),
            for_statement_brace_position: c.for_statement_brace_position.as_str().to_owned(),
            for_in_statement_brace_position: c.for_in_statement_brace_position.as_str().to_owned(),
            for_of_statement_brace_position: c.for_of_statement_brace_position.as_str().to_owned(),
            function_declaration_brace_position: c.function_declaration_brace_position.as_str().to_owned(),
            function_expression_brace_position: c.function_expression_brace_position.as_str().to_owned(),
            method_brace_position: c.method_brace_position.as_str().to_owned(),
            module_declaration_brace_position: c.module_declaration_brace_position.as_str().to_owned(),
            set_accessor_brace_position: c.set_accessor_brace_position.as_str().to_owned(),
            static_block_brace_position: c.static_block_brace_position.as_str().to_owned(),
            switch_case_brace_position: c.switch_case_brace_position.as_str().to_owned(),
            switch_statement_brace_position: c.switch_statement_brace_position.as_str().to_owned(),
            try_statement_brace_position: c.try_statement_brace_position.as_str().to_owned(),
            while_statement_brace_position: c.while_statement_brace_position.as_str().to_owned(),
            arguments_prefer_hanging: c.arguments_prefer_hanging.as_str().to_owned(),
            array_expression_prefer_hanging: c.array_expression_prefer_hanging.as_str().to_owned(),
            array_pattern_prefer_hanging: c.array_pattern_prefer_hanging,
            do_while_statement_prefer_hanging: c.do_while_statement_prefer_hanging,
            export_declaration_prefer_hanging: c.export_declaration_prefer_hanging,
            extends_clause_prefer_hanging: c.extends_clause_prefer_hanging,
            for_statement_prefer_hanging: c.for_statement_prefer_hanging,
            for_in_statement_prefer_hanging: c.for_in_statement_prefer_hanging,
            for_of_statement_prefer_hanging: c.for_of_statement_prefer_hanging,
            if_statement_prefer_hanging: c.if_statement_prefer_hanging,
            implements_clause_prefer_hanging: c.implements_clause_prefer_hanging,
            import_declaration_prefer_hanging: c.import_declaration_prefer_hanging,
            jsx_attributes_prefer_hanging: c.jsx_attributes_prefer_hanging,
            object_expression_prefer_hanging: c.object_expression_prefer_hanging,
            object_pattern_prefer_hanging: c.object_pattern_prefer_hanging,
            parameters_prefer_hanging: c.parameters_prefer_hanging.as_str().to_owned(),
            sequence_expression_prefer_hanging: c.sequence_expression_prefer_hanging,
            switch_statement_prefer_hanging: c.switch_statement_prefer_hanging,
            tuple_type_prefer_hanging: c.tuple_type_prefer_hanging.as_str().to_owned(),
            type_literal_prefer_hanging: c.type_literal_prefer_hanging,
            type_parameters_prefer_hanging: c.type_parameters_prefer_hanging.as_str().to_owned(),
            union_and_intersection_type_prefer_hanging: c.union_and_intersection_type_prefer_hanging,
            variable_statement_prefer_hanging: c.variable_statement_prefer_hanging,
            while_statement_prefer_hanging: c.while_statement_prefer_hanging,
            enum_declaration_member_spacing: c.enum_declaration_member_spacing.as_str().to_owned(),
            if_statement_next_control_flow_position: c.if_statement_next_control_flow_position.as_str().to_owned(),
            try_statement_next_control_flow_position: c.try_statement_next_control_flow_position.as_str().to_owned(),
            do_while_statement_next_control_flow_position: c.do_while_statement_next_control_flow_position.as_str().to_owned(),
            binary_expression_operator_position: c.binary_expression_operator_position.as_str().to_owned(),
            conditional_expression_operator_position: c.conditional_expression_operator_position.as_str().to_owned(),
            conditional_type_operator_position: c.conditional_type_operator_position.as_str().to_owned(),
            if_statement_single_body_position: c.if_statement_single_body_position.as_str().to_owned(),
            for_statement_single_body_position: c.for_statement_single_body_position.as_str().to_owned(),
            for_in_statement_single_body_position: c.for_in_statement_single_body_position.as_str().to_owned(),
            for_of_statement_single_body_position: c.for_of_statement_single_body_position.as_str().to_owned(),
            while_statement_single_body_position: c.while_statement_single_body_position.as_str().to_owned(),
            arguments_trailing_commas: c.arguments_trailing_commas.as_str().to_owned(),
            parameters_trailing_commas: c.parameters_trailing_commas.as_str().to_owned(),
            array_expression_trailing_commas: c.array_expression_trailing_commas.as_str().to_owned(),
            array_pattern_trailing_commas: c.array_pattern_trailing_commas.as_str().to_owned(),
            enum_declaration_trailing_commas: c.enum_declaration_trailing_commas.as_str().to_owned(),
            export_declaration_trailing_commas: c.export_declaration_trailing_commas.as_str().to_owned(),
            import_declaration_trailing_commas: c.import_declaration_trailing_commas.as_str().to_owned(),
            object_pattern_trailing_commas: c.object_pattern_trailing_commas.as_str().to_owned(),
            object_expression_trailing_commas: c.object_expression_trailing_commas.as_str().to_owned(),
            tuple_type_trailing_commas: c.tuple_type_trailing_commas.as_str().to_owned(),
            type_literal_trailing_commas: c.type_literal_trailing_commas.as_str().to_owned(),
            type_parameters_trailing_commas: c.type_parameters_trailing_commas.as_str().to_owned(),
            if_statement_use_braces: c.if_statement_use_braces.as_str().to_owned(),
            for_statement_use_braces: c.for_statement_use_braces.as_str().to_owned(),
            for_of_statement_use_braces: c.for_of_statement_use_braces.as_str().to_owned(),
            for_in_statement_use_braces: c.for_in_statement_use_braces.as_str().to_owned(),
            while_statement_use_braces: c.while_statement_use_braces.as_str().to_owned(),
            array_expression_prefer_single_line: c.array_expression_prefer_single_line,
            array_pattern_prefer_single_line: c.array_pattern_prefer_single_line,
            arguments_prefer_single_line: c.arguments_prefer_single_line,
            binary_expression_prefer_single_line: c.binary_expression_prefer_single_line,
            computed_prefer_single_line: c.computed_prefer_single_line,
            conditional_expression_prefer_single_line: c.conditional_expression_prefer_single_line,
            conditional_type_prefer_single_line: c.conditional_type_prefer_single_line,
            decorators_prefer_single_line: c.decorators_prefer_single_line,
            export_declaration_prefer_single_line: c.export_declaration_prefer_single_line,
            for_statement_prefer_single_line: c.for_statement_prefer_single_line,
            import_declaration_prefer_single_line: c.import_declaration_prefer_single_line,
            jsx_attributes_prefer_single_line: c.jsx_attributes_prefer_single_line,
            jsx_element_prefer_single_line: c.jsx_element_prefer_single_line,
            mapped_type_prefer_single_line: c.mapped_type_prefer_single_line,
            member_expression_prefer_single_line: c.member_expression_prefer_single_line,
            object_expression_prefer_single_line: c.object_expression_prefer_single_line,
            object_pattern_prefer_single_line: c.object_pattern_prefer_single_line,
            parameters_prefer_single_line: c.parameters_prefer_single_line,
            parentheses_prefer_single_line: c.parentheses_prefer_single_line,
            tuple_type_prefer_single_line: c.tuple_type_prefer_single_line,
            type_literal_prefer_single_line: c.type_literal_prefer_single_line,
            type_parameters_prefer_single_line: c.type_parameters_prefer_single_line,
            union_and_intersection_type_prefer_single_line: c.union_and_intersection_type_prefer_single_line,
            variable_statement_prefer_single_line: c.variable_statement_prefer_single_line,
            import_declaration_force_single_line: c.import_declaration_force_single_line,
            export_declaration_force_single_line: c.export_declaration_force_single_line,
            export_declaration_force_multi_line: c.export_declaration_force_multi_line.as_str().to_owned(),
            import_declaration_force_multi_line: c.import_declaration_force_multi_line.as_str().to_owned(),
            binary_expression_space_surrounding_bitwise_and_arithmetic_operator: c.binary_expression_space_surrounding_bitwise_and_arithmetic_operator,
            comment_line_force_space_after_slashes: c.comment_line_force_space_after_slashes,
            construct_signature_space_after_new_keyword: c.construct_signature_space_after_new_keyword,
            constructor_space_before_parentheses: c.constructor_space_before_parentheses,
            constructor_type_space_after_new_keyword: c.constructor_type_space_after_new_keyword,
            do_while_statement_space_after_while_keyword: c.do_while_statement_space_after_while_keyword,
            export_declaration_space_surrounding_named_exports: c.export_declaration_space_surrounding_named_exports,
            for_statement_space_after_for_keyword: c.for_statement_space_after_for_keyword,
            for_statement_space_after_semi_colons: c.for_statement_space_after_semi_colons,
            for_in_statement_space_after_for_keyword: c.for_in_statement_space_after_for_keyword,
            for_of_statement_space_after_for_keyword: c.for_of_statement_space_after_for_keyword,
            function_declaration_space_before_parentheses: c.function_declaration_space_before_parentheses,
            function_expression_space_before_parentheses: c.function_expression_space_before_parentheses,
            function_expression_space_after_function_keyword: c.function_expression_space_after_function_keyword,
            get_accessor_space_before_parentheses: c.get_accessor_space_before_parentheses,
            if_statement_space_after_if_keyword: c.if_statement_space_after_if_keyword,
            import_declaration_space_surrounding_named_imports: c.import_declaration_space_surrounding_named_imports,
            jsx_expression_container_space_surrounding_expression: c.jsx_expression_container_space_surrounding_expression,
            jsx_self_closing_element_space_before_slash: c.jsx_self_closing_element_space_before_slash,
            method_space_before_parentheses: c.method_space_before_parentheses,
            object_expression_space_surrounding_properties: c.object_expression_space_surrounding_properties,
            object_pattern_space_surrounding_properties: c.object_pattern_space_surrounding_properties,
            set_accessor_space_before_parentheses: c.set_accessor_space_before_parentheses,
            space_surrounding_properties: c.space_surrounding_properties,
            tagged_template_space_before_literal: c.tagged_template_space_before_literal,
            type_annotation_space_before_colon: c.type_annotation_space_before_colon,
            type_assertion_space_before_expression: c.type_assertion_space_before_expression,
            type_literal_space_surrounding_properties: c.type_literal_space_surrounding_properties,
            while_statement_space_after_while_keyword: c.while_statement_space_after_while_keyword,
            arguments_space_around: c.arguments_space_around,
            array_expression_space_around: c.array_expression_space_around,
            array_pattern_space_around: c.array_pattern_space_around,
            catch_clause_space_around: c.catch_clause_space_around,
            do_while_statement_space_around: c.do_while_statement_space_around,
            for_in_statement_space_around: c.for_in_statement_space_around,
            for_of_statement_space_around: c.for_of_statement_space_around,
            for_statement_space_around: c.for_statement_space_around,
            if_statement_space_around: c.if_statement_space_around,
            parameters_space_around: c.parameters_space_around,
            paren_expression_space_around: c.paren_expression_space_around,
            switch_statement_space_around: c.switch_statement_space_around,
            tuple_type_space_around: c.tuple_type_space_around,
            while_statement_space_around: c.while_statement_space_around,
        }
    }

    /// Every setting as a key-value pair, in declaration order.
    pub fn items(&self) -> (r: Vec<(String, ConfigValue)>)
        ensures
            pairs_view(r@) == self.entries(),
    {
        let r = self.to_dict(false);
        proof {
            lemma_select_all(self.entries(), PyConfiguration::default_entries());
        }
        r
    }

    /// The key-value view; when `changed`, only the settings that differ from their default.
    pub fn to_dict(&self, changed: bool) -> (r: Vec<(String, ConfigValue)>)
        ensures
            pairs_view(r@) == select_entries(self.entries(), PyConfiguration::default_entries(), changed),
    {
        let d = PyConfiguration::new();
        let mut r: Vec<(String, ConfigValue)> = Vec::new();
        let mut i: usize = 0;
        while i < FIELD_COUNT
            invariant
                i <= FIELD_COUNT,
                d.is_default(),
                pairs_view(r@) == select_entries(
                    self.entries().take(i as int),
                    PyConfiguration::default_entries(),
                    changed,
                ),
            decreases FIELD_COUNT - i,
        {
            let v = self.field_value(i);
            let keep = if changed {
                let dv = d.field_value(i);
                assert(d.entries()[i as int].1 == PyConfiguration::default_entries()[i as int].1);
                !value_eq(&v, &dv)
            } else {
                true
            };
            let ghost before = r@;
            if keep {
                let name = PyConfiguration::field_name(i).to_owned();
                r.push((name, v));
                assert(pairs_view(r@) =~= pairs_view(before).push((name@, v@)));
            }
            assert(self.entries().take(i as int + 1).drop_last() =~= self.entries().take(i as int));
            i = i + 1;
        }
        assert(self.entries().take(FIELD_COUNT as int) =~= self.entries());
        r
    }

    /// The value of the setting named `key`, if there is one.
    pub fn get_item(&self, key: &str) -> (r: Option<ConfigValue>)
        ensures
            match r {
                Some(v) => exists|i: int|
                    0 <= i < FIELD_COUNT && #[trigger] self.entries()[i] == (key@, v@),
                None => forall|i: int| 0 <= i < FIELD_COUNT ==> #[trigger] self.entries()[i].0 != key@,
            },
    {
        let mut i: usize = 0;
        while i < FIELD_COUNT
            invariant
                i <= FIELD_COUNT,
                forall|j: int| 0 <= j < i ==> #[trigger] self.entries()[j].0 != key@,
            decreases FIELD_COUNT - i,
        {
            if str_eq(PyConfiguration::field_name(i), key) {
                let v = self.field_value(i);
                assert(self.entries()[i as int] == (key@, v@));
                return Some(v);
            }
            i = i + 1;
        }
        None
    }

    /// Whether a setting is named `key`.
    pub fn contains_key(&self, key: &str) -> (r: bool)
        ensures
            r == (exists|i: int| 0 <= i < FIELD_COUNT && #[trigger] self.entries()[i].0 == key@),
    {
        let found = self.get_item(key);
        proof {
            if found is Some {
                let v = found->Some_0;
                let i = choose|i: int| 0 <= i < FIELD_COUNT && #[trigger] self.entries()[i] == (key@, v@);
                assert(self.entries()[i].0 == key@);
            }
        }
        found.is_some()
    }

    /// The number of settings.
    pub fn len(&self) -> (r: usize)
        ensures
            r == self.entries().len(),
    {
        FIELD_COUNT
    }

    /// The names of all settings, in declaration order.
    pub fn keys(&self) -> (r: Vec<String>)
        ensures
            r@.map_values(|s: String| s@) == self.entries().map_values(|e: Entry| e.0),
    {
        let mut r: Vec<String> = Vec::new();
        let mut i: usize = 0;
        while i < FIELD_COUNT
            invariant
                i <= FIELD_COUNT,
                r@.map_values(|s: String| s@) == self.entries().take(i as int).map_values(|e: Entry| e.0),
            decreases FIELD_COUNT - i,
        {
            let x = PyConfiguration::field_name(i).to_owned();
            let ghost before = r@;
            r.push(x);
            assert(r@.map_values(|s: String| s@) =~= before.map_values(|s: String| s@).push(x@));
            assert(self.entries().take(i as int + 1).map_values(|e: Entry| e.0) =~= self.entries().take(
                i as int,
            ).map_values(|e: Entry| e.0).push(self.entries()[i as int].0));
            i = i + 1;
        }
        assert(self.entries().take(FIELD_COUNT as int) =~= self.entries());
        r
    }

    /// The values of all settings, in declaration order.
    pub fn values(&self) -> (r: Vec<ConfigValue>)
        ensures
            r@.map_values(|v: ConfigValue| v@) == self.entries().map_values(|e: Entry| e.1),
    {
        let mut r: Vec<ConfigValue> = Vec::new();
        let mut i: usize = 0;
        while i < FIELD_COUNT
            invariant
                i <= FIELD_COUNT,
                r@.map_values(|v: ConfigValue| v@) == self.entries().take(i as int).map_values(|e: Entry| e.1),
            decreases FIELD_COUNT - i,
        {
            let x = self.field_value(i);
            let ghost before = r@;
            r.push(x);
            assert(r@.map_values(|v: ConfigValue| v@) =~= before.map_values(|v: ConfigValue| v@).push(x@));
            assert(self.entries().take(i as int + 1).map_values(|e: Entry| e.1) =~= self.entries().take(
                i as int,
            ).map_values(|e: Entry| e.1).push(self.entries()[i as int].1));
            i = i + 1;
        }
        assert(self.entries().take(FIELD_COUNT as int) =~= self.entries());
        r
    }
}

/// The written form of a configuration passes validation and resolves back to the same
/// settings: no other configuration has that written form.
pub proof fn lemma_round_trip(c: ResolvedConfiguration, raw: PyConfiguration)
    requires
        raw.describes(c),
    ensures
        raw.first_invalid() is None,
        forall|d: ResolvedConfiguration| raw.describes(d) ==> c.same_settings(&d),
{
    c.new_line_kind.lemma_token_names(raw.new_line_kind@);
    c.quote_style.lemma_token_names(raw.quote_style@);
    c.quote_props.lemma_token_names(raw.quote_props@);
    c.semi_colons.lemma_token_names(raw.semi_colons@);
    c.arrow_function_use_parentheses.lemma_token_names(raw.arrow_function_use_parentheses@);
    c.jsx_quote_style.lemma_token_names(raw.jsx_quote_style@);
    c.jsx_multi_line_parens.lemma_token_names(raw.jsx_multi_line_parens@);
    c.jsx_opening_element_bracket_position.lemma_token_names(raw.jsx_opening_element_bracket_position@);
    c.jsx_self_closing_element_bracket_position.lemma_token_names(raw.jsx_self_closing_element_bracket_position@);
    c.type_literal_separator_kind_single_line.lemma_token_names(raw.type_literal_separator_kind_single_line@);
    c.type_literal_separator_kind_multi_line.lemma_token_names(raw.type_literal_separator_kind_multi_line@);
    c.module_sort_import_declarations.lemma_token_names(raw.module_sort_import_declarations@);
    c.module_sort_export_declarations.lemma_token_names(raw.module_sort_export_declarations@);
    c.import_declaration_sort_named_imports.lemma_token_names(raw.import_declaration_sort_named_imports@);
    c.import_declaration_sort_type_only_imports.lemma_token_names(raw.import_declaration_sort_type_only_imports@);
    c.export_declaration_sort_named_exports.lemma_token_names(raw.export_declaration_sort_named_exports@);
    c.export_declaration_sort_type_only_exports.lemma_token_names(raw.export_declaration_sort_type_only_exports@);
    c.arrow_function_brace_position.lemma_token_names(raw.arrow_function_brace_position@);
    c.class_declaration_brace_position.lemma_token_names(raw.class_declaration_brace_position@);
    c.class_expression_brace_position.lemma_token_names(raw.class_expression_brace_position@);
    c.constructor_brace_position.lemma_token_names(raw.constructor_brace_position@);
    c.do_while_statement_brace_position.lemma_token_names(raw.do_while_statement_brace_position@);
    c.enum_declaration_brace_position.lemma_token_names(raw.enum_declaration_brace_position@);
    c.get_accessor_brace_position.lemma_token_names(raw.get_accessor_brace_position@);
    c.if_statement_brace_position.lemma_token_names(raw.if_statement_brace_position@);
    c.interface_declaration_brace_position.lemma_token_names(raw.interface_declaration_brace_position@);
    c.for_statement_brace_position.lemma_token_names(raw.for_statement_brace_position@);
    c.for_in_statement_brace_position.lemma_token_names(raw.for_in_statement_brace_position@);
    c.for_of_statement_brace_position.lemma_token_names(raw.for_of_statement_brace_position@);
    c.function_declaration_brace_position.lemma_token_names(raw.function_declaration_brace_position@);
    c.function_expression_brace_position.lemma_token_names(raw.function_expression_brace_position@);
    c.method_brace_position.lemma_token_names(raw.method_brace_position@);
    c.module_declaration_brace_position.lemma_token_names(raw.module_declaration_brace_position@);
    c.set_accessor_brace_position.lemma_token_names(raw.set_accessor_brace_position@);
    c.static_block_brace_position.lemma_token_names(raw.static_block_brace_position@);
    c.switch_case_brace_position.lemma_token_names(raw.switch_case_brace_position@);
    c.switch_statement_brace_position.lemma_token_names(raw.switch_statement_brace_position@);
    c.try_statement_brace_position.lemma_token_names(raw.try_statement_brace_position@);
    c.while_statement_brace_position.lemma_token_names(raw.while_statement_brace_position@);
    c.arguments_prefer_hanging.lemma_token_names(raw.arguments_prefer_hanging@);
    c.array_expression_prefer_hanging.lemma_token_names(raw.array_expression_prefer_hanging@);
    c.parameters_prefer_hanging.lemma_token_names(raw.parameters_prefer_hanging@);
    c.tuple_type_prefer_hanging.lemma_token_names(raw.tuple_type_prefer_hanging@);
    c.type_parameters_prefer_hanging.lemma_token_names(raw.type_parameters_prefer_hanging@);
    c.enum_declaration_member_spacing.lemma_token_names(raw.enum_declaration_member_spacing@);
    c.if_statement_next_control_flow_position.lemma_token_names(raw.if_statement_next_control_flow_position@);
    c.try_statement_next_control_flow_position.lemma_token_names(raw.try_statement_next_control_flow_position@);
    c.do_while_statement_next_control_flow_position.lemma_token_names(raw.do_while_statement_next_control_flow_position@);
    c.binary_expression_operator_position.lemma_token_names(raw.binary_expression_operator_position@);
    c.conditional_expression_operator_position.lemma_token_names(raw.conditional_expression_operator_position@);
    c.conditional_type_operator_position.lemma_token_names(raw.conditional_type_operator_position@);
    c.if_statement_single_body_position.lemma_token_names(raw.if_statement_single_body_position@);
    c.for_statement_single_body_position.lemma_token_names(raw.for_statement_single_body_position@);
    c.for_in_statement_single_body_position.lemma_token_names(raw.for_in_statement_single_body_position@);
    c.for_of_statement_single_body_position.lemma_token_names(raw.for_of_statement_single_body_position@);
    c.while_statement_single_body_position.lemma_token_names(raw.while_statement_single_body_position@);
    c.arguments_trailing_commas.lemma_token_names(raw.arguments_trailing_commas@);
    c.parameters_trailing_commas.lemma_token_names(raw.parameters_trailing_commas@);
    c.array_expression_trailing_commas.lemma_token_names(raw.array_expression_trailing_commas@);
    c.array_pattern_trailing_commas.lemma_token_names(raw.array_pattern_trailing_commas@);
    c.enum_declaration_trailing_commas.lemma_token_names(raw.enum_declaration_trailing_commas@);
    c.export_declaration_trailing_commas.lemma_token_names(raw.export_declaration_trailing_commas@);
    c.import_declaration_trailing_commas.lemma_token_names(raw.import_declaration_trailing_commas@);
    c.object_pattern_trailing_commas.lemma_token_names(raw.object_pattern_trailing_commas@);
    c.object_expression_trailing_commas.lemma_token_names(raw.object_expression_trailing_commas@);
    c.tuple_type_trailing_commas.lemma_token_names(raw.tuple_type_trailing_commas@);
    c.type_literal_trailing_commas.lemma_token_names(raw.type_literal_trailing_commas@);
    c.type_parameters_trailing_commas.lemma_token_names(raw.type_parameters_trailing_commas@);
    c.if_statement_use_braces.lemma_token_names(raw.if_statement_use_braces@);
    c.for_statement_use_braces.lemma_token_names(raw.for_statement_use_braces@);
    c.for_of_statement_use_braces.lemma_token_names(raw.for_of_statement_use_braces@);
    c.for_in_statement_use_braces.lemma_token_names(raw.for_in_statement_use_braces@);
    c.while_statement_use_braces.lemma_token_names(raw.while_statement_use_braces@);
    c.export_declaration_force_multi_line.lemma_token_names(raw.export_declaration_force_multi_line@);
    c.import_declaration_force_multi_line.lemma_token_names(raw.import_declaration_force_multi_line@);
    assert forall|d: ResolvedConfiguration| raw.describes(d) implies c.same_settings(&d) by {
        d.new_line_kind.lemma_token_names(raw.new_line_kind@);
        d.quote_style.lemma_token_names(raw.quote_style@);
        d.quote_props.lemma_token_names(raw.quote_props@);
        d.semi_colons.lemma_token_names(raw.semi_colons@);
        d.arrow_function_use_parentheses.lemma_token_names(raw.arrow_function_use_parentheses@);
        d.jsx_quote_style.lemma_token_names(raw.jsx_quote_style@);
        d.jsx_multi_line_parens.lemma_token_names(raw.jsx_multi_line_parens@);
        d.jsx_opening_element_bracket_position.lemma_token_names(raw.jsx_opening_element_bracket_position@);
        d.jsx_self_closing_element_bracket_position.lemma_token_names(raw.jsx_self_closing_element_bracket_position@);
        d.type_literal_separator_kind_single_line.lemma_token_names(raw.type_literal_separator_kind_single_line@);
        d.type_literal_separator_kind_multi_line.lemma_token_names(raw.type_literal_separator_kind_multi_line@);
        d.module_sort_import_declarations.lemma_token_names(raw.module_sort_import_declarations@);
        d.module_sort_export_declarations.lemma_token_names(raw.module_sort_export_declarations@);
        d.import_declaration_sort_named_imports.lemma_token_names(raw.import_declaration_sort_named_imports@);
        d.import_declaration_sort_type_only_imports.lemma_token_names(raw.import_declaration_sort_type_only_imports@);
        d.export_declaration_sort_named_exports.lemma_token_names(raw.export_declaration_sort_named_exports@);
        d.export_declaration_sort_type_only_exports.lemma_token_names(raw.export_declaration_sort_type_only_exports@);
        d.arrow_function_brace_position.lemma_token_names(raw.arrow_function_brace_position@);
        d.class_declaration_brace_position.lemma_token_names(raw.class_declaration_brace_position@);
        d.class_expression_brace_position.lemma_token_names(raw.class_expression_brace_position@);
        d.constructor_brace_position.lemma_token_names(raw.constructor_brace_position@);
        d.do_while_statement_brace_position.lemma_token_names(raw.do_while_statement_brace_position@);
        d.enum_declaration_brace_position.lemma_token_names(raw.enum_declaration_brace_position@);
        d.get_accessor_brace_position.lemma_token_names(raw.get_accessor_brace_position@);
        d.if_statement_brace_position.lemma_token_names(raw.if_statement_brace_position@);
        d.interface_declaration_brace_position.lemma_token_names(raw.interface_declaration_brace_position@);
        d.for_statement_brace_position.lemma_token_names(raw.for_statement_brace_position@);
        d.for_in_statement_brace_position.lemma_token_names(raw.for_in_statement_brace_position@);
        d.for_of_statement_brace_position.lemma_token_names(raw.for_of_statement_brace_position@);
        d.function_declaration_brace_position.lemma_token_names(raw.function_declaration_brace_position@);
        d.function_expression_brace_position.lemma_token_names(raw.function_expression_brace_position@);
        d.method_brace_position.lemma_token_names(raw.method_brace_position@);
        d.module_declaration_brace_position.lemma_token_names(raw.module_declaration_brace_position@);
        d.set_accessor_brace_position.lemma_token_names(raw.set_accessor_brace_position@);
        d.static_block_brace_position.lemma_token_names(raw.static_block_brace_position@);
        d.switch_case_brace_position.lemma_token_names(raw.switch_case_brace_position@);
        d.switch_statement_brace_position.lemma_token_names(raw.switch_statement_brace_position@);
        d.try_statement_brace_position.lemma_token_names(raw.try_statement_brace_position@);
        d.while_statement_brace_position.lemma_token_names(raw.while_statement_brace_position@);
        d.arguments_prefer_hanging.lemma_token_names(raw.arguments_prefer_hanging@);
        d.array_expression_prefer_hanging.lemma_token_names(raw.array_expression_prefer_hanging@);
        d.parameters_prefer_hanging.lemma_token_names(raw.parameters_prefer_hanging@);
        d.tuple_type_prefer_hanging.lemma_token_names(raw.tuple_type_prefer_hanging@);
        d.type_parameters_prefer_hanging.lemma_token_names(raw.type_parameters_prefer_hanging@);
        d.enum_declaration_member_spacing.lemma_token_names(raw.enum_declaration_member_spacing@);
        d.if_statement_next_control_flow_position.lemma_token_names(raw.if_statement_next_control_flow_position@);
        d.try_statement_next_control_flow_position.lemma_token_names(raw.try_statement_next_control_flow_position@);
        d.do_while_statement_next_control_flow_position.lemma_token_names(raw.do_while_statement_next_control_flow_position@);
        d.binary_expression_operator_position.lemma_token_names(raw.binary_expression_operator_position@);
        d.conditional_expression_operator_position.lemma_token_names(raw.conditional_expression_operator_position@);
        d.conditional_type_operator_position.lemma_token_names(raw.conditional_type_operator_position@);
        d.if_statement_single_body_position.lemma_token_names(raw.if_statement_single_body_position@);
        d.for_statement_single_body_position.lemma_token_names(raw.for_statement_single_body_position@);
        d.for_in_statement_single_body_position.lemma_token_names(raw.for_in_statement_single_body_position@);
        d.for_of_statement_single_body_position.lemma_token_names(raw.for_of_statement_single_body_position@);
        d.while_statement_single_body_position.lemma_token_names(raw.while_statement_single_body_position@);
        d.arguments_trailing_commas.lemma_token_names(raw.arguments_trailing_commas@);
        d.parameters_trailing_commas.lemma_token_names(raw.parameters_trailing_commas@);
        d.array_expression_trailing_commas.lemma_token_names(raw.array_expression_trailing_commas@);
        d.array_pattern_trailing_commas.lemma_token_names(raw.array_pattern_trailing_commas@);
        d.enum_declaration_trailing_commas.lemma_token_names(raw.enum_declaration_trailing_commas@);
        d.export_declaration_trailing_commas.lemma_token_names(raw.export_declaration_trailing_commas@);
        d.import_declaration_trailing_commas.lemma_token_names(raw.import_declaration_trailing_commas@);
        d.object_pattern_trailing_commas.lemma_token_names(raw.object_pattern_trailing_commas@);
        d.object_expression_trailing_commas.lemma_token_names(raw.object_expression_trailing_commas@);
        d.tuple_type_trailing_commas.lemma_token_names(raw.tuple_type_trailing_commas@);
        d.type_literal_trailing_commas.lemma_token_names(raw.type_literal_trailing_commas@);
        d.type_parameters_trailing_commas.lemma_token_names(raw.type_parameters_trailing_commas@);
        d.if_statement_use_braces.lemma_token_names(raw.if_statement_use_braces@);
        d.for_statement_use_braces.lemma_token_names(raw.for_statement_use_braces@);
        d.for_of_statement_use_braces.lemma_token_names(raw.for_of_statement_use_braces@);
        d.for_in_statement_use_braces.lemma_token_names(raw.for_in_statement_use_braces@);
        d.while_statement_use_braces.lemma_token_names(raw.while_statement_use_braces@);
        d.export_declaration_force_multi_line.lemma_token_names(raw.export_declaration_force_multi_line@);
        d.import_declaration_force_multi_line.lemma_token_names(raw.import_declaration_force_multi_line@);
    }
}

/// A written configuration with an out-of-set token is the written form of no configuration:
/// such a token is never read as some default value.
pub proof fn lemma_invalid_describes_nothing(raw: PyConfiguration, c: ResolvedConfiguration)
    requires
        raw.first_invalid() is Some,
    ensures
        !raw.describes(c),
{
    if raw.describes(c) {
        c.new_line_kind.lemma_token_names(raw.new_line_kind@);
        c.quote_style.lemma_token_names(raw.quote_style@);
        c.quote_props.lemma_token_names(raw.quote_props@);
        c.semi_colons.lemma_token_names(raw.semi_colons@);
        c.arrow_function_use_parentheses.lemma_token_names(raw.arrow_function_use_parentheses@);
        c.jsx_quote_style.lemma_token_names(raw.jsx_quote_style@);
        c.jsx_multi_line_parens.lemma_token_names(raw.jsx_multi_line_parens@);
        c.jsx_opening_element_bracket_position.lemma_token_names(raw.jsx_opening_element_bracket_position@);
        c.jsx_self_closing_element_bracket_position.lemma_token_names(raw.jsx_self_closing_element_bracket_position@);
        c.type_literal_separator_kind_single_line.lemma_token_names(raw.type_literal_separator_kind_single_line@);
        c.type_literal_separator_kind_multi_line.lemma_token_names(raw.type_literal_separator_kind_multi_line@);
        c.module_sort_import_declarations.lemma_token_names(raw.module_sort_import_declarations@);
        c.module_sort_export_declarations.lemma_token_names(raw.module_sort_export_declarations@);
        c.import_declaration_sort_named_imports.lemma_token_names(raw.import_declaration_sort_named_imports@);
        c.import_declaration_sort_type_only_imports.lemma_token_names(raw.import_declaration_sort_type_only_imports@);
        c.export_declaration_sort_named_exports.lemma_token_names(raw.export_declaration_sort_named_exports@);
        c.export_declaration_sort_type_only_exports.lemma_token_names(raw.export_declaration_sort_type_only_exports@);
        c.arrow_function_brace_position.lemma_token_names(raw.arrow_function_brace_position@);
        c.class_declaration_brace_position.lemma_token_names(raw.class_declaration_brace_position@);
        c.class_expression_brace_position.lemma_token_names(raw.class_expression_brace_position@);
        c.constructor_brace_position.lemma_token_names(raw.constructor_brace_position@);
        c.do_while_statement_brace_position.lemma_token_names(raw.do_while_statement_brace_position@);
        c.enum_declaration_brace_position.lemma_token_names(raw.enum_declaration_brace_position@);
        c.get_accessor_brace_position.lemma_token_names(raw.get_accessor_brace_position@);
        c.if_statement_brace_position.lemma_token_names(raw.if_statement_brace_position@);
        c.interface_declaration_brace_position.lemma_token_names(raw.interface_declaration_brace_position@);
        c.for_statement_brace_position.lemma_token_names(raw.for_statement_brace_position@);
        c.for_in_statement_brace_position.lemma_token_names(raw.for_in_statement_brace_position@);
        c.for_of_statement_brace_position.lemma_token_names(raw.for_of_statement_brace_position@);
        c.function_declaration_brace_position.lemma_token_names(raw.function_declaration_brace_position@);
        c.function_expression_brace_position.lemma_token_names(raw.function_expression_brace_position@);
        c.method_brace_position.lemma_token_names(raw.method_brace_position@);
        c.module_declaration_brace_position.lemma_token_names(raw.module_declaration_brace_position@);
        c.set_accessor_brace_position.lemma_token_names(raw.set_accessor_brace_position@);
        c.static_block_brace_position.lemma_token_names(raw.static_block_brace_position@);
        c.switch_case_brace_position.lemma_token_names(raw.switch_case_brace_position@);
        c.switch_statement_brace_position.lemma_token_names(raw.switch_statement_brace_position@);
        c.try_statement_brace_position.lemma_token_names(raw.try_statement_brace_position@);
        c.while_statement_brace_position.lemma_token_names(raw.while_statement_brace_position@);
        c.arguments_prefer_hanging.lemma_token_names(raw.arguments_prefer_hanging@);
        c.array_expression_prefer_hanging.lemma_token_names(raw.array_expression_prefer_hanging@);
        c.parameters_prefer_hanging.lemma_token_names(raw.parameters_prefer_hanging@);
        c.tuple_type_prefer_hanging.lemma_token_names(raw.tuple_type_prefer_hanging@);
        c.type_parameters_prefer_hanging.lemma_token_names(raw.type_parameters_prefer_hanging@);
        c.enum_declaration_member_spacing.lemma_token_names(raw.enum_declaration_member_spacing@);
        c.if_statement_next_control_flow_position.lemma_token_names(raw.if_statement_next_control_flow_position@);
        c.try_statement_next_control_flow_position.lemma_token_names(raw.try_statement_next_control_flow_position@);
        c.do_while_statement_next_control_flow_position.lemma_token_names(raw.do_while_statement_next_control_flow_position@);
        c.binary_expression_operator_position.lemma_token_names(raw.binary_expression_operator_position@);
        c.conditional_expression_operator_position.lemma_token_names(raw.conditional_expression_operator_position@);
        c.conditional_type_operator_position.lemma_token_names(raw.conditional_type_operator_position@);
        c.if_statement_single_body_position.lemma_token_names(raw.if_statement_single_body_position@);
        c.for_statement_single_body_position.lemma_token_names(raw.for_statement_single_body_position@);
        c.for_in_statement_single_body_position.lemma_token_names(raw.for_in_statement_single_body_position@);
        c.for_of_statement_single_body_position.lemma_token_names(raw.for_of_statement_single_body_position@);
        c.while_statement_single_body_position.lemma_token_names(raw.while_statement_single_body_position@);
        c.arguments_trailing_commas.lemma_token_names(raw.arguments_trailing_commas@);
        c.parameters_trailing_commas.lemma_token_names(raw.parameters_trailing_commas@);
        c.array_expression_trailing_commas.lemma_token_names(raw.array_expression_trailing_commas@);
        c.array_pattern_trailing_commas.lemma_token_names(raw.array_pattern_trailing_commas@);
        c.enum_declaration_trailing_commas.lemma_token_names(raw.enum_declaration_trailing_commas@);
        c.export_declaration_trailing_commas.lemma_token_names(raw.export_declaration_trailing_commas@);
        c.import_declaration_trailing_commas.lemma_token_names(raw.import_declaration_trailing_commas@);
        c.object_pattern_trailing_commas.lemma_token_names(raw.object_pattern_trailing_commas@);
        c.object_expression_trailing_commas.lemma_token_names(raw.object_expression_trailing_commas@);
        c.tuple_type_trailing_commas.lemma_token_names(raw.tuple_type_trailing_commas@);
        c.type_literal_trailing_commas.lemma_token_names(raw.type_literal_trailing_commas@);
        c.type_parameters_trailing_commas.lemma_token_names(raw.type_parameters_trailing_commas@);
        c.if_statement_use_braces.lemma_token_names(raw.if_statement_use_braces@);
        c.for_statement_use_braces.lemma_token_names(raw.for_statement_use_braces@);
        c.for_of_statement_use_braces.lemma_token_names(raw.for_of_statement_use_braces@);
        c.for_in_statement_use_braces.lemma_token_names(raw.for_in_statement_use_braces@);
        c.while_statement_use_braces.lemma_token_names(raw.while_statement_use_braces@);
        c.export_declaration_force_multi_line.lemma_token_names(raw.export_declaration_force_multi_line@);
        c.import_declaration_force_multi_line.lemma_token_names(raw.import_declaration_force_multi_line@);
    }
}

/// The default written configuration passes validation and resolves to the recommended
/// configuration.
pub proof fn lemma_default_is_recommended(raw: PyConfiguration, c: ResolvedConfiguration)
    requires
        raw.is_default(),
        raw.describes(c),
    ensures
        raw.first_invalid() is None,
        c.is_recommended(),
{
    assert(raw.entries()[0] == PyConfiguration::default_entries()[0]);
    assert(raw.entries()[1] == PyConfiguration::default_entries()[1]);
    assert(raw.entries()[2] == PyConfiguration::default_entries()[2]);
    assert(raw.entries()[3] == PyConfiguration::default_entries()[3]);
    assert(raw.entries()[4] == PyConfiguration::default_entries()[4]);
    assert(raw.entries()[5] == PyConfiguration::default_entries()[5]);
    assert(raw.entries()[6] == PyConfiguration::default_entries()[6]);
    assert(raw.entries()[7] == PyConfiguration::default_entries()[7]);
    assert(raw.entries()[8] == PyConfiguration::default_entries()[8]);
    assert(raw.entries()[9] == PyConfiguration::default_entries()[9]);
    assert(raw.entries()[10] == PyConfiguration::default_entries()[10]);
    assert(raw.entries()[11] == PyConfiguration::default_entries()[11]);
    assert(raw.entries()[12] == PyConfiguration::default_entries()[12]);
    assert(raw.entries()[13] == PyConfiguration::default_entries()[13]);
    assert(raw.entries()[14] == PyConfiguration::default_entries()[14]);
    assert(raw.entries()[15] == PyConfiguration::default_entries()[15]);
    assert(raw.entries()[16] == PyConfiguration::default_entries()[16]);
    assert(raw.entries()[17] == PyConfiguration::default_entries()[17]);
    assert(raw.entries()[18] == PyConfiguration::default_entries()[18]);
    assert(raw.entries()[19] == PyConfiguration::default_entries()[19]);
    assert(raw.entries()[20] == PyConfiguration::default_entries()[20]);
    assert(raw.entries()[21] == PyConfiguration::default_entries()[21]);
    assert(raw.entries()[22] == PyConfiguration::default_entries()[22]);
    assert(raw.entries()[23] == PyConfiguration::default_entries()[23]);
    assert(raw.entries()[24] == PyConfiguration::default_entries()[24]);
    assert(raw.entries()[25] == PyConfiguration::default_entries()[25]);
    assert(raw.entries()[26] == PyConfiguration::default_entries()[26]);
    assert(raw.entries()[27] == PyConfiguration::default_entries()[27]);
    assert(raw.entries()[28] == PyConfiguration::default_entries()[28]);
    assert(raw.entries()[29] == PyConfiguration::default_entries()[29]);
    assert(raw.entries()[30] == PyConfiguration::default_entries()[30]);
    assert(raw.entries()[31] == PyConfiguration::default_entries()[31]);
    assert(raw.entries()[32] == PyConfiguration::default_entries()[32]);
    assert(raw.entries()[33] == PyConfiguration::default_entries()[33]);
    assert(raw.entries()[34] == PyConfiguration::default_entries()[34]);
    assert(raw.entries()[35] == PyConfiguration::default_entries()[35]);
    assert(raw.entries()[36] == PyConfiguration::default_entries()[36]);
    assert(raw.entries()[37] == PyConfiguration::default_entries()[37]);
    assert(raw.entries()[38] == PyConfiguration::default_entries()[38]);
    assert(raw.entries()[39] == PyConfiguration::default_entries()[39]);
    assert(raw.entries()[40] == PyConfiguration::default_entries()[40]);
    assert(raw.entries()[41] == PyConfiguration::default_entries()[41]);
    assert(raw.entries()[42] == PyConfiguration::default_entries()[42]);
    assert(raw.entries()[43] == PyConfiguration::default_entries()[43]);
    assert(raw.entries()[44] == PyConfiguration::default_entries()[44]);
    assert(raw.entries()[45] == PyConfiguration::default_entries()[45]);
    assert(raw.entries()[46] == PyConfiguration::default_entries()[46]);
    assert(raw.entries()[47] == PyConfiguration::default_entries()[47]);
    assert(raw.entries()[48] == PyConfiguration::default_entries()[48]);
    assert(raw.entries()[49] == PyConfiguration::default_entries()[49]);
    assert(raw.entries()[50] == PyConfiguration::default_entries()[50]);
    assert(raw.entries()[51] == PyConfiguration::default_entries()[51]);
    assert(raw.entries()[52] == PyConfiguration::default_entries()[52]);
    assert(raw.entries()[53] == PyConfiguration::default_entries()[53]);
    assert(raw.entries()[54] == PyConfiguration::default_entries()[54]);
    assert(raw.entries()[55] == PyConfiguration::default_entries()[55]);
    assert(raw.entries()[56] == PyConfiguration::default_entries()[56]);
    assert(raw.entries()[57] == PyConfiguration::default_entries()[57]);
    assert(raw.entries()[58] == PyConfiguration::default_entries()[58]);
    assert(raw.entries()[59] == PyConfiguration::default_entries()[59]);
    assert(raw.entries()[60] == PyConfiguration::default_entries()[60]);
    assert(raw.entries()[61] == PyConfiguration::default_entries()[61]);
    assert(raw.entries()[62] == PyConfiguration::default_entries()[62]);
    assert(raw.entries()[63] == PyConfiguration::default_entries()[63]);
    assert(raw.entries()[64] == PyConfiguration::default_entries()[64]);
    assert(raw.entries()[65] == PyConfiguration::default_entries()[65]);
    assert(raw.entries()[66] == PyConfiguration::default_entries()[66]);
    assert(raw.entries()[67] == PyConfiguration::default_entries()[67]);
    assert(raw.entries()[68] == PyConfiguration::default_entries()[68]);
    assert(raw.entries()[69] == PyConfiguration::default_entries()[69]);
    assert(raw.entries()[70] == PyConfiguration::default_entries()[70]);
    assert(raw.entries()[71] == PyConfiguration::default_entries()[71]);
    assert(raw.entries()[72] == PyConfiguration::default_entries()[72]);
    assert(raw.entries()[73] == PyConfiguration::default_entries()[73]);
    assert(raw.entries()[74] == PyConfiguration::default_entries()[74]);
    assert(raw.entries()[75] == PyConfiguration::default_entries()[75]);
    assert(raw.entries()[76] == PyConfiguration::default_entries()[76]);
    assert(raw.entries()[77] == PyConfiguration::default_entries()[77]);
    assert(raw.entries()[78] == PyConfiguration::default_entries()[78]);
    assert(raw.entries()[79] == PyConfiguration::default_entries()[79]);
    assert(raw.entries()[80] == PyConfiguration::default_entries()[80]);
    assert(raw.entries()[81] == PyConfiguration::default_entries()[81]);
    assert(raw.entries()[82] == PyConfiguration::default_entries()[82]);
    assert(raw.entries()[83] == PyConfiguration::default_entries()[83]);
    assert(raw.entries()[84] == PyConfiguration::default_entries()[84]);
    assert(raw.entries()[85] == PyConfiguration::default_entries()[85]);
    assert(raw.entries()[86] == PyConfiguration::default_entries()[86]);
    assert(raw.entries()[87] == PyConfiguration::default_entries()[87]);
    assert(raw.entries()[88] == PyConfiguration::default_entries()[88]);
    assert(raw.entries()[89] == PyConfiguration::default_entries()[89]);
    assert(raw.entries()[90] == PyConfiguration::default_entries()[90]);
    assert(raw.entries()[91] == PyConfiguration::default_entries()[91]);
    assert(raw.entries()[92] == PyConfiguration::default_entries()[92]);
    assert(raw.entries()[93] == PyConfiguration::default_entries()[93]);
    assert(raw.entries()[94] == PyConfiguration::default_entries()[94]);
    assert(raw.entries()[95] == PyConfiguration::default_entries()[95]);
    assert(raw.entries()[96] == PyConfiguration::default_entries()[96]);
    assert(raw.entries()[97] == PyConfiguration::default_entries()[97]);
    assert(raw.entries()[98] == PyConfiguration::default_entries()[98]);
    assert(raw.entries()[99] == PyConfiguration::default_entries()[99]);
    assert(raw.entries()[100] == PyConfiguration::default_entries()[100]);
    assert(raw.entries()[101] == PyConfiguration::default_entries()[101]);
    assert(raw.entries()[102] == PyConfiguration::default_entries()[102]);
    assert(raw.entries()[103] == PyConfiguration::default_entries()[103]);
    assert(raw.entries()[104] == PyConfiguration::default_entries()[104]);
    assert(raw.entries()[105] == PyConfiguration::default_entries()[105]);
    assert(raw.entries()[106] == PyConfiguration::default_entries()[106]);
    assert(raw.entries()[107] == PyConfiguration::default_entries()[107]);
    assert(raw.entries()[108] == PyConfiguration::default_entries()[108]);
    assert(raw.entries()[109] == PyConfiguration::default_entries()[109]);
    assert(raw.entries()[110] == PyConfiguration::default_entries()[110]);
    assert(raw.entries()[111] == PyConfiguration::default_entries()[111]);
    assert(raw.entries()[112] == PyConfiguration::default_entries()[112]);
    assert(raw.entries()[113] == PyConfiguration::default_entries()[113]);
    assert(raw.entries()[114] == PyConfiguration::default_entries()[114]);
    assert(raw.entries()[115] == PyConfiguration::default_entries()[115]);
    assert(raw.entries()[116] == PyConfiguration::default_entries()[116]);
    assert(raw.entries()[117] == PyConfiguration::default_entries()[117]);
    assert(raw.entries()[118] == PyConfiguration::default_entries()[118]);
    assert(raw.entries()[119] == PyConfiguration::default_entries()[119]);
    assert(raw.entries()[120] == PyConfiguration::default_entries()[120]);
    assert(raw.entries()[121] == PyConfiguration::default_entries()[121]);
    assert(raw.entries()[122] == PyConfiguration::default_entries()[122]);
    assert(raw.entries()[123] == PyConfiguration::default_entries()[123]);
    assert(raw.entries()[124] == PyConfiguration::default_entries()[124]);
    assert(raw.entries()[125] == PyConfiguration::default_entries()[125]);
    assert(raw.entries()[126] == PyConfiguration::default_entries()[126]);
    assert(raw.entries()[127] == PyConfiguration::default_entries()[127]);
    assert(raw.entries()[128] == PyConfiguration::default_entries()[128]);
    assert(raw.entries()[129] == PyConfiguration::default_entries()[129]);
    assert(raw.entries()[130] == PyConfiguration::default_entries()[130]);
    assert(raw.entries()[131] == PyConfiguration::default_entries()[131]);
    assert(raw.entries()[132] == PyConfiguration::default_entries()[132]);
    assert(raw.entries()[133] == PyConfiguration::default_entries()[133]);
    assert(raw.entries()[134] == PyConfiguration::default_entries()[134]);
    assert(raw.entries()[135] == PyConfiguration::default_entries()[135]);
    assert(raw.entries()[136] == PyConfiguration::default_entries()[136]);
    assert(raw.entries()[137] == PyConfiguration::default_entries()[137]);
    assert(raw.entries()[138] == PyConfiguration::default_entries()[138]);
    assert(raw.entries()[139] == PyConfiguration::default_entries()[139]);
    assert(raw.entries()[140] == PyConfiguration::default_entries()[140]);
    assert(raw.entries()[141] == PyConfiguration::default_entries()[141]);
    assert(raw.entries()[142] == PyConfiguration::default_entries()[142]);
    assert(raw.entries()[143] == PyConfiguration::default_entries()[143]);
    assert(raw.entries()[144] == PyConfiguration::default_entries()[144]);
    assert(raw.entries()[145] == PyConfiguration::default_entries()[145]);
    assert(raw.entries()[146] == PyConfiguration::default_entries()[146]);
    assert(raw.entries()[147] == PyConfiguration::default_entries()[147]);
    assert(raw.entries()[148] == PyConfiguration::default_entries()[148]);
    assert(raw.entries()[149] == PyConfiguration::default_entries()[149]);
    assert(raw.entries()[150] == PyConfiguration::default_entries()[150]);
    assert(raw.entries()[151] == PyConfiguration::default_entries()[151]);
    assert(raw.entries()[152] == PyConfiguration::default_entries()[152]);
    assert(raw.entries()[153] == PyConfiguration::default_entries()[153]);
    assert(raw.entries()[154] == PyConfiguration::default_entries()[154]);
    assert(raw.entries()[155] == PyConfiguration::default_entries()[155]);
    assert(raw.entries()[156] == PyConfiguration::default_entries()[156]);
    assert(raw.entries()[157] == PyConfiguration::default_entries()[157]);
    assert(raw.entries()[158] == PyConfiguration::default_entries()[158]);
    assert(raw.entries()[159] == PyConfiguration::default_entries()[159]);
    assert(raw.entries()[160] == PyConfiguration::default_entries()[160]);
    assert(raw.entries()[161] == PyConfiguration::default_entries()[161]);
    assert(raw.entries()[162] == PyConfiguration::default_entries()[162]);
    assert(raw.entries()[163] == PyConfiguration::default_entries()[163]);
    assert(raw.entries()[164] == PyConfiguration::default_entries()[164]);
    assert(raw.entries()[165] == PyConfiguration::default_entries()[165]);
    assert(raw.entries()[166] == PyConfiguration::default_entries()[166]);
    assert(raw.entries()[167] == PyConfiguration::default_entries()[167]);
    assert(raw.entries()[168] == PyConfiguration::default_entries()[168]);
    assert(raw.entries()[169] == PyConfiguration::default_entries()[169]);
    assert(raw.entries()[170] == PyConfiguration::default_entries()[170]);
    assert(raw.entries()[171] == PyConfiguration::default_entries()[171]);
    assert(raw.entries()[172] == PyConfiguration::default_entries()[172]);
    NewLineKind::LineFeed.lemma_token_names(raw.new_line_kind@);
    c.new_line_kind.lemma_token_names(raw.new_line_kind@);
    QuoteStyle::AlwaysDouble.lemma_token_names(raw.quote_style@);
    c.quote_style.lemma_token_names(raw.quote_style@);
    QuoteProps::Preserve.lemma_token_names(raw.quote_props@);
    c.quote_props.lemma_token_names(raw.quote_props@);
    SemiColons::Prefer.lemma_token_names(raw.semi_colons@);
    c.semi_colons.lemma_token_names(raw.semi_colons@);
    UseParentheses::Maintain.lemma_token_names(raw.arrow_function_use_parentheses@);
    c.arrow_function_use_parentheses.lemma_token_names(raw.arrow_function_use_parentheses@);
    JsxQuoteStyle::PreferDouble.lemma_token_names(raw.jsx_quote_style@);
    c.jsx_quote_style.lemma_token_names(raw.jsx_quote_style@);
    JsxMultiLineParens::Prefer.lemma_token_names(raw.jsx_multi_line_parens@);
    c.jsx_multi_line_parens.lemma_token_names(raw.jsx_multi_line_parens@);
    SameOrNextLinePosition::NextLine.lemma_token_names(raw.jsx_opening_element_bracket_position@);
    c.jsx_opening_element_bracket_position.lemma_token_names(raw.jsx_opening_element_bracket_position@);
    SameOrNextLinePosition::NextLine.lemma_token_names(raw.jsx_self_closing_element_bracket_position@);
    c.jsx_self_closing_element_bracket_position.lemma_token_names(raw.jsx_self_closing_element_bracket_position@);
    SemiColonOrComma::SemiColon.lemma_token_names(raw.type_literal_separator_kind_single_line@);
    c.type_literal_separator_kind_single_line.lemma_token_names(raw.type_literal_separator_kind_single_line@);
    SemiColonOrComma::SemiColon.lemma_token_names(raw.type_literal_separator_kind_multi_line@);
    c.type_literal_separator_kind_multi_line.lemma_token_names(raw.type_literal_separator_kind_multi_line@);
    SortOrder::CaseInsensitive.lemma_token_names(raw.module_sort_import_declarations@);
    c.module_sort_import_declarations.lemma_token_names(raw.module_sort_import_declarations@);
    SortOrder::CaseInsensitive.lemma_token_names(raw.module_sort_export_declarations@);
    c.module_sort_export_declarations.lemma_token_names(raw.module_sort_export_declarations@);
    SortOrder::CaseInsensitive.lemma_token_names(raw.import_declaration_sort_named_imports@);
    c.import_declaration_sort_named_imports.lemma_token_names(raw.import_declaration_sort_named_imports@);
    NamedTypeImportsExportsOrder::Unordered.lemma_token_names(raw.import_declaration_sort_type_only_imports@);
    c.import_declaration_sort_type_only_imports.lemma_token_names(raw.import_declaration_sort_type_only_imports@);
    SortOrder::CaseInsensitive.lemma_token_names(raw.export_declaration_sort_named_exports@);
    c.export_declaration_sort_named_exports.lemma_token_names(raw.export_declaration_sort_named_exports@);
    NamedTypeImportsExportsOrder::Unordered.lemma_token_names(raw.export_declaration_sort_type_only_exports@);
    c.export_declaration_sort_type_only_exports.lemma_token_names(raw.export_declaration_sort_type_only_exports@);
    BracePosition::SameLineUnlessHanging.lemma_token_names(raw.arrow_function_brace_position@);
    c.arrow_function_brace_position.lemma_token_names(raw.arrow_function_brace_position@);
    BracePosition::SameLineUnlessHanging.lemma_token_names(raw.class_declaration_brace_position@);
    c.class_declaration_brace_position.lemma_token_names(raw.class_declaration_brace_position@);
    BracePosition::SameLineUnlessHanging.lemma_token_names(raw.class_expression_brace_position@);
    c.class_expression_brace_position.lemma_token_names(raw.class_expression_brace_position@);
    BracePosition::SameLineUnlessHanging.lemma_token_names(raw.constructor_brace_position@);
    c.constructor_brace_position.lemma_token_names(raw.constructor_brace_position@);
    BracePosition::SameLineUnlessHanging.lemma_token_names(raw.do_while_statement_brace_position@);
    c.do_while_statement_brace_position.lemma_token_names(raw.do_while_statement_brace_position@);
    BracePosition::SameLineUnlessHanging.lemma_token_names(raw.enum_declaration_brace_position@);
    c.enum_declaration_brace_position.lemma_token_names(raw.enum_declaration_brace_position@);
    BracePosition::SameLineUnlessHanging.lemma_token_names(raw.get_accessor_brace_position@);
    c.get_accessor_brace_position.lemma_token_names(raw.get_accessor_brace_position@);
    BracePosition::SameLineUnlessHanging.lemma_token_names(raw.if_statement_brace_position@);
    c.if_statement_brace_position.lemma_token_names(raw.if_statement_brace_position@);
    BracePosition::SameLineUnlessHanging.lemma_token_names(raw.interface_declaration_brace_position@);
    c.interface_declaration_brace_position.lemma_token_names(raw.interface_declaration_brace_position@);
    BracePosition::SameLineUnlessHanging.lemma_token_names(raw.for_statement_brace_position@);
    c.for_statement_brace_position.lemma_token_names(raw.for_statement_brace_position@);
    BracePosition::SameLineUnlessHanging.lemma_token_names(raw.for_in_statement_brace_position@);
    c.for_in_statement_brace_position.lemma_token_names(raw.for_in_statement_brace_position@);
    BracePosition::SameLineUnlessHanging.lemma_token_names(raw.for_of_statement_brace_position@);
    c.for_of_statement_brace_position.lemma_token_names(raw.for_of_statement_brace_position@);
    BracePosition::SameLineUnlessHanging.lemma_token_names(raw.function_declaration_brace_position@);
    c.function_declaration_brace_position.lemma_token_names(raw.function_declaration_brace_position@);
    BracePosition::SameLineUnlessHanging.lemma_token_names(raw.function_expression_brace_position@);
    c.function_expression_brace_position.lemma_token_names(raw.function_expression_brace_position@);
    BracePosition::SameLineUnlessHanging.lemma_token_names(raw.method_brace_position@);
    c.method_brace_position.lemma_token_names(raw.method_brace_position@);
    BracePosition::SameLineUnlessHanging.lemma_token_names(raw.module_declaration_brace_position@);
    c.module_declaration_brace_position.lemma_token_names(raw.module_declaration_brace_position@);
    BracePosition::SameLineUnlessHanging.lemma_token_names(raw.set_accessor_brace_position@);
    c.set_accessor_brace_position.lemma_token_names(raw.set_accessor_brace_position@);
    BracePosition::SameLineUnlessHanging.lemma_token_names(raw.static_block_brace_position@);
    c.static_block_brace_position.lemma_token_names(raw.static_block_brace_position@);
    BracePosition::SameLineUnlessHanging.lemma_token_names(raw.switch_case_brace_position@);
    c.switch_case_brace_position.lemma_token_names(raw.switch_case_brace_position@);
    BracePosition::SameLineUnlessHanging.lemma_token_names(raw.switch_statement_brace_position@);
    c.switch_statement_brace_position.lemma_token_names(raw.switch_statement_brace_position@);
    BracePosition::SameLineUnlessHanging.lemma_token_names(raw.try_statement_brace_position@);
    c.try_statement_brace_position.lemma_token_names(raw.try_statement_brace_position@);
    BracePosition::SameLineUnlessHanging.lemma_token_names(raw.while_statement_brace_position@);
    c.while_statement_brace_position.lemma_token_names(raw.while_statement_brace_position@);
    PreferHanging::Never.lemma_token_names(raw.arguments_prefer_hanging@);
    c.arguments_prefer_hanging.lemma_token_names(raw.arguments_prefer_hanging@);
    PreferHanging::Never.lemma_token_names(raw.array_expression_prefer_hanging@);
    c.array_expression_prefer_hanging.lemma_token_names(raw.array_expression_prefer_hanging@);
    PreferHanging::Never.lemma_token_names(raw.parameters_prefer_hanging@);
    c.parameters_prefer_hanging.lemma_token_names(raw.parameters_prefer_hanging@);
    PreferHanging::Never.lemma_token_names(raw.tuple_type_prefer_hanging@);
    c.tuple_type_prefer_hanging.lemma_token_names(raw.tuple_type_prefer_hanging@);
    PreferHanging::Never.lemma_token_names(raw.type_parameters_prefer_hanging@);
    c.type_parameters_prefer_hanging.lemma_token_names(raw.type_parameters_prefer_hanging@);
    MemberSpacing::Maintain.lemma_token_names(raw.enum_declaration_member_spacing@);
    c.enum_declaration_member_spacing.lemma_token_names(raw.enum_declaration_member_spacing@);
    NextControlFlowPosition::SameLine.lemma_token_names(raw.if_statement_next_control_flow_position@);
    c.if_statement_next_control_flow_position.lemma_token_names(raw.if_statement_next_control_flow_position@);
    NextControlFlowPosition::SameLine.lemma_token_names(raw.try_statement_next_control_flow_position@);
    c.try_statement_next_control_flow_position.lemma_token_names(raw.try_statement_next_control_flow_position@);
    NextControlFlowPosition::SameLine.lemma_token_names(raw.do_while_statement_next_control_flow_position@);
    c.do_while_statement_next_control_flow_position.lemma_token_names(raw.do_while_statement_next_control_flow_position@);
    OperatorPosition::NextLine.lemma_token_names(raw.binary_expression_operator_position@);
    c.binary_expression_operator_position.lemma_token_names(raw.binary_expression_operator_position@);
    OperatorPosition::NextLine.lemma_token_names(raw.conditional_expression_operator_position@);
    c.conditional_expression_operator_position.lemma_token_names(raw.conditional_expression_operator_position@);
    OperatorPosition::NextLine.lemma_token_names(raw.conditional_type_operator_position@);
    c.conditional_type_operator_position.lemma_token_names(raw.conditional_type_operator_position@);
    SameOrNextLinePosition::Maintain.lemma_token_names(raw.if_statement_single_body_position@);
    c.if_statement_single_body_position.lemma_token_names(raw.if_statement_single_body_position@);
    SameOrNextLinePosition::Maintain.lemma_token_names(raw.for_statement_single_body_position@);
    c.for_statement_single_body_position.lemma_token_names(raw.for_statement_single_body_position@);
    SameOrNextLinePosition::Maintain.lemma_token_names(raw.for_in_statement_single_body_position@);
    c.for_in_statement_single_body_position.lemma_token_names(raw.for_in_statement_single_body_position@);
    SameOrNextLinePosition::Maintain.lemma_token_names(raw.for_of_statement_single_body_position@);
    c.for_of_statement_single_body_position.lemma_token_names(raw.for_of_statement_single_body_position@);
    SameOrNextLinePosition::Maintain.lemma_token_names(raw.while_statement_single_body_position@);
    c.while_statement_single_body_position.lemma_token_names(raw.while_statement_single_body_position@);
    TrailingCommas::OnlyMultiLine.lemma_token_names(raw.arguments_trailing_commas@);
    c.arguments_trailing_commas.lemma_token_names(raw.arguments_trailing_commas@);
    TrailingCommas::OnlyMultiLine.lemma_token_names(raw.parameters_trailing_commas@);
    c.parameters_trailing_commas.lemma_token_names(raw.parameters_trailing_commas@);
    TrailingCommas::OnlyMultiLine.lemma_token_names(raw.array_expression_trailing_commas@);
    c.array_expression_trailing_commas.lemma_token_names(raw.array_expression_trailing_commas@);
    TrailingCommas::OnlyMultiLine.lemma_token_names(raw.array_pattern_trailing_commas@);
    c.array_pattern_trailing_commas.lemma_token_names(raw.array_pattern_trailing_commas@);
    TrailingCommas::OnlyMultiLine.lemma_token_names(raw.enum_declaration_trailing_commas@);
    c.enum_declaration_trailing_commas.lemma_token_names(raw.enum_declaration_trailing_commas@);
    TrailingCommas::OnlyMultiLine.lemma_token_names(raw.export_declaration_trailing_commas@);
    c.export_declaration_trailing_commas.lemma_token_names(raw.export_declaration_trailing_commas@);
    TrailingCommas::OnlyMultiLine.lemma_token_names(raw.import_declaration_trailing_commas@);
    c.import_declaration_trailing_commas.lemma_token_names(raw.import_declaration_trailing_commas@);
    TrailingCommas::OnlyMultiLine.lemma_token_names(raw.object_pattern_trailing_commas@);
    c.object_pattern_trailing_commas.lemma_token_names(raw.object_pattern_trailing_commas@);
    TrailingCommas::OnlyMultiLine.lemma_token_names(raw.object_expression_trailing_commas@);
    c.object_expression_trailing_commas.lemma_token_names(raw.object_expression_trailing_commas@);
    TrailingCommas::OnlyMultiLine.lemma_token_names(raw.tuple_type_trailing_commas@);
    c.tuple_type_trailing_commas.lemma_token_names(raw.tuple_type_trailing_commas@);
    TrailingCommas::OnlyMultiLine.lemma_token_names(raw.type_literal_trailing_commas@);
    c.type_literal_trailing_commas.lemma_token_names(raw.type_literal_trailing_commas@);
    TrailingCommas::OnlyMultiLine.lemma_token_names(raw.type_parameters_trailing_commas@);
    c.type_parameters_trailing_commas.lemma_token_names(raw.type_parameters_trailing_commas@);
    UseBraces::WhenNotSingleLine.lemma_token_names(raw.if_statement_use_braces@);
    c.if_statement_use_braces.lemma_token_names(raw.if_statement_use_braces@);
    UseBraces::WhenNotSingleLine.lemma_token_names(raw.for_statement_use_braces@);
    c.for_statement_use_braces.lemma_token_names(raw.for_statement_use_braces@);
    UseBraces::WhenNotSingleLine.lemma_token_names(raw.for_of_statement_use_braces@);
    c.for_of_statement_use_braces.lemma_token_names(raw.for_of_statement_use_braces@);
    UseBraces::WhenNotSingleLine.lemma_token_names(raw.for_in_statement_use_braces@);
    c.for_in_statement_use_braces.lemma_token_names(raw.for_in_statement_use_braces@);
    UseBraces::WhenNotSingleLine.lemma_token_names(raw.while_statement_use_braces@);
    c.while_statement_use_braces.lemma_token_names(raw.while_statement_use_braces@);
    ForceMultiLine::Never.lemma_token_names(raw.export_declaration_force_multi_line@);
    c.export_declaration_force_multi_line.lemma_token_names(raw.export_declaration_force_multi_line@);
    ForceMultiLine::Never.lemma_token_names(raw.import_declaration_force_multi_line@);
    c.import_declaration_force_multi_line.lemma_token_names(raw.import_declaration_force_multi_line@);
}

} // verus!
