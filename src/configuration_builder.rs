use vstd::prelude::*;

use crate::configuration::{ConfigError, ResolvedConfiguration};
use crate::engine::{resolve_settings, unresolved_of};
use crate::options::{
    BracePosition, ForceMultiLine, JsxMultiLineParens, JsxQuoteStyle, MemberSpacing,
    NamedTypeImportsExportsOrder, NewLineKind, NextControlFlowPosition, OperatorPosition,
    PreferHanging, QuoteProps, QuoteStyle, SameOrNextLinePosition, SemiColonOrComma, SemiColons,
    SortOrder, TrailingCommas, UseBraces, UseParentheses,
};
use crate::text::{bool_string, bool_token, decimal, decimal_string, str_eq};

verus! {

/// The settings as key-value pairs of characters.
pub open spec fn settings_view(v: Seq<(String, String)>) -> Seq<(Seq<char>, Seq<char>)> {
    v.map_values(|e: (String, String)| (e.0@, e.1@))
}

/// The map that a sequence of settings makes: a later setting of a key replaces an earlier one.
pub open spec fn settings_map(s: Seq<(Seq<char>, Seq<char>)>) -> Map<Seq<char>, Seq<char>>
    decreases s.len(),
{
    if s.len() == 0 {
        Map::empty()
    } else {
        settings_map(s.drop_last()).insert(s.last().0, s.last().1)
    }
}

/// Settings after place `i` that do not name `k` leave what the map holds for `k` as it was.
proof fn lemma_settings_prefix(s: Seq<(Seq<char>, Seq<char>)>, k: Seq<char>, i: int)
    requires
        0 <= i <= s.len(),
        forall|j: int| i <= j < s.len() ==> #[trigger] s[j].0 != k,
    ensures
        settings_map(s).contains_key(k) == settings_map(s.take(i)).contains_key(k),
        settings_map(s).contains_key(k) ==> settings_map(s)[k] == settings_map(s.take(i))[k],
    decreases s.len() - i,
{
    if s.len() == i {
        assert(s.take(i) =~= s);
    } else {
        lemma_settings_prefix(s.drop_last(), k, i);
        assert(s.drop_last().take(i) =~= s.take(i));
    }
}

/// Settings that make the empty map hold no setting at all.
proof fn lemma_empty_settings(s: Seq<(Seq<char>, Seq<char>)>)
    requires
        settings_map(s) == Map::<Seq<char>, Seq<char>>::empty(),
    ensures
        s.len() == 0,
{
    if s.len() > 0 {
        assert(settings_map(s).contains_key(s.last().0));
    }
}

/// A draft of formatting settings, keyed by the engine's property names. A general
/// setting (such as `bracePosition`) applies to every construct whose own setting is
/// not given.
pub struct PyConfigurationBuilder {
    settings: Vec<(String, String)>,
}

impl View for PyConfigurationBuilder {
    type V = Map<Seq<char>, Seq<char>>;

    closed spec fn view(&self) -> Map<Seq<char>, Seq<char>> {
        settings_map(settings_view(self.settings@))
    }
}

impl PyConfigurationBuilder {
    /// A draft with no settings.
    pub fn new() -> (r: PyConfigurationBuilder)
        ensures
            r@ == Map::<Seq<char>, Seq<char>>::empty(),
    {
        let r = PyConfigurationBuilder { settings: Vec::new() };
        assert(settings_view(r.settings@) =~= Seq::empty());
        r
    }

    fn put(&mut self, key: &str, value: String)
        ensures
            final(self)@ == old(self)@.insert(key@, value@),
    {
        let ghost before = self.settings@;
        self.settings.push((key.to_owned(), value));
        assert(settings_view(self.settings@).drop_last() =~= settings_view(before));
    }

    /// The value given for the property `key`, if any.
    pub fn get(&self, key: &str) -> (r: Option<String>)
        ensures
            match r {
                Some(v) => self@.contains_key(key@) && self@[key@] == v@,
                None => !self@.contains_key(key@),
            },
    {
        let ghost s = settings_view(self.settings@);
        let mut i: usize = self.settings.len();
        while i > 0
            invariant
                i <= self.settings@.len(),
                s == settings_view(self.settings@),
                forall|j: int| i <= j < s.len() ==> #[trigger] s[j].0 != key@,
            decreases i,
        {
            let e = &self.settings[i - 1];
            if str_eq(e.0.as_str(), key) {
                proof {
                    lemma_settings_prefix(s, key@, i as int);
                    assert(s.take(i as int).drop_last() =~= s.take(i as int - 1));
                }
                return Some(e.1.clone());
            }
            i = i - 1;
        }
        proof {
            lemma_settings_prefix(s, key@, 0);
            assert(s.take(0) =~= Seq::empty());
        }
        None
    }

    /// The properties that the engine cannot use among these settings, in the engine's order.
    pub closed spec fn unresolved(&self) -> Seq<Seq<char>> {
        unresolved_of(settings_view(self.settings@))
    }

    /// The settings, in the order they were given.
    pub(crate) fn settings(&self) -> (r: &Vec<(String, String)>)
        ensures
            settings_map(settings_view(r@)) == self@,
            unresolved_of(settings_view(r@)) == self.unresolved(),
    {
        &self.settings
    }

    /// Resolves the draft into the engine's configuration; fails, naming them, when the
    /// engine cannot use some properties.
    pub fn build(&self) -> (r: Result<dprint_plugin_typescript::configuration::Configuration, ConfigError>)
        ensures
            r is Ok <==> self.unresolved().len() == 0,
            r matches Err(e) ==> (e matches ConfigError::Unresolved { properties }
                && properties@.map_values(|s: String| s@) == self.unresolved()),
            self@ == Map::<Seq<char>, Seq<char>>::empty() ==> r is Ok,
    {
        let (config, unresolved) = resolve_settings(&self.settings);
        proof {
            if self@ == Map::<Seq<char>, Seq<char>>::empty() {
                lemma_empty_settings(settings_view(self.settings@));
            }
        }
        if unresolved.len() == 0 {
            Ok(config)
        } else {
            Err(ConfigError::Unresolved { properties: unresolved })
        }
    }

    /// Sets the draft to the settings used by Deno.
    pub fn deno(&mut self)
        ensures
            final(self)@ == old(self)@
                .insert("lineWidth"@, decimal(80))
                .insert("indentWidth"@, decimal(2))
                .insert("nextControlFlowPosition"@, NextControlFlowPosition::SameLine.token())
                .insert("binaryExpression.operatorPosition"@, OperatorPosition::SameLine.token())
                .insert("conditionalExpression.operatorPosition"@, OperatorPosition::NextLine.token())
                .insert("conditionalType.operatorPosition"@, OperatorPosition::NextLine.token())
                .insert("bracePosition"@, BracePosition::SameLine.token())
                .insert("commentLine.forceSpaceAfterSlashes"@, bool_token(false))
                .insert("constructSignature.spaceAfterNewKeyword"@, bool_token(true))
                .insert("constructorType.spaceAfterNewKeyword"@, bool_token(true))
                .insert("arrowFunction.useParentheses"@, UseParentheses::Force.token())
                .insert("newLineKind"@, NewLineKind::LineFeed.token())
                .insert("functionExpression.spaceAfterFunctionKeyword"@, bool_token(true))
                .insert("taggedTemplate.spaceBeforeLiteral"@, bool_token(false))
                .insert("conditionalExpression.preferSingleLine"@, bool_token(true))
                .insert("quoteStyle"@, QuoteStyle::PreferDouble.token())
                .insert("jsx.multiLineParens"@, JsxMultiLineParens::Prefer.token())
                .insert("ignoreNodeCommentText"@, "deno-fmt-ignore"@)
                .insert("ignoreFileCommentText"@, "deno-fmt-ignore-file"@)
                .insert("module.sortImportDeclarations"@, SortOrder::Maintain.token())
                .insert("module.sortExportDeclarations"@, SortOrder::Maintain.token())
                .insert("exportDeclaration.sortTypeOnlyExports"@, NamedTypeImportsExportsOrder::Unordered.token())
                .insert("importDeclaration.sortTypeOnlyImports"@, NamedTypeImportsExportsOrder::Unordered.token()),
    {
        self.put("lineWidth", decimal_string(80));
        self.put("indentWidth", decimal_string(2));
        self.put("nextControlFlowPosition", NextControlFlowPosition::SameLine.as_str().to_owned());
        self.put("binaryExpression.operatorPosition", OperatorPosition::SameLine.as_str().to_owned());
        self.put("conditionalExpression.operatorPosition", OperatorPosition::NextLine.as_str().to_owned());
        self.put("conditionalType.operatorPosition", OperatorPosition::NextLine.as_str().to_owned());
        self.put("bracePosition", BracePosition::SameLine.as_str().to_owned());
        self.put("commentLine.forceSpaceAfterSlashes", bool_string(false));
        self.put("constructSignature.spaceAfterNewKeyword", bool_string(true));
        self.put("constructorType.spaceAfterNewKeyword", bool_string(true));
        self.put("arrowFunction.useParentheses", UseParentheses::Force.as_str().to_owned());
        self.put("newLineKind", NewLineKind::LineFeed.as_str().to_owned());
        self.put("functionExpression.spaceAfterFunctionKeyword", bool_string(true));
        self.put("taggedTemplate.spaceBeforeLiteral", bool_string(false));
        self.put("conditionalExpression.preferSingleLine", bool_string(true));
        self.put("quoteStyle", QuoteStyle::PreferDouble.as_str().to_owned());
        self.put("jsx.multiLineParens", JsxMultiLineParens::Prefer.as_str().to_owned());
        self.put("ignoreNodeCommentText", "deno-fmt-ignore".to_owned());
        self.put("ignoreFileCommentText", "deno-fmt-ignore-file".to_owned());
        self.put("module.sortImportDeclarations", SortOrder::Maintain.as_str().to_owned());
        self.put("module.sortExportDeclarations", SortOrder::Maintain.as_str().to_owned());
        self.put("exportDeclaration.sortTypeOnlyExports", NamedTypeImportsExportsOrder::Unordered.as_str().to_owned());
        self.put("importDeclaration.sortTypeOnlyImports", NamedTypeImportsExportsOrder::Unordered.as_str().to_owned());
    }

    /// The width of a line the printer will try to stay under. Note that the printer may exceed this width in certain cases.
    pub fn line_width(&mut self, value: u32)
        ensures
            final(self)@ == old(self)@.insert("lineWidth"@, decimal(value as nat)),
    {
        self.put("lineWidth", decimal_string(value));
    }

    /// Whether to use tabs (true) or spaces (false).
    pub fn use_tabs(&mut self, value: bool)
        ensures
            final(self)@ == old(self)@.insert("useTabs"@, bool_token(value)),
    {
        self.put("useTabs", bool_string(value));
    }

    /// The number of columns for an indent.
    pub fn indent_width(&mut self, value: u8)
        ensures
            final(self)@ == old(self)@.insert("indentWidth"@, decimal(value as nat)),
    {
        self.put("indentWidth", decimal_string(value as u32));
    }

    /// The kind of newline to use.
    pub fn new_line_kind(&mut self, value: &str) -> (r: Result<(), ConfigError>)
        ensures
            r is Ok <==> NewLineKind::from_token(value@) is Some,
            r is Ok ==> final(self)@ == old(self)@.insert("newLineKind"@, value@),
            r matches Err(e) ==> e.is_invalid_value("new_line_kind"@, value@) && final(self)@ == old(self)@,
    {
        if NewLineKind::parse(value).is_none() {
            return Err(ConfigError::invalid_value("new_line_kind", value));
        }
        self.put("newLineKind", value.to_owned());
        Ok(())
    }

    /// The quote style to use.
    pub fn quote_style(&mut self, value: &str) -> (r: Result<(), ConfigError>)
        ensures
            r is Ok <==> QuoteStyle::from_token(value@) is Some,
            r is Ok ==> final(self)@ == old(self)@.insert("quoteStyle"@, value@),
            r matches Err(e) ==> e.is_invalid_value("quote_style"@, value@) && final(self)@ == old(self)@,
    {
        if QuoteStyle::parse(value).is_none() {
            return Err(ConfigError::invalid_value("quote_style", value));
        }
        self.put("quoteStyle", value.to_owned());
        Ok(())
    }

    /// The JSX quote style to use for string literals in JSX attributes.
    pub fn jsx_quote_style(&mut self, value: &str) -> (r: Result<(), ConfigError>)
        ensures
            r is Ok <==> JsxQuoteStyle::from_token(value@) is Some,
            r is Ok ==> final(self)@ == old(self)@.insert("jsx.quoteStyle"@, value@),
            r matches Err(e) ==> e.is_invalid_value("jsx_quote_style"@, value@) && final(self)@ == old(self)@,
    {
        if JsxQuoteStyle::parse(value).is_none() {
            return Err(ConfigError::invalid_value("jsx_quote_style", value));
        }
        self.put("jsx.quoteStyle", value.to_owned());
        Ok(())
    }

    /// Whether to surround a JSX element or fragment with parentheses when it’s the top JSX node and it spans multiple lines.
    pub fn jsx_multi_line_parens(&mut self, value: &str) -> (r: Result<(), ConfigError>)
        ensures
            r is Ok <==> JsxMultiLineParens::from_token(value@) is Some,
            r is Ok ==> final(self)@ == old(self)@.insert("jsx.multiLineParens"@, value@),
            r matches Err(e) ==> e.is_invalid_value("jsx_multi_line_parens"@, value@) && final(self)@ == old(self)@,
    {
        if JsxMultiLineParens::parse(value).is_none() {
            return Err(ConfigError::invalid_value("jsx_multi_line_parens", value));
        }
        self.put("jsx.multiLineParens", value.to_owned());
        Ok(())
    }

    /// Forces newlines surrounding the content of JSX elements.
    pub fn jsx_force_new_lines_surrounding_content(&mut self, value: bool)
        ensures
            final(self)@ == old(self)@.insert("jsx.forceNewLinesSurroundingContent"@, bool_token(value)),
    {
        self.put("jsx.forceNewLinesSurroundingContent", bool_string(value));
    }

    /// If the end angle bracket of a jsx opening element or self closing element should be on the same or next line when the attributes span multiple lines.
    pub fn jsx_bracket_position(&mut self, value: &str) -> (r: Result<(), ConfigError>)
        ensures
            r is Ok <==> SameOrNextLinePosition::from_token(value@) is Some,
            r is Ok ==> final(self)@ == old(self)@.insert("jsx.bracketPosition"@, value@),
            r matches Err(e) ==> e.is_invalid_value("jsx_bracket_position"@, value@) && final(self)@ == old(self)@,
    {
        if SameOrNextLinePosition::parse(value).is_none() {
            return Err(ConfigError::invalid_value("jsx_bracket_position", value));
        }
        self.put("jsx.bracketPosition", value.to_owned());
        Ok(())
    }

    /// If the end angle bracket of a jsx opening element should be on the same or next line when the attributes span multiple lines.
    pub fn jsx_opening_element_bracket_position(&mut self, value: &str) -> (r: Result<(), ConfigError>)
        ensures
            r is Ok <==> SameOrNextLinePosition::from_token(value@) is Some,
            r is Ok ==> final(self)@ == old(self)@.insert("jsxOpeningElement.bracketPosition"@, value@),
            r matches Err(e) ==> e.is_invalid_value("jsx_opening_element_bracket_position"@, value@) && final(self)@ == old(self)@,
    {
        if SameOrNextLinePosition::parse(value).is_none() {
            return Err(ConfigError::invalid_value("jsx_opening_element_bracket_position", value));
        }
        self.put("jsxOpeningElement.bracketPosition", value.to_owned());
        Ok(())
    }

    /// If the end angle bracket of a jsx self closing element should be on the same or next line when the attributes span multiple lines.
    pub fn jsx_self_closing_element_bracket_position(&mut self, value: &str) -> (r: Result<(), ConfigError>)
        ensures
            r is Ok <==> SameOrNextLinePosition::from_token(value@) is Some,
            r is Ok ==> final(self)@ == old(self)@.insert("jsxSelfClosingElement.bracketPosition"@, value@),
            r matches Err(e) ==> e.is_invalid_value("jsx_self_closing_element_bracket_position"@, value@) && final(self)@ == old(self)@,
    {
        if SameOrNextLinePosition::parse(value).is_none() {
            return Err(ConfigError::invalid_value("jsx_self_closing_element_bracket_position", value));
        }
        self.put("jsxSelfClosingElement.bracketPosition", value.to_owned());
        Ok(())
    }

    /// Whether statements should end in a semi-colon.
    pub fn semi_colons(&mut self, value: &str) -> (r: Result<(), ConfigError>)
        ensures
            r is Ok <==> SemiColons::from_token(value@) is Some,
            r is Ok ==> final(self)@ == old(self)@.insert("semiColons"@, value@),
            r matches Err(e) ==> e.is_invalid_value("semi_colons"@, value@) && final(self)@ == old(self)@,
    {
        if SemiColons::parse(value).is_none() {
            return Err(ConfigError::invalid_value("semi_colons", value));
        }
        self.put("semiColons", value.to_owned());
        Ok(())
    }

    /// Set to prefer hanging indentation when exceeding the line width.
    pub fn prefer_hanging(&mut self, value: bool)
        ensures
            final(self)@ == old(self)@.insert("preferHanging"@, bool_token(value)),
    {
        self.put("preferHanging", bool_string(value));
    }

    /// Behaviour to use for quotes on property names.
    pub fn quote_props(&mut self, value: &str) -> (r: Result<(), ConfigError>)
        ensures
            r is Ok <==> QuoteProps::from_token(value@) is Some,
            r is Ok ==> final(self)@ == old(self)@.insert("quoteProps"@, value@),
            r matches Err(e) ==> e.is_invalid_value("quote_props"@, value@) && final(self)@ == old(self)@,
    {
        if QuoteProps::parse(value).is_none() {
            return Err(ConfigError::invalid_value("quote_props", value));
        }
        self.put("quoteProps", value.to_owned());
        Ok(())
    }

    /// Where to place the opening brace.
    pub fn brace_position(&mut self, value: &str) -> (r: Result<(), ConfigError>)
        ensures
            r is Ok <==> BracePosition::from_token(value@) is Some,
            r is Ok ==> final(self)@ == old(self)@.insert("bracePosition"@, value@),
            r matches Err(e) ==> e.is_invalid_value("brace_position"@, value@) && final(self)@ == old(self)@,
    {
        if BracePosition::parse(value).is_none() {
            return Err(ConfigError::invalid_value("brace_position", value));
        }
        self.put("bracePosition", value.to_owned());
        Ok(())
    }

    /// Where to place the next control flow within a control flow statement.
    pub fn next_control_flow_position(&mut self, value: &str) -> (r: Result<(), ConfigError>)
        ensures
            r is Ok <==> NextControlFlowPosition::from_token(value@) is Some,
            r is Ok ==> final(self)@ == old(self)@.insert("nextControlFlowPosition"@, value@),
            r matches Err(e) ==> e.is_invalid_value("next_control_flow_position"@, value@) && final(self)@ == old(self)@,
    {
        if NextControlFlowPosition::parse(value).is_none() {
            return Err(ConfigError::invalid_value("next_control_flow_position", value));
        }
        self.put("nextControlFlowPosition", value.to_owned());
        Ok(())
    }

    /// Where to place the operator for expressions that span multiple lines.
    pub fn operator_position(&mut self, value: &str) -> (r: Result<(), ConfigError>)
        ensures
            r is Ok <==> OperatorPosition::from_token(value@) is Some,
            r is Ok ==> final(self)@ == old(self)@.insert("operatorPosition"@, value@),
            r matches Err(e) ==> e.is_invalid_value("operator_position"@, value@) && final(self)@ == old(self)@,
    {
        if OperatorPosition::parse(value).is_none() {
            return Err(ConfigError::invalid_value("operator_position", value));
        }
        self.put("operatorPosition", value.to_owned());
        Ok(())
    }

    /// Where to place the expression of a statement that could possibly be on one line (ex. if (true) console.log(5);).
    pub fn single_body_position(&mut self, value: &str) -> (r: Result<(), ConfigError>)
        ensures
            r is Ok <==> SameOrNextLinePosition::from_token(value@) is Some,
            r is Ok ==> final(self)@ == old(self)@.insert("singleBodyPosition"@, value@),
            r matches Err(e) ==> e.is_invalid_value("single_body_position"@, value@) && final(self)@ == old(self)@,
    {
        if SameOrNextLinePosition::parse(value).is_none() {
            return Err(ConfigError::invalid_value("single_body_position", value));
        }
        self.put("singleBodyPosition", value.to_owned());
        Ok(())
    }

    /// Amount of indents to use for the whole file.
    ///
    /// This should only be set by tools that need to indent all the code in the file.
    pub fn file_indent_level(&mut self, value: u16)
        ensures
            final(self)@ == old(self)@.insert("fileIndentLevel"@, decimal(value as nat)),
    {
        self.put("fileIndentLevel", decimal_string(value as u32));
    }

    /// If trailing commas should be used.
    pub fn trailing_commas(&mut self, value: &str) -> (r: Result<(), ConfigError>)
        ensures
            r is Ok <==> TrailingCommas::from_token(value@) is Some,
            r is Ok ==> final(self)@ == old(self)@.insert("trailingCommas"@, value@),
            r matches Err(e) ==> e.is_invalid_value("trailing_commas"@, value@) && final(self)@ == old(self)@,
    {
        if TrailingCommas::parse(value).is_none() {
            return Err(ConfigError::invalid_value("trailing_commas", value));
        }
        self.put("trailingCommas", value.to_owned());
        Ok(())
    }

    /// If braces should be used or not.
    pub fn use_braces(&mut self, value: &str) -> (r: Result<(), ConfigError>)
        ensures
            r is Ok <==> UseBraces::from_token(value@) is Some,
            r is Ok ==> final(self)@ == old(self)@.insert("useBraces"@, value@),
            r matches Err(e) ==> e.is_invalid_value("use_braces"@, value@) && final(self)@ == old(self)@,
    {
        if UseBraces::parse(value).is_none() {
            return Err(ConfigError::invalid_value("use_braces", value));
        }
        self.put("useBraces", value.to_owned());
        Ok(())
    }

    /// If code should revert back from being on multiple lines to being on a single line when able.
    pub fn prefer_single_line(&mut self, value: bool)
        ensures
            final(self)@ == old(self)@.insert("preferSingleLine"@, bool_token(value)),
    {
        self.put("preferSingleLine", bool_string(value));
    }

    /// Whether to surround bitwise and arithmetic operators in a binary expression with spaces.
    ///
    /// true (default) - Ex. 1 + 2
    /// false - Ex. 1+2
    pub fn binary_expression_space_surrounding_bitwise_and_arithmetic_operator(&mut self, value: bool)
        ensures
            final(self)@ == old(self)@.insert("binaryExpression.spaceSurroundingBitwiseAndArithmeticOperator"@, bool_token(value)),
    {
        self.put("binaryExpression.spaceSurroundingBitwiseAndArithmeticOperator", bool_string(value));
    }

    /// Forces a space after the double slash in a comment line.
    ///
    /// true (default) - Ex. //test -> // test false - Ex. //test -> //test
    pub fn comment_line_force_space_after_slashes(&mut self, value: bool)
        ensures
            final(self)@ == old(self)@.insert("commentLine.forceSpaceAfterSlashes"@, bool_token(value)),
    {
        self.put("commentLine.forceSpaceAfterSlashes", bool_string(value));
    }

    /// Whether to add a space after the new keyword in a construct signature.
    ///
    /// true - Ex. new (): MyClass; false (default) - Ex. new(): MyClass;
    pub fn construct_signature_space_after_new_keyword(&mut self, value: bool)
        ensures
            final(self)@ == old(self)@.insert("constructSignature.spaceAfterNewKeyword"@, bool_token(value)),
    {
        self.put("constructSignature.spaceAfterNewKeyword", bool_string(value));
    }

    /// Whether to add a space before the parentheses of a constructor.
    ///
    /// true - Ex. constructor () false (false) - Ex. constructor()
    pub fn constructor_space_before_parentheses(&mut self, value: bool)
        ensures
            final(self)@ == old(self)@.insert("constructor.spaceBeforeParentheses"@, bool_token(value)),
    {
        self.put("constructor.spaceBeforeParentheses", bool_string(value));
    }

    /// Whether to add a space after the new keyword in a constructor type.
    ///
    /// true - Ex. type MyClassCtor = new () => MyClass; false (default) - Ex. type MyClassCtor = new() => MyClass;
    pub fn constructor_type_space_after_new_keyword(&mut self, value: bool)
        ensures
            final(self)@ == old(self)@.insert("constructorType.spaceAfterNewKeyword"@, bool_token(value)),
    {
        self.put("constructorType.spaceAfterNewKeyword", bool_string(value));
    }

    /// Whether to add a space after the while keyword in a do while statement.
    ///
    /// true (true) - Ex. do {\n} while (condition); false - Ex. do {\n} while(condition);
    pub fn do_while_statement_space_after_while_keyword(&mut self, value: bool)
        ensures
            final(self)@ == old(self)@.insert("doWhileStatement.spaceAfterWhileKeyword"@, bool_token(value)),
    {
        self.put("doWhileStatement.spaceAfterWhileKeyword", bool_string(value));
    }

    /// Whether to add spaces around named exports in an export declaration.
    ///
    /// true (default) - Ex. export { SomeExport, OtherExport };
    /// false - Ex. export {SomeExport, OtherExport};
    pub fn export_declaration_space_surrounding_named_exports(&mut self, value: bool)
        ensures
            final(self)@ == old(self)@.insert("exportDeclaration.spaceSurroundingNamedExports"@, bool_token(value)),
    {
        self.put("exportDeclaration.spaceSurroundingNamedExports", bool_string(value));
    }

    /// Whether to add a space after the for keyword in a “for” statement.
    ///
    /// true (default) - Ex. for (let i = 0; i < 5; i++)
    /// false - Ex. for(let i = 0; i < 5; i++)
    pub fn for_statement_space_after_for_keyword(&mut self, value: bool)
        ensures
            final(self)@ == old(self)@.insert("forStatement.spaceAfterForKeyword"@, bool_token(value)),
    {
        self.put("forStatement.spaceAfterForKeyword", bool_string(value));
    }

    /// Whether to add a space after the semi-colons in a “for” statement.
    ///
    /// true (default) - Ex. for (let i = 0; i < 5; i++)
    /// false - Ex. for (let i = 0;i < 5;i++)
    pub fn for_statement_space_after_semi_colons(&mut self, value: bool)
        ensures
            final(self)@ == old(self)@.insert("forStatement.spaceAfterSemiColons"@, bool_token(value)),
    {
        self.put("forStatement.spaceAfterSemiColons", bool_string(value));
    }

    /// Whether to add a space after the for keyword in a “for in” statement.
    ///
    /// true (default) - Ex. for (const prop in obj)
    /// false - Ex. for(const prop in obj)
    pub fn for_in_statement_space_after_for_keyword(&mut self, value: bool)
        ensures
            final(self)@ == old(self)@.insert("forInStatement.spaceAfterForKeyword"@, bool_token(value)),
    {
        self.put("forInStatement.spaceAfterForKeyword", bool_string(value));
    }

    /// Whether to add a space after the for keyword in a “for of” statement.
    ///
    /// true (default) - Ex. for (const value of myArray)
    /// false - Ex. for(const value of myArray)
    pub fn for_of_statement_space_after_for_keyword(&mut self, value: bool)
        ensures
            final(self)@ == old(self)@.insert("forOfStatement.spaceAfterForKeyword"@, bool_token(value)),
    {
        self.put("forOfStatement.spaceAfterForKeyword", bool_string(value));
    }

    /// Whether to add a space before the parentheses of a function declaration.
    ///
    /// true - Ex. function myFunction ()
    /// false (default) - Ex. function myFunction()
    pub fn function_declaration_space_before_parentheses(&mut self, value: bool)
        ensures
            final(self)@ == old(self)@.insert("functionDeclaration.spaceBeforeParentheses"@, bool_token(value)),
    {
        self.put("functionDeclaration.spaceBeforeParentheses", bool_string(value));
    }

    /// Whether to add a space before the parentheses of a function expression.
    ///
    /// true - Ex. function<T> () false (default) - Ex. function<T> ()
    pub fn function_expression_space_before_parentheses(&mut self, value: bool)
        ensures
            final(self)@ == old(self)@.insert("functionExpression.spaceBeforeParentheses"@, bool_token(value)),
    {
        self.put("functionExpression.spaceBeforeParentheses", bool_string(value));
    }

    /// Whether to add a space after the function keyword of a function expression.
    ///
    /// true - Ex. function <T>(). false (default) - Ex. function<T>()
    pub fn function_expression_space_after_function_keyword(&mut self, value: bool)
        ensures
            final(self)@ == old(self)@.insert("functionExpression.spaceAfterFunctionKeyword"@, bool_token(value)),
    {
        self.put("functionExpression.spaceAfterFunctionKeyword", bool_string(value));
    }

    /// Whether to add a space before the parentheses of a get accessor.
    ///
    /// true - Ex. get myProp () false (false) - Ex. get myProp()
    pub fn get_accessor_space_before_parentheses(&mut self, value: bool)
        ensures
            final(self)@ == old(self)@.insert("getAccessor.spaceBeforeParentheses"@, bool_token(value)),
    {
        self.put("getAccessor.spaceBeforeParentheses", bool_string(value));
    }

    /// Whether to add a space after the if keyword in an “if” statement.
    ///
    /// true (default) - Ex. if (true) false - Ex. if(true)
    pub fn if_statement_space_after_if_keyword(&mut self, value: bool)
        ensures
            final(self)@ == old(self)@.insert("ifStatement.spaceAfterIfKeyword"@, bool_token(value)),
    {
        self.put("ifStatement.spaceAfterIfKeyword", bool_string(value));
    }

    /// Whether to add spaces around named imports in an import declaration.
    ///
    /// true (default) - Ex. import { SomeExport, OtherExport } from "my-module";
    /// false - Ex. import {SomeExport, OtherExport} from "my-module";
    pub fn import_declaration_space_surrounding_named_imports(&mut self, value: bool)
        ensures
            final(self)@ == old(self)@.insert("importDeclaration.spaceSurroundingNamedImports"@, bool_token(value)),
    {
        self.put("importDeclaration.spaceSurroundingNamedImports", bool_string(value));
    }

    /// Whether to add a space surrounding the expression of a JSX container.
    ///
    /// true - Ex. { myValue }
    /// false (default) - Ex. {myValue}
    pub fn jsx_expression_container_space_surrounding_expression(&mut self, value: bool)
        ensures
            final(self)@ == old(self)@.insert("jsxExpressionContainer.spaceSurroundingExpression"@, bool_token(value)),
    {
        self.put("jsxExpressionContainer.spaceSurroundingExpression", bool_string(value));
    }

    /// Whether to add a space before the slash in a self closing tag for a JSX element.
    ///
    /// true (default) - Ex. <Test />
    /// false - Ex. <Test/>
    pub fn jsx_self_closing_element_space_before_slash(&mut self, value: bool)
        ensures
            final(self)@ == old(self)@.insert("jsxSelfClosingElement.spaceBeforeSlash"@, bool_token(value)),
    {
        self.put("jsxSelfClosingElement.spaceBeforeSlash", bool_string(value));
    }

    /// Whether to add a space surrounding the properties of an object expression.
    ///
    /// true (default) - Ex. { key: value }
    /// false - Ex. {key: value}
    pub fn object_expression_space_surrounding_properties(&mut self, value: bool)
        ensures
            final(self)@ == old(self)@.insert("objectExpression.spaceSurroundingProperties"@, bool_token(value)),
    {
        self.put("objectExpression.spaceSurroundingProperties", bool_string(value));
    }

    /// Whether to add a space surrounding the properties of an object pattern.
    ///
    /// true (default) - Ex. { key: value } = obj
    /// false - Ex. {key: value} = obj
    pub fn object_pattern_space_surrounding_properties(&mut self, value: bool)
        ensures
            final(self)@ == old(self)@.insert("objectPattern.spaceSurroundingProperties"@, bool_token(value)),
    {
        self.put("objectPattern.spaceSurroundingProperties", bool_string(value));
    }

    /// Whether to add a space before the parentheses of a method.
    ///
    /// true - Ex. myMethod () false - Ex. myMethod()
    pub fn method_space_before_parentheses(&mut self, value: bool)
        ensures
            final(self)@ == old(self)@.insert("method.spaceBeforeParentheses"@, bool_token(value)),
    {
        self.put("method.spaceBeforeParentheses", bool_string(value));
    }

    /// Whether to add a space before the parentheses of a set accessor.
    ///
    /// true - Ex. set myProp (value: string) false (default) - Ex. set myProp(value: string)
    pub fn set_accessor_space_before_parentheses(&mut self, value: bool)
        ensures
            final(self)@ == old(self)@.insert("setAccessor.spaceBeforeParentheses"@, bool_token(value)),
    {
        self.put("setAccessor.spaceBeforeParentheses", bool_string(value));
    }

    /// Whether to add a space surrounding the properties of object-like nodes.
    ///
    /// true (default) - Ex. { key: value }
    /// false - Ex. {key: value}
    pub fn space_surrounding_properties(&mut self, value: bool)
        ensures
            final(self)@ == old(self)@.insert("spaceSurroundingProperties"@, bool_token(value)),
    {
        self.put("spaceSurroundingProperties", bool_string(value));
    }

    /// Whether to add a space before the literal in a tagged template.
    ///
    /// true (default) - Ex. html \``
    /// false - Ex. html\``
    pub fn tagged_template_space_before_literal(&mut self, value: bool)
        ensures
            final(self)@ == old(self)@.insert("taggedTemplate.spaceBeforeLiteral"@, bool_token(value)),
    {
        self.put("taggedTemplate.spaceBeforeLiteral", bool_string(value));
    }

    /// Whether to add a space before the colon of a type annotation.
    ///
    /// true - Ex. function myFunction() : string
    /// false (default) - Ex. function myFunction(): string
    pub fn type_annotation_space_before_colon(&mut self, value: bool)
        ensures
            final(self)@ == old(self)@.insert("typeAnnotation.spaceBeforeColon"@, bool_token(value)),
    {
        self.put("typeAnnotation.spaceBeforeColon", bool_string(value));
    }

    /// Whether to add a space before the expression in a type assertion.
    ///
    /// true (default) - Ex. <string> myValue
    /// false - Ex. <string>myValue
    pub fn type_assertion_space_before_expression(&mut self, value: bool)
        ensures
            final(self)@ == old(self)@.insert("typeAssertion.spaceBeforeExpression"@, bool_token(value)),
    {
        self.put("typeAssertion.spaceBeforeExpression", bool_string(value));
    }

    /// Whether to add a space surrounding the properties of a type literal.
    ///
    /// true (default) - Ex. value: { key: Type }
    /// false - Ex. value: {key: Type}
    pub fn type_literal_space_surrounding_properties(&mut self, value: bool)
        ensures
            final(self)@ == old(self)@.insert("typeLiteral.spaceSurroundingProperties"@, bool_token(value)),
    {
        self.put("typeLiteral.spaceSurroundingProperties", bool_string(value));
    }

    /// Whether to add a space after the while keyword in a while statement.
    ///
    /// true (default) - Ex. while (true)
    /// false - Ex. while(true)
    pub fn while_statement_space_after_while_keyword(&mut self, value: bool)
        ensures
            final(self)@ == old(self)@.insert("whileStatement.spaceAfterWhileKeyword"@, bool_token(value)),
    {
        self.put("whileStatement.spaceAfterWhileKeyword", bool_string(value));
    }

    /// Whether to place spaces around enclosed expressions.
    ///
    /// true - Ex. myFunction( true )
    /// false (default) - Ex. myFunction(true)
    pub fn space_around(&mut self, value: bool)
        ensures
            final(self)@ == old(self)@.insert("spaceAround"@, bool_token(value)),
    {
        self.put("spaceAround", bool_string(value));
    }

    /// Whether to use parentheses for arrow functions.
    pub fn arrow_function_use_parentheses(&mut self, value: &str) -> (r: Result<(), ConfigError>)
        ensures
            r is Ok <==> UseParentheses::from_token(value@) is Some,
            r is Ok ==> final(self)@ == old(self)@.insert("arrowFunction.useParentheses"@, value@),
            r matches Err(e) ==> e.is_invalid_value("arrow_function_use_parentheses"@, value@) && final(self)@ == old(self)@,
    {
        if UseParentheses::parse(value).is_none() {
            return Err(ConfigError::invalid_value("arrow_function_use_parentheses", value));
        }
        self.put("arrowFunction.useParentheses", value.to_owned());
        Ok(())
    }

    /// Whether to force a line per expression when spanning multiple lines.
    ///
    /// true - Formats with each part on a new line.
    /// false (default) - Maintains the line breaks as written by the programmer.
    pub fn binary_expression_line_per_expression(&mut self, value: bool)
        ensures
            final(self)@ == old(self)@.insert("binaryExpression.linePerExpression"@, bool_token(value)),
    {
        self.put("binaryExpression.linePerExpression", bool_string(value));
    }

    /// Whether to force a line per expression when spanning multiple lines.
    ///
    /// true - Formats with each part on a new line.
    /// false (default) - Maintains the line breaks as written by the programmer.
    pub fn conditional_expression_line_per_expression(&mut self, value: bool)
        ensures
            final(self)@ == old(self)@.insert("conditionalExpression.linePerExpression"@, bool_token(value)),
    {
        self.put("conditionalExpression.linePerExpression", bool_string(value));
    }

    /// Whether to force a line per expression when spanning multiple lines.
    ///
    /// true - Formats with each part on a new line.
    /// false (default) - Maintains the line breaks as written by the programmer.
    pub fn member_expression_line_per_expression(&mut self, value: bool)
        ensures
            final(self)@ == old(self)@.insert("memberExpression.linePerExpression"@, bool_token(value)),
    {
        self.put("memberExpression.linePerExpression", bool_string(value));
    }

    /// The kind of separator to use in type literals.
    pub fn type_literal_separator_kind(&mut self, value: &str) -> (r: Result<(), ConfigError>)
        ensures
            r is Ok <==> SemiColonOrComma::from_token(value@) is Some,
            r is Ok ==> final(self)@ == old(self)@.insert("typeLiteral.separatorKind"@, value@),
            r matches Err(e) ==> e.is_invalid_value("type_literal_separator_kind"@, value@) && final(self)@ == old(self)@,
    {
        if SemiColonOrComma::parse(value).is_none() {
            return Err(ConfigError::invalid_value("type_literal_separator_kind", value));
        }
        self.put("typeLiteral.separatorKind", value.to_owned());
        Ok(())
    }

    /// The kind of separator to use in type literals when single line.
    pub fn type_literal_separator_kind_single_line(&mut self, value: &str) -> (r: Result<(), ConfigError>)
        ensures
            r is Ok <==> SemiColonOrComma::from_token(value@) is Some,
            r is Ok ==> final(self)@ == old(self)@.insert("typeLiteral.separatorKind.singleLine"@, value@),
            r matches Err(e) ==> e.is_invalid_value("type_literal_separator_kind_single_line"@, value@) && final(self)@ == old(self)@,
    {
        if SemiColonOrComma::parse(value).is_none() {
            return Err(ConfigError::invalid_value("type_literal_separator_kind_single_line", value));
        }
        self.put("typeLiteral.separatorKind.singleLine", value.to_owned());
        Ok(())
    }

    /// The kind of separator to use in type literals when multi-line.
    pub fn type_literal_separator_kind_multi_line(&mut self, value: &str) -> (r: Result<(), ConfigError>)
        ensures
            r is Ok <==> SemiColonOrComma::from_token(value@) is Some,
            r is Ok ==> final(self)@ == old(self)@.insert("typeLiteral.separatorKind.multiLine"@, value@),
            r matches Err(e) ==> e.is_invalid_value("type_literal_separator_kind_multi_line"@, value@) && final(self)@ == old(self)@,
    {
        if SemiColonOrComma::parse(value).is_none() {
            return Err(ConfigError::invalid_value("type_literal_separator_kind_multi_line", value));
        }
        self.put("typeLiteral.separatorKind.multiLine", value.to_owned());
        Ok(())
    }

    /// Alphabetically sorts the import declarations based on their module specifiers.
    pub fn module_sort_import_declarations(&mut self, value: &str) -> (r: Result<(), ConfigError>)
        ensures
            r is Ok <==> SortOrder::from_token(value@) is Some,
            r is Ok ==> final(self)@ == old(self)@.insert("module.sortImportDeclarations"@, value@),
            r matches Err(e) ==> e.is_invalid_value("module_sort_import_declarations"@, value@) && final(self)@ == old(self)@,
    {
        if SortOrder::parse(value).is_none() {
            return Err(ConfigError::invalid_value("module_sort_import_declarations", value));
        }
        self.put("module.sortImportDeclarations", value.to_owned());
        Ok(())
    }

    /// Alphabetically sorts the export declarations based on their module specifiers.
    pub fn module_sort_export_declarations(&mut self, value: &str) -> (r: Result<(), ConfigError>)
        ensures
            r is Ok <==> SortOrder::from_token(value@) is Some,
            r is Ok ==> final(self)@ == old(self)@.insert("module.sortExportDeclarations"@, value@),
            r matches Err(e) ==> e.is_invalid_value("module_sort_export_declarations"@, value@) && final(self)@ == old(self)@,
    {
        if SortOrder::parse(value).is_none() {
            return Err(ConfigError::invalid_value("module_sort_export_declarations", value));
        }
        self.put("module.sortExportDeclarations", value.to_owned());
        Ok(())
    }

    /// Alphabetically sorts the import declaration’s named imports.
    pub fn import_declaration_sort_named_imports(&mut self, value: &str) -> (r: Result<(), ConfigError>)
        ensures
            r is Ok <==> SortOrder::from_token(value@) is Some,
            r is Ok ==> final(self)@ == old(self)@.insert("importDeclaration.sortNamedImports"@, value@),
            r matches Err(e) ==> e.is_invalid_value("import_declaration_sort_named_imports"@, value@) && final(self)@ == old(self)@,
    {
        if SortOrder::parse(value).is_none() {
            return Err(ConfigError::invalid_value("import_declaration_sort_named_imports", value));
        }
        self.put("importDeclaration.sortNamedImports", value.to_owned());
        Ok(())
    }

    /// Sorts type-only named imports first, last, or none (no sorting).
    pub fn import_declaration_sort_type_only_imports(&mut self, value: &str) -> (r: Result<(), ConfigError>)
        ensures
            r is Ok <==> NamedTypeImportsExportsOrder::from_token(value@) is Some,
            r is Ok ==> final(self)@ == old(self)@.insert("importDeclaration.sortTypeOnlyImports"@, value@),
            r matches Err(e) ==> e.is_invalid_value("import_declaration_sort_type_only_imports"@, value@) && final(self)@ == old(self)@,
    {
        if NamedTypeImportsExportsOrder::parse(value).is_none() {
            return Err(ConfigError::invalid_value("import_declaration_sort_type_only_imports", value));
        }
        self.put("importDeclaration.sortTypeOnlyImports", value.to_owned());
        Ok(())
    }

    /// Alphabetically sorts the export declaration’s named exports.
    pub fn export_declaration_sort_named_exports(&mut self, value: &str) -> (r: Result<(), ConfigError>)
        ensures
            r is Ok <==> SortOrder::from_token(value@) is Some,
            r is Ok ==> final(self)@ == old(self)@.insert("exportDeclaration.sortNamedExports"@, value@),
            r matches Err(e) ==> e.is_invalid_value("export_declaration_sort_named_exports"@, value@) && final(self)@ == old(self)@,
    {
        if SortOrder::parse(value).is_none() {
            return Err(ConfigError::invalid_value("export_declaration_sort_named_exports", value));
        }
        self.put("exportDeclaration.sortNamedExports", value.to_owned());
        Ok(())
    }

    /// Sorts type-only named exports first, last, or none (no sorting).
    pub fn export_declaration_sort_type_only_exports(&mut self, value: &str) -> (r: Result<(), ConfigError>)
        ensures
            r is Ok <==> NamedTypeImportsExportsOrder::from_token(value@) is Some,
            r is Ok ==> final(self)@ == old(self)@.insert("exportDeclaration.sortTypeOnlyExports"@, value@),
            r matches Err(e) ==> e.is_invalid_value("export_declaration_sort_type_only_exports"@, value@) && final(self)@ == old(self)@,
    {
        if NamedTypeImportsExportsOrder::parse(value).is_none() {
            return Err(ConfigError::invalid_value("export_declaration_sort_type_only_exports", value));
        }
        self.put("exportDeclaration.sortTypeOnlyExports", value.to_owned());
        Ok(())
    }

    /// The text to use for an ignore comment (ex. // dprint-ignore).
    pub fn ignore_node_comment_text(&mut self, value: &str)
        ensures
            final(self)@ == old(self)@.insert("ignoreNodeCommentText"@, value@),
    {
        self.put("ignoreNodeCommentText", value.to_owned());
    }

    /// The text to use for a file ignore comment (ex. // dprint-ignore-file).
    pub fn ignore_file_comment_text(&mut self, value: &str)
        ensures
            final(self)@ == old(self)@.insert("ignoreFileCommentText"@, value@),
    {
        self.put("ignoreFileCommentText", value.to_owned());
    }

    /// Sets the `arrowFunction.bracePosition` property.
    pub fn arrow_function_brace_position(&mut self, value: &str) -> (r: Result<(), ConfigError>)
        ensures
            r is Ok <==> BracePosition::from_token(value@) is Some,
            r is Ok ==> final(self)@ == old(self)@.insert("arrowFunction.bracePosition"@, value@),
            r matches Err(e) ==> e.is_invalid_value("arrow_function_brace_position"@, value@) && final(self)@ == old(self)@,
    {
        if BracePosition::parse(value).is_none() {
            return Err(ConfigError::invalid_value("arrow_function_brace_position", value));
        }
        self.put("arrowFunction.bracePosition", value.to_owned());
        Ok(())
    }

    /// Sets the `classDeclaration.bracePosition` property.
    pub fn class_declaration_brace_position(&mut self, value: &str) -> (r: Result<(), ConfigError>)
        ensures
            r is Ok <==> BracePosition::from_token(value@) is Some,
            r is Ok ==> final(self)@ == old(self)@.insert("classDeclaration.bracePosition"@, value@),
            r matches Err(e) ==> e.is_invalid_value("class_declaration_brace_position"@, value@) && final(self)@ == old(self)@,
    {
        if BracePosition::parse(value).is_none() {
            return Err(ConfigError::invalid_value("class_declaration_brace_position", value));
        }
        self.put("classDeclaration.bracePosition", value.to_owned());
        Ok(())
    }

    /// Sets the `classExpression.bracePosition` property.
    pub fn class_expression_brace_position(&mut self, value: &str) -> (r: Result<(), ConfigError>)
        ensures
            r is Ok <==> BracePosition::from_token(value@) is Some,
            r is Ok ==> final(self)@ == old(self)@.insert("classExpression.bracePosition"@, value@),
            r matches Err(e) ==> e.is_invalid_value("class_expression_brace_position"@, value@) && final(self)@ == old(self)@,
    {
        if BracePosition::parse(value).is_none() {
            return Err(ConfigError::invalid_value("class_expression_brace_position", value));
        }
        self.put("classExpression.bracePosition", value.to_owned());
        Ok(())
    }

    /// Sets the `constructor.bracePosition` property.
    pub fn constructor_brace_position(&mut self, value: &str) -> (r: Result<(), ConfigError>)
        ensures
            r is Ok <==> BracePosition::from_token(value@) is Some,
            r is Ok ==> final(self)@ == old(self)@.insert("constructor.bracePosition"@, value@),
            r matches Err(e) ==> e.is_invalid_value("constructor_brace_position"@, value@) && final(self)@ == old(self)@,
    {
        if BracePosition::parse(value).is_none() {
            return Err(ConfigError::invalid_value("constructor_brace_position", value));
        }
        self.put("constructor.bracePosition", value.to_owned());
        Ok(())
    }

    /// Sets the `doWhileStatement.bracePosition` property.
    pub fn do_while_statement_brace_position(&mut self, value: &str) -> (r: Result<(), ConfigError>)
        ensures
            r is Ok <==> BracePosition::from_token(value@) is Some,
            r is Ok ==> final(self)@ == old(self)@.insert("doWhileStatement.bracePosition"@, value@),
            r matches Err(e) ==> e.is_invalid_value("do_while_statement_brace_position"@, value@) && final(self)@ == old(self)@,
    {
        if BracePosition::parse(value).is_none() {
            return Err(ConfigError::invalid_value("do_while_statement_brace_position", value));
        }
        self.put("doWhileStatement.bracePosition", value.to_owned());
        Ok(())
    }

    /// Sets the `enumDeclaration.bracePosition` property.
    pub fn enum_declaration_brace_position(&mut self, value: &str) -> (r: Result<(), ConfigError>)
        ensures
            r is Ok <==> BracePosition::from_token(value@) is Some,
            r is Ok ==> final(self)@ == old(self)@.insert("enumDeclaration.bracePosition"@, value@),
            r matches Err(e) ==> e.is_invalid_value("enum_declaration_brace_position"@, value@) && final(self)@ == old(self)@,
    {
        if BracePosition::parse(value).is_none() {
            return Err(ConfigError::invalid_value("enum_declaration_brace_position", value));
        }
        self.put("enumDeclaration.bracePosition", value.to_owned());
        Ok(())
    }

    /// Sets the `forStatement.bracePosition` property.
    pub fn for_statement_brace_position(&mut self, value: &str) -> (r: Result<(), ConfigError>)
        ensures
            r is Ok <==> BracePosition::from_token(value@) is Some,
            r is Ok ==> final(self)@ == old(self)@.insert("forStatement.bracePosition"@, value@),
            r matches Err(e) ==> e.is_invalid_value("for_statement_brace_position"@, value@) && final(self)@ == old(self)@,
    {
        if BracePosition::parse(value).is_none() {
            return Err(ConfigError::invalid_value("for_statement_brace_position", value));
        }
        self.put("forStatement.bracePosition", value.to_owned());
        Ok(())
    }

    /// Sets the `forInStatement.bracePosition` property.
    pub fn for_in_statement_brace_position(&mut self, value: &str) -> (r: Result<(), ConfigError>)
        ensures
            r is Ok <==> BracePosition::from_token(value@) is Some,
            r is Ok ==> final(self)@ == old(self)@.insert("forInStatement.bracePosition"@, value@),
            r matches Err(e) ==> e.is_invalid_value("for_in_statement_brace_position"@, value@) && final(self)@ == old(self)@,
    {
        if BracePosition::parse(value).is_none() {
            return Err(ConfigError::invalid_value("for_in_statement_brace_position", value));
        }
        self.put("forInStatement.bracePosition", value.to_owned());
        Ok(())
    }

    /// Sets the `forOfStatement.bracePosition` property.
    pub fn for_of_statement_brace_position(&mut self, value: &str) -> (r: Result<(), ConfigError>)
        ensures
            r is Ok <==> BracePosition::from_token(value@) is Some,
            r is Ok ==> final(self)@ == old(self)@.insert("forOfStatement.bracePosition"@, value@),
            r matches Err(e) ==> e.is_invalid_value("for_of_statement_brace_position"@, value@) && final(self)@ == old(self)@,
    {
        if BracePosition::parse(value).is_none() {
            return Err(ConfigError::invalid_value("for_of_statement_brace_position", value));
        }
        self.put("forOfStatement.bracePosition", value.to_owned());
        Ok(())
    }

    /// Sets the `getAccessor.bracePosition` property.
    pub fn get_accessor_brace_position(&mut self, value: &str) -> (r: Result<(), ConfigError>)
        ensures
            r is Ok <==> BracePosition::from_token(value@) is Some,
            r is Ok ==> final(self)@ == old(self)@.insert("getAccessor.bracePosition"@, value@),
            r matches Err(e) ==> e.is_invalid_value("get_accessor_brace_position"@, value@) && final(self)@ == old(self)@,
    {
        if BracePosition::parse(value).is_none() {
            return Err(ConfigError::invalid_value("get_accessor_brace_position", value));
        }
        self.put("getAccessor.bracePosition", value.to_owned());
        Ok(())
    }

    /// Sets the `ifStatement.bracePosition` property.
    pub fn if_statement_brace_position(&mut self, value: &str) -> (r: Result<(), ConfigError>)
        ensures
            r is Ok <==> BracePosition::from_token(value@) is Some,
            r is Ok ==> final(self)@ == old(self)@.insert("ifStatement.bracePosition"@, value@),
            r matches Err(e) ==> e.is_invalid_value("if_statement_brace_position"@, value@) && final(self)@ == old(self)@,
    {
        if BracePosition::parse(value).is_none() {
            return Err(ConfigError::invalid_value("if_statement_brace_position", value));
        }
        self.put("ifStatement.bracePosition", value.to_owned());
        Ok(())
    }

    /// Sets the `interfaceDeclaration.bracePosition` property.
    pub fn interface_declaration_brace_position(&mut self, value: &str) -> (r: Result<(), ConfigError>)
        ensures
            r is Ok <==> BracePosition::from_token(value@) is Some,
            r is Ok ==> final(self)@ == old(self)@.insert("interfaceDeclaration.bracePosition"@, value@),
            r matches Err(e) ==> e.is_invalid_value("interface_declaration_brace_position"@, value@) && final(self)@ == old(self)@,
    {
        if BracePosition::parse(value).is_none() {
            return Err(ConfigError::invalid_value("interface_declaration_brace_position", value));
        }
        self.put("interfaceDeclaration.bracePosition", value.to_owned());
        Ok(())
    }

    /// Sets the `functionDeclaration.bracePosition` property.
    pub fn function_declaration_brace_position(&mut self, value: &str) -> (r: Result<(), ConfigError>)
        ensures
            r is Ok <==> BracePosition::from_token(value@) is Some,
            r is Ok ==> final(self)@ == old(self)@.insert("functionDeclaration.bracePosition"@, value@),
            r matches Err(e) ==> e.is_invalid_value("function_declaration_brace_position"@, value@) && final(self)@ == old(self)@,
    {
        if BracePosition::parse(value).is_none() {
            return Err(ConfigError::invalid_value("function_declaration_brace_position", value));
        }
        self.put("functionDeclaration.bracePosition", value.to_owned());
        Ok(())
    }

    /// Sets the `functionExpression.bracePosition` property.
    pub fn function_expression_brace_position(&mut self, value: &str) -> (r: Result<(), ConfigError>)
        ensures
            r is Ok <==> BracePosition::from_token(value@) is Some,
            r is Ok ==> final(self)@ == old(self)@.insert("functionExpression.bracePosition"@, value@),
            r matches Err(e) ==> e.is_invalid_value("function_expression_brace_position"@, value@) && final(self)@ == old(self)@,
    {
        if BracePosition::parse(value).is_none() {
            return Err(ConfigError::invalid_value("function_expression_brace_position", value));
        }
        self.put("functionExpression.bracePosition", value.to_owned());
        Ok(())
    }

    /// Sets the `method.bracePosition` property.
    pub fn method_brace_position(&mut self, value: &str) -> (r: Result<(), ConfigError>)
        ensures
            r is Ok <==> BracePosition::from_token(value@) is Some,
            r is Ok ==> final(self)@ == old(self)@.insert("method.bracePosition"@, value@),
            r matches Err(e) ==> e.is_invalid_value("method_brace_position"@, value@) && final(self)@ == old(self)@,
    {
        if BracePosition::parse(value).is_none() {
            return Err(ConfigError::invalid_value("method_brace_position", value));
        }
        self.put("method.bracePosition", value.to_owned());
        Ok(())
    }

    /// Sets the `moduleDeclaration.bracePosition` property.
    pub fn module_declaration_brace_position(&mut self, value: &str) -> (r: Result<(), ConfigError>)
        ensures
            r is Ok <==> BracePosition::from_token(value@) is Some,
            r is Ok ==> final(self)@ == old(self)@.insert("moduleDeclaration.bracePosition"@, value@),
            r matches Err(e) ==> e.is_invalid_value("module_declaration_brace_position"@, value@) && final(self)@ == old(self)@,
    {
        if BracePosition::parse(value).is_none() {
            return Err(ConfigError::invalid_value("module_declaration_brace_position", value));
        }
        self.put("moduleDeclaration.bracePosition", value.to_owned());
        Ok(())
    }

    /// Sets the `setAccessor.bracePosition` property.
    pub fn set_accessor_brace_position(&mut self, value: &str) -> (r: Result<(), ConfigError>)
        ensures
            r is Ok <==> BracePosition::from_token(value@) is Some,
            r is Ok ==> final(self)@ == old(self)@.insert("setAccessor.bracePosition"@, value@),
            r matches Err(e) ==> e.is_invalid_value("set_accessor_brace_position"@, value@) && final(self)@ == old(self)@,
    {
        if BracePosition::parse(value).is_none() {
            return Err(ConfigError::invalid_value("set_accessor_brace_position", value));
        }
        self.put("setAccessor.bracePosition", value.to_owned());
        Ok(())
    }

    /// Sets the `staticBlock.bracePosition` property.
    pub fn static_block_brace_position(&mut self, value: &str) -> (r: Result<(), ConfigError>)
        ensures
            r is Ok <==> BracePosition::from_token(value@) is Some,
            r is Ok ==> final(self)@ == old(self)@.insert("staticBlock.bracePosition"@, value@),
            r matches Err(e) ==> e.is_invalid_value("static_block_brace_position"@, value@) && final(self)@ == old(self)@,
    {
        if BracePosition::parse(value).is_none() {
            return Err(ConfigError::invalid_value("static_block_brace_position", value));
        }
        self.put("staticBlock.bracePosition", value.to_owned());
        Ok(())
    }

    /// Sets the `switchCase.bracePosition` property.
    pub fn switch_case_brace_position(&mut self, value: &str) -> (r: Result<(), ConfigError>)
        ensures
            r is Ok <==> BracePosition::from_token(value@) is Some,
            r is Ok ==> final(self)@ == old(self)@.insert("switchCase.bracePosition"@, value@),
            r matches Err(e) ==> e.is_invalid_value("switch_case_brace_position"@, value@) && final(self)@ == old(self)@,
    {
        if BracePosition::parse(value).is_none() {
            return Err(ConfigError::invalid_value("switch_case_brace_position", value));
        }
        self.put("switchCase.bracePosition", value.to_owned());
        Ok(())
    }

    /// Sets the `switchStatement.bracePosition` property.
    pub fn switch_statement_brace_position(&mut self, value: &str) -> (r: Result<(), ConfigError>)
        ensures
            r is Ok <==> BracePosition::from_token(value@) is Some,
            r is Ok ==> final(self)@ == old(self)@.insert("switchStatement.bracePosition"@, value@),
            r matches Err(e) ==> e.is_invalid_value("switch_statement_brace_position"@, value@) && final(self)@ == old(self)@,
    {
        if BracePosition::parse(value).is_none() {
            return Err(ConfigError::invalid_value("switch_statement_brace_position", value));
        }
        self.put("switchStatement.bracePosition", value.to_owned());
        Ok(())
    }

    /// Sets the `tryStatement.bracePosition` property.
    pub fn try_statement_brace_position(&mut self, value: &str) -> (r: Result<(), ConfigError>)
        ensures
            r is Ok <==> BracePosition::from_token(value@) is Some,
            r is Ok ==> final(self)@ == old(self)@.insert("tryStatement.bracePosition"@, value@),
            r matches Err(e) ==> e.is_invalid_value("try_statement_brace_position"@, value@) && final(self)@ == old(self)@,
    {
        if BracePosition::parse(value).is_none() {
            return Err(ConfigError::invalid_value("try_statement_brace_position", value));
        }
        self.put("tryStatement.bracePosition", value.to_owned());
        Ok(())
    }

    /// Sets the `whileStatement.bracePosition` property.
    pub fn while_statement_brace_position(&mut self, value: &str) -> (r: Result<(), ConfigError>)
        ensures
            r is Ok <==> BracePosition::from_token(value@) is Some,
            r is Ok ==> final(self)@ == old(self)@.insert("whileStatement.bracePosition"@, value@),
            r matches Err(e) ==> e.is_invalid_value("while_statement_brace_position"@, value@) && final(self)@ == old(self)@,
    {
        if BracePosition::parse(value).is_none() {
            return Err(ConfigError::invalid_value("while_statement_brace_position", value));
        }
        self.put("whileStatement.bracePosition", value.to_owned());
        Ok(())
    }

    /// Sets the `arguments.preferHanging` property.
    pub fn arguments_prefer_hanging(&mut self, value: &str) -> (r: Result<(), ConfigError>)
        ensures
            r is Ok <==> PreferHanging::from_token(value@) is Some,
            r is Ok ==> final(self)@ == old(self)@.insert("arguments.preferHanging"@, value@),
            r matches Err(e) ==> e.is_invalid_value("arguments_prefer_hanging"@, value@) && final(self)@ == old(self)@,
    {
        if PreferHanging::parse(value).is_none() {
            return Err(ConfigError::invalid_value("arguments_prefer_hanging", value));
        }
        self.put("arguments.preferHanging", value.to_owned());
        Ok(())
    }

    /// Sets the `arrayExpression.preferHanging` property.
    pub fn array_expression_prefer_hanging(&mut self, value: &str) -> (r: Result<(), ConfigError>)
        ensures
            r is Ok <==> PreferHanging::from_token(value@) is Some,
            r is Ok ==> final(self)@ == old(self)@.insert("arrayExpression.preferHanging"@, value@),
            r matches Err(e) ==> e.is_invalid_value("array_expression_prefer_hanging"@, value@) && final(self)@ == old(self)@,
    {
        if PreferHanging::parse(value).is_none() {
            return Err(ConfigError::invalid_value("array_expression_prefer_hanging", value));
        }
        self.put("arrayExpression.preferHanging", value.to_owned());
        Ok(())
    }

    /// Sets the `arrayPattern.preferHanging` property.
    pub fn array_pattern_prefer_hanging(&mut self, value: bool)
        ensures
            final(self)@ == old(self)@.insert("arrayPattern.preferHanging"@, bool_token(value)),
    {
        self.put("arrayPattern.preferHanging", bool_string(value));
    }

    /// Sets the `doWhileStatement.preferHanging` property.
    pub fn do_while_statement_prefer_hanging(&mut self, value: bool)
        ensures
            final(self)@ == old(self)@.insert("doWhileStatement.preferHanging"@, bool_token(value)),
    {
        self.put("doWhileStatement.preferHanging", bool_string(value));
    }

    /// Sets the `exportDeclaration.preferHanging` property.
    pub fn export_declaration_prefer_hanging(&mut self, value: bool)
        ensures
            final(self)@ == old(self)@.insert("exportDeclaration.preferHanging"@, bool_token(value)),
    {
        self.put("exportDeclaration.preferHanging", bool_string(value));
    }

    /// Sets the `extendsClause.preferHanging` property.
    pub fn extends_clause_prefer_hanging(&mut self, value: bool)
        ensures
            final(self)@ == old(self)@.insert("extendsClause.preferHanging"@, bool_token(value)),
    {
        self.put("extendsClause.preferHanging", bool_string(value));
    }

    /// Sets the `forInStatement.preferHanging` property.
    pub fn for_in_statement_prefer_hanging(&mut self, value: bool)
        ensures
            final(self)@ == old(self)@.insert("forInStatement.preferHanging"@, bool_token(value)),
    {
        self.put("forInStatement.preferHanging", bool_string(value));
    }

    /// Sets the `forOfStatement.preferHanging` property.
    pub fn for_of_statement_prefer_hanging(&mut self, value: bool)
        ensures
            final(self)@ == old(self)@.insert("forOfStatement.preferHanging"@, bool_token(value)),
    {
        self.put("forOfStatement.preferHanging", bool_string(value));
    }

    /// Sets the `forStatement.preferHanging` property.
    pub fn for_statement_prefer_hanging(&mut self, value: bool)
        ensures
            final(self)@ == old(self)@.insert("forStatement.preferHanging"@, bool_token(value)),
    {
        self.put("forStatement.preferHanging", bool_string(value));
    }

    /// Sets the `ifStatement.preferHanging` property.
    pub fn if_statement_prefer_hanging(&mut self, value: bool)
        ensures
            final(self)@ == old(self)@.insert("ifStatement.preferHanging"@, bool_token(value)),
    {
        self.put("ifStatement.preferHanging", bool_string(value));
    }

    /// Sets the `implementsClause.preferHanging` property.
    pub fn implements_clause_prefer_hanging(&mut self, value: bool)
        ensures
            final(self)@ == old(self)@.insert("implementsClause.preferHanging"@, bool_token(value)),
    {
        self.put("implementsClause.preferHanging", bool_string(value));
    }

    /// Sets the `importDeclaration.preferHanging` property.
    pub fn import_declaration_prefer_hanging(&mut self, value: bool)
        ensures
            final(self)@ == old(self)@.insert("importDeclaration.preferHanging"@, bool_token(value)),
    {
        self.put("importDeclaration.preferHanging", bool_string(value));
    }

    /// Sets the `jsxAttributes.preferHanging` property.
    pub fn jsx_attributes_prefer_hanging(&mut self, value: bool)
        ensures
            final(self)@ == old(self)@.insert("jsxAttributes.preferHanging"@, bool_token(value)),
    {
        self.put("jsxAttributes.preferHanging", bool_string(value));
    }

    /// Sets the `objectExpression.preferHanging` property.
    pub fn object_expression_prefer_hanging(&mut self, value: bool)
        ensures
            final(self)@ == old(self)@.insert("objectExpression.preferHanging"@, bool_token(value)),
    {
        self.put("objectExpression.preferHanging", bool_string(value));
    }

    /// Sets the `objectPattern.preferHanging` property.
    pub fn object_pattern_prefer_hanging(&mut self, value: bool)
        ensures
            final(self)@ == old(self)@.insert("objectPattern.preferHanging"@, bool_token(value)),
    {
        self.put("objectPattern.preferHanging", bool_string(value));
    }

    /// Sets the `parameters.preferHanging` property.
    pub fn parameters_prefer_hanging(&mut self, value: &str) -> (r: Result<(), ConfigError>)
        ensures
            r is Ok <==> PreferHanging::from_token(value@) is Some,
            r is Ok ==> final(self)@ == old(self)@.insert("parameters.preferHanging"@, value@),
            r matches Err(e) ==> e.is_invalid_value("parameters_prefer_hanging"@, value@) && final(self)@ == old(self)@,
    {
        if PreferHanging::parse(value).is_none() {
            return Err(ConfigError::invalid_value("parameters_prefer_hanging", value));
        }
        self.put("parameters.preferHanging", value.to_owned());
        Ok(())
    }

    /// Sets the `sequenceExpression.preferHanging` property.
    pub fn sequence_expression_prefer_hanging(&mut self, value: bool)
        ensures
            final(self)@ == old(self)@.insert("sequenceExpression.preferHanging"@, bool_token(value)),
    {
        self.put("sequenceExpression.preferHanging", bool_string(value));
    }

    /// Sets the `switchStatement.preferHanging` property.
    pub fn switch_statement_prefer_hanging(&mut self, value: bool)
        ensures
            final(self)@ == old(self)@.insert("switchStatement.preferHanging"@, bool_token(value)),
    {
        self.put("switchStatement.preferHanging", bool_string(value));
    }

    /// Sets the `tupleType.preferHanging` property.
    pub fn tuple_type_prefer_hanging(&mut self, value: &str) -> (r: Result<(), ConfigError>)
        ensures
            r is Ok <==> PreferHanging::from_token(value@) is Some,
            r is Ok ==> final(self)@ == old(self)@.insert("tupleType.preferHanging"@, value@),
            r matches Err(e) ==> e.is_invalid_value("tuple_type_prefer_hanging"@, value@) && final(self)@ == old(self)@,
    {
        if PreferHanging::parse(value).is_none() {
            return Err(ConfigError::invalid_value("tuple_type_prefer_hanging", value));
        }
        self.put("tupleType.preferHanging", value.to_owned());
        Ok(())
    }

    /// Sets the `typeLiteral.preferHanging` property.
    pub fn type_literal_prefer_hanging(&mut self, value: bool)
        ensures
            final(self)@ == old(self)@.insert("typeLiteral.preferHanging"@, bool_token(value)),
    {
        self.put("typeLiteral.preferHanging", bool_string(value));
    }

    /// Sets the `typeParameters.preferHanging` property.
    pub fn type_parameters_prefer_hanging(&mut self, value: &str) -> (r: Result<(), ConfigError>)
        ensures
            r is Ok <==> PreferHanging::from_token(value@) is Some,
            r is Ok ==> final(self)@ == old(self)@.insert("typeParameters.preferHanging"@, value@),
            r matches Err(e) ==> e.is_invalid_value("type_parameters_prefer_hanging"@, value@) && final(self)@ == old(self)@,
    {
        if PreferHanging::parse(value).is_none() {
            return Err(ConfigError::invalid_value("type_parameters_prefer_hanging", value));
        }
        self.put("typeParameters.preferHanging", value.to_owned());
        Ok(())
    }

    /// Sets the `unionAndIntersectionType.preferHanging` property.
    pub fn union_and_intersection_type_prefer_hanging(&mut self, value: bool)
        ensures
            final(self)@ == old(self)@.insert("unionAndIntersectionType.preferHanging"@, bool_token(value)),
    {
        self.put("unionAndIntersectionType.preferHanging", bool_string(value));
    }

    /// Sets the `variableStatement.preferHanging` property.
    pub fn variable_statement_prefer_hanging(&mut self, value: bool)
        ensures
            final(self)@ == old(self)@.insert("variableStatement.preferHanging"@, bool_token(value)),
    {
        self.put("variableStatement.preferHanging", bool_string(value));
    }

    /// Sets the `whileStatement.preferHanging` property.
    pub fn while_statement_prefer_hanging(&mut self, value: bool)
        ensures
            final(self)@ == old(self)@.insert("whileStatement.preferHanging"@, bool_token(value)),
    {
        self.put("whileStatement.preferHanging", bool_string(value));
    }

    /// Sets the `exportDeclaration.forceSingleLine` property.
    pub fn export_declaration_force_single_line(&mut self, value: bool)
        ensures
            final(self)@ == old(self)@.insert("exportDeclaration.forceSingleLine"@, bool_token(value)),
    {
        self.put("exportDeclaration.forceSingleLine", bool_string(value));
    }

    /// Sets the `importDeclaration.forceSingleLine` property.
    pub fn import_declaration_force_single_line(&mut self, value: bool)
        ensures
            final(self)@ == old(self)@.insert("importDeclaration.forceSingleLine"@, bool_token(value)),
    {
        self.put("importDeclaration.forceSingleLine", bool_string(value));
    }

    /// Sets the `exportDeclaration.forceMultiLine` property.
    pub fn export_declaration_force_multi_line(&mut self, value: &str) -> (r: Result<(), ConfigError>)
        ensures
            r is Ok <==> ForceMultiLine::from_token(value@) is Some,
            r is Ok ==> final(self)@ == old(self)@.insert("exportDeclaration.forceMultiLine"@, value@),
            r matches Err(e) ==> e.is_invalid_value("export_declaration_force_multi_line"@, value@) && final(self)@ == old(self)@,
    {
        if ForceMultiLine::parse(value).is_none() {
            return Err(ConfigError::invalid_value("export_declaration_force_multi_line", value));
        }
        self.put("exportDeclaration.forceMultiLine", value.to_owned());
        Ok(())
    }

    /// Sets the `importDeclaration.forceMultiLine` property.
    pub fn import_declaration_force_multi_line(&mut self, value: &str) -> (r: Result<(), ConfigError>)
        ensures
            r is Ok <==> ForceMultiLine::from_token(value@) is Some,
            r is Ok ==> final(self)@ == old(self)@.insert("importDeclaration.forceMultiLine"@, value@),
            r matches Err(e) ==> e.is_invalid_value("import_declaration_force_multi_line"@, value@) && final(self)@ == old(self)@,
    {
        if ForceMultiLine::parse(value).is_none() {
            return Err(ConfigError::invalid_value("import_declaration_force_multi_line", value));
        }
        self.put("importDeclaration.forceMultiLine", value.to_owned());
        Ok(())
    }

    /// Sets the `enumDeclaration.memberSpacing` property.
    pub fn enum_declaration_member_spacing(&mut self, value: &str) -> (r: Result<(), ConfigError>)
        ensures
            r is Ok <==> MemberSpacing::from_token(value@) is Some,
            r is Ok ==> final(self)@ == old(self)@.insert("enumDeclaration.memberSpacing"@, value@),
            r matches Err(e) ==> e.is_invalid_value("enum_declaration_member_spacing"@, value@) && final(self)@ == old(self)@,
    {
        if MemberSpacing::parse(value).is_none() {
            return Err(ConfigError::invalid_value("enum_declaration_member_spacing", value));
        }
        self.put("enumDeclaration.memberSpacing", value.to_owned());
        Ok(())
    }

    /// Sets the `ifStatement.nextControlFlowPosition` property.
    pub fn if_statement_next_control_flow_position(&mut self, value: &str) -> (r: Result<(), ConfigError>)
        ensures
            r is Ok <==> NextControlFlowPosition::from_token(value@) is Some,
            r is Ok ==> final(self)@ == old(self)@.insert("ifStatement.nextControlFlowPosition"@, value@),
            r matches Err(e) ==> e.is_invalid_value("if_statement_next_control_flow_position"@, value@) && final(self)@ == old(self)@,
    {
        if NextControlFlowPosition::parse(value).is_none() {
            return Err(ConfigError::invalid_value("if_statement_next_control_flow_position", value));
        }
        self.put("ifStatement.nextControlFlowPosition", value.to_owned());
        Ok(())
    }

    /// Sets the `tryStatement.nextControlFlowPosition` property.
    pub fn try_statement_next_control_flow_position(&mut self, value: &str) -> (r: Result<(), ConfigError>)
        ensures
            r is Ok <==> NextControlFlowPosition::from_token(value@) is Some,
            r is Ok ==> final(self)@ == old(self)@.insert("tryStatement.nextControlFlowPosition"@, value@),
            r matches Err(e) ==> e.is_invalid_value("try_statement_next_control_flow_position"@, value@) && final(self)@ == old(self)@,
    {
        if NextControlFlowPosition::parse(value).is_none() {
            return Err(ConfigError::invalid_value("try_statement_next_control_flow_position", value));
        }
        self.put("tryStatement.nextControlFlowPosition", value.to_owned());
        Ok(())
    }

    /// Sets the `doWhileStatement.nextControlFlowPosition` property.
    pub fn do_while_statement_next_control_flow_position(&mut self, value: &str) -> (r: Result<(), ConfigError>)
        ensures
            r is Ok <==> NextControlFlowPosition::from_token(value@) is Some,
            r is Ok ==> final(self)@ == old(self)@.insert("doWhileStatement.nextControlFlowPosition"@, value@),
            r matches Err(e) ==> e.is_invalid_value("do_while_statement_next_control_flow_position"@, value@) && final(self)@ == old(self)@,
    {
        if NextControlFlowPosition::parse(value).is_none() {
            return Err(ConfigError::invalid_value("do_while_statement_next_control_flow_position", value));
        }
        self.put("doWhileStatement.nextControlFlowPosition", value.to_owned());
        Ok(())
    }

    /// Sets the `binaryExpression.operatorPosition` property.
    pub fn binary_expression_operator_position(&mut self, value: &str) -> (r: Result<(), ConfigError>)
        ensures
            r is Ok <==> OperatorPosition::from_token(value@) is Some,
            r is Ok ==> final(self)@ == old(self)@.insert("binaryExpression.operatorPosition"@, value@),
            r matches Err(e) ==> e.is_invalid_value("binary_expression_operator_position"@, value@) && final(self)@ == old(self)@,
    {
        if OperatorPosition::parse(value).is_none() {
            return Err(ConfigError::invalid_value("binary_expression_operator_position", value));
        }
        self.put("binaryExpression.operatorPosition", value.to_owned());
        Ok(())
    }

    /// Sets the `conditionalExpression.operatorPosition` property.
    pub fn conditional_expression_operator_position(&mut self, value: &str) -> (r: Result<(), ConfigError>)
        ensures
            r is Ok <==> OperatorPosition::from_token(value@) is Some,
            r is Ok ==> final(self)@ == old(self)@.insert("conditionalExpression.operatorPosition"@, value@),
            r matches Err(e) ==> e.is_invalid_value("conditional_expression_operator_position"@, value@) && final(self)@ == old(self)@,
    {
        if OperatorPosition::parse(value).is_none() {
            return Err(ConfigError::invalid_value("conditional_expression_operator_position", value));
        }
        self.put("conditionalExpression.operatorPosition", value.to_owned());
        Ok(())
    }

    /// Sets the `conditionalType.operatorPosition` property.
    pub fn conditional_type_operator_position(&mut self, value: &str) -> (r: Result<(), ConfigError>)
        ensures
            r is Ok <==> OperatorPosition::from_token(value@) is Some,
            r is Ok ==> final(self)@ == old(self)@.insert("conditionalType.operatorPosition"@, value@),
            r matches Err(e) ==> e.is_invalid_value("conditional_type_operator_position"@, value@) && final(self)@ == old(self)@,
    {
        if OperatorPosition::parse(value).is_none() {
            return Err(ConfigError::invalid_value("conditional_type_operator_position", value));
        }
        self.put("conditionalType.operatorPosition", value.to_owned());
        Ok(())
    }

    /// Sets the `ifStatement.singleBodyPosition` property.
    pub fn if_statement_single_body_position(&mut self, value: &str) -> (r: Result<(), ConfigError>)
        ensures
            r is Ok <==> SameOrNextLinePosition::from_token(value@) is Some,
            r is Ok ==> final(self)@ == old(self)@.insert("ifStatement.singleBodyPosition"@, value@),
            r matches Err(e) ==> e.is_invalid_value("if_statement_single_body_position"@, value@) && final(self)@ == old(self)@,
    {
        if SameOrNextLinePosition::parse(value).is_none() {
            return Err(ConfigError::invalid_value("if_statement_single_body_position", value));
        }
        self.put("ifStatement.singleBodyPosition", value.to_owned());
        Ok(())
    }

    /// Sets the `forStatement.singleBodyPosition` property.
    pub fn for_statement_single_body_position(&mut self, value: &str) -> (r: Result<(), ConfigError>)
        ensures
            r is Ok <==> SameOrNextLinePosition::from_token(value@) is Some,
            r is Ok ==> final(self)@ == old(self)@.insert("forStatement.singleBodyPosition"@, value@),
            r matches Err(e) ==> e.is_invalid_value("for_statement_single_body_position"@, value@) && final(self)@ == old(self)@,
    {
        if SameOrNextLinePosition::parse(value).is_none() {
            return Err(ConfigError::invalid_value("for_statement_single_body_position", value));
        }
        self.put("forStatement.singleBodyPosition", value.to_owned());
        Ok(())
    }

    /// Sets the `forInStatement.singleBodyPosition` property.
    pub fn for_in_statement_single_body_position(&mut self, value: &str) -> (r: Result<(), ConfigError>)
        ensures
            r is Ok <==> SameOrNextLinePosition::from_token(value@) is Some,
            r is Ok ==> final(self)@ == old(self)@.insert("forInStatement.singleBodyPosition"@, value@),
            r matches Err(e) ==> e.is_invalid_value("for_in_statement_single_body_position"@, value@) && final(self)@ == old(self)@,
    {
        if SameOrNextLinePosition::parse(value).is_none() {
            return Err(ConfigError::invalid_value("for_in_statement_single_body_position", value));
        }
        self.put("forInStatement.singleBodyPosition", value.to_owned());
        Ok(())
    }

    /// Sets the `forOfStatement.singleBodyPosition` property.
    pub fn for_of_statement_single_body_position(&mut self, value: &str) -> (r: Result<(), ConfigError>)
        ensures
            r is Ok <==> SameOrNextLinePosition::from_token(value@) is Some,
            r is Ok ==> final(self)@ == old(self)@.insert("forOfStatement.singleBodyPosition"@, value@),
            r matches Err(e) ==> e.is_invalid_value("for_of_statement_single_body_position"@, value@) && final(self)@ == old(self)@,
    {
        if SameOrNextLinePosition::parse(value).is_none() {
            return Err(ConfigError::invalid_value("for_of_statement_single_body_position", value));
        }
        self.put("forOfStatement.singleBodyPosition", value.to_owned());
        Ok(())
    }

    /// Sets the `whileStatement.singleBodyPosition` property.
    pub fn while_statement_single_body_position(&mut self, value: &str) -> (r: Result<(), ConfigError>)
        ensures
            r is Ok <==> SameOrNextLinePosition::from_token(value@) is Some,
            r is Ok ==> final(self)@ == old(self)@.insert("whileStatement.singleBodyPosition"@, value@),
            r matches Err(e) ==> e.is_invalid_value("while_statement_single_body_position"@, value@) && final(self)@ == old(self)@,
    {
        if SameOrNextLinePosition::parse(value).is_none() {
            return Err(ConfigError::invalid_value("while_statement_single_body_position", value));
        }
        self.put("whileStatement.singleBodyPosition", value.to_owned());
        Ok(())
    }

    /// Sets the `arguments.trailingCommas` property.
    pub fn arguments_trailing_commas(&mut self, value: &str) -> (r: Result<(), ConfigError>)
        ensures
            r is Ok <==> TrailingCommas::from_token(value@) is Some,
            r is Ok ==> final(self)@ == old(self)@.insert("arguments.trailingCommas"@, value@),
            r matches Err(e) ==> e.is_invalid_value("arguments_trailing_commas"@, value@) && final(self)@ == old(self)@,
    {
        if TrailingCommas::parse(value).is_none() {
            return Err(ConfigError::invalid_value("arguments_trailing_commas", value));
        }
        self.put("arguments.trailingCommas", value.to_owned());
        Ok(())
    }

    /// Sets the `parameters.trailingCommas` property.
    pub fn parameters_trailing_commas(&mut self, value: &str) -> (r: Result<(), ConfigError>)
        ensures
            r is Ok <==> TrailingCommas::from_token(value@) is Some,
            r is Ok ==> final(self)@ == old(self)@.insert("parameters.trailingCommas"@, value@),
            r matches Err(e) ==> e.is_invalid_value("parameters_trailing_commas"@, value@) && final(self)@ == old(self)@,
    {
        if TrailingCommas::parse(value).is_none() {
            return Err(ConfigError::invalid_value("parameters_trailing_commas", value));
        }
        self.put("parameters.trailingCommas", value.to_owned());
        Ok(())
    }

    /// Sets the `arrayExpression.trailingCommas` property.
    pub fn array_expression_trailing_commas(&mut self, value: &str) -> (r: Result<(), ConfigError>)
        ensures
            r is Ok <==> TrailingCommas::from_token(value@) is Some,
            r is Ok ==> final(self)@ == old(self)@.insert("arrayExpression.trailingCommas"@, value@),
            r matches Err(e) ==> e.is_invalid_value("array_expression_trailing_commas"@, value@) && final(self)@ == old(self)@,
    {
        if TrailingCommas::parse(value).is_none() {
            return Err(ConfigError::invalid_value("array_expression_trailing_commas", value));
        }
        self.put("arrayExpression.trailingCommas", value.to_owned());
        Ok(())
    }

    /// Sets the `arrayPattern.trailingCommas` property.
    pub fn array_pattern_trailing_commas(&mut self, value: &str) -> (r: Result<(), ConfigError>)
        ensures
            r is Ok <==> TrailingCommas::from_token(value@) is Some,
            r is Ok ==> final(self)@ == old(self)@.insert("arrayPattern.trailingCommas"@, value@),
            r matches Err(e) ==> e.is_invalid_value("array_pattern_trailing_commas"@, value@) && final(self)@ == old(self)@,
    {
        if TrailingCommas::parse(value).is_none() {
            return Err(ConfigError::invalid_value("array_pattern_trailing_commas", value));
        }
        self.put("arrayPattern.trailingCommas", value.to_owned());
        Ok(())
    }

    /// Sets the `enumDeclaration.trailingCommas` property.
    pub fn enum_declaration_trailing_commas(&mut self, value: &str) -> (r: Result<(), ConfigError>)
        ensures
            r is Ok <==> TrailingCommas::from_token(value@) is Some,
            r is Ok ==> final(self)@ == old(self)@.insert("enumDeclaration.trailingCommas"@, value@),
            r matches Err(e) ==> e.is_invalid_value("enum_declaration_trailing_commas"@, value@) && final(self)@ == old(self)@,
    {
        if TrailingCommas::parse(value).is_none() {
            return Err(ConfigError::invalid_value("enum_declaration_trailing_commas", value));
        }
        self.put("enumDeclaration.trailingCommas", value.to_owned());
        Ok(())
    }

    /// Sets the `exportDeclaration.trailingCommas` property.
    pub fn export_declaration_trailing_commas(&mut self, value: &str) -> (r: Result<(), ConfigError>)
        ensures
            r is Ok <==> TrailingCommas::from_token(value@) is Some,
            r is Ok ==> final(self)@ == old(self)@.insert("exportDeclaration.trailingCommas"@, value@),
            r matches Err(e) ==> e.is_invalid_value("export_declaration_trailing_commas"@, value@) && final(self)@ == old(self)@,
    {
        if TrailingCommas::parse(value).is_none() {
            return Err(ConfigError::invalid_value("export_declaration_trailing_commas", value));
        }
        self.put("exportDeclaration.trailingCommas", value.to_owned());
        Ok(())
    }

    /// Sets the `importDeclaration.trailingCommas` property.
    pub fn import_declaration_trailing_commas(&mut self, value: &str) -> (r: Result<(), ConfigError>)
        ensures
            r is Ok <==> TrailingCommas::from_token(value@) is Some,
            r is Ok ==> final(self)@ == old(self)@.insert("importDeclaration.trailingCommas"@, value@),
            r matches Err(e) ==> e.is_invalid_value("import_declaration_trailing_commas"@, value@) && final(self)@ == old(self)@,
    {
        if TrailingCommas::parse(value).is_none() {
            return Err(ConfigError::invalid_value("import_declaration_trailing_commas", value));
        }
        self.put("importDeclaration.trailingCommas", value.to_owned());
        Ok(())
    }

    /// Sets the `objectExpression.trailingCommas` property.
    pub fn object_expression_trailing_commas(&mut self, value: &str) -> (r: Result<(), ConfigError>)
        ensures
            r is Ok <==> TrailingCommas::from_token(value@) is Some,
            r is Ok ==> final(self)@ == old(self)@.insert("objectExpression.trailingCommas"@, value@),
            r matches Err(e) ==> e.is_invalid_value("object_expression_trailing_commas"@, value@) && final(self)@ == old(self)@,
    {
        if TrailingCommas::parse(value).is_none() {
            return Err(ConfigError::invalid_value("object_expression_trailing_commas", value));
        }
        self.put("objectExpression.trailingCommas", value.to_owned());
        Ok(())
    }

    /// Sets the `objectPattern.trailingCommas` property.
    pub fn object_pattern_trailing_commas(&mut self, value: &str) -> (r: Result<(), ConfigError>)
        ensures
            r is Ok <==> TrailingCommas::from_token(value@) is Some,
            r is Ok ==> final(self)@ == old(self)@.insert("objectPattern.trailingCommas"@, value@),
            r matches Err(e) ==> e.is_invalid_value("object_pattern_trailing_commas"@, value@) && final(self)@ == old(self)@,
    {
        if TrailingCommas::parse(value).is_none() {
            return Err(ConfigError::invalid_value("object_pattern_trailing_commas", value));
        }
        self.put("objectPattern.trailingCommas", value.to_owned());
        Ok(())
    }

    /// Sets the `tupleType.trailingCommas` property.
    pub fn tuple_type_trailing_commas(&mut self, value: &str) -> (r: Result<(), ConfigError>)
        ensures
            r is Ok <==> TrailingCommas::from_token(value@) is Some,
            r is Ok ==> final(self)@ == old(self)@.insert("tupleType.trailingCommas"@, value@),
            r matches Err(e) ==> e.is_invalid_value("tuple_type_trailing_commas"@, value@) && final(self)@ == old(self)@,
    {
        if TrailingCommas::parse(value).is_none() {
            return Err(ConfigError::invalid_value("tuple_type_trailing_commas", value));
        }
        self.put("tupleType.trailingCommas", value.to_owned());
        Ok(())
    }

    /// Sets the `typeLiteral.trailingCommas` property.
    pub fn type_literal_trailing_commas(&mut self, value: &str) -> (r: Result<(), ConfigError>)
        ensures
            r is Ok <==> TrailingCommas::from_token(value@) is Some,
            r is Ok ==> final(self)@ == old(self)@.insert("typeLiteral.trailingCommas"@, value@),
            r matches Err(e) ==> e.is_invalid_value("type_literal_trailing_commas"@, value@) && final(self)@ == old(self)@,
    {
        if TrailingCommas::parse(value).is_none() {
            return Err(ConfigError::invalid_value("type_literal_trailing_commas", value));
        }
        self.put("typeLiteral.trailingCommas", value.to_owned());
        Ok(())
    }

    /// Only applies when using commas on type literals.
    pub fn type_parameters_trailing_commas(&mut self, value: &str) -> (r: Result<(), ConfigError>)
        ensures
            r is Ok <==> TrailingCommas::from_token(value@) is Some,
            r is Ok ==> final(self)@ == old(self)@.insert("typeParameters.trailingCommas"@, value@),
            r matches Err(e) ==> e.is_invalid_value("type_parameters_trailing_commas"@, value@) && final(self)@ == old(self)@,
    {
        if TrailingCommas::parse(value).is_none() {
            return Err(ConfigError::invalid_value("type_parameters_trailing_commas", value));
        }
        self.put("typeParameters.trailingCommas", value.to_owned());
        Ok(())
    }

    /// Sets the `ifStatement.useBraces` property.
    pub fn if_statement_use_braces(&mut self, value: &str) -> (r: Result<(), ConfigError>)
        ensures
            r is Ok <==> UseBraces::from_token(value@) is Some,
            r is Ok ==> final(self)@ == old(self)@.insert("ifStatement.useBraces"@, value@),
            r matches Err(e) ==> e.is_invalid_value("if_statement_use_braces"@, value@) && final(self)@ == old(self)@,
    {
        if UseBraces::parse(value).is_none() {
            return Err(ConfigError::invalid_value("if_statement_use_braces", value));
        }
        self.put("ifStatement.useBraces", value.to_owned());
        Ok(())
    }

    /// Sets the `forStatement.useBraces` property.
    pub fn for_statement_use_braces(&mut self, value: &str) -> (r: Result<(), ConfigError>)
        ensures
            r is Ok <==> UseBraces::from_token(value@) is Some,
            r is Ok ==> final(self)@ == old(self)@.insert("forStatement.useBraces"@, value@),
            r matches Err(e) ==> e.is_invalid_value("for_statement_use_braces"@, value@) && final(self)@ == old(self)@,
    {
        if UseBraces::parse(value).is_none() {
            return Err(ConfigError::invalid_value("for_statement_use_braces", value));
        }
        self.put("forStatement.useBraces", value.to_owned());
        Ok(())
    }

    /// Sets the `forInStatement.useBraces` property.
    pub fn for_in_statement_use_braces(&mut self, value: &str) -> (r: Result<(), ConfigError>)
        ensures
            r is Ok <==> UseBraces::from_token(value@) is Some,
            r is Ok ==> final(self)@ == old(self)@.insert("forInStatement.useBraces"@, value@),
            r matches Err(e) ==> e.is_invalid_value("for_in_statement_use_braces"@, value@) && final(self)@ == old(self)@,
    {
        if UseBraces::parse(value).is_none() {
            return Err(ConfigError::invalid_value("for_in_statement_use_braces", value));
        }
        self.put("forInStatement.useBraces", value.to_owned());
        Ok(())
    }

    /// Sets the `forOfStatement.useBraces` property.
    pub fn for_of_statement_use_braces(&mut self, value: &str) -> (r: Result<(), ConfigError>)
        ensures
            r is Ok <==> UseBraces::from_token(value@) is Some,
            r is Ok ==> final(self)@ == old(self)@.insert("forOfStatement.useBraces"@, value@),
            r matches Err(e) ==> e.is_invalid_value("for_of_statement_use_braces"@, value@) && final(self)@ == old(self)@,
    {
        if UseBraces::parse(value).is_none() {
            return Err(ConfigError::invalid_value("for_of_statement_use_braces", value));
        }
        self.put("forOfStatement.useBraces", value.to_owned());
        Ok(())
    }

    /// Sets the `whileStatement.useBraces` property.
    pub fn while_statement_use_braces(&mut self, value: &str) -> (r: Result<(), ConfigError>)
        ensures
            r is Ok <==> UseBraces::from_token(value@) is Some,
            r is Ok ==> final(self)@ == old(self)@.insert("whileStatement.useBraces"@, value@),
            r matches Err(e) ==> e.is_invalid_value("while_statement_use_braces"@, value@) && final(self)@ == old(self)@,
    {
        if UseBraces::parse(value).is_none() {
            return Err(ConfigError::invalid_value("while_statement_use_braces", value));
        }
        self.put("whileStatement.useBraces", value.to_owned());
        Ok(())
    }

    /// Sets the `arrayExpression.preferSingleLine` property.
    pub fn array_expression_prefer_single_line(&mut self, value: bool)
        ensures
            final(self)@ == old(self)@.insert("arrayExpression.preferSingleLine"@, bool_token(value)),
    {
        self.put("arrayExpression.preferSingleLine", bool_string(value));
    }

    /// Sets the `arrayPattern.preferSingleLine` property.
    pub fn array_pattern_prefer_single_line(&mut self, value: bool)
        ensures
            final(self)@ == old(self)@.insert("arrayPattern.preferSingleLine"@, bool_token(value)),
    {
        self.put("arrayPattern.preferSingleLine", bool_string(value));
    }

    /// Sets the `arguments.preferSingleLine` property.
    pub fn arguments_prefer_single_line(&mut self, value: bool)
        ensures
            final(self)@ == old(self)@.insert("arguments.preferSingleLine"@, bool_token(value)),
    {
        self.put("arguments.preferSingleLine", bool_string(value));
    }

    /// Sets the `binaryExpression.preferSingleLine` property.
    pub fn binary_expression_prefer_single_line(&mut self, value: bool)
        ensures
            final(self)@ == old(self)@.insert("binaryExpression.preferSingleLine"@, bool_token(value)),
    {
        self.put("binaryExpression.preferSingleLine", bool_string(value));
    }

    /// Sets the `computed.preferSingleLine` property.
    pub fn computed_prefer_single_line(&mut self, value: bool)
        ensures
            final(self)@ == old(self)@.insert("computed.preferSingleLine"@, bool_token(value)),
    {
        self.put("computed.preferSingleLine", bool_string(value));
    }

    /// Sets the `conditionalExpression.preferSingleLine` property.
    pub fn conditional_expression_prefer_single_line(&mut self, value: bool)
        ensures
            final(self)@ == old(self)@.insert("conditionalExpression.preferSingleLine"@, bool_token(value)),
    {
        self.put("conditionalExpression.preferSingleLine", bool_string(value));
    }

    /// Sets the `conditionalType.preferSingleLine` property.
    pub fn conditional_type_prefer_single_line(&mut self, value: bool)
        ensures
            final(self)@ == old(self)@.insert("conditionalType.preferSingleLine"@, bool_token(value)),
    {
        self.put("conditionalType.preferSingleLine", bool_string(value));
    }

    /// Sets the `decorators.preferSingleLine` property.
    pub fn decorators_prefer_single_line(&mut self, value: bool)
        ensures
            final(self)@ == old(self)@.insert("decorators.preferSingleLine"@, bool_token(value)),
    {
        self.put("decorators.preferSingleLine", bool_string(value));
    }

    /// Sets the `exportDeclaration.preferSingleLine` property.
    pub fn export_declaration_prefer_single_line(&mut self, value: bool)
        ensures
            final(self)@ == old(self)@.insert("exportDeclaration.preferSingleLine"@, bool_token(value)),
    {
        self.put("exportDeclaration.preferSingleLine", bool_string(value));
    }

    /// Sets the `forStatement.preferSingleLine` property.
    pub fn for_statement_prefer_single_line(&mut self, value: bool)
        ensures
            final(self)@ == old(self)@.insert("forStatement.preferSingleLine"@, bool_token(value)),
    {
        self.put("forStatement.preferSingleLine", bool_string(value));
    }

    /// Sets the `importDeclaration.preferSingleLine` property.
    pub fn import_declaration_prefer_single_line(&mut self, value: bool)
        ensures
            final(self)@ == old(self)@.insert("importDeclaration.preferSingleLine"@, bool_token(value)),
    {
        self.put("importDeclaration.preferSingleLine", bool_string(value));
    }

    /// Sets the `jsxAttributes.preferSingleLine` property.
    pub fn jsx_attributes_prefer_single_line(&mut self, value: bool)
        ensures
            final(self)@ == old(self)@.insert("jsxAttributes.preferSingleLine"@, bool_token(value)),
    {
        self.put("jsxAttributes.preferSingleLine", bool_string(value));
    }

    /// Sets the `jsxElement.preferSingleLine` property.
    pub fn jsx_element_prefer_single_line(&mut self, value: bool)
        ensures
            final(self)@ == old(self)@.insert("jsxElement.preferSingleLine"@, bool_token(value)),
    {
        self.put("jsxElement.preferSingleLine", bool_string(value));
    }

    /// Sets the `mappedType.preferSingleLine` property.
    pub fn mapped_type_prefer_single_line(&mut self, value: bool)
        ensures
            final(self)@ == old(self)@.insert("mappedType.preferSingleLine"@, bool_token(value)),
    {
        self.put("mappedType.preferSingleLine", bool_string(value));
    }

    /// Sets the `memberExpression.preferSingleLine` property.
    pub fn member_expression_prefer_single_line(&mut self, value: bool)
        ensures
            final(self)@ == old(self)@.insert("memberExpression.preferSingleLine"@, bool_token(value)),
    {
        self.put("memberExpression.preferSingleLine", bool_string(value));
    }

    /// Sets the `objectExpression.preferSingleLine` property.
    pub fn object_expression_prefer_single_line(&mut self, value: bool)
        ensures
            final(self)@ == old(self)@.insert("objectExpression.preferSingleLine"@, bool_token(value)),
    {
        self.put("objectExpression.preferSingleLine", bool_string(value));
    }

    /// Sets the `objectPattern.preferSingleLine` property.
    pub fn object_pattern_prefer_single_line(&mut self, value: bool)
        ensures
            final(self)@ == old(self)@.insert("objectPattern.preferSingleLine"@, bool_token(value)),
    {
        self.put("objectPattern.preferSingleLine", bool_string(value));
    }

    /// Sets the `parameters.preferSingleLine` property.
    pub fn parameters_prefer_single_line(&mut self, value: bool)
        ensures
            final(self)@ == old(self)@.insert("parameters.preferSingleLine"@, bool_token(value)),
    {
        self.put("parameters.preferSingleLine", bool_string(value));
    }

    /// Sets the `parentheses.preferSingleLine` property.
    pub fn parentheses_prefer_single_line(&mut self, value: bool)
        ensures
            final(self)@ == old(self)@.insert("parentheses.preferSingleLine"@, bool_token(value)),
    {
        self.put("parentheses.preferSingleLine", bool_string(value));
    }

    /// Sets the `tupleType.preferSingleLine` property.
    pub fn tuple_type_prefer_single_line(&mut self, value: bool)
        ensures
            final(self)@ == old(self)@.insert("tupleType.preferSingleLine"@, bool_token(value)),
    {
        self.put("tupleType.preferSingleLine", bool_string(value));
    }

    /// Sets the `typeLiteral.preferSingleLine` property.
    pub fn type_literal_prefer_single_line(&mut self, value: bool)
        ensures
            final(self)@ == old(self)@.insert("typeLiteral.preferSingleLine"@, bool_token(value)),
    {
        self.put("typeLiteral.preferSingleLine", bool_string(value));
    }

    /// Sets the `typeParameters.preferSingleLine` property.
    pub fn type_parameters_prefer_single_line(&mut self, value: bool)
        ensures
            final(self)@ == old(self)@.insert("typeParameters.preferSingleLine"@, bool_token(value)),
    {
        self.put("typeParameters.preferSingleLine", bool_string(value));
    }

    /// Sets the `unionAndIntersectionType.preferSingleLine` property.
    pub fn union_and_intersection_type_prefer_single_line(&mut self, value: bool)
        ensures
            final(self)@ == old(self)@.insert("unionAndIntersectionType.preferSingleLine"@, bool_token(value)),
    {
        self.put("unionAndIntersectionType.preferSingleLine", bool_string(value));
    }

    /// Sets the `variableStatement.preferSingleLine` property.
    pub fn variable_statement_prefer_single_line(&mut self, value: bool)
        ensures
            final(self)@ == old(self)@.insert("variableStatement.preferSingleLine"@, bool_token(value)),
    {
        self.put("variableStatement.preferSingleLine", bool_string(value));
    }

    /// Sets the `arguments.spaceAround` property.
    pub fn arguments_space_around(&mut self, value: bool)
        ensures
            final(self)@ == old(self)@.insert("arguments.spaceAround"@, bool_token(value)),
    {
        self.put("arguments.spaceAround", bool_string(value));
    }

    /// Sets the `arrayExpression.spaceAround` property.
    pub fn array_expression_space_around(&mut self, value: bool)
        ensures
            final(self)@ == old(self)@.insert("arrayExpression.spaceAround"@, bool_token(value)),
    {
        self.put("arrayExpression.spaceAround", bool_string(value));
    }

    /// Sets the `arrayPattern.spaceAround` property.
    pub fn array_pattern_space_around(&mut self, value: bool)
        ensures
            final(self)@ == old(self)@.insert("arrayPattern.spaceAround"@, bool_token(value)),
    {
        self.put("arrayPattern.spaceAround", bool_string(value));
    }

    /// Sets the `catchClause.spaceAround` property.
    pub fn catch_clause_space_around(&mut self, value: bool)
        ensures
            final(self)@ == old(self)@.insert("catchClause.spaceAround"@, bool_token(value)),
    {
        self.put("catchClause.spaceAround", bool_string(value));
    }

    /// Sets the `doWhileStatement.spaceAround` property.
    pub fn do_while_statement_space_around(&mut self, value: bool)
        ensures
            final(self)@ == old(self)@.insert("doWhileStatement.spaceAround"@, bool_token(value)),
    {
        self.put("doWhileStatement.spaceAround", bool_string(value));
    }

    /// Sets the `forInStatement.spaceAround` property.
    pub fn for_in_statement_space_around(&mut self, value: bool)
        ensures
            final(self)@ == old(self)@.insert("forInStatement.spaceAround"@, bool_token(value)),
    {
        self.put("forInStatement.spaceAround", bool_string(value));
    }

    /// Sets the `forOfStatement.spaceAround` property.
    pub fn for_of_statement_space_around(&mut self, value: bool)
        ensures
            final(self)@ == old(self)@.insert("forOfStatement.spaceAround"@, bool_token(value)),
    {
        self.put("forOfStatement.spaceAround", bool_string(value));
    }

    /// Sets the `forStatement.spaceAround` property.
    pub fn for_statement_space_around(&mut self, value: bool)
        ensures
            final(self)@ == old(self)@.insert("forStatement.spaceAround"@, bool_token(value)),
    {
        self.put("forStatement.spaceAround", bool_string(value));
    }

    /// Sets the `ifStatement.spaceAround` property.
    pub fn if_statement_space_around(&mut self, value: bool)
        ensures
            final(self)@ == old(self)@.insert("ifStatement.spaceAround"@, bool_token(value)),
    {
        self.put("ifStatement.spaceAround", bool_string(value));
    }

    /// Sets the `parameters.spaceAround` property.
    pub fn parameters_space_around(&mut self, value: bool)
        ensures
            final(self)@ == old(self)@.insert("parameters.spaceAround"@, bool_token(value)),
    {
        self.put("parameters.spaceAround", bool_string(value));
    }

    /// Sets the `parenExpression.spaceAround` property.
    pub fn paren_expression_space_around(&mut self, value: bool)
        ensures
            final(self)@ == old(self)@.insert("parenExpression.spaceAround"@, bool_token(value)),
    {
        self.put("parenExpression.spaceAround", bool_string(value));
    }

    /// Sets the `switchStatement.spaceAround` property.
    pub fn switch_statement_space_around(&mut self, value: bool)
        ensures
            final(self)@ == old(self)@.insert("switchStatement.spaceAround"@, bool_token(value)),
    {
        self.put("switchStatement.spaceAround", bool_string(value));
    }

    /// Sets the `tupleType.spaceAround` property.
    pub fn tuple_type_space_around(&mut self, value: bool)
        ensures
            final(self)@ == old(self)@.insert("tupleType.spaceAround"@, bool_token(value)),
    {
        self.put("tupleType.spaceAround", bool_string(value));
    }

    /// Sets the `whileStatement.spaceAround` property.
    pub fn while_statement_space_around(&mut self, value: bool)
        ensures
            final(self)@ == old(self)@.insert("whileStatement.spaceAround"@, bool_token(value)),
    {
        self.put("whileStatement.spaceAround", bool_string(value));
    }

    /// `m` with settings 1 to 10 of `c` stated, in declaration order.
    pub open spec fn settings_part_1(m: Map<Seq<char>, Seq<char>>, c: ResolvedConfiguration) -> Map<
        Seq<char>,
        Seq<char>,
    > {
        m
            .insert("indentWidth"@, decimal(c.indent_width as nat))
            .insert("lineWidth"@, decimal(c.line_width as nat))
            .insert("useTabs"@, bool_token(c.use_tabs))
            .insert("newLineKind"@, c.new_line_kind.token())
            .insert("quoteStyle"@, c.quote_style.token())
            .insert("quoteProps"@, c.quote_props.token())
            .insert("semiColons"@, c.semi_colons.token())
            .insert("fileIndentLevel"@, decimal(c.file_indent_level as nat))
            .insert("arrowFunction.useParentheses"@, c.arrow_function_use_parentheses.token())
            .insert("binaryExpression.linePerExpression"@, bool_token(c.binary_expression_line_per_expression))
    }

    /// `m` with settings 11 to 20 of `c` stated, in declaration order.
    pub open spec fn settings_part_2(m: Map<Seq<char>, Seq<char>>, c: ResolvedConfiguration) -> Map<
        Seq<char>,
        Seq<char>,
    > {
        m
            .insert("conditionalExpression.linePerExpression"@, bool_token(c.conditional_expression_line_per_expression))
            .insert("jsx.quoteStyle"@, c.jsx_quote_style.token())
            .insert("jsx.multiLineParens"@, c.jsx_multi_line_parens.token())
            .insert("jsx.forceNewLinesSurroundingContent"@, bool_token(c.jsx_force_new_lines_surrounding_content))
            .insert("jsxOpeningElement.bracketPosition"@, c.jsx_opening_element_bracket_position.token())
            .insert("jsxSelfClosingElement.bracketPosition"@, c.jsx_self_closing_element_bracket_position.token())
            .insert("memberExpression.linePerExpression"@, bool_token(c.member_expression_line_per_expression))
            .insert("typeLiteral.separatorKind.singleLine"@, c.type_literal_separator_kind_single_line.token())
            .insert("typeLiteral.separatorKind.multiLine"@, c.type_literal_separator_kind_multi_line.token())
            .insert("module.sortImportDeclarations"@, c.module_sort_import_declarations.token())
    }

    /// `m` with settings 21 to 30 of `c` stated, in declaration order.
    pub open spec fn settings_part_3(m: Map<Seq<char>, Seq<char>>, c: ResolvedConfiguration) -> Map<
        Seq<char>,
        Seq<char>,
    > {
        m
            .insert("module.sortExportDeclarations"@, c.module_sort_export_declarations.token())
            .insert("importDeclaration.sortNamedImports"@, c.import_declaration_sort_named_imports.token())
            .insert("importDeclaration.sortTypeOnlyImports"@, c.import_declaration_sort_type_only_imports.token())
            .insert("exportDeclaration.sortNamedExports"@, c.export_declaration_sort_named_exports.token())
            .insert("exportDeclaration.sortTypeOnlyExports"@, c.export_declaration_sort_type_only_exports.token())
            .insert("ignoreNodeCommentText"@, c.ignore_node_comment_text@)
            .insert("ignoreFileCommentText"@, c.ignore_file_comment_text@)
            .insert("arrowFunction.bracePosition"@, c.arrow_function_brace_position.token())
            .insert("classDeclaration.bracePosition"@, c.class_declaration_brace_position.token())
            .insert("classExpression.bracePosition"@, c.class_expression_brace_position.token())
    }

    /// `m` with settings 31 to 40 of `c` stated, in declaration order.
    pub open spec fn settings_part_4(m: Map<Seq<char>, Seq<char>>, c: ResolvedConfiguration) -> Map<
        Seq<char>,
        Seq<char>,
    > {
        m
            .insert("constructor.bracePosition"@, c.constructor_brace_position.token())
            .insert("doWhileStatement.bracePosition"@, c.do_while_statement_brace_position.token())
            .insert("enumDeclaration.bracePosition"@, c.enum_declaration_brace_position.token())
            .insert("getAccessor.bracePosition"@, c.get_accessor_brace_position.token())
            .insert("ifStatement.bracePosition"@, c.if_statement_brace_position.token())
            .insert("interfaceDeclaration.bracePosition"@, c.interface_declaration_brace_position.token())
            .insert("forStatement.bracePosition"@, c.for_statement_brace_position.token())
            .insert("forInStatement.bracePosition"@, c.for_in_statement_brace_position.token())
            .insert("forOfStatement.bracePosition"@, c.for_of_statement_brace_position.token())
            .insert("functionDeclaration.bracePosition"@, c.function_declaration_brace_position.token())
    }

    /// `m` with settings 41 to 50 of `c` stated, in declaration order.
    pub open spec fn settings_part_5(m: Map<Seq<char>, Seq<char>>, c: ResolvedConfiguration) -> Map<
        Seq<char>,
        Seq<char>,
    > {
        m
            .insert("functionExpression.bracePosition"@, c.function_expression_brace_position.token())
            .insert("method.bracePosition"@, c.method_brace_position.token())
            .insert("moduleDeclaration.bracePosition"@, c.module_declaration_brace_position.token())
            .insert("setAccessor.bracePosition"@, c.set_accessor_brace_position.token())
            .insert("staticBlock.bracePosition"@, c.static_block_brace_position.token())
            .insert("switchCase.bracePosition"@, c.switch_case_brace_position.token())
            .insert("switchStatement.bracePosition"@, c.switch_statement_brace_position.token())
            .insert("tryStatement.bracePosition"@, c.try_statement_brace_position.token())
            .insert("whileStatement.bracePosition"@, c.while_statement_brace_position.token())
            .insert("arguments.preferHanging"@, c.arguments_prefer_hanging.token())
    }

    /// `m` with settings 51 to 60 of `c` stated, in declaration order.
    pub open spec fn settings_part_6(m: Map<Seq<char>, Seq<char>>, c: ResolvedConfiguration) -> Map<
        Seq<char>,
        Seq<char>,
    > {
        m
            .insert("arrayExpression.preferHanging"@, c.array_expression_prefer_hanging.token())
            .insert("arrayPattern.preferHanging"@, bool_token(c.array_pattern_prefer_hanging))
            .insert("doWhileStatement.preferHanging"@, bool_token(c.do_while_statement_prefer_hanging))
            .insert("exportDeclaration.preferHanging"@, bool_token(c.export_declaration_prefer_hanging))
            .insert("extendsClause.preferHanging"@, bool_token(c.extends_clause_prefer_hanging))
            .insert("forStatement.preferHanging"@, bool_token(c.for_statement_prefer_hanging))
            .insert("forInStatement.preferHanging"@, bool_token(c.for_in_statement_prefer_hanging))
            .insert("forOfStatement.preferHanging"@, bool_token(c.for_of_statement_prefer_hanging))
            .insert("ifStatement.preferHanging"@, bool_token(c.if_statement_prefer_hanging))
            .insert("implementsClause.preferHanging"@, bool_token(c.implements_clause_prefer_hanging))
    }

    /// `m` with settings 61 to 70 of `c` stated, in declaration order.
    pub open spec fn settings_part_7(m: Map<Seq<char>, Seq<char>>, c: ResolvedConfiguration) -> Map<
        Seq<char>,
        Seq<char>,
    > {
        m
            .insert("importDeclaration.preferHanging"@, bool_token(c.import_declaration_prefer_hanging))
            .insert("jsxAttributes.preferHanging"@, bool_token(c.jsx_attributes_prefer_hanging))
            .insert("objectExpression.preferHanging"@, bool_token(c.object_expression_prefer_hanging))
            .insert("objectPattern.preferHanging"@, bool_token(c.object_pattern_prefer_hanging))
            .insert("parameters.preferHanging"@, c.parameters_prefer_hanging.token())
            .insert("sequenceExpression.preferHanging"@, bool_token(c.sequence_expression_prefer_hanging))
            .insert("switchStatement.preferHanging"@, bool_token(c.switch_statement_prefer_hanging))
            .insert("tupleType.preferHanging"@, c.tuple_type_prefer_hanging.token())
            .insert("typeLiteral.preferHanging"@, bool_token(c.type_literal_prefer_hanging))
            .insert("typeParameters.preferHanging"@, c.type_parameters_prefer_hanging.token())
    }

    /// `m` with settings 71 to 80 of `c` stated, in declaration order.
    pub open spec fn settings_part_8(m: Map<Seq<char>, Seq<char>>, c: ResolvedConfiguration) -> Map<
        Seq<char>,
        Seq<char>,
    > {
        m
            .insert("unionAndIntersectionType.preferHanging"@, bool_token(c.union_and_intersection_type_prefer_hanging))
            .insert("variableStatement.preferHanging"@, bool_token(c.variable_statement_prefer_hanging))
            .insert("whileStatement.preferHanging"@, bool_token(c.while_statement_prefer_hanging))
            .insert("enumDeclaration.memberSpacing"@, c.enum_declaration_member_spacing.token())
            .insert("ifStatement.nextControlFlowPosition"@, c.if_statement_next_control_flow_position.token())
            .insert("tryStatement.nextControlFlowPosition"@, c.try_statement_next_control_flow_position.token())
            .insert("doWhileStatement.nextControlFlowPosition"@, c.do_while_statement_next_control_flow_position.token())
            .insert("binaryExpression.operatorPosition"@, c.binary_expression_operator_position.token())
            .insert("conditionalExpression.operatorPosition"@, c.conditional_expression_operator_position.token())
            .insert("conditionalType.operatorPosition"@, c.conditional_type_operator_position.token())
    }

    /// `m` with settings 81 to 90 of `c` stated, in declaration order.
    pub open spec fn settings_part_9(m: Map<Seq<char>, Seq<char>>, c: ResolvedConfiguration) -> Map<
        Seq<char>,
        Seq<char>,
    > {
        m
            .insert("ifStatement.singleBodyPosition"@, c.if_statement_single_body_position.token())
            .insert("forStatement.singleBodyPosition"@, c.for_statement_single_body_position.token())
            .insert("forInStatement.singleBodyPosition"@, c.for_in_statement_single_body_position.token())
            .insert("forOfStatement.singleBodyPosition"@, c.for_of_statement_single_body_position.token())
            .insert("whileStatement.singleBodyPosition"@, c.while_statement_single_body_position.token())
            .insert("arguments.trailingCommas"@, c.arguments_trailing_commas.token())
            .insert("parameters.trailingCommas"@, c.parameters_trailing_commas.token())
            .insert("arrayExpression.trailingCommas"@, c.array_expression_trailing_commas.token())
            .insert("arrayPattern.trailingCommas"@, c.array_pattern_trailing_commas.token())
            .insert("enumDeclaration.trailingCommas"@, c.enum_declaration_trailing_commas.token())
    }

    /// `m` with settings 91 to 100 of `c` stated, in declaration order.
    pub open spec fn settings_part_10(m: Map<Seq<char>, Seq<char>>, c: ResolvedConfiguration) -> Map<
        Seq<char>,
        Seq<char>,
    > {
        m
            .insert("exportDeclaration.trailingCommas"@, c.export_declaration_trailing_commas.token())
            .insert("importDeclaration.trailingCommas"@, c.import_declaration_trailing_commas.token())
            .insert("objectPattern.trailingCommas"@, c.object_pattern_trailing_commas.token())
            .insert("objectExpression.trailingCommas"@, c.object_expression_trailing_commas.token())
            .insert("tupleType.trailingCommas"@, c.tuple_type_trailing_commas.token())
            .insert("typeLiteral.trailingCommas"@, c.type_literal_trailing_commas.token())
            .insert("typeParameters.trailingCommas"@, c.type_parameters_trailing_commas.token())
            .insert("ifStatement.useBraces"@, c.if_statement_use_braces.token())
            .insert("forStatement.useBraces"@, c.for_statement_use_braces.token())
            .insert("forOfStatement.useBraces"@, c.for_of_statement_use_braces.token())
    }

    /// `m` with settings 101 to 110 of `c` stated, in declaration order.
    pub open spec fn settings_part_11(m: Map<Seq<char>, Seq<char>>, c: ResolvedConfiguration) -> Map<
        Seq<char>,
        Seq<char>,
    > {
        m
            .insert("forInStatement.useBraces"@, c.for_in_statement_use_braces.token())
            .insert("whileStatement.useBraces"@, c.while_statement_use_braces.token())
            .insert("arrayExpression.preferSingleLine"@, bool_token(c.array_expression_prefer_single_line))
            .insert("arrayPattern.preferSingleLine"@, bool_token(c.array_pattern_prefer_single_line))
            .insert("arguments.preferSingleLine"@, bool_token(c.arguments_prefer_single_line))
            .insert("binaryExpression.preferSingleLine"@, bool_token(c.binary_expression_prefer_single_line))
            .insert("computed.preferSingleLine"@, bool_token(c.computed_prefer_single_line))
            .insert("conditionalExpression.preferSingleLine"@, bool_token(c.conditional_expression_prefer_single_line))
            .insert("conditionalType.preferSingleLine"@, bool_token(c.conditional_type_prefer_single_line))
            .insert("decorators.preferSingleLine"@, bool_token(c.decorators_prefer_single_line))
    }

    /// `m` with settings 111 to 120 of `c` stated, in declaration order.
    pub open spec fn settings_part_12(m: Map<Seq<char>, Seq<char>>, c: ResolvedConfiguration) -> Map<
        Seq<char>,
        Seq<char>,
    > {
        m
            .insert("exportDeclaration.preferSingleLine"@, bool_token(c.export_declaration_prefer_single_line))
            .insert("forStatement.preferSingleLine"@, bool_token(c.for_statement_prefer_single_line))
            .insert("importDeclaration.preferSingleLine"@, bool_token(c.import_declaration_prefer_single_line))
            .insert("jsxAttributes.preferSingleLine"@, bool_token(c.jsx_attributes_prefer_single_line))
            .insert("jsxElement.preferSingleLine"@, bool_token(c.jsx_element_prefer_single_line))
            .insert("mappedType.preferSingleLine"@, bool_token(c.mapped_type_prefer_single_line))
            .insert("memberExpression.preferSingleLine"@, bool_token(c.member_expression_prefer_single_line))
            .insert("objectExpression.preferSingleLine"@, bool_token(c.object_expression_prefer_single_line))
            .insert("objectPattern.preferSingleLine"@, bool_token(c.object_pattern_prefer_single_line))
            .insert("parameters.preferSingleLine"@, bool_token(c.parameters_prefer_single_line))
    }

    /// `m` with settings 121 to 130 of `c` stated, in declaration order.
    pub open spec fn settings_part_13(m: Map<Seq<char>, Seq<char>>, c: ResolvedConfiguration) -> Map<
        Seq<char>,
        Seq<char>,
    > {
        m
            .insert("parentheses.preferSingleLine"@, bool_token(c.parentheses_prefer_single_line))
            .insert("tupleType.preferSingleLine"@, bool_token(c.tuple_type_prefer_single_line))
            .insert("typeLiteral.preferSingleLine"@, bool_token(c.type_literal_prefer_single_line))
            .insert("typeParameters.preferSingleLine"@, bool_token(c.type_parameters_prefer_single_line))
            .insert("unionAndIntersectionType.preferSingleLine"@, bool_token(c.union_and_intersection_type_prefer_single_line))
            .insert("variableStatement.preferSingleLine"@, bool_token(c.variable_statement_prefer_single_line))
            .insert("importDeclaration.forceSingleLine"@, bool_token(c.import_declaration_force_single_line))
            .insert("exportDeclaration.forceSingleLine"@, bool_token(c.export_declaration_force_single_line))
            .insert("exportDeclaration.forceMultiLine"@, c.export_declaration_force_multi_line.token())
            .insert("importDeclaration.forceMultiLine"@, c.import_declaration_force_multi_line.token())
    }

    /// `m` with settings 131 to 140 of `c` stated, in declaration order.
    pub open spec fn settings_part_14(m: Map<Seq<char>, Seq<char>>, c: ResolvedConfiguration) -> Map<
        Seq<char>,
        Seq<char>,
    > {
        m
            .insert("binaryExpression.spaceSurroundingBitwiseAndArithmeticOperator"@, bool_token(c.binary_expression_space_surrounding_bitwise_and_arithmetic_operator))
            .insert("commentLine.forceSpaceAfterSlashes"@, bool_token(c.comment_line_force_space_after_slashes))
            .insert("constructSignature.spaceAfterNewKeyword"@, bool_token(c.construct_signature_space_after_new_keyword))
            .insert("constructor.spaceBeforeParentheses"@, bool_token(c.constructor_space_before_parentheses))
            .insert("constructorType.spaceAfterNewKeyword"@, bool_token(c.constructor_type_space_after_new_keyword))
            .insert("doWhileStatement.spaceAfterWhileKeyword"@, bool_token(c.do_while_statement_space_after_while_keyword))
            .insert("exportDeclaration.spaceSurroundingNamedExports"@, bool_token(c.export_declaration_space_surrounding_named_exports))
            .insert("forStatement.spaceAfterForKeyword"@, bool_token(c.for_statement_space_after_for_keyword))
            .insert("forStatement.spaceAfterSemiColons"@, bool_token(c.for_statement_space_after_semi_colons))
            .insert("forInStatement.spaceAfterForKeyword"@, bool_token(c.for_in_statement_space_after_for_keyword))
    }

    /// `m` with settings 141 to 150 of `c` stated, in declaration order.
    pub open spec fn settings_part_15(m: Map<Seq<char>, Seq<char>>, c: ResolvedConfiguration) -> Map<
        Seq<char>,
        Seq<char>,
    > {
        m
            .insert("forOfStatement.spaceAfterForKeyword"@, bool_token(c.for_of_statement_space_after_for_keyword))
            .insert("functionDeclaration.spaceBeforeParentheses"@, bool_token(c.function_declaration_space_before_parentheses))
            .insert("functionExpression.spaceBeforeParentheses"@, bool_token(c.function_expression_space_before_parentheses))
            .insert("functionExpression.spaceAfterFunctionKeyword"@, bool_token(c.function_expression_space_after_function_keyword))
            .insert("getAccessor.spaceBeforeParentheses"@, bool_token(c.get_accessor_space_before_parentheses))
            .insert("ifStatement.spaceAfterIfKeyword"@, bool_token(c.if_statement_space_after_if_keyword))
            .insert("importDeclaration.spaceSurroundingNamedImports"@, bool_token(c.import_declaration_space_surrounding_named_imports))
            .insert("jsxExpressionContainer.spaceSurroundingExpression"@, bool_token(c.jsx_expression_container_space_surrounding_expression))
            .insert("jsxSelfClosingElement.spaceBeforeSlash"@, bool_token(c.jsx_self_closing_element_space_before_slash))
            .insert("method.spaceBeforeParentheses"@, bool_token(c.method_space_before_parentheses))
    }

    /// `m` with settings 151 to 160 of `c` stated, in declaration order.
    pub open spec fn settings_part_16(m: Map<Seq<char>, Seq<char>>, c: ResolvedConfiguration) -> Map<
        Seq<char>,
        Seq<char>,
    > {
        m
            .insert("objectExpression.spaceSurroundingProperties"@, bool_token(c.object_expression_space_surrounding_properties))
            .insert("objectPattern.spaceSurroundingProperties"@, bool_token(c.object_pattern_space_surrounding_properties))
            .insert("setAccessor.spaceBeforeParentheses"@, bool_token(c.set_accessor_space_before_parentheses))
            .insert("spaceSurroundingProperties"@, bool_token(c.space_surrounding_properties))
            .insert("taggedTemplate.spaceBeforeLiteral"@, bool_token(c.tagged_template_space_before_literal))
            .insert("typeAnnotation.spaceBeforeColon"@, bool_token(c.type_annotation_space_before_colon))
            .insert("typeAssertion.spaceBeforeExpression"@, bool_token(c.type_assertion_space_before_expression))
            .insert("typeLiteral.spaceSurroundingProperties"@, bool_token(c.type_literal_space_surrounding_properties))
            .insert("whileStatement.spaceAfterWhileKeyword"@, bool_token(c.while_statement_space_after_while_keyword))
            .insert("arguments.spaceAround"@, bool_token(c.arguments_space_around))
    }

    /// `m` with settings 161 to 170 of `c` stated, in declaration order.
    pub open spec fn settings_part_17(m: Map<Seq<char>, Seq<char>>, c: ResolvedConfiguration) -> Map<
        Seq<char>,
        Seq<char>,
    > {
        m
            .insert("arrayExpression.spaceAround"@, bool_token(c.array_expression_space_around))
            .insert("arrayPattern.spaceAround"@, bool_token(c.array_pattern_space_around))
            .insert("catchClause.spaceAround"@, bool_token(c.catch_clause_space_around))
            .insert("doWhileStatement.spaceAround"@, bool_token(c.do_while_statement_space_around))
            .insert("forInStatement.spaceAround"@, bool_token(c.for_in_statement_space_around))
            .insert("forOfStatement.spaceAround"@, bool_token(c.for_of_statement_space_around))
            .insert("forStatement.spaceAround"@, bool_token(c.for_statement_space_around))
            .insert("ifStatement.spaceAround"@, bool_token(c.if_statement_space_around))
            .insert("parameters.spaceAround"@, bool_token(c.parameters_space_around))
            .insert("parenExpression.spaceAround"@, bool_token(c.paren_expression_space_around))
    }

    /// `m` with settings 171 to 173 of `c` stated, in declaration order.
    pub open spec fn settings_part_18(m: Map<Seq<char>, Seq<char>>, c: ResolvedConfiguration) -> Map<
        Seq<char>,
        Seq<char>,
    > {
        m
            .insert("switchStatement.spaceAround"@, bool_token(c.switch_statement_space_around))
            .insert("tupleType.spaceAround"@, bool_token(c.tuple_type_space_around))
            .insert("whileStatement.spaceAround"@, bool_token(c.while_statement_space_around))
    }

    /// The engine settings that state every setting of `c`, each under its own property.
    pub open spec fn settings_for(c: ResolvedConfiguration) -> Map<Seq<char>, Seq<char>> {
        let m1 = PyConfigurationBuilder::settings_part_1(Map::<Seq<char>, Seq<char>>::empty(), c);
        let m2 = PyConfigurationBuilder::settings_part_2(m1, c);
        let m3 = PyConfigurationBuilder::settings_part_3(m2, c);
        let m4 = PyConfigurationBuilder::settings_part_4(m3, c);
        let m5 = PyConfigurationBuilder::settings_part_5(m4, c);
        let m6 = PyConfigurationBuilder::settings_part_6(m5, c);
        let m7 = PyConfigurationBuilder::settings_part_7(m6, c);
        let m8 = PyConfigurationBuilder::settings_part_8(m7, c);
        let m9 = PyConfigurationBuilder::settings_part_9(m8, c);
        let m10 = PyConfigurationBuilder::settings_part_10(m9, c);
        let m11 = PyConfigurationBuilder::settings_part_11(m10, c);
        let m12 = PyConfigurationBuilder::settings_part_12(m11, c);
        let m13 = PyConfigurationBuilder::settings_part_13(m12, c);
        let m14 = PyConfigurationBuilder::settings_part_14(m13, c);
        let m15 = PyConfigurationBuilder::settings_part_15(m14, c);
        let m16 = PyConfigurationBuilder::settings_part_16(m15, c);
        let m17 = PyConfigurationBuilder::settings_part_17(m16, c);
        let m18 = PyConfigurationBuilder::settings_part_18(m17, c);
        m18
    }

    fn put_part_1(&mut self, c: &ResolvedConfiguration)
        ensures
            final(self)@ == PyConfigurationBuilder::settings_part_1(old(self)@, *c),
    {
        self.put("indentWidth", decimal_string(c.indent_width as u32));
        self.put("lineWidth", decimal_string(c.line_width));
        self.put("useTabs", bool_string(c.use_tabs));
        self.put("newLineKind", c.new_line_kind.as_str().to_owned());
        self.put("quoteStyle", c.quote_style.as_str().to_owned());
        self.put("quoteProps", c.quote_props.as_str().to_owned());
        self.put("semiColons", c.semi_colons.as_str().to_owned());
        self.put("fileIndentLevel", decimal_string(c.file_indent_level));
        self.put("arrowFunction.useParentheses", c.arrow_function_use_parentheses.as_str().to_owned());
        self.put("binaryExpression.linePerExpression", bool_string(c.binary_expression_line_per_expression));
    }

    fn put_part_2(&mut self, c: &ResolvedConfiguration)
        ensures
            final(self)@ == PyConfigurationBuilder::settings_part_2(old(self)@, *c),
    {
        self.put("conditionalExpression.linePerExpression", bool_string(c.conditional_expression_line_per_expression));
        self.put("jsx.quoteStyle", c.jsx_quote_style.as_str().to_owned());
        self.put("jsx.multiLineParens", c.jsx_multi_line_parens.as_str().to_owned());
        self.put("jsx.forceNewLinesSurroundingContent", bool_string(c.jsx_force_new_lines_surrounding_content));
        self.put("jsxOpeningElement.bracketPosition", c.jsx_opening_element_bracket_position.as_str().to_owned());
        self.put("jsxSelfClosingElement.bracketPosition", c.jsx_self_closing_element_bracket_position.as_str().to_owned());
        self.put("memberExpression.linePerExpression", bool_string(c.member_expression_line_per_expression));
        self.put("typeLiteral.separatorKind.singleLine", c.type_literal_separator_kind_single_line.as_str().to_owned());
        self.put("typeLiteral.separatorKind.multiLine", c.type_literal_separator_kind_multi_line.as_str().to_owned());
        self.put("module.sortImportDeclarations", c.module_sort_import_declarations.as_str().to_owned());
    }

    fn put_part_3(&mut self, c: &ResolvedConfiguration)
        ensures
            final(self)@ == PyConfigurationBuilder::settings_part_3(old(self)@, *c),
    {
        self.put("module.sortExportDeclarations", c.module_sort_export_declarations.as_str().to_owned());
        self.put("importDeclaration.sortNamedImports", c.import_declaration_sort_named_imports.as_str().to_owned());
        self.put("importDeclaration.sortTypeOnlyImports", c.import_declaration_sort_type_only_imports.as_str().to_owned());
        self.put("exportDeclaration.sortNamedExports", c.export_declaration_sort_named_exports.as_str().to_owned());
        self.put("exportDeclaration.sortTypeOnlyExports", c.export_declaration_sort_type_only_exports.as_str().to_owned());
        self.put("ignoreNodeCommentText", c.ignore_node_comment_text.clone());
        self.put("ignoreFileCommentText", c.ignore_file_comment_text.clone());
        self.put("arrowFunction.bracePosition", c.arrow_function_brace_position.as_str().to_owned());
        self.put("classDeclaration.bracePosition", c.class_declaration_brace_position.as_str().to_owned());
        self.put("classExpression.bracePosition", c.class_expression_brace_position.as_str().to_owned());
    }

    fn put_part_4(&mut self, c: &ResolvedConfiguration)
        ensures
            final(self)@ == PyConfigurationBuilder::settings_part_4(old(self)@, *c),
    {
        self.put("constructor.bracePosition", c.constructor_brace_position.as_str().to_owned());
        self.put("doWhileStatement.bracePosition", c.do_while_statement_brace_position.as_str().to_owned());
        self.put("enumDeclaration.bracePosition", c.enum_declaration_brace_position.as_str().to_owned());
        self.put("getAccessor.bracePosition", c.get_accessor_brace_position.as_str().to_owned());
        self.put("ifStatement.bracePosition", c.if_statement_brace_position.as_str().to_owned());
        self.put("interfaceDeclaration.bracePosition", c.interface_declaration_brace_position.as_str().to_owned());
        self.put("forStatement.bracePosition", c.for_statement_brace_position.as_str().to_owned());
        self.put("forInStatement.bracePosition", c.for_in_statement_brace_position.as_str().to_owned());
        self.put("forOfStatement.bracePosition", c.for_of_statement_brace_position.as_str().to_owned());
        self.put("functionDeclaration.bracePosition", c.function_declaration_brace_position.as_str().to_owned());
    }

    fn put_part_5(&mut self, c: &ResolvedConfiguration)
        ensures
            final(self)@ == PyConfigurationBuilder::settings_part_5(old(self)@, *c),
    {
        self.put("functionExpression.bracePosition", c.function_expression_brace_position.as_str().to_owned());
        self.put("method.bracePosition", c.method_brace_position.as_str().to_owned());
        self.put("moduleDeclaration.bracePosition", c.module_declaration_brace_position.as_str().to_owned());
        self.put("setAccessor.bracePosition", c.set_accessor_brace_position.as_str().to_owned());
        self.put("staticBlock.bracePosition", c.static_block_brace_position.as_str().to_owned());
        self.put("switchCase.bracePosition", c.switch_case_brace_position.as_str().to_owned());
        self.put("switchStatement.bracePosition", c.switch_statement_brace_position.as_str().to_owned());
        self.put("tryStatement.bracePosition", c.try_statement_brace_position.as_str().to_owned());
        self.put("whileStatement.bracePosition", c.while_statement_brace_position.as_str().to_owned());
        self.put("arguments.preferHanging", c.arguments_prefer_hanging.as_str().to_owned());
    }

    fn put_part_6(&mut self, c: &ResolvedConfiguration)
        ensures
            final(self)@ == PyConfigurationBuilder::settings_part_6(old(self)@, *c),
    {
        self.put("arrayExpression.preferHanging", c.array_expression_prefer_hanging.as_str().to_owned());
        self.put("arrayPattern.preferHanging", bool_string(c.array_pattern_prefer_hanging));
        self.put("doWhileStatement.preferHanging", bool_string(c.do_while_statement_prefer_hanging));
        self.put("exportDeclaration.preferHanging", bool_string(c.export_declaration_prefer_hanging));
        self.put("extendsClause.preferHanging", bool_string(c.extends_clause_prefer_hanging));
        self.put("forStatement.preferHanging", bool_string(c.for_statement_prefer_hanging));
        self.put("forInStatement.preferHanging", bool_string(c.for_in_statement_prefer_hanging));
        self.put("forOfStatement.preferHanging", bool_string(c.for_of_statement_prefer_hanging));
        self.put("ifStatement.preferHanging", bool_string(c.if_statement_prefer_hanging));
        self.put("implementsClause.preferHanging", bool_string(c.implements_clause_prefer_hanging));
    }

    fn put_part_7(&mut self, c: &ResolvedConfiguration)
        ensures
            final(self)@ == PyConfigurationBuilder::settings_part_7(old(self)@, *c),
    {
        self.put("importDeclaration.preferHanging", bool_string(c.import_declaration_prefer_hanging));
        self.put("jsxAttributes.preferHanging", bool_string(c.jsx_attributes_prefer_hanging));
        self.put("objectExpression.preferHanging", bool_string(c.object_expression_prefer_hanging));
        self.put("objectPattern.preferHanging", bool_string(c.object_pattern_prefer_hanging));
        self.put("parameters.preferHanging", c.parameters_prefer_hanging.as_str().to_owned());
        self.put("sequenceExpression.preferHanging", bool_string(c.sequence_expression_prefer_hanging));
        self.put("switchStatement.preferHanging", bool_string(c.switch_statement_prefer_hanging));
        self.put("tupleType.preferHanging", c.tuple_type_prefer_hanging.as_str().to_owned());
        self.put("typeLiteral.preferHanging", bool_string(c.type_literal_prefer_hanging));
        self.put("typeParameters.preferHanging", c.type_parameters_prefer_hanging.as_str().to_owned());
    }

    fn put_part_8(&mut self, c: &ResolvedConfiguration)
        ensures
            final(self)@ == PyConfigurationBuilder::settings_part_8(old(self)@, *c),
    {
        self.put("unionAndIntersectionType.preferHanging", bool_string(c.union_and_intersection_type_prefer_hanging));
        self.put("variableStatement.preferHanging", bool_string(c.variable_statement_prefer_hanging));
        self.put("whileStatement.preferHanging", bool_string(c.while_statement_prefer_hanging));
        self.put("enumDeclaration.memberSpacing", c.enum_declaration_member_spacing.as_str().to_owned());
        self.put("ifStatement.nextControlFlowPosition", c.if_statement_next_control_flow_position.as_str().to_owned());
        self.put("tryStatement.nextControlFlowPosition", c.try_statement_next_control_flow_position.as_str().to_owned());
        self.put("doWhileStatement.nextControlFlowPosition", c.do_while_statement_next_control_flow_position.as_str().to_owned());
        self.put("binaryExpression.operatorPosition", c.binary_expression_operator_position.as_str().to_owned());
        self.put("conditionalExpression.operatorPosition", c.conditional_expression_operator_position.as_str().to_owned());
        self.put("conditionalType.operatorPosition", c.conditional_type_operator_position.as_str().to_owned());
    }

    fn put_part_9(&mut self, c: &ResolvedConfiguration)
        ensures
            final(self)@ == PyConfigurationBuilder::settings_part_9(old(self)@, *c),
    {
        self.put("ifStatement.singleBodyPosition", c.if_statement_single_body_position.as_str().to_owned());
        self.put("forStatement.singleBodyPosition", c.for_statement_single_body_position.as_str().to_owned());
        self.put("forInStatement.singleBodyPosition", c.for_in_statement_single_body_position.as_str().to_owned());
        self.put("forOfStatement.singleBodyPosition", c.for_of_statement_single_body_position.as_str().to_owned());
        self.put("whileStatement.singleBodyPosition", c.while_statement_single_body_position.as_str().to_owned());
        self.put("arguments.trailingCommas", c.arguments_trailing_commas.as_str().to_owned());
        self.put("parameters.trailingCommas", c.parameters_trailing_commas.as_str().to_owned());
        self.put("arrayExpression.trailingCommas", c.array_expression_trailing_commas.as_str().to_owned());
        self.put("arrayPattern.trailingCommas", c.array_pattern_trailing_commas.as_str().to_owned());
        self.put("enumDeclaration.trailingCommas", c.enum_declaration_trailing_commas.as_str().to_owned());
    }

    fn put_part_10(&mut self, c: &ResolvedConfiguration)
        ensures
            final(self)@ == PyConfigurationBuilder::settings_part_10(old(self)@, *c),
    {
        self.put("exportDeclaration.trailingCommas", c.export_declaration_trailing_commas.as_str().to_owned());
        self.put("importDeclaration.trailingCommas", c.import_declaration_trailing_commas.as_str().to_owned());
        self.put("objectPattern.trailingCommas", c.object_pattern_trailing_commas.as_str().to_owned());
        self.put("objectExpression.trailingCommas", c.object_expression_trailing_commas.as_str().to_owned());
        self.put("tupleType.trailingCommas", c.tuple_type_trailing_commas.as_str().to_owned());
        self.put("typeLiteral.trailingCommas", c.type_literal_trailing_commas.as_str().to_owned());
        self.put("typeParameters.trailingCommas", c.type_parameters_trailing_commas.as_str().to_owned());
        self.put("ifStatement.useBraces", c.if_statement_use_braces.as_str().to_owned());
        self.put("forStatement.useBraces", c.for_statement_use_braces.as_str().to_owned());
        self.put("forOfStatement.useBraces", c.for_of_statement_use_braces.as_str().to_owned());
    }

    fn put_part_11(&mut self, c: &ResolvedConfiguration)
        ensures
            final(self)@ == PyConfigurationBuilder::settings_part_11(old(self)@, *c),
    {
        self.put("forInStatement.useBraces", c.for_in_statement_use_braces.as_str().to_owned());
        self.put("whileStatement.useBraces", c.while_statement_use_braces.as_str().to_owned());
        self.put("arrayExpression.preferSingleLine", bool_string(c.array_expression_prefer_single_line));
        self.put("arrayPattern.preferSingleLine", bool_string(c.array_pattern_prefer_single_line));
        self.put("arguments.preferSingleLine", bool_string(c.arguments_prefer_single_line));
        self.put("binaryExpression.preferSingleLine", bool_string(c.binary_expression_prefer_single_line));
        self.put("computed.preferSingleLine", bool_string(c.computed_prefer_single_line));
        self.put("conditionalExpression.preferSingleLine", bool_string(c.conditional_expression_prefer_single_line));
        self.put("conditionalType.preferSingleLine", bool_string(c.conditional_type_prefer_single_line));
        self.put("decorators.preferSingleLine", bool_string(c.decorators_prefer_single_line));
    }

    fn put_part_12(&mut self, c: &ResolvedConfiguration)
        ensures
            final(self)@ == PyConfigurationBuilder::settings_part_12(old(self)@, *c),
    {
        self.put("exportDeclaration.preferSingleLine", bool_string(c.export_declaration_prefer_single_line));
        self.put("forStatement.preferSingleLine", bool_string(c.for_statement_prefer_single_line));
        self.put("importDeclaration.preferSingleLine", bool_string(c.import_declaration_prefer_single_line));
        self.put("jsxAttributes.preferSingleLine", bool_string(c.jsx_attributes_prefer_single_line));
        self.put("jsxElement.preferSingleLine", bool_string(c.jsx_element_prefer_single_line));
        self.put("mappedType.preferSingleLine", bool_string(c.mapped_type_prefer_single_line));
        self.put("memberExpression.preferSingleLine", bool_string(c.member_expression_prefer_single_line));
        self.put("objectExpression.preferSingleLine", bool_string(c.object_expression_prefer_single_line));
        self.put("objectPattern.preferSingleLine", bool_string(c.object_pattern_prefer_single_line));
        self.put("parameters.preferSingleLine", bool_string(c.parameters_prefer_single_line));
    }

    fn put_part_13(&mut self, c: &ResolvedConfiguration)
        ensures
            final(self)@ == PyConfigurationBuilder::settings_part_13(old(self)@, *c),
    {
        self.put("parentheses.preferSingleLine", bool_string(c.parentheses_prefer_single_line));
        self.put("tupleType.preferSingleLine", bool_string(c.tuple_type_prefer_single_line));
        self.put("typeLiteral.preferSingleLine", bool_string(c.type_literal_prefer_single_line));
        self.put("typeParameters.preferSingleLine", bool_string(c.type_parameters_prefer_single_line));
        self.put("unionAndIntersectionType.preferSingleLine", bool_string(c.union_and_intersection_type_prefer_single_line));
        self.put("variableStatement.preferSingleLine", bool_string(c.variable_statement_prefer_single_line));
        self.put("importDeclaration.forceSingleLine", bool_string(c.import_declaration_force_single_line));
        self.put("exportDeclaration.forceSingleLine", bool_string(c.export_declaration_force_single_line));
        self.put("exportDeclaration.forceMultiLine", c.export_declaration_force_multi_line.as_str().to_owned());
        self.put("importDeclaration.forceMultiLine", c.import_declaration_force_multi_line.as_str().to_owned());
    }

    fn put_part_14(&mut self, c: &ResolvedConfiguration)
        ensures
            final(self)@ == PyConfigurationBuilder::settings_part_14(old(self)@, *c),
    {
        self.put("binaryExpression.spaceSurroundingBitwiseAndArithmeticOperator", bool_string(c.binary_expression_space_surrounding_bitwise_and_arithmetic_operator));
        self.put("commentLine.forceSpaceAfterSlashes", bool_string(c.comment_line_force_space_after_slashes));
        self.put("constructSignature.spaceAfterNewKeyword", bool_string(c.construct_signature_space_after_new_keyword));
        self.put("constructor.spaceBeforeParentheses", bool_string(c.constructor_space_before_parentheses));
        self.put("constructorType.spaceAfterNewKeyword", bool_string(c.constructor_type_space_after_new_keyword));
        self.put("doWhileStatement.spaceAfterWhileKeyword", bool_string(c.do_while_statement_space_after_while_keyword));
        self.put("exportDeclaration.spaceSurroundingNamedExports", bool_string(c.export_declaration_space_surrounding_named_exports));
        self.put("forStatement.spaceAfterForKeyword", bool_string(c.for_statement_space_after_for_keyword));
        self.put("forStatement.spaceAfterSemiColons", bool_string(c.for_statement_space_after_semi_colons));
        self.put("forInStatement.spaceAfterForKeyword", bool_string(c.for_in_statement_space_after_for_keyword));
    }

    fn put_part_15(&mut self, c: &ResolvedConfiguration)
        ensures
            final(self)@ == PyConfigurationBuilder::settings_part_15(old(self)@, *c),
    {
        self.put("forOfStatement.spaceAfterForKeyword", bool_string(c.for_of_statement_space_after_for_keyword));
        self.put("functionDeclaration.spaceBeforeParentheses", bool_string(c.function_declaration_space_before_parentheses));
        self.put("functionExpression.spaceBeforeParentheses", bool_string(c.function_expression_space_before_parentheses));
        self.put("functionExpression.spaceAfterFunctionKeyword", bool_string(c.function_expression_space_after_function_keyword));
        self.put("getAccessor.spaceBeforeParentheses", bool_string(c.get_accessor_space_before_parentheses));
        self.put("ifStatement.spaceAfterIfKeyword", bool_string(c.if_statement_space_after_if_keyword));
        self.put("importDeclaration.spaceSurroundingNamedImports", bool_string(c.import_declaration_space_surrounding_named_imports));
        self.put("jsxExpressionContainer.spaceSurroundingExpression", bool_string(c.jsx_expression_container_space_surrounding_expression));
        self.put("jsxSelfClosingElement.spaceBeforeSlash", bool_string(c.jsx_self_closing_element_space_before_slash));
        self.put("method.spaceBeforeParentheses", bool_string(c.method_space_before_parentheses));
    }

    fn put_part_16(&mut self, c: &ResolvedConfiguration)
        ensures
            final(self)@ == PyConfigurationBuilder::settings_part_16(old(self)@, *c),
    {
        self.put("objectExpression.spaceSurroundingProperties", bool_string(c.object_expression_space_surrounding_properties));
        self.put("objectPattern.spaceSurroundingProperties", bool_string(c.object_pattern_space_surrounding_properties));
        self.put("setAccessor.spaceBeforeParentheses", bool_string(c.set_accessor_space_before_parentheses));
        self.put("spaceSurroundingProperties", bool_string(c.space_surrounding_properties));
        self.put("taggedTemplate.spaceBeforeLiteral", bool_string(c.tagged_template_space_before_literal));
        self.put("typeAnnotation.spaceBeforeColon", bool_string(c.type_annotation_space_before_colon));
        self.put("typeAssertion.spaceBeforeExpression", bool_string(c.type_assertion_space_before_expression));
        self.put("typeLiteral.spaceSurroundingProperties", bool_string(c.type_literal_space_surrounding_properties));
        self.put("whileStatement.spaceAfterWhileKeyword", bool_string(c.while_statement_space_after_while_keyword));
        self.put("arguments.spaceAround", bool_string(c.arguments_space_around));
    }

    fn put_part_17(&mut self, c: &ResolvedConfiguration)
        ensures
            final(self)@ == PyConfigurationBuilder::settings_part_17(old(self)@, *c),
    {
        self.put("arrayExpression.spaceAround", bool_string(c.array_expression_space_around));
        self.put("arrayPattern.spaceAround", bool_string(c.array_pattern_space_around));
        self.put("catchClause.spaceAround", bool_string(c.catch_clause_space_around));
        self.put("doWhileStatement.spaceAround", bool_string(c.do_while_statement_space_around));
        self.put("forInStatement.spaceAround", bool_string(c.for_in_statement_space_around));
        self.put("forOfStatement.spaceAround", bool_string(c.for_of_statement_space_around));
        self.put("forStatement.spaceAround", bool_string(c.for_statement_space_around));
        self.put("ifStatement.spaceAround", bool_string(c.if_statement_space_around));
        self.put("parameters.spaceAround", bool_string(c.parameters_space_around));
        self.put("parenExpression.spaceAround", bool_string(c.paren_expression_space_around));
    }

    fn put_part_18(&mut self, c: &ResolvedConfiguration)
        ensures
            final(self)@ == PyConfigurationBuilder::settings_part_18(old(self)@, *c),
    {
        self.put("switchStatement.spaceAround", bool_string(c.switch_statement_space_around));
        self.put("tupleType.spaceAround", bool_string(c.tuple_type_space_around));
        self.put("whileStatement.spaceAround", bool_string(c.while_statement_space_around));
    }

    /// A draft that states every setting of `c`.
    pub fn from_configuration(c: &ResolvedConfiguration) -> (r: PyConfigurationBuilder)
        ensures
            r@ == PyConfigurationBuilder::settings_for(*c),
    {
        let mut r = PyConfigurationBuilder::new();
        r.put_part_1(c);
        r.put_part_2(c);
        r.put_part_3(c);
        r.put_part_4(c);
        r.put_part_5(c);
        r.put_part_6(c);
        r.put_part_7(c);
        r.put_part_8(c);
        r.put_part_9(c);
        r.put_part_10(c);
        r.put_part_11(c);
        r.put_part_12(c);
        r.put_part_13(c);
        r.put_part_14(c);
        r.put_part_15(c);
        r.put_part_16(c);
        r.put_part_17(c);
        r.put_part_18(c);
        r
    }
}

} // verus!
