use vstd::prelude::*;

use crate::text::str_eq;

verus! {

/// When to prefer hanging indentation over multi-line indentation.
#[derive(Clone, Copy, Debug, PartialEq, Eq)]
pub enum PreferHanging {
    Never,
    OnlySingleItem,
    Always,
}

impl PreferHanging {
    /// The configuration token that names this value.
    pub open spec fn token(self) -> Seq<char> {
        match self {
            PreferHanging::Never => "never"@,
            PreferHanging::OnlySingleItem => "onlySingleItem"@,
            PreferHanging::Always => "always"@,
        }
    }

    /// The value that a configuration token names, if it names one.
    pub open spec fn from_token(s: Seq<char>) -> Option<PreferHanging> {
        if s == "never"@ {
            Some(PreferHanging::Never)
        } else if s == "onlySingleItem"@ {
            Some(PreferHanging::OnlySingleItem)
        } else if s == "always"@ {
            Some(PreferHanging::Always)
        } else {
            None
        }
    }

    /// Reads a configuration token; `None` when it names no value.
    pub fn parse(s: &str) -> (r: Option<PreferHanging>)
        ensures
            r == PreferHanging::from_token(s@),
    {
        if str_eq(s, "never") {
            Some(PreferHanging::Never)
        } else if str_eq(s, "onlySingleItem") {
            Some(PreferHanging::OnlySingleItem)
        } else if str_eq(s, "always") {
            Some(PreferHanging::Always)
        } else {
            None
        }
    }

    /// The configuration token of this value.
    pub fn as_str(self) -> (r: &'static str)
        ensures
            r@ == self.token(),
    {
        match self {
            PreferHanging::Never => "never",
            PreferHanging::OnlySingleItem => "onlySingleItem",
            PreferHanging::Always => "always",
        }
    }

    /// A token names this value exactly when it is this value's token: tokens are
    /// read back to the value they were written from, and no other string is accepted.
    pub proof fn lemma_token_names(self, s: Seq<char>)
        ensures
            PreferHanging::from_token(s) == Some(self) <==> s == self.token(),
    {
        reveal_strlit("never");
        reveal_strlit("onlySingleItem");
        reveal_strlit("always");
        assert("never"@.len() != "onlySingleItem"@.len());
        assert("never"@.len() != "always"@.len());
        assert("onlySingleItem"@.len() != "always"@.len());
    }
}

/// How semi-colons are used.
#[derive(Clone, Copy, Debug, PartialEq, Eq)]
pub enum SemiColons {
    Always,
    Prefer,
    Asi,
}

impl SemiColons {
    /// The configuration token that names this value.
    pub open spec fn token(self) -> Seq<char> {
        match self {
            SemiColons::Always => "always"@,
            SemiColons::Prefer => "prefer"@,
            SemiColons::Asi => "asi"@,
        }
    }

    /// The value that a configuration token names, if it names one.
    pub open spec fn from_token(s: Seq<char>) -> Option<SemiColons> {
        if s == "always"@ {
            Some(SemiColons::Always)
        } else if s == "prefer"@ {
            Some(SemiColons::Prefer)
        } else if s == "asi"@ {
            Some(SemiColons::Asi)
        } else {
            None
        }
    }

    /// Reads a configuration token; `None` when it names no value.
    pub fn parse(s: &str) -> (r: Option<SemiColons>)
        ensures
            r == SemiColons::from_token(s@),
    {
        if str_eq(s, "always") {
            Some(SemiColons::Always)
        } else if str_eq(s, "prefer") {
            Some(SemiColons::Prefer)
        } else if str_eq(s, "asi") {
            Some(SemiColons::Asi)
        } else {
            None
        }
    }

    /// The configuration token of this value.
    pub fn as_str(self) -> (r: &'static str)
        ensures
            r@ == self.token(),
    {
        match self {
            SemiColons::Always => "always",
            SemiColons::Prefer => "prefer",
            SemiColons::Asi => "asi",
        }
    }

    /// A token names this value exactly when it is this value's token: tokens are
    /// read back to the value they were written from, and no other string is accepted.
    pub proof fn lemma_token_names(self, s: Seq<char>)
        ensures
            SemiColons::from_token(s) == Some(self) <==> s == self.token(),
    {
        reveal_strlit("always");
        reveal_strlit("prefer");
        reveal_strlit("asi");
        assert("always"@[0] != "prefer"@[0]);
        assert("always"@.len() != "asi"@.len());
        assert("prefer"@.len() != "asi"@.len());
    }
}

/// When trailing commas are used.
#[derive(Clone, Copy, Debug, PartialEq, Eq)]
pub enum TrailingCommas {
    Always,
    Never,
    OnlyMultiLine,
}

impl TrailingCommas {
    /// The configuration token that names this value.
    pub open spec fn token(self) -> Seq<char> {
        match self {
            TrailingCommas::Always => "always"@,
            TrailingCommas::Never => "never"@,
            TrailingCommas::OnlyMultiLine => "onlyMultiLine"@,
        }
    }

    /// The value that a configuration token names, if it names one.
    pub open spec fn from_token(s: Seq<char>) -> Option<TrailingCommas> {
        if s == "always"@ {
            Some(TrailingCommas::Always)
        } else if s == "never"@ {
            Some(TrailingCommas::Never)
        } else if s == "onlyMultiLine"@ {
            Some(TrailingCommas::OnlyMultiLine)
        } else {
            None
        }
    }

    /// Reads a configuration token; `None` when it names no value.
    pub fn parse(s: &str) -> (r: Option<TrailingCommas>)
        ensures
            r == TrailingCommas::from_token(s@),
    {
        if str_eq(s, "always") {
            Some(TrailingCommas::Always)
        } else if str_eq(s, "never") {
            Some(TrailingCommas::Never)
        } else if str_eq(s, "onlyMultiLine") {
            Some(TrailingCommas::OnlyMultiLine)
        } else {
            None
        }
    }

    /// The configuration token of this value.
    pub fn as_str(self) -> (r: &'static str)
        ensures
            r@ == self.token(),
    {
        match self {
            TrailingCommas::Always => "always",
            TrailingCommas::Never => "never",
            TrailingCommas::OnlyMultiLine => "onlyMultiLine",
        }
    }

    /// A token names this value exactly when it is this value's token: tokens are
    /// read back to the value they were written from, and no other string is accepted.
    pub proof fn lemma_token_names(self, s: Seq<char>)
        ensures
            TrailingCommas::from_token(s) == Some(self) <==> s == self.token(),
    {
        reveal_strlit("always");
        reveal_strlit("never");
        reveal_strlit("onlyMultiLine");
        assert("always"@.len() != "never"@.len());
        assert("always"@.len() != "onlyMultiLine"@.len());
        assert("never"@.len() != "onlyMultiLine"@.len());
    }
}

/// When import and export lists are forced onto multiple lines.
#[derive(Clone, Copy, Debug, PartialEq, Eq)]
pub enum ForceMultiLine {
    Always,
    Never,
    WhenMultiple,
}

impl ForceMultiLine {
    /// The configuration token that names this value.
    pub open spec fn token(self) -> Seq<char> {
        match self {
            ForceMultiLine::Always => "always"@,
            ForceMultiLine::Never => "never"@,
            ForceMultiLine::WhenMultiple => "whenMultiple"@,
        }
    }

    /// The value that a configuration token names, if it names one.
    pub open spec fn from_token(s: Seq<char>) -> Option<ForceMultiLine> {
        if s == "always"@ {
            Some(ForceMultiLine::Always)
        } else if s == "never"@ {
            Some(ForceMultiLine::Never)
        } else if s == "whenMultiple"@ {
            Some(ForceMultiLine::WhenMultiple)
        } else {
            None
        }
    }

    /// Reads a configuration token; `None` when it names no value.
    pub fn parse(s: &str) -> (r: Option<ForceMultiLine>)
        ensures
            r == ForceMultiLine::from_token(s@),
    {
        if str_eq(s, "always") {
            Some(ForceMultiLine::Always)
        } else if str_eq(s, "never") {
            Some(ForceMultiLine::Never)
        } else if str_eq(s, "whenMultiple") {
            Some(ForceMultiLine::WhenMultiple)
        } else {
            None
        }
    }

    /// The configuration token of this value.
    pub fn as_str(self) -> (r: &'static str)
        ensures
            r@ == self.token(),
    {
        match self {
            ForceMultiLine::Always => "always",
            ForceMultiLine::Never => "never",
            ForceMultiLine::WhenMultiple => "whenMultiple",
        }
    }

    /// A token names this value exactly when it is this value's token: tokens are
    /// read back to the value they were written from, and no other string is accepted.
    pub proof fn lemma_token_names(self, s: Seq<char>)
        ensures
            ForceMultiLine::from_token(s) == Some(self) <==> s == self.token(),
    {
        reveal_strlit("always");
        reveal_strlit("never");
        reveal_strlit("whenMultiple");
        assert("always"@.len() != "never"@.len());
        assert("always"@.len() != "whenMultiple"@.len());
        assert("never"@.len() != "whenMultiple"@.len());
    }
}

/// Where an opening brace is placed.
#[derive(Clone, Copy, Debug, PartialEq, Eq)]
pub enum BracePosition {
    Maintain,
    SameLine,
    NextLine,
    SameLineUnlessHanging,
}

impl BracePosition {
    /// The configuration token that names this value.
    pub open spec fn token(self) -> Seq<char> {
        match self {
            BracePosition::Maintain => "maintain"@,
            BracePosition::SameLine => "sameLine"@,
            BracePosition::NextLine => "nextLine"@,
            BracePosition::SameLineUnlessHanging => "sameLineUnlessHanging"@,
        }
    }

    /// The value that a configuration token names, if it names one.
    pub open spec fn from_token(s: Seq<char>) -> Option<BracePosition> {
        if s == "maintain"@ {
            Some(BracePosition::Maintain)
        } else if s == "sameLine"@ {
            Some(BracePosition::SameLine)
        } else if s == "nextLine"@ {
            Some(BracePosition::NextLine)
        } else if s == "sameLineUnlessHanging"@ {
            Some(BracePosition::SameLineUnlessHanging)
        } else {
            None
        }
    }

    /// Reads a configuration token; `None` when it names no value.
    pub fn parse(s: &str) -> (r: Option<BracePosition>)
        ensures
            r == BracePosition::from_token(s@),
    {
        if str_eq(s, "maintain") {
            Some(BracePosition::Maintain)
        } else if str_eq(s, "sameLine") {
            Some(BracePosition::SameLine)
        } else if str_eq(s, "nextLine") {
            Some(BracePosition::NextLine)
        } else if str_eq(s, "sameLineUnlessHanging") {
            Some(BracePosition::SameLineUnlessHanging)
        } else {
            None
        }
    }

    /// The configuration token of this value.
    pub fn as_str(self) -> (r: &'static str)
        ensures
            r@ == self.token(),
    {
        match self {
            BracePosition::Maintain => "maintain",
            BracePosition::SameLine => "sameLine",
            BracePosition::NextLine => "nextLine",
            BracePosition::SameLineUnlessHanging => "sameLineUnlessHanging",
        }
    }

    /// A token names this value exactly when it is this value's token: tokens are
    /// read back to the value they were written from, and no other string is accepted.
    pub proof fn lemma_token_names(self, s: Seq<char>)
        ensures
            BracePosition::from_token(s) == Some(self) <==> s == self.token(),
    {
        reveal_strlit("maintain");
        reveal_strlit("sameLine");
        reveal_strlit("nextLine");
        reveal_strlit("sameLineUnlessHanging");
        assert("maintain"@[0] != "sameLine"@[0]);
        assert("maintain"@[0] != "nextLine"@[0]);
        assert("maintain"@.len() != "sameLineUnlessHanging"@.len());
        assert("sameLine"@[0] != "nextLine"@[0]);
        assert("sameLine"@.len() != "sameLineUnlessHanging"@.len());
        assert("nextLine"@.len() != "sameLineUnlessHanging"@.len());
    }
}

/// How members are separated.
#[derive(Clone, Copy, Debug, PartialEq, Eq)]
pub enum MemberSpacing {
    Maintain,
    BlankLine,
    NewLine,
}

impl MemberSpacing {
    /// The configuration token that names this value.
    pub open spec fn token(self) -> Seq<char> {
        match self {
            MemberSpacing::Maintain => "maintain"@,
            MemberSpacing::BlankLine => "blankLine"@,
            MemberSpacing::NewLine => "newLine"@,
        }
    }

    /// The value that a configuration token names, if it names one.
    pub open spec fn from_token(s: Seq<char>) -> Option<MemberSpacing> {
        if s == "maintain"@ {
            Some(MemberSpacing::Maintain)
        } else if s == "blankLine"@ {
            Some(MemberSpacing::BlankLine)
        } else if s == "newLine"@ {
            Some(MemberSpacing::NewLine)
        } else {
            None
        }
    }

    /// Reads a configuration token; `None` when it names no value.
    pub fn parse(s: &str) -> (r: Option<MemberSpacing>)
        ensures
            r == MemberSpacing::from_token(s@),
    {
        if str_eq(s, "maintain") {
            Some(MemberSpacing::Maintain)
        } else if str_eq(s, "blankLine") {
            Some(MemberSpacing::BlankLine)
        } else if str_eq(s, "newLine") {
            Some(MemberSpacing::NewLine)
        } else {
            None
        }
    }

    /// The configuration token of this value.
    pub fn as_str(self) -> (r: &'static str)
        ensures
            r@ == self.token(),
    {
        match self {
            MemberSpacing::Maintain => "maintain",
            MemberSpacing::BlankLine => "blankLine",
            MemberSpacing::NewLine => "newLine",
        }
    }

    /// A token names this value exactly when it is this value's token: tokens are
    /// read back to the value they were written from, and no other string is accepted.
    pub proof fn lemma_token_names(self, s: Seq<char>)
        ensures
            MemberSpacing::from_token(s) == Some(self) <==> s == self.token(),
    {
        reveal_strlit("maintain");
        reveal_strlit("blankLine");
        reveal_strlit("newLine");
        assert("maintain"@.len() != "blankLine"@.len());
        assert("maintain"@.len() != "newLine"@.len());
        assert("blankLine"@.len() != "newLine"@.len());
    }
}

/// Where the next control flow keyword (`else`, `catch`, ...) is placed.
#[derive(Clone, Copy, Debug, PartialEq, Eq)]
pub enum NextControlFlowPosition {
    Maintain,
    SameLine,
    NextLine,
}

impl NextControlFlowPosition {
    /// The configuration token that names this value.
    pub open spec fn token(self) -> Seq<char> {
        match self {
            NextControlFlowPosition::Maintain => "maintain"@,
            NextControlFlowPosition::SameLine => "sameLine"@,
            NextControlFlowPosition::NextLine => "nextLine"@,
        }
    }

    /// The value that a configuration token names, if it names one.
    pub open spec fn from_token(s: Seq<char>) -> Option<NextControlFlowPosition> {
        if s == "maintain"@ {
            Some(NextControlFlowPosition::Maintain)
        } else if s == "sameLine"@ {
            Some(NextControlFlowPosition::SameLine)
        } else if s == "nextLine"@ {
            Some(NextControlFlowPosition::NextLine)
        } else {
            None
        }
    }

    /// Reads a configuration token; `None` when it names no value.
    pub fn parse(s: &str) -> (r: Option<NextControlFlowPosition>)
        ensures
            r == NextControlFlowPosition::from_token(s@),
    {
        if str_eq(s, "maintain") {
            Some(NextControlFlowPosition::Maintain)
        } else if str_eq(s, "sameLine") {
            Some(NextControlFlowPosition::SameLine)
        } else if str_eq(s, "nextLine") {
            Some(NextControlFlowPosition::NextLine)
        } else {
            None
        }
    }

    /// The configuration token of this value.
    pub fn as_str(self) -> (r: &'static str)
        ensures
            r@ == self.token(),
    {
        match self {
            NextControlFlowPosition::Maintain => "maintain",
            NextControlFlowPosition::SameLine => "sameLine",
            NextControlFlowPosition::NextLine => "nextLine",
        }
    }

    /// A token names this value exactly when it is this value's token: tokens are
    /// read back to the value they were written from, and no other string is accepted.
    pub proof fn lemma_token_names(self, s: Seq<char>)
        ensures
            NextControlFlowPosition::from_token(s) == Some(self) <==> s == self.token(),
    {
        reveal_strlit("maintain");
        reveal_strlit("sameLine");
        reveal_strlit("nextLine");
        assert("maintain"@[0] != "sameLine"@[0]);
        assert("maintain"@[0] != "nextLine"@[0]);
        assert("sameLine"@[0] != "nextLine"@[0]);
    }
}

/// Where the operator of an expression that spans lines is placed.
#[derive(Clone, Copy, Debug, PartialEq, Eq)]
pub enum OperatorPosition {
    Maintain,
    SameLine,
    NextLine,
}

impl OperatorPosition {
    /// The configuration token that names this value.
    pub open spec fn token(self) -> Seq<char> {
        match self {
            OperatorPosition::Maintain => "maintain"@,
            OperatorPosition::SameLine => "sameLine"@,
            OperatorPosition::NextLine => "nextLine"@,
        }
    }

    /// The value that a configuration token names, if it names one.
    pub open spec fn from_token(s: Seq<char>) -> Option<OperatorPosition> {
        if s == "maintain"@ {
            Some(OperatorPosition::Maintain)
        } else if s == "sameLine"@ {
            Some(OperatorPosition::SameLine)
        } else if s == "nextLine"@ {
            Some(OperatorPosition::NextLine)
        } else {
            None
        }
    }

    /// Reads a configuration token; `None` when it names no value.
    pub fn parse(s: &str) -> (r: Option<OperatorPosition>)
        ensures
            r == OperatorPosition::from_token(s@),
    {
        if str_eq(s, "maintain") {
            Some(OperatorPosition::Maintain)
        } else if str_eq(s, "sameLine") {
            Some(OperatorPosition::SameLine)
        } else if str_eq(s, "nextLine") {
            Some(OperatorPosition::NextLine)
        } else {
            None
        }
    }

    /// The configuration token of this value.
    pub fn as_str(self) -> (r: &'static str)
        ensures
            r@ == self.token(),
    {
        match self {
            OperatorPosition::Maintain => "maintain",
            OperatorPosition::SameLine => "sameLine",
            OperatorPosition::NextLine => "nextLine",
        }
    }

    /// A token names this value exactly when it is this value's token: tokens are
    /// read back to the value they were written from, and no other string is accepted.
    pub proof fn lemma_token_names(self, s: Seq<char>)
        ensures
            OperatorPosition::from_token(s) == Some(self) <==> s == self.token(),
    {
        reveal_strlit("maintain");
        reveal_strlit("sameLine");
        reveal_strlit("nextLine");
        assert("maintain"@[0] != "sameLine"@[0]);
        assert("maintain"@[0] != "nextLine"@[0]);
        assert("sameLine"@[0] != "nextLine"@[0]);
    }
}

/// Whether a node is placed on the same line or the next line.
#[derive(Clone, Copy, Debug, PartialEq, Eq)]
pub enum SameOrNextLinePosition {
    Maintain,
    SameLine,
    NextLine,
}

impl SameOrNextLinePosition {
    /// The configuration token that names this value.
    pub open spec fn token(self) -> Seq<char> {
        match self {
            SameOrNextLinePosition::Maintain => "maintain"@,
            SameOrNextLinePosition::SameLine => "sameLine"@,
            SameOrNextLinePosition::NextLine => "nextLine"@,
        }
    }

    /// The value that a configuration token names, if it names one.
    pub open spec fn from_token(s: Seq<char>) -> Option<SameOrNextLinePosition> {
        if s == "maintain"@ {
            Some(SameOrNextLinePosition::Maintain)
        } else if s == "sameLine"@ {
            Some(SameOrNextLinePosition::SameLine)
        } else if s == "nextLine"@ {
            Some(SameOrNextLinePosition::NextLine)
        } else {
            None
        }
    }

    /// Reads a configuration token; `None` when it names no value.
    pub fn parse(s: &str) -> (r: Option<SameOrNextLinePosition>)
        ensures
            r == SameOrNextLinePosition::from_token(s@),
    {
        if str_eq(s, "maintain") {
            Some(SameOrNextLinePosition::Maintain)
        } else if str_eq(s, "sameLine") {
            Some(SameOrNextLinePosition::SameLine)
        } else if str_eq(s, "nextLine") {
            Some(SameOrNextLinePosition::NextLine)
        } else {
            None
        }
    }

    /// The configuration token of this value.
    pub fn as_str(self) -> (r: &'static str)
        ensures
            r@ == self.token(),
    {
        match self {
            SameOrNextLinePosition::Maintain => "maintain",
            SameOrNextLinePosition::SameLine => "sameLine",
            SameOrNextLinePosition::NextLine => "nextLine",
        }
    }

    /// A token names this value exactly when it is this value's token: tokens are
    /// read back to the value they were written from, and no other string is accepted.
    pub proof fn lemma_token_names(self, s: Seq<char>)
        ensures
            SameOrNextLinePosition::from_token(s) == Some(self) <==> s == self.token(),
    {
        reveal_strlit("maintain");
        reveal_strlit("sameLine");
        reveal_strlit("nextLine");
        assert("maintain"@[0] != "sameLine"@[0]);
        assert("maintain"@[0] != "nextLine"@[0]);
        assert("sameLine"@[0] != "nextLine"@[0]);
    }
}

/// When braces are used around a single-statement body.
#[derive(Clone, Copy, Debug, PartialEq, Eq)]
pub enum UseBraces {
    Maintain,
    WhenNotSingleLine,
    Always,
    PreferNone,
}

impl UseBraces {
    /// The configuration token that names this value.
    pub open spec fn token(self) -> Seq<char> {
        match self {
            UseBraces::Maintain => "maintain"@,
            UseBraces::WhenNotSingleLine => "whenNotSingleLine"@,
            UseBraces::Always => "always"@,
            UseBraces::PreferNone => "preferNone"@,
        }
    }

    /// The value that a configuration token names, if it names one.
    pub open spec fn from_token(s: Seq<char>) -> Option<UseBraces> {
        if s == "maintain"@ {
            Some(UseBraces::Maintain)
        } else if s == "whenNotSingleLine"@ {
            Some(UseBraces::WhenNotSingleLine)
        } else if s == "always"@ {
            Some(UseBraces::Always)
        } else if s == "preferNone"@ {
            Some(UseBraces::PreferNone)
        } else {
            None
        }
    }

    /// Reads a configuration token; `None` when it names no value.
    pub fn parse(s: &str) -> (r: Option<UseBraces>)
        ensures
            r == UseBraces::from_token(s@),
    {
        if str_eq(s, "maintain") {
            Some(UseBraces::Maintain)
        } else if str_eq(s, "whenNotSingleLine") {
            Some(UseBraces::WhenNotSingleLine)
        } else if str_eq(s, "always") {
            Some(UseBraces::Always)
        } else if str_eq(s, "preferNone") {
            Some(UseBraces::PreferNone)
        } else {
            None
        }
    }

    /// The configuration token of this value.
    pub fn as_str(self) -> (r: &'static str)
        ensures
            r@ == self.token(),
    {
        match self {
            UseBraces::Maintain => "maintain",
            UseBraces::WhenNotSingleLine => "whenNotSingleLine",
            UseBraces::Always => "always",
            UseBraces::PreferNone => "preferNone",
        }
    }

    /// A token names this value exactly when it is this value's token: tokens are
    /// read back to the value they were written from, and no other string is accepted.
    pub proof fn lemma_token_names(self, s: Seq<char>)
        ensures
            UseBraces::from_token(s) == Some(self) <==> s == self.token(),
    {
        reveal_strlit("maintain");
        reveal_strlit("whenNotSingleLine");
        reveal_strlit("always");
        reveal_strlit("preferNone");
        assert("maintain"@.len() != "whenNotSingleLine"@.len());
        assert("maintain"@.len() != "always"@.len());
        assert("maintain"@.len() != "preferNone"@.len());
        assert("whenNotSingleLine"@.len() != "always"@.len());
        assert("whenNotSingleLine"@.len() != "preferNone"@.len());
        assert("always"@.len() != "preferNone"@.len());
    }
}

/// When parentheses are used around a single arrow function parameter.
#[derive(Clone, Copy, Debug, PartialEq, Eq)]
pub enum UseParentheses {
    Maintain,
    Force,
    PreferNone,
}

impl UseParentheses {
    /// The configuration token that names this value.
    pub open spec fn token(self) -> Seq<char> {
        match self {
            UseParentheses::Maintain => "maintain"@,
            UseParentheses::Force => "force"@,
            UseParentheses::PreferNone => "preferNone"@,
        }
    }

    /// The value that a configuration token names, if it names one.
    pub open spec fn from_token(s: Seq<char>) -> Option<UseParentheses> {
        if s == "maintain"@ {
            Some(UseParentheses::Maintain)
        } else if s == "force"@ {
            Some(UseParentheses::Force)
        } else if s == "preferNone"@ {
            Some(UseParentheses::PreferNone)
        } else {
            None
        }
    }

    /// Reads a configuration token; `None` when it names no value.
    pub fn parse(s: &str) -> (r: Option<UseParentheses>)
        ensures
            r == UseParentheses::from_token(s@),
    {
        if str_eq(s, "maintain") {
            Some(UseParentheses::Maintain)
        } else if str_eq(s, "force") {
            Some(UseParentheses::Force)
        } else if str_eq(s, "preferNone") {
            Some(UseParentheses::PreferNone)
        } else {
            None
        }
    }

    /// The configuration token of this value.
    pub fn as_str(self) -> (r: &'static str)
        ensures
            r@ == self.token(),
    {
        match self {
            UseParentheses::Maintain => "maintain",
            UseParentheses::Force => "force",
            UseParentheses::PreferNone => "preferNone",
        }
    }

    /// A token names this value exactly when it is this value's token: tokens are
    /// read back to the value they were written from, and no other string is accepted.
    pub proof fn lemma_token_names(self, s: Seq<char>)
        ensures
            UseParentheses::from_token(s) == Some(self) <==> s == self.token(),
    {
        reveal_strlit("maintain");
        reveal_strlit("force");
        reveal_strlit("preferNone");
        assert("maintain"@.len() != "force"@.len());
        assert("maintain"@.len() != "preferNone"@.len());
        assert("force"@.len() != "preferNone"@.len());
    }
}

/// Which quotes string literals use.
#[derive(Clone, Copy, Debug, PartialEq, Eq)]
pub enum QuoteStyle {
    AlwaysDouble,
    AlwaysSingle,
    PreferDouble,
    PreferSingle,
}

impl QuoteStyle {
    /// The configuration token that names this value.
    pub open spec fn token(self) -> Seq<char> {
        match self {
            QuoteStyle::AlwaysDouble => "alwaysDouble"@,
            QuoteStyle::AlwaysSingle => "alwaysSingle"@,
            QuoteStyle::PreferDouble => "preferDouble"@,
            QuoteStyle::PreferSingle => "preferSingle"@,
        }
    }

    /// The value that a configuration token names, if it names one.
    pub open spec fn from_token(s: Seq<char>) -> Option<QuoteStyle> {
        if s == "alwaysDouble"@ {
            Some(QuoteStyle::AlwaysDouble)
        } else if s == "alwaysSingle"@ {
            Some(QuoteStyle::AlwaysSingle)
        } else if s == "preferDouble"@ {
            Some(QuoteStyle::PreferDouble)
        } else if s == "preferSingle"@ {
            Some(QuoteStyle::PreferSingle)
        } else {
            None
        }
    }

    /// Reads a configuration token; `None` when it names no value.
    pub fn parse(s: &str) -> (r: Option<QuoteStyle>)
        ensures
            r == QuoteStyle::from_token(s@),
    {
        if str_eq(s, "alwaysDouble") {
            Some(QuoteStyle::AlwaysDouble)
        } else if str_eq(s, "alwaysSingle") {
            Some(QuoteStyle::AlwaysSingle)
        } else if str_eq(s, "preferDouble") {
            Some(QuoteStyle::PreferDouble)
        } else if str_eq(s, "preferSingle") {
            Some(QuoteStyle::PreferSingle)
        } else {
            None
        }
    }

    /// The configuration token of this value.
    pub fn as_str(self) -> (r: &'static str)
        ensures
            r@ == self.token(),
    {
        match self {
            QuoteStyle::AlwaysDouble => "alwaysDouble",
            QuoteStyle::AlwaysSingle => "alwaysSingle",
            QuoteStyle::PreferDouble => "preferDouble",
            QuoteStyle::PreferSingle => "preferSingle",
        }
    }

    /// A token names this value exactly when it is this value's token: tokens are
    /// read back to the value they were written from, and no other string is accepted.
    pub proof fn lemma_token_names(self, s: Seq<char>)
        ensures
            QuoteStyle::from_token(s) == Some(self) <==> s == self.token(),
    {
        reveal_strlit("alwaysDouble");
        reveal_strlit("alwaysSingle");
        reveal_strlit("preferDouble");
        reveal_strlit("preferSingle");
        assert("alwaysDouble"@[6] != "alwaysSingle"@[6]);
        assert("alwaysDouble"@[0] != "preferDouble"@[0]);
        assert("alwaysDouble"@[0] != "preferSingle"@[0]);
        assert("alwaysSingle"@[0] != "preferDouble"@[0]);
        assert("alwaysSingle"@[0] != "preferSingle"@[0]);
        assert("preferDouble"@[6] != "preferSingle"@[6]);
    }
}

/// Which quotes JSX attribute strings use.
#[derive(Clone, Copy, Debug, PartialEq, Eq)]
pub enum JsxQuoteStyle {
    PreferDouble,
    PreferSingle,
}

impl JsxQuoteStyle {
    /// The configuration token that names this value.
    pub open spec fn token(self) -> Seq<char> {
        match self {
            JsxQuoteStyle::PreferDouble => "preferDouble"@,
            JsxQuoteStyle::PreferSingle => "preferSingle"@,
        }
    }

    /// The value that a configuration token names, if it names one.
    pub open spec fn from_token(s: Seq<char>) -> Option<JsxQuoteStyle> {
        if s == "preferDouble"@ {
            Some(JsxQuoteStyle::PreferDouble)
        } else if s == "preferSingle"@ {
            Some(JsxQuoteStyle::PreferSingle)
        } else {
            None
        }
    }

    /// Reads a configuration token; `None` when it names no value.
    pub fn parse(s: &str) -> (r: Option<JsxQuoteStyle>)
        ensures
            r == JsxQuoteStyle::from_token(s@),
    {
        if str_eq(s, "preferDouble") {
            Some(JsxQuoteStyle::PreferDouble)
        } else if str_eq(s, "preferSingle") {
            Some(JsxQuoteStyle::PreferSingle)
        } else {
            None
        }
    }

    /// The configuration token of this value.
    pub fn as_str(self) -> (r: &'static str)
        ensures
            r@ == self.token(),
    {
        match self {
            JsxQuoteStyle::PreferDouble => "preferDouble",
            JsxQuoteStyle::PreferSingle => "preferSingle",
        }
    }

    /// A token names this value exactly when it is this value's token: tokens are
    /// read back to the value they were written from, and no other string is accepted.
    pub proof fn lemma_token_names(self, s: Seq<char>)
        ensures
            JsxQuoteStyle::from_token(s) == Some(self) <==> s == self.token(),
    {
        reveal_strlit("preferDouble");
        reveal_strlit("preferSingle");
        assert("preferDouble"@[6] != "preferSingle"@[6]);
    }
}

/// How quotes around property names are handled.
#[derive(Clone, Copy, Debug, PartialEq, Eq)]
pub enum QuoteProps {
    AsNeeded,
    Consistent,
    Preserve,
}

impl QuoteProps {
    /// The configuration token that names this value.
    pub open spec fn token(self) -> Seq<char> {
        match self {
            QuoteProps::AsNeeded => "asNeeded"@,
            QuoteProps::Consistent => "consistent"@,
            QuoteProps::Preserve => "preserve"@,
        }
    }

    /// The value that a configuration token names, if it names one.
    pub open spec fn from_token(s: Seq<char>) -> Option<QuoteProps> {
        if s == "asNeeded"@ {
            Some(QuoteProps::AsNeeded)
        } else if s == "consistent"@ {
            Some(QuoteProps::Consistent)
        } else if s == "preserve"@ {
            Some(QuoteProps::Preserve)
        } else {
            None
        }
    }

    /// Reads a configuration token; `None` when it names no value.
    pub fn parse(s: &str) -> (r: Option<QuoteProps>)
        ensures
            r == QuoteProps::from_token(s@),
    {
        if str_eq(s, "asNeeded") {
            Some(QuoteProps::AsNeeded)
        } else if str_eq(s, "consistent") {
            Some(QuoteProps::Consistent)
        } else if str_eq(s, "preserve") {
            Some(QuoteProps::Preserve)
        } else {
            None
        }
    }

    /// The configuration token of this value.
    pub fn as_str(self) -> (r: &'static str)
        ensures
            r@ == self.token(),
    {
        match self {
            QuoteProps::AsNeeded => "asNeeded",
            QuoteProps::Consistent => "consistent",
            QuoteProps::Preserve => "preserve",
        }
    }

    /// A token names this value exactly when it is this value's token: tokens are
    /// read back to the value they were written from, and no other string is accepted.
    pub proof fn lemma_token_names(self, s: Seq<char>)
        ensures
            QuoteProps::from_token(s) == Some(self) <==> s == self.token(),
    {
        reveal_strlit("asNeeded");
        reveal_strlit("consistent");
        reveal_strlit("preserve");
        assert("asNeeded"@.len() != "consistent"@.len());
        assert("asNeeded"@[0] != "preserve"@[0]);
        assert("consistent"@.len() != "preserve"@.len());
    }
}

/// When a multi-line JSX element is wrapped in parentheses.
#[derive(Clone, Copy, Debug, PartialEq, Eq)]
pub enum JsxMultiLineParens {
    Never,
    Prefer,
    Always,
}

impl JsxMultiLineParens {
    /// The configuration token that names this value.
    pub open spec fn token(self) -> Seq<char> {
        match self {
            JsxMultiLineParens::Never => "never"@,
            JsxMultiLineParens::Prefer => "prefer"@,
            JsxMultiLineParens::Always => "always"@,
        }
    }

    /// The value that a configuration token names, if it names one.
    pub open spec fn from_token(s: Seq<char>) -> Option<JsxMultiLineParens> {
        if s == "never"@ {
            Some(JsxMultiLineParens::Never)
        } else if s == "prefer"@ {
            Some(JsxMultiLineParens::Prefer)
        } else if s == "always"@ {
            Some(JsxMultiLineParens::Always)
        } else {
            None
        }
    }

    /// Reads a configuration token; `None` when it names no value.
    pub fn parse(s: &str) -> (r: Option<JsxMultiLineParens>)
        ensures
            r == JsxMultiLineParens::from_token(s@),
    {
        if str_eq(s, "never") {
            Some(JsxMultiLineParens::Never)
        } else if str_eq(s, "prefer") {
            Some(JsxMultiLineParens::Prefer)
        } else if str_eq(s, "always") {
            Some(JsxMultiLineParens::Always)
        } else {
            None
        }
    }

    /// The configuration token of this value.
    pub fn as_str(self) -> (r: &'static str)
        ensures
            r@ == self.token(),
    {
        match self {
            JsxMultiLineParens::Never => "never",
            JsxMultiLineParens::Prefer => "prefer",
            JsxMultiLineParens::Always => "always",
        }
    }

    /// A token names this value exactly when it is this value's token: tokens are
    /// read back to the value they were written from, and no other string is accepted.
    pub proof fn lemma_token_names(self, s: Seq<char>)
        ensures
            JsxMultiLineParens::from_token(s) == Some(self) <==> s == self.token(),
    {
        reveal_strlit("never");
        reveal_strlit("prefer");
        reveal_strlit("always");
        assert("never"@.len() != "prefer"@.len());
        assert("never"@.len() != "always"@.len());
        assert("prefer"@[0] != "always"@[0]);
    }
}

/// The separator used between type literal members.
#[derive(Clone, Copy, Debug, PartialEq, Eq)]
pub enum SemiColonOrComma {
    SemiColon,
    Comma,
}

impl SemiColonOrComma {
    /// The configuration token that names this value.
    pub open spec fn token(self) -> Seq<char> {
        match self {
            SemiColonOrComma::SemiColon => "semiColon"@,
            SemiColonOrComma::Comma => "comma"@,
        }
    }

    /// The value that a configuration token names, if it names one.
    pub open spec fn from_token(s: Seq<char>) -> Option<SemiColonOrComma> {
        if s == "semiColon"@ {
            Some(SemiColonOrComma::SemiColon)
        } else if s == "comma"@ {
            Some(SemiColonOrComma::Comma)
        } else {
            None
        }
    }

    /// Reads a configuration token; `None` when it names no value.
    pub fn parse(s: &str) -> (r: Option<SemiColonOrComma>)
        ensures
            r == SemiColonOrComma::from_token(s@),
    {
        if str_eq(s, "semiColon") {
            Some(SemiColonOrComma::SemiColon)
        } else if str_eq(s, "comma") {
            Some(SemiColonOrComma::Comma)
        } else {
            None
        }
    }

    /// The configuration token of this value.
    pub fn as_str(self) -> (r: &'static str)
        ensures
            r@ == self.token(),
    {
        match self {
            SemiColonOrComma::SemiColon => "semiColon",
            SemiColonOrComma::Comma => "comma",
        }
    }

    /// A token names this value exactly when it is this value's token: tokens are
    /// read back to the value they were written from, and no other string is accepted.
    pub proof fn lemma_token_names(self, s: Seq<char>)
        ensures
            SemiColonOrComma::from_token(s) == Some(self) <==> s == self.token(),
    {
        reveal_strlit("semiColon");
        reveal_strlit("comma");
        assert("semiColon"@.len() != "comma"@.len());
    }
}

/// How a list of declarations or names is sorted.
#[derive(Clone, Copy, Debug, PartialEq, Eq)]
pub enum SortOrder {
    Maintain,
    CaseSensitive,
    CaseInsensitive,
}

impl SortOrder {
    /// The configuration token that names this value.
    pub open spec fn token(self) -> Seq<char> {
        match self {
            SortOrder::Maintain => "maintain"@,
            SortOrder::CaseSensitive => "caseSensitive"@,
            SortOrder::CaseInsensitive => "caseInsensitive"@,
        }
    }

    /// The value that a configuration token names, if it names one.
    pub open spec fn from_token(s: Seq<char>) -> Option<SortOrder> {
        if s == "maintain"@ {
            Some(SortOrder::Maintain)
        } else if s == "caseSensitive"@ {
            Some(SortOrder::CaseSensitive)
        } else if s == "caseInsensitive"@ {
            Some(SortOrder::CaseInsensitive)
        } else {
            None
        }
    }

    /// Reads a configuration token; `None` when it names no value.
    pub fn parse(s: &str) -> (r: Option<SortOrder>)
        ensures
            r == SortOrder::from_token(s@),
    {
        if str_eq(s, "maintain") {
            Some(SortOrder::Maintain)
        } else if str_eq(s, "caseSensitive") {
            Some(SortOrder::CaseSensitive)
        } else if str_eq(s, "caseInsensitive") {
            Some(SortOrder::CaseInsensitive)
        } else {
            None
        }
    }

    /// The configuration token of this value.
    pub fn as_str(self) -> (r: &'static str)
        ensures
            r@ == self.token(),
    {
        match self {
            SortOrder::Maintain => "maintain",
            SortOrder::CaseSensitive => "caseSensitive",
            SortOrder::CaseInsensitive => "caseInsensitive",
        }
    }

    /// A token names this value exactly when it is this value's token: tokens are
    /// read back to the value they were written from, and no other string is accepted.
    pub proof fn lemma_token_names(self, s: Seq<char>)
        ensures
            SortOrder::from_token(s) == Some(self) <==> s == self.token(),
    {
        reveal_strlit("maintain");
        reveal_strlit("caseSensitive");
        reveal_strlit("caseInsensitive");
        assert("maintain"@.len() != "caseSensitive"@.len());
        assert("maintain"@.len() != "caseInsensitive"@.len());
        assert("caseSensitive"@.len() != "caseInsensitive"@.len());
    }
}

/// Where type-only names are placed among named imports and exports.
#[derive(Clone, Copy, Debug, PartialEq, Eq)]
pub enum NamedTypeImportsExportsOrder {
    First,
    Last,
    Unordered,
}

impl NamedTypeImportsExportsOrder {
    /// The configuration token that names this value.
    pub open spec fn token(self) -> Seq<char> {
        match self {
            NamedTypeImportsExportsOrder::First => "first"@,
            NamedTypeImportsExportsOrder::Last => "last"@,
            NamedTypeImportsExportsOrder::Unordered => "none"@,
        }
    }

    /// The value that a configuration token names, if it names one.
    pub open spec fn from_token(s: Seq<char>) -> Option<NamedTypeImportsExportsOrder> {
        if s == "first"@ {
            Some(NamedTypeImportsExportsOrder::First)
        } else if s == "last"@ {
            Some(NamedTypeImportsExportsOrder::Last)
        } else if s == "none"@ {
            Some(NamedTypeImportsExportsOrder::Unordered)
        } else {
            None
        }
    }

    /// Reads a configuration token; `None` when it names no value.
    pub fn parse(s: &str) -> (r: Option<NamedTypeImportsExportsOrder>)
        ensures
            r == NamedTypeImportsExportsOrder::from_token(s@),
    {
        if str_eq(s, "first") {
            Some(NamedTypeImportsExportsOrder::First)
        } else if str_eq(s, "last") {
            Some(NamedTypeImportsExportsOrder::Last)
        } else if str_eq(s, "none") {
            Some(NamedTypeImportsExportsOrder::Unordered)
        } else {
            None
        }
    }

    /// The configuration token of this value.
    pub fn as_str(self) -> (r: &'static str)
        ensures
            r@ == self.token(),
    {
        match self {
            NamedTypeImportsExportsOrder::First => "first",
            NamedTypeImportsExportsOrder::Last => "last",
            NamedTypeImportsExportsOrder::Unordered => "none",
        }
    }

    /// A token names this value exactly when it is this value's token: tokens are
    /// read back to the value they were written from, and no other string is accepted.
    pub proof fn lemma_token_names(self, s: Seq<char>)
        ensures
            NamedTypeImportsExportsOrder::from_token(s) == Some(self) <==> s == self.token(),
    {
        reveal_strlit("first");
        reveal_strlit("last");
        reveal_strlit("none");
        assert("first"@.len() != "last"@.len());
        assert("first"@.len() != "none"@.len());
        assert("last"@[0] != "none"@[0]);
    }
}

/// The newline sequence written to the output.
#[derive(Clone, Copy, Debug, PartialEq, Eq)]
pub enum NewLineKind {
    Auto,
    LineFeed,
    CarriageReturnLineFeed,
}

impl NewLineKind {
    /// The configuration token that names this value.
    pub open spec fn token(self) -> Seq<char> {
        match self {
            NewLineKind::Auto => "auto"@,
            NewLineKind::LineFeed => "lf"@,
            NewLineKind::CarriageReturnLineFeed => "crlf"@,
        }
    }

    /// The value that a configuration token names, if it names one.
    pub open spec fn from_token(s: Seq<char>) -> Option<NewLineKind> {
        if s == "auto"@ {
            Some(NewLineKind::Auto)
        } else if s == "lf"@ {
            Some(NewLineKind::LineFeed)
        } else if s == "crlf"@ {
            Some(NewLineKind::CarriageReturnLineFeed)
        } else {
            None
        }
    }

    /// Reads a configuration token; `None` when it names no value.
    pub fn parse(s: &str) -> (r: Option<NewLineKind>)
        ensures
            r == NewLineKind::from_token(s@),
    {
        if str_eq(s, "auto") {
            Some(NewLineKind::Auto)
        } else if str_eq(s, "lf") {
            Some(NewLineKind::LineFeed)
        } else if str_eq(s, "crlf") {
            Some(NewLineKind::CarriageReturnLineFeed)
        } else {
            None
        }
    }

    /// The configuration token of this value.
    pub fn as_str(self) -> (r: &'static str)
        ensures
            r@ == self.token(),
    {
        match self {
            NewLineKind::Auto => "auto",
            NewLineKind::LineFeed => "lf",
            NewLineKind::CarriageReturnLineFeed => "crlf",
        }
    }

    /// A token names this value exactly when it is this value's token: tokens are
    /// read back to the value they were written from, and no other string is accepted.
    pub proof fn lemma_token_names(self, s: Seq<char>)
        ensures
            NewLineKind::from_token(s) == Some(self) <==> s == self.token(),
    {
        reveal_strlit("auto");
        reveal_strlit("lf");
        reveal_strlit("crlf");
        assert("auto"@.len() != "lf"@.len());
        assert("auto"@[0] != "crlf"@[0]);
        assert("lf"@.len() != "crlf"@.len());
    }
}

} // verus!
