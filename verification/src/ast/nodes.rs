//! Locations of statements and declarations, argument lists, and the
//! empty lists and flags that the parser starts from.
use super::{
    ArgumentDecl, ArgumentList, EnumDeclEntry, Expression, ExpressionList, IdentifierList,
    MatchPattern, MixinEntry, ModuleFlags, ParserError, SourcePointer, Statement, StructEntry,
};
use vstd::prelude::*;

verus! {

impl Statement {
    /// The location of the statement, whatever its kind.
    pub open spec fn spec_loc(&self) -> SourcePointer {
        match self {
            Statement::ValDeclStatement(a) => a.loc,
            Statement::AssignStatement(a) => a.loc,
            Statement::WriteOpEqStatement(a) => a.loc,
            Statement::IfStatement(a) => a.loc,
            Statement::MatchStatement(a) => a.loc,
            Statement::WhileStatement(a) => a.loc,
            Statement::ForStatement(a) => a.loc,
            Statement::CodeBlock(a) => a.loc,
            Statement::ReturnStatement(a) => a.loc,
            Statement::ThrowStatement(a) => a.loc,
            Statement::GuardBlock(a) => a.loc,
            Statement::TryBlock(a) => a.loc,
            Statement::AssertStatement(a) => a.loc,
            Statement::ExpressionStatement(a) => a.loc,
            Statement::BreakStatement(a) => a.loc,
            Statement::ContinueStatement(a) => a.loc,
            Statement::StructDecl(a) => a.loc,
            Statement::EnumDecl(a) => a.loc,
        }
    }

    /// The location of the statement.
    pub fn loc(&self) -> (res: &SourcePointer)
        ensures
            *res == self.spec_loc(),
    {
        match self {
            Statement::ValDeclStatement(a) => &a.loc,
            Statement::AssignStatement(a) => &a.loc,
            Statement::WriteOpEqStatement(a) => &a.loc,
            Statement::IfStatement(a) => &a.loc,
            Statement::MatchStatement(a) => &a.loc,
            Statement::WhileStatement(a) => &a.loc,
            Statement::ForStatement(a) => &a.loc,
            Statement::CodeBlock(a) => &a.loc,
            Statement::ReturnStatement(a) => &a.loc,
            Statement::ThrowStatement(a) => &a.loc,
            Statement::GuardBlock(a) => &a.loc,
            Statement::TryBlock(a) => &a.loc,
            Statement::AssertStatement(a) => &a.loc,
            Statement::ExpressionStatement(a) => &a.loc,
            Statement::BreakStatement(a) => &a.loc,
            Statement::ContinueStatement(a) => &a.loc,
            Statement::StructDecl(a) => &a.loc,
            Statement::EnumDecl(a) => &a.loc,
        }
    }
}

impl MatchPattern {
    /// The location of the pattern, whatever its kind.
    pub open spec fn spec_loc(&self) -> SourcePointer {
        match self {
            MatchPattern::MatchPatternComp(a) => a.loc,
            MatchPattern::MatchPatternRel(a) => a.loc,
            MatchPattern::MatchPatternEnumCase(a) => a.loc,
        }
    }

    /// The location of the pattern.
    pub fn loc(&self) -> (res: &SourcePointer)
        ensures
            *res == self.spec_loc(),
    {
        match self {
            MatchPattern::MatchPatternComp(a) => &a.loc,
            MatchPattern::MatchPatternRel(a) => &a.loc,
            MatchPattern::MatchPatternEnumCase(a) => &a.loc,
        }
    }
}

impl StructEntry {
    /// The location of the entry, whatever its kind.
    pub open spec fn spec_loc(&self) -> SourcePointer {
        match self {
            StructEntry::Method(a) => a.loc,
            StructEntry::Operator(a) => a.loc,
            StructEntry::Variable(a) => a.loc,
            StructEntry::Struct(a) => a.loc,
            StructEntry::Enum(a) => a.loc,
            StructEntry::MixinInclude(a) => a.loc,
        }
    }

    /// The location of the entry.
    pub fn loc(&self) -> (res: &SourcePointer)
        ensures
            *res == self.spec_loc(),
    {
        match self {
            StructEntry::Method(a) => &a.loc,
            StructEntry::Operator(a) => &a.loc,
            StructEntry::Variable(a) => &a.loc,
            StructEntry::Struct(a) => &a.loc,
            StructEntry::Enum(a) => &a.loc,
            StructEntry::MixinInclude(a) => &a.loc,
        }
    }
}

impl MixinEntry {
    /// The location of the entry, whatever its kind.
    pub open spec fn spec_loc(&self) -> SourcePointer {
        match self {
            MixinEntry::Method(a) => a.loc,
            MixinEntry::Operator(a) => a.loc,
            MixinEntry::Include(a) => a.loc,
        }
    }

    /// The location of the entry.
    pub fn loc(&self) -> (res: &SourcePointer)
        ensures
            *res == self.spec_loc(),
    {
        match self {
            MixinEntry::Method(a) => &a.loc,
            MixinEntry::Operator(a) => &a.loc,
            MixinEntry::Include(a) => &a.loc,
        }
    }
}

impl EnumDeclEntry {
    /// The location of the entry, whatever its kind.
    pub open spec fn spec_loc(&self) -> SourcePointer {
        match self {
            EnumDeclEntry::EnumCaseDecl(e) => e.loc,
            EnumDeclEntry::StructEntry(s) => s.spec_loc(),
        }
    }

    /// The location of the entry.
    pub fn loc(&self) -> (res: &SourcePointer)
        ensures
            *res == self.spec_loc(),
    {
        match self {
            Self::EnumCaseDecl(e) => &e.loc,
            Self::StructEntry(s) => s.loc(),
        }
    }
}

impl IdentifierList {
    /// An empty list at `loc`.
    pub fn empty(loc: SourcePointer) -> (res: Self)
        ensures
            res.loc == loc,
            res.identifiers@.len() == 0,
    {
        Self { loc, identifiers: vec![] }
    }
}

impl ExpressionList {
    /// An empty list at `loc`.
    pub fn empty(loc: SourcePointer) -> (res: Self)
        ensures
            res.loc == loc,
            res.expressions@.len() == 0,
    {
        Self { loc, expressions: vec![] }
    }
}

impl ArgumentDecl {
    /// The declared name of the argument.
    pub fn name(&self) -> (res: &String)
        ensures
            *res == self.id.name.value,
    {
        &self.id.name.value
    }

    /// The declared type of the argument, if it has one.
    pub fn type_info(&self) -> (res: Option<&Expression>)
        ensures
            match res {
                Some(t) => self.id.ty == Some(*t),
                None => self.id.ty is None,
            },
    {
        match &self.id.ty {
            Some(t) => Some(t),
            None => None,
        }
    }
}

impl ArgumentList {
    /// An empty list at `loc`, without variadic arguments.
    pub fn empty(loc: SourcePointer) -> (res: Self)
        ensures
            res.loc == loc,
            res.names@.len() == 0,
            !res.vararg,
    {
        Self { loc, names: vec![], vararg: false }
    }

    /// The number of declared arguments.
    pub open spec fn spec_len(&self) -> usize {
        self.names@.len() as usize
    }

    /// The number of declared arguments.
    #[verifier::when_used_as_spec(spec_len)]
    pub fn len(&self) -> (res: usize)
        ensures
            res == self.names@.len(),
    {
        self.names.len()
    }

    /// Whether no argument is declared.
    pub fn is_empty(&self) -> (res: bool)
        ensures
            res == (self.names@.len() == 0),
            res == (self.len() == 0),
    {
        self.names.len() == 0
    }
}

impl ModuleFlags {
    /// No flags.
    pub fn empty() -> (res: Self)
        ensures
            res.flags@.len() == 0,
    {
        Self { flags: vec![] }
    }
}

impl ParserError {
    /// The text of the error: its message.
    pub fn to_string(&self) -> (res: String)
        ensures
            res@ == self.msg@,
    {
        self.msg.clone()
    }
}

} // verus!
