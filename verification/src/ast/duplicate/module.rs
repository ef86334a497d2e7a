//! Copies of imports, module flags and modules.
use crate::ast::{AssertStatement, AssignStatement, CodeBlock, EnumDecl, ExpressionStatement, ExtensionDecl, ForStatement, FunctionDecl, GuardBlock, IdentifierList, IfStatement, ImportFromStatement, ImportPath, ImportStatement, ImportTarget, MatchStatement, MixinDecl, ModuleFlag, ModuleFlags, ParsedModule, ParserError, StructDecl, TopLevelEntry, TryBlock, ValDeclStatement, WhileStatement, WriteOpEqStatement};
use super::source::duplicate_identifier_vec;
use vstd::prelude::*;

verus! {

impl ImportPath {
    /// `self` copies `orig` all the way down: the same variant, equal
    /// locations, names, flags and literals, lists whose items copy theirs one
    /// by one, and options and boxes whose contents copy theirs.
    pub open spec fn copies(&self, orig: &Self) -> bool
    {
        &&& self.loc == orig.loc
        &&& self.entries@ == orig.entries@
    }

    /// A copy of this node, down to its leaves.
    pub fn duplicate(&self) -> (res: Self)
        ensures
            res.copies(self),
    {
        ImportPath {
            loc: self.loc.clone(),
            entries: duplicate_identifier_vec(&self.entries),
        }
    }
}

impl Clone for ImportPath {
    fn clone(&self) -> (res: Self)
        ensures
            res.copies(self),
    {
        self.duplicate()
    }
}

impl ImportStatement {
    /// `self` copies `orig` all the way down: the same variant, equal
    /// locations, names, flags and literals, lists whose items copy theirs one
    /// by one, and options and boxes whose contents copy theirs.
    pub open spec fn copies(&self, orig: &Self) -> bool
    {
        &&& self.loc == orig.loc
        &&& self.what.copies(&orig.what)
    }

    /// A copy of this node, down to its leaves.
    pub fn duplicate(&self) -> (res: Self)
        ensures
            res.copies(self),
    {
        ImportStatement {
            loc: self.loc.clone(),
            what: self.what.duplicate(),
        }
    }
}

impl Clone for ImportStatement {
    fn clone(&self) -> (res: Self)
        ensures
            res.copies(self),
    {
        self.duplicate()
    }
}

impl ImportTarget {
    /// `self` copies `orig` all the way down: the same variant, equal
    /// locations, names, flags and literals, lists whose items copy theirs one
    /// by one, and options and boxes whose contents copy theirs.
    pub open spec fn copies(&self, orig: &Self) -> bool
    {
        &&& (*orig is IdentifierList) == (*self is IdentifierList)
        &&& *orig is IdentifierList ==> self->IdentifierList_0.copies(&orig->IdentifierList_0)
        &&& (*orig is All) == (*self is All)
    }

    /// A copy of this node, down to its leaves.
    pub fn duplicate(&self) -> (res: Self)
        ensures
            res.copies(self),
    {
        match self {
            ImportTarget::IdentifierList(a) => ImportTarget::IdentifierList((*a).duplicate()),
            ImportTarget::All => ImportTarget::All,
        }
    }
}

impl Clone for ImportTarget {
    fn clone(&self) -> (res: Self)
        ensures
            res.copies(self),
    {
        self.duplicate()
    }
}

impl ImportFromStatement {
    /// `self` copies `orig` all the way down: the same variant, equal
    /// locations, names, flags and literals, lists whose items copy theirs one
    /// by one, and options and boxes whose contents copy theirs.
    pub open spec fn copies(&self, orig: &Self) -> bool
    {
        &&& self.loc == orig.loc
        &&& self.what.copies(&orig.what)
        &&& self.from.copies(&orig.from)
    }

    /// A copy of this node, down to its leaves.
    pub fn duplicate(&self) -> (res: Self)
        ensures
            res.copies(self),
    {
        ImportFromStatement {
            loc: self.loc.clone(),
            what: self.what.duplicate(),
            from: self.from.duplicate(),
        }
    }
}

impl Clone for ImportFromStatement {
    fn clone(&self) -> (res: Self)
        ensures
            res.copies(self),
    {
        self.duplicate()
    }
}

impl Clone for ModuleFlag {
    fn clone(&self) -> (res: Self)
        ensures
            res == *self,
    {
        match self {
            ModuleFlag::NoStandardLibrary => ModuleFlag::NoStandardLibrary,
            ModuleFlag::UsesDylib(a) => ModuleFlag::UsesDylib((*a).clone()),
        }
    }
}

impl ModuleFlags {
    /// `self` copies `orig` all the way down: the same variant, equal
    /// locations, names, flags and literals, lists whose items copy theirs one
    /// by one, and options and boxes whose contents copy theirs.
    pub open spec fn copies(&self, orig: &Self) -> bool
    {
        &&& self.flags@ == orig.flags@
    }

    /// A copy of this node, down to its leaves.
    pub fn duplicate(&self) -> (res: Self)
        ensures
            res.copies(self),
    {
        ModuleFlags {
            flags: duplicate_module_flag_vec(&self.flags),
        }
    }
}

impl Clone for ModuleFlags {
    fn clone(&self) -> (res: Self)
        ensures
            res.copies(self),
    {
        self.duplicate()
    }
}

impl TopLevelEntry {
    /// `self` copies `orig` all the way down: the same variant, equal
    /// locations, names, flags and literals, lists whose items copy theirs one
    /// by one, and options and boxes whose contents copy theirs.
    pub open spec fn copies(&self, orig: &Self) -> bool
    {
        &&& (*orig is ExpressionStatement) == (*self is ExpressionStatement)
        &&& *orig is ExpressionStatement ==> self->ExpressionStatement_0.copies(&orig->ExpressionStatement_0)
        &&& (*orig is ValDeclStatement) == (*self is ValDeclStatement)
        &&& *orig is ValDeclStatement ==> self->ValDeclStatement_0.copies(&orig->ValDeclStatement_0)
        &&& (*orig is WriteOpEqStatement) == (*self is WriteOpEqStatement)
        &&& *orig is WriteOpEqStatement ==> self->WriteOpEqStatement_0.copies(&orig->WriteOpEqStatement_0)
        &&& (*orig is AssignStatement) == (*self is AssignStatement)
        &&& *orig is AssignStatement ==> self->AssignStatement_0.copies(&orig->AssignStatement_0)
        &&& (*orig is FunctionDecl) == (*self is FunctionDecl)
        &&& *orig is FunctionDecl ==> self->FunctionDecl_0.copies(&orig->FunctionDecl_0)
        &&& (*orig is StructDecl) == (*self is StructDecl)
        &&& *orig is StructDecl ==> self->StructDecl_0.copies(&orig->StructDecl_0)
        &&& (*orig is MixinDecl) == (*self is MixinDecl)
        &&& *orig is MixinDecl ==> self->MixinDecl_0.copies(&orig->MixinDecl_0)
        &&& (*orig is EnumDecl) == (*self is EnumDecl)
        &&& *orig is EnumDecl ==> self->EnumDecl_0.copies(&orig->EnumDecl_0)
        &&& (*orig is ExtensionDecl) == (*self is ExtensionDecl)
        &&& *orig is ExtensionDecl ==> self->ExtensionDecl_0.copies(&orig->ExtensionDecl_0)
        &&& (*orig is AssertStatement) == (*self is AssertStatement)
        &&& *orig is AssertStatement ==> self->AssertStatement_0.copies(&orig->AssertStatement_0)
        &&& (*orig is ImportStatement) == (*self is ImportStatement)
        &&& *orig is ImportStatement ==> self->ImportStatement_0.copies(&orig->ImportStatement_0)
        &&& (*orig is ImportFromStatement) == (*self is ImportFromStatement)
        &&& *orig is ImportFromStatement ==> self->ImportFromStatement_0.copies(&orig->ImportFromStatement_0)
        &&& (*orig is IfStatement) == (*self is IfStatement)
        &&& *orig is IfStatement ==> self->IfStatement_0.copies(&orig->IfStatement_0)
        &&& (*orig is MatchStatement) == (*self is MatchStatement)
        &&& *orig is MatchStatement ==> self->MatchStatement_0.copies(&orig->MatchStatement_0)
        &&& (*orig is WhileStatement) == (*self is WhileStatement)
        &&& *orig is WhileStatement ==> self->WhileStatement_0.copies(&orig->WhileStatement_0)
        &&& (*orig is ForStatement) == (*self is ForStatement)
        &&& *orig is ForStatement ==> self->ForStatement_0.copies(&orig->ForStatement_0)
        &&& (*orig is CodeBlock) == (*self is CodeBlock)
        &&& *orig is CodeBlock ==> self->CodeBlock_0.copies(&orig->CodeBlock_0)
        &&& (*orig is GuardBlock) == (*self is GuardBlock)
        &&& *orig is GuardBlock ==> self->GuardBlock_0.copies(&orig->GuardBlock_0)
        &&& (*orig is TryBlock) == (*self is TryBlock)
        &&& *orig is TryBlock ==> self->TryBlock_0.copies(&orig->TryBlock_0)
    }

    /// A copy of this node, down to its leaves.
    pub fn duplicate(&self) -> (res: Self)
        ensures
            res.copies(self),
    {
        match self {
            TopLevelEntry::ExpressionStatement(a) => TopLevelEntry::ExpressionStatement((*a).duplicate()),
            TopLevelEntry::ValDeclStatement(a) => TopLevelEntry::ValDeclStatement((*a).duplicate()),
            TopLevelEntry::WriteOpEqStatement(a) => TopLevelEntry::WriteOpEqStatement((*a).duplicate()),
            TopLevelEntry::AssignStatement(a) => TopLevelEntry::AssignStatement((*a).duplicate()),
            TopLevelEntry::FunctionDecl(a) => TopLevelEntry::FunctionDecl((*a).duplicate()),
            TopLevelEntry::StructDecl(a) => TopLevelEntry::StructDecl((*a).duplicate()),
            TopLevelEntry::MixinDecl(a) => TopLevelEntry::MixinDecl((*a).duplicate()),
            TopLevelEntry::EnumDecl(a) => TopLevelEntry::EnumDecl((*a).duplicate()),
            TopLevelEntry::ExtensionDecl(a) => TopLevelEntry::ExtensionDecl((*a).duplicate()),
            TopLevelEntry::AssertStatement(a) => TopLevelEntry::AssertStatement((*a).duplicate()),
            TopLevelEntry::ImportStatement(a) => TopLevelEntry::ImportStatement((*a).duplicate()),
            TopLevelEntry::ImportFromStatement(a) => TopLevelEntry::ImportFromStatement((*a).duplicate()),
            TopLevelEntry::IfStatement(a) => TopLevelEntry::IfStatement((*a).duplicate()),
            TopLevelEntry::MatchStatement(a) => TopLevelEntry::MatchStatement((*a).duplicate()),
            TopLevelEntry::WhileStatement(a) => TopLevelEntry::WhileStatement((*a).duplicate()),
            TopLevelEntry::ForStatement(a) => TopLevelEntry::ForStatement((*a).duplicate()),
            TopLevelEntry::CodeBlock(a) => TopLevelEntry::CodeBlock((*a).duplicate()),
            TopLevelEntry::GuardBlock(a) => TopLevelEntry::GuardBlock((*a).duplicate()),
            TopLevelEntry::TryBlock(a) => TopLevelEntry::TryBlock((*a).duplicate()),
        }
    }
}

impl Clone for TopLevelEntry {
    fn clone(&self) -> (res: Self)
        ensures
            res.copies(self),
    {
        self.duplicate()
    }
}

impl ParsedModule {
    /// `self` copies `orig` all the way down: the same variant, equal
    /// locations, names, flags and literals, lists whose items copy theirs one
    /// by one, and options and boxes whose contents copy theirs.
    pub open spec fn copies(&self, orig: &Self) -> bool
    {
        &&& self.loc == orig.loc
        &&& self.flags.copies(&orig.flags)
        &&& self.entries@.len() == orig.entries@.len()
        &&& forall|i: int| #![trigger self.entries@[i]] 0 <= i < orig.entries@.len() ==> self.entries@[i].copies(&orig.entries@[i])
    }

    /// A copy of this node, down to its leaves.
    pub fn duplicate(&self) -> (res: Self)
        ensures
            res.copies(self),
    {
        ParsedModule {
            loc: self.loc.clone(),
            flags: self.flags.duplicate(),
            entries: duplicate_top_level_entry_vec(&self.entries),
        }
    }
}

impl Clone for ParsedModule {
    fn clone(&self) -> (res: Self)
        ensures
            res.copies(self),
    {
        self.duplicate()
    }
}

impl Clone for ParserError {
    fn clone(&self) -> (res: Self)
        ensures
            res == *self,
    {
        ParserError {
            loc: self.loc.clone(),
            msg: self.msg.clone(),
        }
    }
}

/// Copies a vector item by item.
pub fn duplicate_module_flag_vec(v: &Vec<ModuleFlag>) -> (res: Vec<ModuleFlag>)
    ensures
        res@ == v@,
{
    let mut res: Vec<ModuleFlag> = Vec::new();
    let mut i: usize = 0;
    while i < v.len()
        invariant
            i <= v@.len(),
            res@ == v@.subrange(0, i as int),
        decreases v@.len() - i,
    {
        let item = v[i].clone();
        res.push(item);
        proof {
            assert(res@ =~= v@.subrange(0, i + 1));
        }
        i = i + 1;
    }
    proof {
        assert(v@.subrange(0, v@.len() as int) =~= v@);
    }
    res
}

/// Copies a vector item by item.
pub fn duplicate_top_level_entry_vec(v: &Vec<TopLevelEntry>) -> (res: Vec<TopLevelEntry>)
    ensures
        res@.len() == v@.len(),
        forall|i: int| #![trigger res@[i]] 0 <= i < v@.len() ==> res@[i].copies(&v@[i]),
{
    let mut res: Vec<TopLevelEntry> = Vec::new();
    let mut i: usize = 0;
    while i < v.len()
        invariant
            i <= v@.len(),
            res@.len() == i,
            forall|j: int| #![trigger res@[j]] 0 <= j < i ==> res@[j].copies(&v@[j]),
        decreases v@.len() - i,
    {
        let item = v[i].duplicate();
        res.push(item);
        i = i + 1;
    }
    res
}

} // verus!
