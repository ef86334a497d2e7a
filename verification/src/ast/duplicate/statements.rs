//! Copies of statements and blocks.
use crate::ast::{AssertStatement, AssignStatement, BreakStatement, CodeBlock, ContinueStatement, DeclarationId, ElsePiece, ElsifPiece, EnumDecl, ExpressionStatement, ForStatement, GuardBlock, IfCondPiece, IfPiece, IfStatement, MatchPattern, MatchPatternComp, MatchPatternEnumCase, MatchPatternRel, MatchRule, MatchStatement, ReturnStatement, Statement, StructDecl, ThrowStatement, TryBlock, ValDeclStatement, WhileStatement, WriteOpEqStatement};
use vstd::prelude::*;

verus! {

impl DeclarationId {
    /// `self` copies `orig` all the way down: the same variant, equal
    /// locations, names, flags and literals, lists whose items copy theirs one
    /// by one, and options and boxes whose contents copy theirs.
    pub open spec fn copies(&self, orig: &Self) -> bool
        decreases self,
    {
        &&& self.loc == orig.loc
        &&& self.name == orig.name
        &&& self.ty.is_some() == orig.ty.is_some()
        &&& orig.ty.is_some() ==> (self.ty->Some_0.copies(&orig.ty->Some_0))
    }

    /// A copy of this node, down to its leaves.
    pub fn duplicate(&self) -> (res: Self)
        ensures
            res.copies(self),
        decreases self,
    {
        DeclarationId {
            loc: self.loc.clone(),
            name: self.name.clone(),
            ty: match &self.ty { Some(x) => Some((*x).duplicate()), None => None },
        }
    }
}

impl Clone for DeclarationId {
    fn clone(&self) -> (res: Self)
        ensures
            res.copies(self),
    {
        self.duplicate()
    }
}

impl ExpressionStatement {
    /// `self` copies `orig` all the way down: the same variant, equal
    /// locations, names, flags and literals, lists whose items copy theirs one
    /// by one, and options and boxes whose contents copy theirs.
    pub open spec fn copies(&self, orig: &Self) -> bool
        decreases self,
    {
        &&& self.loc == orig.loc
        &&& self.val.is_some() == orig.val.is_some()
        &&& orig.val.is_some() ==> (self.val->Some_0.copies(&orig.val->Some_0))
    }

    /// A copy of this node, down to its leaves.
    pub fn duplicate(&self) -> (res: Self)
        ensures
            res.copies(self),
        decreases self,
    {
        ExpressionStatement {
            loc: self.loc.clone(),
            val: match &self.val { Some(x) => Some((*x).duplicate()), None => None },
        }
    }
}

impl Clone for ExpressionStatement {
    fn clone(&self) -> (res: Self)
        ensures
            res.copies(self),
    {
        self.duplicate()
    }
}

impl ValDeclStatement {
    /// `self` copies `orig` all the way down: the same variant, equal
    /// locations, names, flags and literals, lists whose items copy theirs one
    /// by one, and options and boxes whose contents copy theirs.
    pub open spec fn copies(&self, orig: &Self) -> bool
        decreases self,
    {
        &&& self.loc == orig.loc
        &&& self.id.copies(&orig.id)
        &&& self.val.copies(&orig.val)
    }

    /// A copy of this node, down to its leaves.
    pub fn duplicate(&self) -> (res: Self)
        ensures
            res.copies(self),
        decreases self,
    {
        ValDeclStatement {
            loc: self.loc.clone(),
            id: self.id.duplicate(),
            val: self.val.duplicate(),
        }
    }
}

impl Clone for ValDeclStatement {
    fn clone(&self) -> (res: Self)
        ensures
            res.copies(self),
    {
        self.duplicate()
    }
}

impl AssignStatement {
    /// `self` copies `orig` all the way down: the same variant, equal
    /// locations, names, flags and literals, lists whose items copy theirs one
    /// by one, and options and boxes whose contents copy theirs.
    pub open spec fn copies(&self, orig: &Self) -> bool
        decreases self,
    {
        &&& self.loc == orig.loc
        &&& self.id.copies(&orig.id)
        &&& self.val.copies(&orig.val)
    }

    /// A copy of this node, down to its leaves.
    pub fn duplicate(&self) -> (res: Self)
        ensures
            res.copies(self),
        decreases self,
    {
        AssignStatement {
            loc: self.loc.clone(),
            id: self.id.duplicate(),
            val: self.val.duplicate(),
        }
    }
}

impl Clone for AssignStatement {
    fn clone(&self) -> (res: Self)
        ensures
            res.copies(self),
    {
        self.duplicate()
    }
}

impl WriteOpEqStatement {
    /// `self` copies `orig` all the way down: the same variant, equal
    /// locations, names, flags and literals, lists whose items copy theirs one
    /// by one, and options and boxes whose contents copy theirs.
    pub open spec fn copies(&self, orig: &Self) -> bool
        decreases self,
    {
        &&& self.loc == orig.loc
        &&& self.id.copies(&orig.id)
        &&& self.op == orig.op
        &&& self.val.copies(&orig.val)
    }

    /// A copy of this node, down to its leaves.
    pub fn duplicate(&self) -> (res: Self)
        ensures
            res.copies(self),
        decreases self,
    {
        WriteOpEqStatement {
            loc: self.loc.clone(),
            id: self.id.duplicate(),
            op: self.op.clone(),
            val: self.val.duplicate(),
        }
    }
}

impl Clone for WriteOpEqStatement {
    fn clone(&self) -> (res: Self)
        ensures
            res.copies(self),
    {
        self.duplicate()
    }
}

impl IfCondPiece {
    /// `self` copies `orig` all the way down: the same variant, equal
    /// locations, names, flags and literals, lists whose items copy theirs one
    /// by one, and options and boxes whose contents copy theirs.
    pub open spec fn copies(&self, orig: &Self) -> bool
        decreases self,
    {
        &&& self.loc == orig.loc
        &&& (*self.expression).copies(&(*orig.expression))
        &&& self.then_block.copies(&orig.then_block)
    }

    /// A copy of this node, down to its leaves.
    pub fn duplicate(&self) -> (res: Self)
        ensures
            res.copies(self),
        decreases self,
    {
        IfCondPiece {
            loc: self.loc.clone(),
            expression: Box::new((*self.expression).duplicate()),
            then_block: self.then_block.duplicate(),
        }
    }
}

impl Clone for IfCondPiece {
    fn clone(&self) -> (res: Self)
        ensures
            res.copies(self),
    {
        self.duplicate()
    }
}

impl ElsePiece {
    /// `self` copies `orig` all the way down: the same variant, equal
    /// locations, names, flags and literals, lists whose items copy theirs one
    /// by one, and options and boxes whose contents copy theirs.
    pub open spec fn copies(&self, orig: &Self) -> bool
        decreases self,
    {
        &&& self.loc == orig.loc
        &&& self.then_block.copies(&orig.then_block)
    }

    /// A copy of this node, down to its leaves.
    pub fn duplicate(&self) -> (res: Self)
        ensures
            res.copies(self),
        decreases self,
    {
        ElsePiece {
            loc: self.loc.clone(),
            then_block: self.then_block.duplicate(),
        }
    }
}

impl Clone for ElsePiece {
    fn clone(&self) -> (res: Self)
        ensures
            res.copies(self),
    {
        self.duplicate()
    }
}

impl ElsifPiece {
    /// `self` copies `orig` all the way down: the same variant, equal
    /// locations, names, flags and literals, lists whose items copy theirs one
    /// by one, and options and boxes whose contents copy theirs.
    pub open spec fn copies(&self, orig: &Self) -> bool
        decreases self,
    {
        &&& self.content.copies(&orig.content)
    }

    /// A copy of this node, down to its leaves.
    pub fn duplicate(&self) -> (res: Self)
        ensures
            res.copies(self),
        decreases self,
    {
        ElsifPiece {
            content: self.content.duplicate(),
        }
    }
}

impl Clone for ElsifPiece {
    fn clone(&self) -> (res: Self)
        ensures
            res.copies(self),
    {
        self.duplicate()
    }
}

impl IfPiece {
    /// `self` copies `orig` all the way down: the same variant, equal
    /// locations, names, flags and literals, lists whose items copy theirs one
    /// by one, and options and boxes whose contents copy theirs.
    pub open spec fn copies(&self, orig: &Self) -> bool
        decreases self,
    {
        &&& self.content.copies(&orig.content)
    }

    /// A copy of this node, down to its leaves.
    pub fn duplicate(&self) -> (res: Self)
        ensures
            res.copies(self),
        decreases self,
    {
        IfPiece {
            content: self.content.duplicate(),
        }
    }
}

impl Clone for IfPiece {
    fn clone(&self) -> (res: Self)
        ensures
            res.copies(self),
    {
        self.duplicate()
    }
}

impl IfStatement {
    /// `self` copies `orig` all the way down: the same variant, equal
    /// locations, names, flags and literals, lists whose items copy theirs one
    /// by one, and options and boxes whose contents copy theirs.
    pub open spec fn copies(&self, orig: &Self) -> bool
        decreases self,
    {
        &&& self.loc == orig.loc
        &&& self.iff.copies(&orig.iff)
        &&& self.elsif@.len() == orig.elsif@.len()
        &&& forall|i: int| #![trigger self.elsif@[i]] 0 <= i < orig.elsif@.len() ==> self.elsif@[i].copies(&orig.elsif@[i])
        &&& self.els.is_some() == orig.els.is_some()
        &&& orig.els.is_some() ==> (self.els->Some_0.copies(&orig.els->Some_0))
    }

    /// A copy of this node, down to its leaves.
    pub fn duplicate(&self) -> (res: Self)
        ensures
            res.copies(self),
        decreases self,
    {
        IfStatement {
            loc: self.loc.clone(),
            iff: self.iff.duplicate(),
            elsif: duplicate_elsif_piece_vec(&self.elsif),
            els: match &self.els { Some(x) => Some((*x).duplicate()), None => None },
        }
    }
}

impl Clone for IfStatement {
    fn clone(&self) -> (res: Self)
        ensures
            res.copies(self),
    {
        self.duplicate()
    }
}

impl MatchPatternComp {
    /// `self` copies `orig` all the way down: the same variant, equal
    /// locations, names, flags and literals, lists whose items copy theirs one
    /// by one, and options and boxes whose contents copy theirs.
    pub open spec fn copies(&self, orig: &Self) -> bool
        decreases self,
    {
        &&& self.loc == orig.loc
        &&& self.op == orig.op
        &&& self.expr.copies(&orig.expr)
    }

    /// A copy of this node, down to its leaves.
    pub fn duplicate(&self) -> (res: Self)
        ensures
            res.copies(self),
        decreases self,
    {
        MatchPatternComp {
            loc: self.loc.clone(),
            op: self.op.clone(),
            expr: self.expr.duplicate(),
        }
    }
}

impl Clone for MatchPatternComp {
    fn clone(&self) -> (res: Self)
        ensures
            res.copies(self),
    {
        self.duplicate()
    }
}

impl MatchPatternRel {
    /// `self` copies `orig` all the way down: the same variant, equal
    /// locations, names, flags and literals, lists whose items copy theirs one
    /// by one, and options and boxes whose contents copy theirs.
    pub open spec fn copies(&self, orig: &Self) -> bool
        decreases self,
    {
        &&& self.loc == orig.loc
        &&& self.op == orig.op
        &&& self.expr.copies(&orig.expr)
    }

    /// A copy of this node, down to its leaves.
    pub fn duplicate(&self) -> (res: Self)
        ensures
            res.copies(self),
        decreases self,
    {
        MatchPatternRel {
            loc: self.loc.clone(),
            op: self.op,
            expr: self.expr.duplicate(),
        }
    }
}

impl Clone for MatchPatternRel {
    fn clone(&self) -> (res: Self)
        ensures
            res.copies(self),
    {
        self.duplicate()
    }
}

impl MatchPatternEnumCase {
    /// `self` copies `orig` all the way down: the same variant, equal
    /// locations, names, flags and literals, lists whose items copy theirs one
    /// by one, and options and boxes whose contents copy theirs.
    pub open spec fn copies(&self, orig: &Self) -> bool
        decreases self,
    {
        &&& self.loc == orig.loc
        &&& self.case == orig.case
        &&& self.payload.is_some() == orig.payload.is_some()
        &&& orig.payload.is_some() ==> (self.payload->Some_0.copies(&orig.payload->Some_0))
    }

    /// A copy of this node, down to its leaves.
    pub fn duplicate(&self) -> (res: Self)
        ensures
            res.copies(self),
        decreases self,
    {
        MatchPatternEnumCase {
            loc: self.loc.clone(),
            case: self.case.clone(),
            payload: match &self.payload { Some(x) => Some((*x).duplicate()), None => None },
        }
    }
}

impl Clone for MatchPatternEnumCase {
    fn clone(&self) -> (res: Self)
        ensures
            res.copies(self),
    {
        self.duplicate()
    }
}

impl MatchPattern {
    /// `self` copies `orig` all the way down: the same variant, equal
    /// locations, names, flags and literals, lists whose items copy theirs one
    /// by one, and options and boxes whose contents copy theirs.
    pub open spec fn copies(&self, orig: &Self) -> bool
        decreases self,
    {
        &&& (*orig is MatchPatternComp) == (*self is MatchPatternComp)
        &&& *orig is MatchPatternComp ==> self->MatchPatternComp_0.copies(&orig->MatchPatternComp_0)
        &&& (*orig is MatchPatternRel) == (*self is MatchPatternRel)
        &&& *orig is MatchPatternRel ==> self->MatchPatternRel_0.copies(&orig->MatchPatternRel_0)
        &&& (*orig is MatchPatternEnumCase) == (*self is MatchPatternEnumCase)
        &&& *orig is MatchPatternEnumCase ==> self->MatchPatternEnumCase_0.copies(&orig->MatchPatternEnumCase_0)
    }

    /// A copy of this node, down to its leaves.
    pub fn duplicate(&self) -> (res: Self)
        ensures
            res.copies(self),
        decreases self,
    {
        match self {
            MatchPattern::MatchPatternComp(a) => MatchPattern::MatchPatternComp((*a).duplicate()),
            MatchPattern::MatchPatternRel(a) => MatchPattern::MatchPatternRel((*a).duplicate()),
            MatchPattern::MatchPatternEnumCase(a) => MatchPattern::MatchPatternEnumCase((*a).duplicate()),
        }
    }
}

impl Clone for MatchPattern {
    fn clone(&self) -> (res: Self)
        ensures
            res.copies(self),
    {
        self.duplicate()
    }
}

impl MatchRule {
    /// `self` copies `orig` all the way down: the same variant, equal
    /// locations, names, flags and literals, lists whose items copy theirs one
    /// by one, and options and boxes whose contents copy theirs.
    pub open spec fn copies(&self, orig: &Self) -> bool
        decreases self,
    {
        &&& self.loc == orig.loc
        &&& self.patterns@.len() == orig.patterns@.len()
        &&& forall|i: int| #![trigger self.patterns@[i]] 0 <= i < orig.patterns@.len() ==> self.patterns@[i].copies(&orig.patterns@[i])
        &&& self.then_block.copies(&orig.then_block)
    }

    /// A copy of this node, down to its leaves.
    pub fn duplicate(&self) -> (res: Self)
        ensures
            res.copies(self),
        decreases self,
    {
        MatchRule {
            loc: self.loc.clone(),
            patterns: duplicate_match_pattern_vec(&self.patterns),
            then_block: self.then_block.duplicate(),
        }
    }
}

impl Clone for MatchRule {
    fn clone(&self) -> (res: Self)
        ensures
            res.copies(self),
    {
        self.duplicate()
    }
}

impl MatchStatement {
    /// `self` copies `orig` all the way down: the same variant, equal
    /// locations, names, flags and literals, lists whose items copy theirs one
    /// by one, and options and boxes whose contents copy theirs.
    pub open spec fn copies(&self, orig: &Self) -> bool
        decreases self,
    {
        &&& self.loc == orig.loc
        &&& self.expr.copies(&orig.expr)
        &&& self.rules@.len() == orig.rules@.len()
        &&& forall|i: int| #![trigger self.rules@[i]] 0 <= i < orig.rules@.len() ==> self.rules@[i].copies(&orig.rules@[i])
        &&& self.els.is_some() == orig.els.is_some()
        &&& orig.els.is_some() ==> (self.els->Some_0.copies(&orig.els->Some_0))
    }

    /// A copy of this node, down to its leaves.
    pub fn duplicate(&self) -> (res: Self)
        ensures
            res.copies(self),
        decreases self,
    {
        MatchStatement {
            loc: self.loc.clone(),
            expr: self.expr.duplicate(),
            rules: duplicate_match_rule_vec(&self.rules),
            els: match &self.els { Some(x) => Some((*x).duplicate()), None => None },
        }
    }
}

impl Clone for MatchStatement {
    fn clone(&self) -> (res: Self)
        ensures
            res.copies(self),
    {
        self.duplicate()
    }
}

impl WhileStatement {
    /// `self` copies `orig` all the way down: the same variant, equal
    /// locations, names, flags and literals, lists whose items copy theirs one
    /// by one, and options and boxes whose contents copy theirs.
    pub open spec fn copies(&self, orig: &Self) -> bool
        decreases self,
    {
        &&& self.loc == orig.loc
        &&& self.cond.copies(&orig.cond)
        &&& self.then_block.copies(&orig.then_block)
        &&& self.els.is_some() == orig.els.is_some()
        &&& orig.els.is_some() ==> (self.els->Some_0.copies(&orig.els->Some_0))
    }

    /// A copy of this node, down to its leaves.
    pub fn duplicate(&self) -> (res: Self)
        ensures
            res.copies(self),
        decreases self,
    {
        WhileStatement {
            loc: self.loc.clone(),
            cond: self.cond.duplicate(),
            then_block: self.then_block.duplicate(),
            els: match &self.els { Some(x) => Some((*x).duplicate()), None => None },
        }
    }
}

impl Clone for WhileStatement {
    fn clone(&self) -> (res: Self)
        ensures
            res.copies(self),
    {
        self.duplicate()
    }
}

impl ForStatement {
    /// `self` copies `orig` all the way down: the same variant, equal
    /// locations, names, flags and literals, lists whose items copy theirs one
    /// by one, and options and boxes whose contents copy theirs.
    pub open spec fn copies(&self, orig: &Self) -> bool
        decreases self,
    {
        &&& self.loc == orig.loc
        &&& self.id == orig.id
        &&& self.expr.copies(&orig.expr)
        &&& self.then_block.copies(&orig.then_block)
        &&& self.els.is_some() == orig.els.is_some()
        &&& orig.els.is_some() ==> (self.els->Some_0.copies(&orig.els->Some_0))
    }

    /// A copy of this node, down to its leaves.
    pub fn duplicate(&self) -> (res: Self)
        ensures
            res.copies(self),
        decreases self,
    {
        ForStatement {
            loc: self.loc.clone(),
            id: self.id.clone(),
            expr: self.expr.duplicate(),
            then_block: self.then_block.duplicate(),
            els: match &self.els { Some(x) => Some((*x).duplicate()), None => None },
        }
    }
}

impl Clone for ForStatement {
    fn clone(&self) -> (res: Self)
        ensures
            res.copies(self),
    {
        self.duplicate()
    }
}

impl ReturnStatement {
    /// `self` copies `orig` all the way down: the same variant, equal
    /// locations, names, flags and literals, lists whose items copy theirs one
    /// by one, and options and boxes whose contents copy theirs.
    pub open spec fn copies(&self, orig: &Self) -> bool
        decreases self,
    {
        &&& self.loc == orig.loc
        &&& self.val.is_some() == orig.val.is_some()
        &&& orig.val.is_some() ==> (self.val->Some_0.copies(&orig.val->Some_0))
    }

    /// A copy of this node, down to its leaves.
    pub fn duplicate(&self) -> (res: Self)
        ensures
            res.copies(self),
        decreases self,
    {
        ReturnStatement {
            loc: self.loc.clone(),
            val: match &self.val { Some(x) => Some((*x).duplicate()), None => None },
        }
    }
}

impl Clone for ReturnStatement {
    fn clone(&self) -> (res: Self)
        ensures
            res.copies(self),
    {
        self.duplicate()
    }
}

impl ThrowStatement {
    /// `self` copies `orig` all the way down: the same variant, equal
    /// locations, names, flags and literals, lists whose items copy theirs one
    /// by one, and options and boxes whose contents copy theirs.
    pub open spec fn copies(&self, orig: &Self) -> bool
        decreases self,
    {
        &&& self.loc == orig.loc
        &&& self.val.copies(&orig.val)
    }

    /// A copy of this node, down to its leaves.
    pub fn duplicate(&self) -> (res: Self)
        ensures
            res.copies(self),
        decreases self,
    {
        ThrowStatement {
            loc: self.loc.clone(),
            val: self.val.duplicate(),
        }
    }
}

impl Clone for ThrowStatement {
    fn clone(&self) -> (res: Self)
        ensures
            res.copies(self),
    {
        self.duplicate()
    }
}

impl AssertStatement {
    /// `self` copies `orig` all the way down: the same variant, equal
    /// locations, names, flags and literals, lists whose items copy theirs one
    /// by one, and options and boxes whose contents copy theirs.
    pub open spec fn copies(&self, orig: &Self) -> bool
        decreases self,
    {
        &&& self.loc == orig.loc
        &&& self.val.copies(&orig.val)
    }

    /// A copy of this node, down to its leaves.
    pub fn duplicate(&self) -> (res: Self)
        ensures
            res.copies(self),
        decreases self,
    {
        AssertStatement {
            loc: self.loc.clone(),
            val: self.val.duplicate(),
        }
    }
}

impl Clone for AssertStatement {
    fn clone(&self) -> (res: Self)
        ensures
            res.copies(self),
    {
        self.duplicate()
    }
}

impl Clone for BreakStatement {
    fn clone(&self) -> (res: Self)
        ensures
            res == *self,
    {
        BreakStatement {
            loc: self.loc.clone(),
        }
    }
}

impl Clone for ContinueStatement {
    fn clone(&self) -> (res: Self)
        ensures
            res == *self,
    {
        ContinueStatement {
            loc: self.loc.clone(),
        }
    }
}

impl GuardBlock {
    /// `self` copies `orig` all the way down: the same variant, equal
    /// locations, names, flags and literals, lists whose items copy theirs one
    /// by one, and options and boxes whose contents copy theirs.
    pub open spec fn copies(&self, orig: &Self) -> bool
        decreases self,
    {
        &&& self.loc == orig.loc
        &&& self.id == orig.id
        &&& self.expr.copies(&orig.expr)
        &&& self.body.copies(&orig.body)
    }

    /// A copy of this node, down to its leaves.
    pub fn duplicate(&self) -> (res: Self)
        ensures
            res.copies(self),
        decreases self,
    {
        GuardBlock {
            loc: self.loc.clone(),
            id: self.id.clone(),
            expr: self.expr.duplicate(),
            body: self.body.duplicate(),
        }
    }
}

impl Clone for GuardBlock {
    fn clone(&self) -> (res: Self)
        ensures
            res.copies(self),
    {
        self.duplicate()
    }
}

impl TryBlock {
    /// `self` copies `orig` all the way down: the same variant, equal
    /// locations, names, flags and literals, lists whose items copy theirs one
    /// by one, and options and boxes whose contents copy theirs.
    pub open spec fn copies(&self, orig: &Self) -> bool
        decreases self,
    {
        &&& self.loc == orig.loc
        &&& self.body.copies(&orig.body)
        &&& self.id == orig.id
        &&& self.catch.copies(&orig.catch)
    }

    /// A copy of this node, down to its leaves.
    pub fn duplicate(&self) -> (res: Self)
        ensures
            res.copies(self),
        decreases self,
    {
        TryBlock {
            loc: self.loc.clone(),
            body: self.body.duplicate(),
            id: self.id.clone(),
            catch: self.catch.duplicate(),
        }
    }
}

impl Clone for TryBlock {
    fn clone(&self) -> (res: Self)
        ensures
            res.copies(self),
    {
        self.duplicate()
    }
}

impl Statement {
    /// `self` copies `orig` all the way down: the same variant, equal
    /// locations, names, flags and literals, lists whose items copy theirs one
    /// by one, and options and boxes whose contents copy theirs.
    pub open spec fn copies(&self, orig: &Self) -> bool
        decreases self,
    {
        &&& (*orig is ValDeclStatement) == (*self is ValDeclStatement)
        &&& *orig is ValDeclStatement ==> self->ValDeclStatement_0.copies(&orig->ValDeclStatement_0)
        &&& (*orig is AssignStatement) == (*self is AssignStatement)
        &&& *orig is AssignStatement ==> self->AssignStatement_0.copies(&orig->AssignStatement_0)
        &&& (*orig is WriteOpEqStatement) == (*self is WriteOpEqStatement)
        &&& *orig is WriteOpEqStatement ==> self->WriteOpEqStatement_0.copies(&orig->WriteOpEqStatement_0)
        &&& (*orig is IfStatement) == (*self is IfStatement)
        &&& *orig is IfStatement ==> self->IfStatement_0.copies(&orig->IfStatement_0)
        &&& (*orig is MatchStatement) == (*self is MatchStatement)
        &&& *orig is MatchStatement ==> self->MatchStatement_0.copies(&orig->MatchStatement_0)
        &&& (*orig is WhileStatement) == (*self is WhileStatement)
        &&& *orig is WhileStatement ==> self->WhileStatement_0.copies(&orig->WhileStatement_0)
        &&& (*orig is ForStatement) == (*self is ForStatement)
        &&& *orig is ForStatement ==> self->ForStatement_0.copies(&orig->ForStatement_0)
        &&& (*orig is CodeBlock) == (*self is CodeBlock)
        &&& *orig is CodeBlock ==> self->CodeBlock_0.copies(&orig->CodeBlock_0)
        &&& (*orig is ReturnStatement) == (*self is ReturnStatement)
        &&& *orig is ReturnStatement ==> self->ReturnStatement_0.copies(&orig->ReturnStatement_0)
        &&& (*orig is ThrowStatement) == (*self is ThrowStatement)
        &&& *orig is ThrowStatement ==> self->ThrowStatement_0.copies(&orig->ThrowStatement_0)
        &&& (*orig is GuardBlock) == (*self is GuardBlock)
        &&& *orig is GuardBlock ==> self->GuardBlock_0.copies(&orig->GuardBlock_0)
        &&& (*orig is TryBlock) == (*self is TryBlock)
        &&& *orig is TryBlock ==> self->TryBlock_0.copies(&orig->TryBlock_0)
        &&& (*orig is AssertStatement) == (*self is AssertStatement)
        &&& *orig is AssertStatement ==> self->AssertStatement_0.copies(&orig->AssertStatement_0)
        &&& (*orig is ExpressionStatement) == (*self is ExpressionStatement)
        &&& *orig is ExpressionStatement ==> self->ExpressionStatement_0.copies(&orig->ExpressionStatement_0)
        &&& (*orig is BreakStatement) == (*self is BreakStatement)
        &&& *orig is BreakStatement ==> self->BreakStatement_0 == orig->BreakStatement_0
        &&& (*orig is ContinueStatement) == (*self is ContinueStatement)
        &&& *orig is ContinueStatement ==> self->ContinueStatement_0 == orig->ContinueStatement_0
        &&& (*orig is StructDecl) == (*self is StructDecl)
        &&& *orig is StructDecl ==> self->StructDecl_0.copies(&orig->StructDecl_0)
        &&& (*orig is EnumDecl) == (*self is EnumDecl)
        &&& *orig is EnumDecl ==> self->EnumDecl_0.copies(&orig->EnumDecl_0)
    }

    /// A copy of this node, down to its leaves.
    pub fn duplicate(&self) -> (res: Self)
        ensures
            res.copies(self),
        decreases self,
    {
        match self {
            Statement::ValDeclStatement(a) => Statement::ValDeclStatement((*a).duplicate()),
            Statement::AssignStatement(a) => Statement::AssignStatement((*a).duplicate()),
            Statement::WriteOpEqStatement(a) => Statement::WriteOpEqStatement((*a).duplicate()),
            Statement::IfStatement(a) => Statement::IfStatement((*a).duplicate()),
            Statement::MatchStatement(a) => Statement::MatchStatement((*a).duplicate()),
            Statement::WhileStatement(a) => Statement::WhileStatement((*a).duplicate()),
            Statement::ForStatement(a) => Statement::ForStatement((*a).duplicate()),
            Statement::CodeBlock(a) => Statement::CodeBlock((*a).duplicate()),
            Statement::ReturnStatement(a) => Statement::ReturnStatement((*a).duplicate()),
            Statement::ThrowStatement(a) => Statement::ThrowStatement((*a).duplicate()),
            Statement::GuardBlock(a) => Statement::GuardBlock((*a).duplicate()),
            Statement::TryBlock(a) => Statement::TryBlock((*a).duplicate()),
            Statement::AssertStatement(a) => Statement::AssertStatement((*a).duplicate()),
            Statement::ExpressionStatement(a) => Statement::ExpressionStatement((*a).duplicate()),
            Statement::BreakStatement(a) => Statement::BreakStatement((*a).clone()),
            Statement::ContinueStatement(a) => Statement::ContinueStatement((*a).clone()),
            Statement::StructDecl(a) => Statement::StructDecl((*a).duplicate()),
            Statement::EnumDecl(a) => Statement::EnumDecl((*a).duplicate()),
        }
    }
}

impl Clone for Statement {
    fn clone(&self) -> (res: Self)
        ensures
            res.copies(self),
    {
        self.duplicate()
    }
}

impl CodeBlock {
    /// `self` copies `orig` all the way down: the same variant, equal
    /// locations, names, flags and literals, lists whose items copy theirs one
    /// by one, and options and boxes whose contents copy theirs.
    pub open spec fn copies(&self, orig: &Self) -> bool
        decreases self,
    {
        &&& self.loc == orig.loc
        &&& self.entries@.len() == orig.entries@.len()
        &&& forall|i: int| #![trigger self.entries@[i]] 0 <= i < orig.entries@.len() ==> self.entries@[i].copies(&orig.entries@[i])
    }

    /// A copy of this node, down to its leaves.
    pub fn duplicate(&self) -> (res: Self)
        ensures
            res.copies(self),
        decreases self,
    {
        CodeBlock {
            loc: self.loc.clone(),
            entries: duplicate_statement_vec(&self.entries),
        }
    }
}

impl Clone for CodeBlock {
    fn clone(&self) -> (res: Self)
        ensures
            res.copies(self),
    {
        self.duplicate()
    }
}

/// Copies a vector item by item.
pub fn duplicate_elsif_piece_vec(v: &Vec<ElsifPiece>) -> (res: Vec<ElsifPiece>)
    ensures
        res@.len() == v@.len(),
        forall|i: int| #![trigger res@[i]] 0 <= i < v@.len() ==> res@[i].copies(&v@[i]),
    decreases v,
{
    let mut res: Vec<ElsifPiece> = Vec::new();
    let mut i: usize = 0;
    while i < v.len()
        invariant
            i <= v@.len(),
            res@.len() == i,
            forall|j: int| #![trigger res@[j]] 0 <= j < i ==> res@[j].copies(&v@[j]),
        decreases v@.len() - i,
    {
        proof {
            vstd::std_specs::vec::axiom_vec_index_decreases(*v, i as int);
        }
        let item = v[i].duplicate();
        res.push(item);
        i = i + 1;
    }
    res
}

/// Copies a vector item by item.
pub fn duplicate_match_pattern_vec(v: &Vec<MatchPattern>) -> (res: Vec<MatchPattern>)
    ensures
        res@.len() == v@.len(),
        forall|i: int| #![trigger res@[i]] 0 <= i < v@.len() ==> res@[i].copies(&v@[i]),
    decreases v,
{
    let mut res: Vec<MatchPattern> = Vec::new();
    let mut i: usize = 0;
    while i < v.len()
        invariant
            i <= v@.len(),
            res@.len() == i,
            forall|j: int| #![trigger res@[j]] 0 <= j < i ==> res@[j].copies(&v@[j]),
        decreases v@.len() - i,
    {
        proof {
            vstd::std_specs::vec::axiom_vec_index_decreases(*v, i as int);
        }
        let item = v[i].duplicate();
        res.push(item);
        i = i + 1;
    }
    res
}

/// Copies a vector item by item.
pub fn duplicate_match_rule_vec(v: &Vec<MatchRule>) -> (res: Vec<MatchRule>)
    ensures
        res@.len() == v@.len(),
        forall|i: int| #![trigger res@[i]] 0 <= i < v@.len() ==> res@[i].copies(&v@[i]),
    decreases v,
{
    let mut res: Vec<MatchRule> = Vec::new();
    let mut i: usize = 0;
    while i < v.len()
        invariant
            i <= v@.len(),
            res@.len() == i,
            forall|j: int| #![trigger res@[j]] 0 <= j < i ==> res@[j].copies(&v@[j]),
        decreases v@.len() - i,
    {
        proof {
            vstd::std_specs::vec::axiom_vec_index_decreases(*v, i as int);
        }
        let item = v[i].duplicate();
        res.push(item);
        i = i + 1;
    }
    res
}

/// Copies a vector item by item.
pub fn duplicate_statement_vec(v: &Vec<Statement>) -> (res: Vec<Statement>)
    ensures
        res@.len() == v@.len(),
        forall|i: int| #![trigger res@[i]] 0 <= i < v@.len() ==> res@[i].copies(&v@[i]),
    decreases v,
{
    let mut res: Vec<Statement> = Vec::new();
    let mut i: usize = 0;
    while i < v.len()
        invariant
            i <= v@.len(),
            res@.len() == i,
            forall|j: int| #![trigger res@[j]] 0 <= j < i ==> res@[j].copies(&v@[j]),
        decreases v@.len() - i,
    {
        proof {
            vstd::std_specs::vec::axiom_vec_index_decreases(*v, i as int);
        }
        let item = v[i].duplicate();
        res.push(item);
        i = i + 1;
    }
    res
}

} // verus!
