//! Copies of expressions, lambdas and function bodies.
use crate::ast::{CodeBlock, Expression, FunctionBody, LambaBody, LambdaFunction, LogOperation, TernaryExpression};
use vstd::prelude::*;

verus! {

impl LambaBody {
    /// `self` copies `orig` all the way down: the same variant, equal
    /// locations, names, flags and literals, lists whose items copy theirs one
    /// by one, and options and boxes whose contents copy theirs.
    pub open spec fn copies(&self, orig: &Self) -> bool
        decreases self,
    {
        &&& (*orig is Expression) == (*self is Expression)
        &&& *orig is Expression ==> self->Expression_0.copies(&orig->Expression_0)
        &&& (*orig is CodeBlock) == (*self is CodeBlock)
        &&& *orig is CodeBlock ==> self->CodeBlock_0.copies(&orig->CodeBlock_0)
    }

    /// A copy of this node, down to its leaves.
    pub fn duplicate(&self) -> (res: Self)
        ensures
            res.copies(self),
        decreases self,
    {
        match self {
            LambaBody::Expression(a) => LambaBody::Expression((*a).duplicate()),
            LambaBody::CodeBlock(a) => LambaBody::CodeBlock((*a).duplicate()),
        }
    }
}

impl Clone for LambaBody {
    fn clone(&self) -> (res: Self)
        ensures
            res.copies(self),
    {
        self.duplicate()
    }
}

impl LambdaFunction {
    /// `self` copies `orig` all the way down: the same variant, equal
    /// locations, names, flags and literals, lists whose items copy theirs one
    /// by one, and options and boxes whose contents copy theirs.
    pub open spec fn copies(&self, orig: &Self) -> bool
        decreases self,
    {
        &&& self.loc == orig.loc
        &&& self.args.copies(&orig.args)
        &&& (*self.body).copies(&(*orig.body))
    }

    /// A copy of this node, down to its leaves.
    pub fn duplicate(&self) -> (res: Self)
        ensures
            res.copies(self),
        decreases self,
    {
        LambdaFunction {
            loc: self.loc.clone(),
            args: self.args.duplicate(),
            body: Box::new((*self.body).duplicate()),
        }
    }
}

impl Clone for LambdaFunction {
    fn clone(&self) -> (res: Self)
        ensures
            res.copies(self),
    {
        self.duplicate()
    }
}

impl FunctionBody {
    /// `self` copies `orig` all the way down: the same variant, equal
    /// locations, names, flags and literals, lists whose items copy theirs one
    /// by one, and options and boxes whose contents copy theirs.
    pub open spec fn copies(&self, orig: &Self) -> bool
        decreases self,
    {
        &&& self.code.copies(&orig.code)
    }

    /// A copy of this node, down to its leaves.
    pub fn duplicate(&self) -> (res: Self)
        ensures
            res.copies(self),
        decreases self,
    {
        FunctionBody {
            code: self.code.duplicate(),
        }
    }
}

impl Clone for FunctionBody {
    fn clone(&self) -> (res: Self)
        ensures
            res.copies(self),
    {
        self.duplicate()
    }
}

impl TernaryExpression {
    /// `self` copies `orig` all the way down: the same variant, equal
    /// locations, names, flags and literals, lists whose items copy theirs one
    /// by one, and options and boxes whose contents copy theirs.
    pub open spec fn copies(&self, orig: &Self) -> bool
        decreases self,
    {
        &&& self.loc == orig.loc
        &&& (*self.condition).copies(&(*orig.condition))
        &&& (*self.true_expression).copies(&(*orig.true_expression))
        &&& (*self.false_expression).copies(&(*orig.false_expression))
    }

    /// A copy of this node, down to its leaves.
    pub fn duplicate(&self) -> (res: Self)
        ensures
            res.copies(self),
        decreases self,
    {
        TernaryExpression {
            loc: self.loc.clone(),
            condition: Box::new((*self.condition).duplicate()),
            true_expression: Box::new((*self.true_expression).duplicate()),
            false_expression: Box::new((*self.false_expression).duplicate()),
        }
    }
}

impl Clone for TernaryExpression {
    fn clone(&self) -> (res: Self)
        ensures
            res.copies(self),
    {
        self.duplicate()
    }
}

impl Expression {
    /// `self` copies `orig` all the way down: the same variant, equal
    /// locations, names, flags and literals, lists whose items copy theirs one
    /// by one, and options and boxes whose contents copy theirs.
    pub open spec fn copies(&self, orig: &Self) -> bool
        decreases self,
    {
        &&& (*orig is LambdaFunction) == (*self is LambdaFunction)
        &&& *orig is LambdaFunction ==> self->LambdaFunction_0.copies(&orig->LambdaFunction_0)
        &&& (*orig is LogOperation) == (*self is LogOperation)
        &&& *orig is LogOperation ==> self->LogOperation_0.copies(&orig->LogOperation_0)
        &&& (*orig is TernaryExpression) == (*self is TernaryExpression)
        &&& *orig is TernaryExpression ==> self->TernaryExpression_0.copies(&orig->TernaryExpression_0)
    }

    /// A copy of this node, down to its leaves.
    pub fn duplicate(&self) -> (res: Self)
        ensures
            res.copies(self),
        decreases self,
    {
        match self {
            Expression::LambdaFunction(a) => Expression::LambdaFunction((*a).duplicate()),
            Expression::LogOperation(a) => Expression::LogOperation((*a).duplicate()),
            Expression::TernaryExpression(a) => Expression::TernaryExpression((*a).duplicate()),
        }
    }
}

impl Clone for Expression {
    fn clone(&self) -> (res: Self)
        ensures
            res.copies(self),
    {
        self.duplicate()
    }
}

} // verus!
