//! Copies of expression lists and primaries.
use crate::ast::{Expression, ExpressionList, FloatLiteral, Identifier, IntLiteral, ListLiteral, ParenExpression, Primary, StringLiteral};
use vstd::prelude::*;

verus! {

impl ExpressionList {
    /// `self` copies `orig` all the way down: the same variant, equal
    /// locations, names, flags and literals, lists whose items copy theirs one
    /// by one, and options and boxes whose contents copy theirs.
    pub open spec fn copies(&self, orig: &Self) -> bool
        decreases self,
    {
        &&& self.loc == orig.loc
        &&& self.expressions@.len() == orig.expressions@.len()
        &&& forall|i: int| #![trigger self.expressions@[i]] 0 <= i < orig.expressions@.len() ==> self.expressions@[i].copies(&orig.expressions@[i])
    }

    /// A copy of this node, down to its leaves.
    pub fn duplicate(&self) -> (res: Self)
        ensures
            res.copies(self),
        decreases self,
    {
        ExpressionList {
            loc: self.loc.clone(),
            expressions: duplicate_expression_vec(&self.expressions),
        }
    }
}

impl Clone for ExpressionList {
    fn clone(&self) -> (res: Self)
        ensures
            res.copies(self),
    {
        self.duplicate()
    }
}

impl ListLiteral {
    /// `self` copies `orig` all the way down: the same variant, equal
    /// locations, names, flags and literals, lists whose items copy theirs one
    /// by one, and options and boxes whose contents copy theirs.
    pub open spec fn copies(&self, orig: &Self) -> bool
        decreases self,
    {
        &&& self.loc == orig.loc
        &&& self.items.copies(&orig.items)
    }

    /// A copy of this node, down to its leaves.
    pub fn duplicate(&self) -> (res: Self)
        ensures
            res.copies(self),
        decreases self,
    {
        ListLiteral {
            loc: self.loc.clone(),
            items: self.items.duplicate(),
        }
    }
}

impl Clone for ListLiteral {
    fn clone(&self) -> (res: Self)
        ensures
            res.copies(self),
    {
        self.duplicate()
    }
}

impl ParenExpression {
    /// `self` copies `orig` all the way down: the same variant, equal
    /// locations, names, flags and literals, lists whose items copy theirs one
    /// by one, and options and boxes whose contents copy theirs.
    pub open spec fn copies(&self, orig: &Self) -> bool
        decreases self,
    {
        &&& self.loc == orig.loc
        &&& (*self.value).copies(&(*orig.value))
    }

    /// A copy of this node, down to its leaves.
    pub fn duplicate(&self) -> (res: Self)
        ensures
            res.copies(self),
        decreases self,
    {
        ParenExpression {
            loc: self.loc.clone(),
            value: Box::new((*self.value).duplicate()),
        }
    }
}

impl Clone for ParenExpression {
    fn clone(&self) -> (res: Self)
        ensures
            res.copies(self),
    {
        self.duplicate()
    }
}

impl Primary {
    /// `self` copies `orig` all the way down: the same variant, equal
    /// locations, names, flags and literals, lists whose items copy theirs one
    /// by one, and options and boxes whose contents copy theirs.
    pub open spec fn copies(&self, orig: &Self) -> bool
        decreases self,
    {
        &&& (*orig is IntLiteral) == (*self is IntLiteral)
        &&& *orig is IntLiteral ==> self->IntLiteral_0 == orig->IntLiteral_0
        &&& (*orig is FloatLiteral) == (*self is FloatLiteral)
        &&& *orig is FloatLiteral ==> self->FloatLiteral_0 == orig->FloatLiteral_0
        &&& (*orig is Identifier) == (*self is Identifier)
        &&& *orig is Identifier ==> self->Identifier_0 == orig->Identifier_0
        &&& (*orig is ListLiteral) == (*self is ListLiteral)
        &&& *orig is ListLiteral ==> self->ListLiteral_0.copies(&orig->ListLiteral_0)
        &&& (*orig is StringLiteral) == (*self is StringLiteral)
        &&& *orig is StringLiteral ==> self->StringLiteral_0 == orig->StringLiteral_0
        &&& (*orig is ParenExpression) == (*self is ParenExpression)
        &&& *orig is ParenExpression ==> self->ParenExpression_0.copies(&orig->ParenExpression_0)
    }

    /// A copy of this node, down to its leaves.
    pub fn duplicate(&self) -> (res: Self)
        ensures
            res.copies(self),
        decreases self,
    {
        match self {
            Primary::IntLiteral(a) => Primary::IntLiteral((*a).clone()),
            Primary::FloatLiteral(a) => Primary::FloatLiteral((*a).clone()),
            Primary::Identifier(a) => Primary::Identifier((*a).clone()),
            Primary::ListLiteral(a) => Primary::ListLiteral((*a).duplicate()),
            Primary::StringLiteral(a) => Primary::StringLiteral((*a).clone()),
            Primary::ParenExpression(a) => Primary::ParenExpression((*a).duplicate()),
        }
    }
}

impl Clone for Primary {
    fn clone(&self) -> (res: Self)
        ensures
            res.copies(self),
    {
        self.duplicate()
    }
}

/// Copies a vector item by item.
pub fn duplicate_expression_vec(v: &Vec<Expression>) -> (res: Vec<Expression>)
    ensures
        res@.len() == v@.len(),
        forall|i: int| #![trigger res@[i]] 0 <= i < v@.len() ==> res@[i].copies(&v@[i]),
    decreases v,
{
    let mut res: Vec<Expression> = Vec::new();
    let mut i: usize = 0;
    while i < v.len()
        invariant
            i <= v@.len(),
            res@.len() == i,
            forall|j: int| #![trigger res@[j]] 0 <= j < i ==> res@[j].copies(&v@[j]),
        decreases v@.len() - i,
    {
        proof {
            vstd::std_specs::vec::axiom_vec_index_decreases(*v, i as int);
        }
        let item = v[i].duplicate();
        res.push(item);
        i = i + 1;
    }
    res
}

} // verus!
