//! Copies of the operator levels of expressions.
use crate::ast::{AddOperation, AddSymbol, CompOperation, LogOperation, LogSymbol, MulOperation, MulSymbol, RelOperation, ShiftOperation, UnaryOperation};
use vstd::prelude::*;

verus! {

impl UnaryOperation {
    /// `self` copies `orig` all the way down: the same variant, equal
    /// locations, names, flags and literals, lists whose items copy theirs one
    /// by one, and options and boxes whose contents copy theirs.
    pub open spec fn copies(&self, orig: &Self) -> bool
        decreases self,
    {
        &&& self.loc == orig.loc
        &&& self.operand == orig.operand
        &&& self.postfix.copies(&orig.postfix)
    }

    /// A copy of this node, down to its leaves.
    pub fn duplicate(&self) -> (res: Self)
        ensures
            res.copies(self),
        decreases self,
    {
        UnaryOperation {
            loc: self.loc.clone(),
            operand: self.operand,
            postfix: self.postfix.duplicate(),
        }
    }
}

impl Clone for UnaryOperation {
    fn clone(&self) -> (res: Self)
        ensures
            res.copies(self),
    {
        self.duplicate()
    }
}

impl MulOperation {
    /// `self` copies `orig` all the way down: the same variant, equal
    /// locations, names, flags and literals, lists whose items copy theirs one
    /// by one, and options and boxes whose contents copy theirs.
    pub open spec fn copies(&self, orig: &Self) -> bool
        decreases self,
    {
        &&& self.loc == orig.loc
        &&& self.left.copies(&orig.left)
        &&& self.right@.len() == orig.right@.len()
        &&& forall|i: int| #![trigger self.right@[i]] 0 <= i < orig.right@.len() ==> self.right@[i].0 == orig.right@[i].0 && self.right@[i].1.copies(&orig.right@[i].1)
    }

    /// A copy of this node, down to its leaves.
    pub fn duplicate(&self) -> (res: Self)
        ensures
            res.copies(self),
        decreases self,
    {
        MulOperation {
            loc: self.loc.clone(),
            left: self.left.duplicate(),
            right: duplicate_mul_symbol_unary_operation_vec(&self.right),
        }
    }
}

impl Clone for MulOperation {
    fn clone(&self) -> (res: Self)
        ensures
            res.copies(self),
    {
        self.duplicate()
    }
}

impl AddOperation {
    /// `self` copies `orig` all the way down: the same variant, equal
    /// locations, names, flags and literals, lists whose items copy theirs one
    /// by one, and options and boxes whose contents copy theirs.
    pub open spec fn copies(&self, orig: &Self) -> bool
        decreases self,
    {
        &&& self.loc == orig.loc
        &&& self.left.copies(&orig.left)
        &&& self.right@.len() == orig.right@.len()
        &&& forall|i: int| #![trigger self.right@[i]] 0 <= i < orig.right@.len() ==> self.right@[i].0 == orig.right@[i].0 && self.right@[i].1.copies(&orig.right@[i].1)
    }

    /// A copy of this node, down to its leaves.
    pub fn duplicate(&self) -> (res: Self)
        ensures
            res.copies(self),
        decreases self,
    {
        AddOperation {
            loc: self.loc.clone(),
            left: self.left.duplicate(),
            right: duplicate_add_symbol_mul_operation_vec(&self.right),
        }
    }
}

impl Clone for AddOperation {
    fn clone(&self) -> (res: Self)
        ensures
            res.copies(self),
    {
        self.duplicate()
    }
}

impl ShiftOperation {
    /// `self` copies `orig` all the way down: the same variant, equal
    /// locations, names, flags and literals, lists whose items copy theirs one
    /// by one, and options and boxes whose contents copy theirs.
    pub open spec fn copies(&self, orig: &Self) -> bool
        decreases self,
    {
        &&& self.loc == orig.loc
        &&& self.left.copies(&orig.left)
        &&& self.right.is_some() == orig.right.is_some()
        &&& orig.right.is_some() ==> (self.right->Some_0.0 == orig.right->Some_0.0 && self.right->Some_0.1.copies(&orig.right->Some_0.1))
    }

    /// A copy of this node, down to its leaves.
    pub fn duplicate(&self) -> (res: Self)
        ensures
            res.copies(self),
        decreases self,
    {
        ShiftOperation {
            loc: self.loc.clone(),
            left: self.left.duplicate(),
            right: match &self.right { Some(x) => Some(((*x).0, (*x).1.duplicate())), None => None },
        }
    }
}

impl Clone for ShiftOperation {
    fn clone(&self) -> (res: Self)
        ensures
            res.copies(self),
    {
        self.duplicate()
    }
}

impl RelOperation {
    /// `self` copies `orig` all the way down: the same variant, equal
    /// locations, names, flags and literals, lists whose items copy theirs one
    /// by one, and options and boxes whose contents copy theirs.
    pub open spec fn copies(&self, orig: &Self) -> bool
        decreases self,
    {
        &&& self.loc == orig.loc
        &&& self.left.copies(&orig.left)
        &&& self.right.is_some() == orig.right.is_some()
        &&& orig.right.is_some() ==> (self.right->Some_0.0 == orig.right->Some_0.0 && self.right->Some_0.1.copies(&orig.right->Some_0.1))
    }

    /// A copy of this node, down to its leaves.
    pub fn duplicate(&self) -> (res: Self)
        ensures
            res.copies(self),
        decreases self,
    {
        RelOperation {
            loc: self.loc.clone(),
            left: self.left.duplicate(),
            right: match &self.right { Some(x) => Some(((*x).0, (*x).1.duplicate())), None => None },
        }
    }
}

impl Clone for RelOperation {
    fn clone(&self) -> (res: Self)
        ensures
            res.copies(self),
    {
        self.duplicate()
    }
}

impl CompOperation {
    /// `self` copies `orig` all the way down: the same variant, equal
    /// locations, names, flags and literals, lists whose items copy theirs one
    /// by one, and options and boxes whose contents copy theirs.
    pub open spec fn copies(&self, orig: &Self) -> bool
        decreases self,
    {
        &&& self.loc == orig.loc
        &&& self.left.copies(&orig.left)
        &&& self.right.is_some() == orig.right.is_some()
        &&& orig.right.is_some() ==> (self.right->Some_0.0 == orig.right->Some_0.0 && self.right->Some_0.1.copies(&orig.right->Some_0.1))
    }

    /// A copy of this node, down to its leaves.
    pub fn duplicate(&self) -> (res: Self)
        ensures
            res.copies(self),
        decreases self,
    {
        CompOperation {
            loc: self.loc.clone(),
            left: self.left.duplicate(),
            right: match &self.right { Some(x) => Some(((*x).0.clone(), (*x).1.duplicate())), None => None },
        }
    }
}

impl Clone for CompOperation {
    fn clone(&self) -> (res: Self)
        ensures
            res.copies(self),
    {
        self.duplicate()
    }
}

impl LogOperation {
    /// `self` copies `orig` all the way down: the same variant, equal
    /// locations, names, flags and literals, lists whose items copy theirs one
    /// by one, and options and boxes whose contents copy theirs.
    pub open spec fn copies(&self, orig: &Self) -> bool
        decreases self,
    {
        &&& self.loc == orig.loc
        &&& self.left.copies(&orig.left)
        &&& self.right@.len() == orig.right@.len()
        &&& forall|i: int| #![trigger self.right@[i]] 0 <= i < orig.right@.len() ==> self.right@[i].0 == orig.right@[i].0 && self.right@[i].1.copies(&orig.right@[i].1)
    }

    /// A copy of this node, down to its leaves.
    pub fn duplicate(&self) -> (res: Self)
        ensures
            res.copies(self),
        decreases self,
    {
        LogOperation {
            loc: self.loc.clone(),
            left: self.left.duplicate(),
            right: duplicate_log_symbol_comp_operation_vec(&self.right),
        }
    }
}

impl Clone for LogOperation {
    fn clone(&self) -> (res: Self)
        ensures
            res.copies(self),
    {
        self.duplicate()
    }
}

/// Copies a vector item by item.
pub fn duplicate_mul_symbol_unary_operation_vec(v: &Vec<(MulSymbol, UnaryOperation)>) -> (res: Vec<(MulSymbol, UnaryOperation)>)
    ensures
        res@.len() == v@.len(),
        forall|i: int| #![trigger res@[i]] 0 <= i < v@.len() ==> res@[i].0 == v@[i].0 && res@[i].1.copies(&v@[i].1),
    decreases v,
{
    let mut res: Vec<(MulSymbol, UnaryOperation)> = Vec::new();
    let mut i: usize = 0;
    while i < v.len()
        invariant
            i <= v@.len(),
            res@.len() == i,
            forall|j: int| #![trigger res@[j]] 0 <= j < i ==> res@[j].0 == v@[j].0 && res@[j].1.copies(&v@[j].1),
        decreases v@.len() - i,
    {
        proof {
            vstd::std_specs::vec::axiom_vec_index_decreases(*v, i as int);
        }
        let item = (v[i].0.clone(), v[i].1.duplicate());
        res.push(item);
        i = i + 1;
    }
    res
}

/// Copies a vector item by item.
pub fn duplicate_add_symbol_mul_operation_vec(v: &Vec<(AddSymbol, MulOperation)>) -> (res: Vec<(AddSymbol, MulOperation)>)
    ensures
        res@.len() == v@.len(),
        forall|i: int| #![trigger res@[i]] 0 <= i < v@.len() ==> res@[i].0 == v@[i].0 && res@[i].1.copies(&v@[i].1),
    decreases v,
{
    let mut res: Vec<(AddSymbol, MulOperation)> = Vec::new();
    let mut i: usize = 0;
    while i < v.len()
        invariant
            i <= v@.len(),
            res@.len() == i,
            forall|j: int| #![trigger res@[j]] 0 <= j < i ==> res@[j].0 == v@[j].0 && res@[j].1.copies(&v@[j].1),
        decreases v@.len() - i,
    {
        proof {
            vstd::std_specs::vec::axiom_vec_index_decreases(*v, i as int);
        }
        let item = (v[i].0.clone(), v[i].1.duplicate());
        res.push(item);
        i = i + 1;
    }
    res
}

/// Copies a vector item by item.
pub fn duplicate_log_symbol_comp_operation_vec(v: &Vec<(LogSymbol, CompOperation)>) -> (res: Vec<(LogSymbol, CompOperation)>)
    ensures
        res@.len() == v@.len(),
        forall|i: int| #![trigger res@[i]] 0 <= i < v@.len() ==> res@[i].0 == v@[i].0 && res@[i].1.copies(&v@[i].1),
    decreases v,
{
    let mut res: Vec<(LogSymbol, CompOperation)> = Vec::new();
    let mut i: usize = 0;
    while i < v.len()
        invariant
            i <= v@.len(),
            res@.len() == i,
            forall|j: int| #![trigger res@[j]] 0 <= j < i ==> res@[j].0 == v@[j].0 && res@[j].1.copies(&v@[j].1),
        decreases v@.len() - i,
    {
        proof {
            vstd::std_specs::vec::axiom_vec_index_decreases(*v, i as int);
        }
        let item = (v[i].0.clone(), v[i].1.duplicate());
        res.push(item);
        i = i + 1;
    }
    res
}

} // verus!
