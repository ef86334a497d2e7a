//! Copies of postfix terms and postfix expressions.
use crate::ast::{PostfixExpression, PostfixRvalue, PostfixTerm, PostfixTermAttribute, PostfixTermCall, PostfixTermEnumCase, PostfixTermFieldWrite, PostfixTermIndex, PostfixTermIndexWrite, PostfixTermObjectWrite, PostfixTermSigil, PostfixTermWrite, PostfixTermWriteList};
use vstd::prelude::*;

verus! {

impl Clone for PostfixTermAttribute {
    fn clone(&self) -> (res: Self)
        ensures
            res == *self,
    {
        PostfixTermAttribute {
            loc: self.loc.clone(),
            id: self.id.clone(),
        }
    }
}

impl PostfixTermIndex {
    /// `self` copies `orig` all the way down: the same variant, equal
    /// locations, names, flags and literals, lists whose items copy theirs one
    /// by one, and options and boxes whose contents copy theirs.
    pub open spec fn copies(&self, orig: &Self) -> bool
        decreases self,
    {
        &&& self.loc == orig.loc
        &&& self.index.copies(&orig.index)
    }

    /// A copy of this node, down to its leaves.
    pub fn duplicate(&self) -> (res: Self)
        ensures
            res.copies(self),
        decreases self,
    {
        PostfixTermIndex {
            loc: self.loc.clone(),
            index: self.index.duplicate(),
        }
    }
}

impl Clone for PostfixTermIndex {
    fn clone(&self) -> (res: Self)
        ensures
            res.copies(self),
    {
        self.duplicate()
    }
}

impl PostfixTermCall {
    /// `self` copies `orig` all the way down: the same variant, equal
    /// locations, names, flags and literals, lists whose items copy theirs one
    /// by one, and options and boxes whose contents copy theirs.
    pub open spec fn copies(&self, orig: &Self) -> bool
        decreases self,
    {
        &&& self.loc == orig.loc
        &&& self.args.copies(&orig.args)
    }

    /// A copy of this node, down to its leaves.
    pub fn duplicate(&self) -> (res: Self)
        ensures
            res.copies(self),
        decreases self,
    {
        PostfixTermCall {
            loc: self.loc.clone(),
            args: self.args.duplicate(),
        }
    }
}

impl Clone for PostfixTermCall {
    fn clone(&self) -> (res: Self)
        ensures
            res.copies(self),
    {
        self.duplicate()
    }
}

impl PostfixTermEnumCase {
    /// `self` copies `orig` all the way down: the same variant, equal
    /// locations, names, flags and literals, lists whose items copy theirs one
    /// by one, and options and boxes whose contents copy theirs.
    pub open spec fn copies(&self, orig: &Self) -> bool
        decreases self,
    {
        &&& self.loc == orig.loc
        &&& self.id == orig.id
        &&& self.payload.is_some() == orig.payload.is_some()
        &&& orig.payload.is_some() ==> (self.payload->Some_0.copies(&orig.payload->Some_0))
    }

    /// A copy of this node, down to its leaves.
    pub fn duplicate(&self) -> (res: Self)
        ensures
            res.copies(self),
        decreases self,
    {
        PostfixTermEnumCase {
            loc: self.loc.clone(),
            id: self.id.clone(),
            payload: match &self.payload { Some(x) => Some((*x).duplicate()), None => None },
        }
    }
}

impl Clone for PostfixTermEnumCase {
    fn clone(&self) -> (res: Self)
        ensures
            res.copies(self),
    {
        self.duplicate()
    }
}

impl Clone for PostfixTermSigil {
    fn clone(&self) -> (res: Self)
        ensures
            res == *self,
    {
        PostfixTermSigil {
            loc: self.loc.clone(),
            sigil: self.sigil.clone(),
        }
    }
}

impl PostfixTermFieldWrite {
    /// `self` copies `orig` all the way down: the same variant, equal
    /// locations, names, flags and literals, lists whose items copy theirs one
    /// by one, and options and boxes whose contents copy theirs.
    pub open spec fn copies(&self, orig: &Self) -> bool
        decreases self,
    {
        &&& self.loc == orig.loc
        &&& self.id == orig.id
        &&& self.val.is_some() == orig.val.is_some()
        &&& orig.val.is_some() ==> (self.val->Some_0.copies(&orig.val->Some_0))
    }

    /// A copy of this node, down to its leaves.
    pub fn duplicate(&self) -> (res: Self)
        ensures
            res.copies(self),
        decreases self,
    {
        PostfixTermFieldWrite {
            loc: self.loc.clone(),
            id: self.id.clone(),
            val: match &self.val { Some(x) => Some((*x).duplicate()), None => None },
        }
    }
}

impl Clone for PostfixTermFieldWrite {
    fn clone(&self) -> (res: Self)
        ensures
            res.copies(self),
    {
        self.duplicate()
    }
}

impl PostfixTermIndexWrite {
    /// `self` copies `orig` all the way down: the same variant, equal
    /// locations, names, flags and literals, lists whose items copy theirs one
    /// by one, and options and boxes whose contents copy theirs.
    pub open spec fn copies(&self, orig: &Self) -> bool
        decreases self,
    {
        &&& self.loc == orig.loc
        &&& self.idx.copies(&orig.idx)
        &&& self.val.copies(&orig.val)
    }

    /// A copy of this node, down to its leaves.
    pub fn duplicate(&self) -> (res: Self)
        ensures
            res.copies(self),
        decreases self,
    {
        PostfixTermIndexWrite {
            loc: self.loc.clone(),
            idx: self.idx.duplicate(),
            val: self.val.duplicate(),
        }
    }
}

impl Clone for PostfixTermIndexWrite {
    fn clone(&self) -> (res: Self)
        ensures
            res.copies(self),
    {
        self.duplicate()
    }
}

impl PostfixTermWrite {
    /// `self` copies `orig` all the way down: the same variant, equal
    /// locations, names, flags and literals, lists whose items copy theirs one
    /// by one, and options and boxes whose contents copy theirs.
    pub open spec fn copies(&self, orig: &Self) -> bool
        decreases self,
    {
        &&& (*orig is PostfixTermFieldWrite) == (*self is PostfixTermFieldWrite)
        &&& *orig is PostfixTermFieldWrite ==> self->PostfixTermFieldWrite_0.copies(&orig->PostfixTermFieldWrite_0)
        &&& (*orig is PostfixTermIndexWrite) == (*self is PostfixTermIndexWrite)
        &&& *orig is PostfixTermIndexWrite ==> self->PostfixTermIndexWrite_0.copies(&orig->PostfixTermIndexWrite_0)
    }

    /// A copy of this node, down to its leaves.
    pub fn duplicate(&self) -> (res: Self)
        ensures
            res.copies(self),
        decreases self,
    {
        match self {
            PostfixTermWrite::PostfixTermFieldWrite(a) => PostfixTermWrite::PostfixTermFieldWrite((*a).duplicate()),
            PostfixTermWrite::PostfixTermIndexWrite(a) => PostfixTermWrite::PostfixTermIndexWrite((*a).duplicate()),
        }
    }
}

impl Clone for PostfixTermWrite {
    fn clone(&self) -> (res: Self)
        ensures
            res.copies(self),
    {
        self.duplicate()
    }
}

impl PostfixTermWriteList {
    /// `self` copies `orig` all the way down: the same variant, equal
    /// locations, names, flags and literals, lists whose items copy theirs one
    /// by one, and options and boxes whose contents copy theirs.
    pub open spec fn copies(&self, orig: &Self) -> bool
        decreases self,
    {
        &&& self.loc == orig.loc
        &&& self.terms@.len() == orig.terms@.len()
        &&& forall|i: int| #![trigger self.terms@[i]] 0 <= i < orig.terms@.len() ==> self.terms@[i].copies(&orig.terms@[i])
    }

    /// A copy of this node, down to its leaves.
    pub fn duplicate(&self) -> (res: Self)
        ensures
            res.copies(self),
        decreases self,
    {
        PostfixTermWriteList {
            loc: self.loc.clone(),
            terms: duplicate_postfix_term_write_vec(&self.terms),
        }
    }
}

impl Clone for PostfixTermWriteList {
    fn clone(&self) -> (res: Self)
        ensures
            res.copies(self),
    {
        self.duplicate()
    }
}

impl PostfixTermObjectWrite {
    /// `self` copies `orig` all the way down: the same variant, equal
    /// locations, names, flags and literals, lists whose items copy theirs one
    /// by one, and options and boxes whose contents copy theirs.
    pub open spec fn copies(&self, orig: &Self) -> bool
        decreases self,
    {
        &&& self.loc == orig.loc
        &&& self.terms.copies(&orig.terms)
    }

    /// A copy of this node, down to its leaves.
    pub fn duplicate(&self) -> (res: Self)
        ensures
            res.copies(self),
        decreases self,
    {
        PostfixTermObjectWrite {
            loc: self.loc.clone(),
            terms: self.terms.duplicate(),
        }
    }
}

impl Clone for PostfixTermObjectWrite {
    fn clone(&self) -> (res: Self)
        ensures
            res.copies(self),
    {
        self.duplicate()
    }
}

impl PostfixTerm {
    /// `self` copies `orig` all the way down: the same variant, equal
    /// locations, names, flags and literals, lists whose items copy theirs one
    /// by one, and options and boxes whose contents copy theirs.
    pub open spec fn copies(&self, orig: &Self) -> bool
        decreases self,
    {
        &&& (*orig is PostfixTermAttribute) == (*self is PostfixTermAttribute)
        &&& *orig is PostfixTermAttribute ==> self->PostfixTermAttribute_0 == orig->PostfixTermAttribute_0
        &&& (*orig is PostfixTermIndex) == (*self is PostfixTermIndex)
        &&& *orig is PostfixTermIndex ==> self->PostfixTermIndex_0.copies(&orig->PostfixTermIndex_0)
        &&& (*orig is PostfixTermCall) == (*self is PostfixTermCall)
        &&& *orig is PostfixTermCall ==> self->PostfixTermCall_0.copies(&orig->PostfixTermCall_0)
        &&& (*orig is PostfixTermObjectWrite) == (*self is PostfixTermObjectWrite)
        &&& *orig is PostfixTermObjectWrite ==> self->PostfixTermObjectWrite_0.copies(&orig->PostfixTermObjectWrite_0)
        &&& (*orig is PostfixTermEnumCase) == (*self is PostfixTermEnumCase)
        &&& *orig is PostfixTermEnumCase ==> self->PostfixTermEnumCase_0.copies(&orig->PostfixTermEnumCase_0)
        &&& (*orig is PostfixTermSigil) == (*self is PostfixTermSigil)
        &&& *orig is PostfixTermSigil ==> self->PostfixTermSigil_0 == orig->PostfixTermSigil_0
    }

    /// A copy of this node, down to its leaves.
    pub fn duplicate(&self) -> (res: Self)
        ensures
            res.copies(self),
        decreases self,
    {
        match self {
            PostfixTerm::PostfixTermAttribute(a) => PostfixTerm::PostfixTermAttribute((*a).clone()),
            PostfixTerm::PostfixTermIndex(a) => PostfixTerm::PostfixTermIndex((*a).duplicate()),
            PostfixTerm::PostfixTermCall(a) => PostfixTerm::PostfixTermCall((*a).duplicate()),
            PostfixTerm::PostfixTermObjectWrite(a) => PostfixTerm::PostfixTermObjectWrite((*a).duplicate()),
            PostfixTerm::PostfixTermEnumCase(a) => PostfixTerm::PostfixTermEnumCase((*a).duplicate()),
            PostfixTerm::PostfixTermSigil(a) => PostfixTerm::PostfixTermSigil((*a).clone()),
        }
    }
}

impl Clone for PostfixTerm {
    fn clone(&self) -> (res: Self)
        ensures
            res.copies(self),
    {
        self.duplicate()
    }
}

impl PostfixExpression {
    /// `self` copies `orig` all the way down: the same variant, equal
    /// locations, names, flags and literals, lists whose items copy theirs one
    /// by one, and options and boxes whose contents copy theirs.
    pub open spec fn copies(&self, orig: &Self) -> bool
        decreases self,
    {
        &&& self.loc == orig.loc
        &&& self.base.copies(&orig.base)
        &&& self.terms@.len() == orig.terms@.len()
        &&& forall|i: int| #![trigger self.terms@[i]] 0 <= i < orig.terms@.len() ==> self.terms@[i].copies(&orig.terms@[i])
    }

    /// A copy of this node, down to its leaves.
    pub fn duplicate(&self) -> (res: Self)
        ensures
            res.copies(self),
        decreases self,
    {
        PostfixExpression {
            loc: self.loc.clone(),
            base: self.base.duplicate(),
            terms: duplicate_postfix_term_vec(&self.terms),
        }
    }
}

impl Clone for PostfixExpression {
    fn clone(&self) -> (res: Self)
        ensures
            res.copies(self),
    {
        self.duplicate()
    }
}

impl PostfixRvalue {
    /// `self` copies `orig` all the way down: the same variant, equal
    /// locations, names, flags and literals, lists whose items copy theirs one
    /// by one, and options and boxes whose contents copy theirs.
    pub open spec fn copies(&self, orig: &Self) -> bool
        decreases self,
    {
        &&& self.loc == orig.loc
        &&& self.expr.copies(&orig.expr)
    }

    /// A copy of this node, down to its leaves.
    pub fn duplicate(&self) -> (res: Self)
        ensures
            res.copies(self),
        decreases self,
    {
        PostfixRvalue {
            loc: self.loc.clone(),
            expr: self.expr.duplicate(),
        }
    }
}

impl Clone for PostfixRvalue {
    fn clone(&self) -> (res: Self)
        ensures
            res.copies(self),
    {
        self.duplicate()
    }
}

/// Copies a vector item by item.
pub fn duplicate_postfix_term_write_vec(v: &Vec<PostfixTermWrite>) -> (res: Vec<PostfixTermWrite>)
    ensures
        res@.len() == v@.len(),
        forall|i: int| #![trigger res@[i]] 0 <= i < v@.len() ==> res@[i].copies(&v@[i]),
    decreases v,
{
    let mut res: Vec<PostfixTermWrite> = Vec::new();
    let mut i: usize = 0;
    while i < v.len()
        invariant
            i <= v@.len(),
            res@.len() == i,
            forall|j: int| #![trigger res@[j]] 0 <= j < i ==> res@[j].copies(&v@[j]),
        decreases v@.len() - i,
    {
        proof {
            vstd::std_specs::vec::axiom_vec_index_decreases(*v, i as int);
        }
        let item = v[i].duplicate();
        res.push(item);
        i = i + 1;
    }
    res
}

/// Copies a vector item by item.
pub fn duplicate_postfix_term_vec(v: &Vec<PostfixTerm>) -> (res: Vec<PostfixTerm>)
    ensures
        res@.len() == v@.len(),
        forall|i: int| #![trigger res@[i]] 0 <= i < v@.len() ==> res@[i].copies(&v@[i]),
    decreases v,
{
    let mut res: Vec<PostfixTerm> = Vec::new();
    let mut i: usize = 0;
    while i < v.len()
        invariant
            i <= v@.len(),
            res@.len() == i,
            forall|j: int| #![trigger res@[j]] 0 <= j < i ==> res@[j].copies(&v@[j]),
        decreases v@.len() - i,
    {
        proof {
            vstd::std_specs::vec::axiom_vec_index_decreases(*v, i as int);
        }
        let item = v[i].duplicate();
        res.push(item);
        i = i + 1;
    }
    res
}

} // verus!
