//! Copies of source buffers, pointers, literals and names.
use crate::ast::share_text;
use crate::ast::{FloatLiteral, Identifier, IdentifierList, IntLiteral, SourceBuffer, SourcePointer, StringLiteral};
use vstd::prelude::*;

verus! {

impl Clone for SourceBuffer {
    fn clone(&self) -> (res: Self)
        ensures
            res == *self,
    {
        SourceBuffer {
            content: share_text(&self.content),
            name: self.name.clone(),
        }
    }
}

impl Clone for SourcePointer {
    fn clone(&self) -> (res: Self)
        ensures
            res == *self,
    {
        SourcePointer {
            location: self.location,
            buffer: self.buffer.clone(),
        }
    }
}

impl Clone for IntLiteral {
    fn clone(&self) -> (res: Self)
        ensures
            res == *self,
    {
        IntLiteral {
            loc: self.loc.clone(),
            val: self.val,
        }
    }
}

impl Clone for FloatLiteral {
    fn clone(&self) -> (res: Self)
        ensures
            res == *self,
    {
        FloatLiteral {
            loc: self.loc.clone(),
            val: self.val.clone(),
        }
    }
}

impl Clone for StringLiteral {
    fn clone(&self) -> (res: Self)
        ensures
            res == *self,
    {
        StringLiteral {
            loc: self.loc.clone(),
            value: self.value.clone(),
        }
    }
}

impl Clone for Identifier {
    fn clone(&self) -> (res: Self)
        ensures
            res == *self,
    {
        Identifier {
            loc: self.loc.clone(),
            value: self.value.clone(),
        }
    }
}

impl IdentifierList {
    /// `self` copies `orig` all the way down: the same variant, equal
    /// locations, names, flags and literals, lists whose items copy theirs one
    /// by one, and options and boxes whose contents copy theirs.
    pub open spec fn copies(&self, orig: &Self) -> bool
    {
        &&& self.loc == orig.loc
        &&& self.identifiers@ == orig.identifiers@
    }

    /// A copy of this node, down to its leaves.
    pub fn duplicate(&self) -> (res: Self)
        ensures
            res.copies(self),
    {
        IdentifierList {
            loc: self.loc.clone(),
            identifiers: duplicate_identifier_vec(&self.identifiers),
        }
    }
}

impl Clone for IdentifierList {
    fn clone(&self) -> (res: Self)
        ensures
            res.copies(self),
    {
        self.duplicate()
    }
}

/// Copies a vector item by item.
pub fn duplicate_identifier_vec(v: &Vec<Identifier>) -> (res: Vec<Identifier>)
    ensures
        res@ == v@,
{
    let mut res: Vec<Identifier> = Vec::new();
    let mut i: usize = 0;
    while i < v.len()
        invariant
            i <= v@.len(),
            res@ == v@.subrange(0, i as int),
        decreases v@.len() - i,
    {
        let item = v[i].clone();
        res.push(item);
        proof {
            assert(res@ =~= v@.subrange(0, i + 1));
        }
        i = i + 1;
    }
    proof {
        assert(v@.subrange(0, v@.len() as int) =~= v@);
    }
    res
}

} // verus!
