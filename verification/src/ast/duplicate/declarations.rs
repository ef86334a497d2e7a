//! Copies of arguments and declarations.
use crate::ast::{ArgumentDecl, ArgumentList, EnumCaseDecl, EnumDecl, EnumDeclEntry, ExtensionDecl, FunctionDecl, MethodDecl, MixinDecl, MixinEntry, MixinIncludeDecl, OperatorDecl, StructDecl, StructEntry};
use vstd::prelude::*;

verus! {

impl ArgumentDecl {
    /// `self` copies `orig` all the way down: the same variant, equal
    /// locations, names, flags and literals, lists whose items copy theirs one
    /// by one, and options and boxes whose contents copy theirs.
    pub open spec fn copies(&self, orig: &Self) -> bool
        decreases self,
    {
        &&& self.loc == orig.loc
        &&& self.id.copies(&orig.id)
        &&& self.deft.is_some() == orig.deft.is_some()
        &&& orig.deft.is_some() ==> (self.deft->Some_0.copies(&orig.deft->Some_0))
    }

    /// A copy of this node, down to its leaves.
    pub fn duplicate(&self) -> (res: Self)
        ensures
            res.copies(self),
        decreases self,
    {
        ArgumentDecl {
            loc: self.loc.clone(),
            id: self.id.duplicate(),
            deft: match &self.deft { Some(x) => Some((*x).duplicate()), None => None },
        }
    }
}

impl Clone for ArgumentDecl {
    fn clone(&self) -> (res: Self)
        ensures
            res.copies(self),
    {
        self.duplicate()
    }
}

impl ArgumentList {
    /// `self` copies `orig` all the way down: the same variant, equal
    /// locations, names, flags and literals, lists whose items copy theirs one
    /// by one, and options and boxes whose contents copy theirs.
    pub open spec fn copies(&self, orig: &Self) -> bool
        decreases self,
    {
        &&& self.loc == orig.loc
        &&& self.names@.len() == orig.names@.len()
        &&& forall|i: int| #![trigger self.names@[i]] 0 <= i < orig.names@.len() ==> self.names@[i].copies(&orig.names@[i])
        &&& self.vararg == orig.vararg
    }

    /// A copy of this node, down to its leaves.
    pub fn duplicate(&self) -> (res: Self)
        ensures
            res.copies(self),
        decreases self,
    {
        ArgumentList {
            loc: self.loc.clone(),
            names: duplicate_argument_decl_vec(&self.names),
            vararg: self.vararg,
        }
    }
}

impl Clone for ArgumentList {
    fn clone(&self) -> (res: Self)
        ensures
            res.copies(self),
    {
        self.duplicate()
    }
}

impl FunctionDecl {
    /// `self` copies `orig` all the way down: the same variant, equal
    /// locations, names, flags and literals, lists whose items copy theirs one
    /// by one, and options and boxes whose contents copy theirs.
    pub open spec fn copies(&self, orig: &Self) -> bool
    {
        &&& self.loc == orig.loc
        &&& self.name == orig.name
        &&& self.args.copies(&orig.args)
        &&& self.body.copies(&orig.body)
    }

    /// A copy of this node, down to its leaves.
    pub fn duplicate(&self) -> (res: Self)
        ensures
            res.copies(self),
    {
        FunctionDecl {
            loc: self.loc.clone(),
            name: self.name.clone(),
            args: self.args.duplicate(),
            body: self.body.duplicate(),
        }
    }
}

impl Clone for FunctionDecl {
    fn clone(&self) -> (res: Self)
        ensures
            res.copies(self),
    {
        self.duplicate()
    }
}

impl MethodDecl {
    /// `self` copies `orig` all the way down: the same variant, equal
    /// locations, names, flags and literals, lists whose items copy theirs one
    /// by one, and options and boxes whose contents copy theirs.
    pub open spec fn copies(&self, orig: &Self) -> bool
        decreases self,
    {
        &&& self.loc == orig.loc
        &&& self.access == orig.access
        &&& self.name == orig.name
        &&& self.args.copies(&orig.args)
        &&& self.body.copies(&orig.body)
    }

    /// A copy of this node, down to its leaves.
    pub fn duplicate(&self) -> (res: Self)
        ensures
            res.copies(self),
        decreases self,
    {
        MethodDecl {
            loc: self.loc.clone(),
            access: self.access.clone(),
            name: self.name.clone(),
            args: self.args.duplicate(),
            body: self.body.duplicate(),
        }
    }
}

impl Clone for MethodDecl {
    fn clone(&self) -> (res: Self)
        ensures
            res.copies(self),
    {
        self.duplicate()
    }
}

impl OperatorDecl {
    /// `self` copies `orig` all the way down: the same variant, equal
    /// locations, names, flags and literals, lists whose items copy theirs one
    /// by one, and options and boxes whose contents copy theirs.
    pub open spec fn copies(&self, orig: &Self) -> bool
        decreases self,
    {
        &&& self.loc == orig.loc
        &&& self.reverse == orig.reverse
        &&& self.symbol == orig.symbol
        &&& self.args.copies(&orig.args)
        &&& self.body.copies(&orig.body)
    }

    /// A copy of this node, down to its leaves.
    pub fn duplicate(&self) -> (res: Self)
        ensures
            res.copies(self),
        decreases self,
    {
        OperatorDecl {
            loc: self.loc.clone(),
            reverse: self.reverse,
            symbol: self.symbol.clone(),
            args: self.args.duplicate(),
            body: self.body.duplicate(),
        }
    }
}

impl Clone for OperatorDecl {
    fn clone(&self) -> (res: Self)
        ensures
            res.copies(self),
    {
        self.duplicate()
    }
}

impl MixinIncludeDecl {
    /// `self` copies `orig` all the way down: the same variant, equal
    /// locations, names, flags and literals, lists whose items copy theirs one
    /// by one, and options and boxes whose contents copy theirs.
    pub open spec fn copies(&self, orig: &Self) -> bool
        decreases self,
    {
        &&& self.loc == orig.loc
        &&& self.what.copies(&orig.what)
    }

    /// A copy of this node, down to its leaves.
    pub fn duplicate(&self) -> (res: Self)
        ensures
            res.copies(self),
        decreases self,
    {
        MixinIncludeDecl {
            loc: self.loc.clone(),
            what: self.what.duplicate(),
        }
    }
}

impl Clone for MixinIncludeDecl {
    fn clone(&self) -> (res: Self)
        ensures
            res.copies(self),
    {
        self.duplicate()
    }
}

impl StructEntry {
    /// `self` copies `orig` all the way down: the same variant, equal
    /// locations, names, flags and literals, lists whose items copy theirs one
    /// by one, and options and boxes whose contents copy theirs.
    pub open spec fn copies(&self, orig: &Self) -> bool
        decreases self,
    {
        &&& (*orig is Method) == (*self is Method)
        &&& *orig is Method ==> (*self->Method_0).copies(&(*orig->Method_0))
        &&& (*orig is Operator) == (*self is Operator)
        &&& *orig is Operator ==> (*self->Operator_0).copies(&(*orig->Operator_0))
        &&& (*orig is Variable) == (*self is Variable)
        &&& *orig is Variable ==> (*self->Variable_0).copies(&(*orig->Variable_0))
        &&& (*orig is Struct) == (*self is Struct)
        &&& *orig is Struct ==> (*self->Struct_0).copies(&(*orig->Struct_0))
        &&& (*orig is Enum) == (*self is Enum)
        &&& *orig is Enum ==> (*self->Enum_0).copies(&(*orig->Enum_0))
        &&& (*orig is MixinInclude) == (*self is MixinInclude)
        &&& *orig is MixinInclude ==> (*self->MixinInclude_0).copies(&(*orig->MixinInclude_0))
    }

    /// A copy of this node, down to its leaves.
    pub fn duplicate(&self) -> (res: Self)
        ensures
            res.copies(self),
        decreases self,
    {
        match self {
            StructEntry::Method(a) => StructEntry::Method(Box::new((*(*a)).duplicate())),
            StructEntry::Operator(a) => StructEntry::Operator(Box::new((*(*a)).duplicate())),
            StructEntry::Variable(a) => StructEntry::Variable(Box::new((*(*a)).duplicate())),
            StructEntry::Struct(a) => StructEntry::Struct(Box::new((*(*a)).duplicate())),
            StructEntry::Enum(a) => StructEntry::Enum(Box::new((*(*a)).duplicate())),
            StructEntry::MixinInclude(a) => StructEntry::MixinInclude(Box::new((*(*a)).duplicate())),
        }
    }
}

impl Clone for StructEntry {
    fn clone(&self) -> (res: Self)
        ensures
            res.copies(self),
    {
        self.duplicate()
    }
}

impl StructDecl {
    /// `self` copies `orig` all the way down: the same variant, equal
    /// locations, names, flags and literals, lists whose items copy theirs one
    /// by one, and options and boxes whose contents copy theirs.
    pub open spec fn copies(&self, orig: &Self) -> bool
        decreases self,
    {
        &&& self.loc == orig.loc
        &&& self.name == orig.name
        &&& self.body@.len() == orig.body@.len()
        &&& forall|i: int| #![trigger self.body@[i]] 0 <= i < orig.body@.len() ==> self.body@[i].copies(&orig.body@[i])
    }

    /// A copy of this node, down to its leaves.
    pub fn duplicate(&self) -> (res: Self)
        ensures
            res.copies(self),
        decreases self,
    {
        StructDecl {
            loc: self.loc.clone(),
            name: self.name.clone(),
            body: duplicate_struct_entry_vec(&self.body),
        }
    }
}

impl Clone for StructDecl {
    fn clone(&self) -> (res: Self)
        ensures
            res.copies(self),
    {
        self.duplicate()
    }
}

impl MixinEntry {
    /// `self` copies `orig` all the way down: the same variant, equal
    /// locations, names, flags and literals, lists whose items copy theirs one
    /// by one, and options and boxes whose contents copy theirs.
    pub open spec fn copies(&self, orig: &Self) -> bool
    {
        &&& (*orig is Method) == (*self is Method)
        &&& *orig is Method ==> (*self->Method_0).copies(&(*orig->Method_0))
        &&& (*orig is Operator) == (*self is Operator)
        &&& *orig is Operator ==> (*self->Operator_0).copies(&(*orig->Operator_0))
        &&& (*orig is Include) == (*self is Include)
        &&& *orig is Include ==> (*self->Include_0).copies(&(*orig->Include_0))
    }

    /// A copy of this node, down to its leaves.
    pub fn duplicate(&self) -> (res: Self)
        ensures
            res.copies(self),
    {
        match self {
            MixinEntry::Method(a) => MixinEntry::Method(Box::new((*(*a)).duplicate())),
            MixinEntry::Operator(a) => MixinEntry::Operator(Box::new((*(*a)).duplicate())),
            MixinEntry::Include(a) => MixinEntry::Include(Box::new((*(*a)).duplicate())),
        }
    }
}

impl Clone for MixinEntry {
    fn clone(&self) -> (res: Self)
        ensures
            res.copies(self),
    {
        self.duplicate()
    }
}

impl MixinDecl {
    /// `self` copies `orig` all the way down: the same variant, equal
    /// locations, names, flags and literals, lists whose items copy theirs one
    /// by one, and options and boxes whose contents copy theirs.
    pub open spec fn copies(&self, orig: &Self) -> bool
    {
        &&& self.loc == orig.loc
        &&& self.name == orig.name
        &&& self.body@.len() == orig.body@.len()
        &&& forall|i: int| #![trigger self.body@[i]] 0 <= i < orig.body@.len() ==> self.body@[i].copies(&orig.body@[i])
    }

    /// A copy of this node, down to its leaves.
    pub fn duplicate(&self) -> (res: Self)
        ensures
            res.copies(self),
    {
        MixinDecl {
            loc: self.loc.clone(),
            name: self.name.clone(),
            body: duplicate_mixin_entry_vec(&self.body),
        }
    }
}

impl Clone for MixinDecl {
    fn clone(&self) -> (res: Self)
        ensures
            res.copies(self),
    {
        self.duplicate()
    }
}

impl EnumCaseDecl {
    /// `self` copies `orig` all the way down: the same variant, equal
    /// locations, names, flags and literals, lists whose items copy theirs one
    /// by one, and options and boxes whose contents copy theirs.
    pub open spec fn copies(&self, orig: &Self) -> bool
        decreases self,
    {
        &&& self.loc == orig.loc
        &&& self.name == orig.name
        &&& self.payload.is_some() == orig.payload.is_some()
        &&& orig.payload.is_some() ==> (self.payload->Some_0.copies(&orig.payload->Some_0))
    }

    /// A copy of this node, down to its leaves.
    pub fn duplicate(&self) -> (res: Self)
        ensures
            res.copies(self),
        decreases self,
    {
        EnumCaseDecl {
            loc: self.loc.clone(),
            name: self.name.clone(),
            payload: match &self.payload { Some(x) => Some((*x).duplicate()), None => None },
        }
    }
}

impl Clone for EnumCaseDecl {
    fn clone(&self) -> (res: Self)
        ensures
            res.copies(self),
    {
        self.duplicate()
    }
}

impl EnumDeclEntry {
    /// `self` copies `orig` all the way down: the same variant, equal
    /// locations, names, flags and literals, lists whose items copy theirs one
    /// by one, and options and boxes whose contents copy theirs.
    pub open spec fn copies(&self, orig: &Self) -> bool
        decreases self,
    {
        &&& (*orig is EnumCaseDecl) == (*self is EnumCaseDecl)
        &&& *orig is EnumCaseDecl ==> self->EnumCaseDecl_0.copies(&orig->EnumCaseDecl_0)
        &&& (*orig is StructEntry) == (*self is StructEntry)
        &&& *orig is StructEntry ==> self->StructEntry_0.copies(&orig->StructEntry_0)
    }

    /// A copy of this node, down to its leaves.
    pub fn duplicate(&self) -> (res: Self)
        ensures
            res.copies(self),
        decreases self,
    {
        match self {
            EnumDeclEntry::EnumCaseDecl(a) => EnumDeclEntry::EnumCaseDecl((*a).duplicate()),
            EnumDeclEntry::StructEntry(a) => EnumDeclEntry::StructEntry((*a).duplicate()),
        }
    }
}

impl Clone for EnumDeclEntry {
    fn clone(&self) -> (res: Self)
        ensures
            res.copies(self),
    {
        self.duplicate()
    }
}

impl EnumDecl {
    /// `self` copies `orig` all the way down: the same variant, equal
    /// locations, names, flags and literals, lists whose items copy theirs one
    /// by one, and options and boxes whose contents copy theirs.
    pub open spec fn copies(&self, orig: &Self) -> bool
        decreases self,
    {
        &&& self.loc == orig.loc
        &&& self.name == orig.name
        &&& self.body@.len() == orig.body@.len()
        &&& forall|i: int| #![trigger self.body@[i]] 0 <= i < orig.body@.len() ==> self.body@[i].copies(&orig.body@[i])
    }

    /// A copy of this node, down to its leaves.
    pub fn duplicate(&self) -> (res: Self)
        ensures
            res.copies(self),
        decreases self,
    {
        EnumDecl {
            loc: self.loc.clone(),
            name: self.name.clone(),
            body: duplicate_enum_decl_entry_vec(&self.body),
        }
    }
}

impl Clone for EnumDecl {
    fn clone(&self) -> (res: Self)
        ensures
            res.copies(self),
    {
        self.duplicate()
    }
}

impl ExtensionDecl {
    /// `self` copies `orig` all the way down: the same variant, equal
    /// locations, names, flags and literals, lists whose items copy theirs one
    /// by one, and options and boxes whose contents copy theirs.
    pub open spec fn copies(&self, orig: &Self) -> bool
    {
        &&& self.loc == orig.loc
        &&& self.target.copies(&orig.target)
        &&& self.body@.len() == orig.body@.len()
        &&& forall|i: int| #![trigger self.body@[i]] 0 <= i < orig.body@.len() ==> self.body@[i].copies(&orig.body@[i])
    }

    /// A copy of this node, down to its leaves.
    pub fn duplicate(&self) -> (res: Self)
        ensures
            res.copies(self),
    {
        ExtensionDecl {
            loc: self.loc.clone(),
            target: self.target.duplicate(),
            body: duplicate_struct_entry_vec(&self.body),
        }
    }
}

impl Clone for ExtensionDecl {
    fn clone(&self) -> (res: Self)
        ensures
            res.copies(self),
    {
        self.duplicate()
    }
}

/// Copies a vector item by item.
pub fn duplicate_argument_decl_vec(v: &Vec<ArgumentDecl>) -> (res: Vec<ArgumentDecl>)
    ensures
        res@.len() == v@.len(),
        forall|i: int| #![trigger res@[i]] 0 <= i < v@.len() ==> res@[i].copies(&v@[i]),
    decreases v,
{
    let mut res: Vec<ArgumentDecl> = Vec::new();
    let mut i: usize = 0;
    while i < v.len()
        invariant
            i <= v@.len(),
            res@.len() == i,
            forall|j: int| #![trigger res@[j]] 0 <= j < i ==> res@[j].copies(&v@[j]),
        decreases v@.len() - i,
    {
        proof {
            vstd::std_specs::vec::axiom_vec_index_decreases(*v, i as int);
        }
        let item = v[i].duplicate();
        res.push(item);
        i = i + 1;
    }
    res
}

/// Copies a vector item by item.
pub fn duplicate_struct_entry_vec(v: &Vec<StructEntry>) -> (res: Vec<StructEntry>)
    ensures
        res@.len() == v@.len(),
        forall|i: int| #![trigger res@[i]] 0 <= i < v@.len() ==> res@[i].copies(&v@[i]),
    decreases v,
{
    let mut res: Vec<StructEntry> = Vec::new();
    let mut i: usize = 0;
    while i < v.len()
        invariant
            i <= v@.len(),
            res@.len() == i,
            forall|j: int| #![trigger res@[j]] 0 <= j < i ==> res@[j].copies(&v@[j]),
        decreases v@.len() - i,
    {
        proof {
            vstd::std_specs::vec::axiom_vec_index_decreases(*v, i as int);
        }
        let item = v[i].duplicate();
        res.push(item);
        i = i + 1;
    }
    res
}

/// Copies a vector item by item.
pub fn duplicate_mixin_entry_vec(v: &Vec<MixinEntry>) -> (res: Vec<MixinEntry>)
    ensures
        res@.len() == v@.len(),
        forall|i: int| #![trigger res@[i]] 0 <= i < v@.len() ==> res@[i].copies(&v@[i]),
{
    let mut res: Vec<MixinEntry> = Vec::new();
    let mut i: usize = 0;
    while i < v.len()
        invariant
            i <= v@.len(),
            res@.len() == i,
            forall|j: int| #![trigger res@[j]] 0 <= j < i ==> res@[j].copies(&v@[j]),
        decreases v@.len() - i,
    {
        let item = v[i].duplicate();
        res.push(item);
        i = i + 1;
    }
    res
}

/// Copies a vector item by item.
pub fn duplicate_enum_decl_entry_vec(v: &Vec<EnumDeclEntry>) -> (res: Vec<EnumDeclEntry>)
    ensures
        res@.len() == v@.len(),
        forall|i: int| #![trigger res@[i]] 0 <= i < v@.len() ==> res@[i].copies(&v@[i]),
    decreases v,
{
    let mut res: Vec<EnumDeclEntry> = Vec::new();
    let mut i: usize = 0;
    while i < v.len()
        invariant
            i <= v@.len(),
            res@.len() == i,
            forall|j: int| #![trigger res@[j]] 0 <= j < i ==> res@[j].copies(&v@[j]),
        decreases v@.len() - i,
    {
        proof {
            vstd::std_specs::vec::axiom_vec_index_decreases(*v, i as int);
        }
        let item = v[i].duplicate();
        res.push(item);
        i = i + 1;
    }
    res
}

} // verus!
