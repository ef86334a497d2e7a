//! The conversions between node kinds: each wraps a copy of its argument in
//! the next enclosing level, at the argument's location.
use super::{
    AddOperation, ArgumentDecl, CodeBlock, CompOperation, DeclarationId, Expression, Identifier,
    LogOperation, MixinEntry, MulOperation, ParenExpression, PostfixExpression, PostfixRvalue,
    Primary, RelOperation, ReturnStatement, ShiftOperation, Statement, StructEntry,
    UnaryOperation,
};
use vstd::prelude::*;
use vstd::std_specs::convert::FromSpecImpl;

verus! {

impl<'a> From<&'a Expression> for ParenExpression {
    fn from(value: &'a Expression) -> (res: Self)
        ensures
            res.loc == value.spec_loc(),
            (*res.value).copies(value),
    {
        Self { loc: value.loc().clone(), value: Box::new(value.clone()) }
    }
}

impl<'a> FromSpecImpl<&'a Expression> for ParenExpression {
    /// The result is stated by the `ensures` of `from` alone.
    open spec fn obeys_from_spec() -> bool {
        false
    }

    open spec fn from_spec(v: &'a Expression) -> Self {
        arbitrary()
    }
}

impl<'a> From<&'a Primary> for PostfixExpression {
    fn from(value: &'a Primary) -> (res: Self)
        ensures
            res.loc == value.spec_loc(),
            res.base.copies(value),
            res.terms@.len() == 0,
    {
        Self { loc: value.loc().clone(), base: value.clone(), terms: vec![] }
    }
}

impl<'a> FromSpecImpl<&'a Primary> for PostfixExpression {
    /// The result is stated by the `ensures` of `from` alone.
    open spec fn obeys_from_spec() -> bool {
        false
    }

    open spec fn from_spec(v: &'a Primary) -> Self {
        arbitrary()
    }
}

impl<'a> From<&'a PostfixExpression> for PostfixRvalue {
    fn from(value: &'a PostfixExpression) -> (res: Self)
        ensures
            res.loc == value.loc,
            res.expr.copies(value),
    {
        Self { loc: value.loc.clone(), expr: value.clone() }
    }
}

impl<'a> FromSpecImpl<&'a PostfixExpression> for PostfixRvalue {
    /// The result is stated by the `ensures` of `from` alone.
    open spec fn obeys_from_spec() -> bool {
        false
    }

    open spec fn from_spec(v: &'a PostfixExpression) -> Self {
        arbitrary()
    }
}

impl<'a> From<&'a PostfixRvalue> for UnaryOperation {
    fn from(value: &'a PostfixRvalue) -> (res: Self)
        ensures
            res.loc == value.loc,
            res.operand is None,
            res.postfix.copies(value),
    {
        Self { loc: value.loc.clone(), operand: None, postfix: value.clone() }
    }
}

impl<'a> FromSpecImpl<&'a PostfixRvalue> for UnaryOperation {
    /// The result is stated by the `ensures` of `from` alone.
    open spec fn obeys_from_spec() -> bool {
        false
    }

    open spec fn from_spec(v: &'a PostfixRvalue) -> Self {
        arbitrary()
    }
}

impl<'a> From<&'a UnaryOperation> for MulOperation {
    fn from(value: &'a UnaryOperation) -> (res: Self)
        ensures
            res.loc == value.loc,
            res.left.copies(value),
            res.right@.len() == 0,
    {
        Self { loc: value.loc.clone(), left: value.clone(), right: vec![] }
    }
}

impl<'a> FromSpecImpl<&'a UnaryOperation> for MulOperation {
    /// The result is stated by the `ensures` of `from` alone.
    open spec fn obeys_from_spec() -> bool {
        false
    }

    open spec fn from_spec(v: &'a UnaryOperation) -> Self {
        arbitrary()
    }
}

impl<'a> From<&'a MulOperation> for AddOperation {
    fn from(value: &'a MulOperation) -> (res: Self)
        ensures
            res.loc == value.loc,
            res.left.copies(value),
            res.right@.len() == 0,
    {
        Self { loc: value.loc.clone(), left: value.clone(), right: vec![] }
    }
}

impl<'a> FromSpecImpl<&'a MulOperation> for AddOperation {
    /// The result is stated by the `ensures` of `from` alone.
    open spec fn obeys_from_spec() -> bool {
        false
    }

    open spec fn from_spec(v: &'a MulOperation) -> Self {
        arbitrary()
    }
}

impl<'a> From<&'a AddOperation> for ShiftOperation {
    fn from(value: &'a AddOperation) -> (res: Self)
        ensures
            res.loc == value.loc,
            res.left.copies(value),
            res.right is None,
    {
        Self { loc: value.loc.clone(), left: value.clone(), right: None }
    }
}

impl<'a> FromSpecImpl<&'a AddOperation> for ShiftOperation {
    /// The result is stated by the `ensures` of `from` alone.
    open spec fn obeys_from_spec() -> bool {
        false
    }

    open spec fn from_spec(v: &'a AddOperation) -> Self {
        arbitrary()
    }
}

impl<'a> From<&'a ShiftOperation> for RelOperation {
    fn from(value: &'a ShiftOperation) -> (res: Self)
        ensures
            res.loc == value.loc,
            res.left.copies(value),
            res.right is None,
    {
        Self { loc: value.loc.clone(), left: value.clone(), right: None }
    }
}

impl<'a> FromSpecImpl<&'a ShiftOperation> for RelOperation {
    /// The result is stated by the `ensures` of `from` alone.
    open spec fn obeys_from_spec() -> bool {
        false
    }

    open spec fn from_spec(v: &'a ShiftOperation) -> Self {
        arbitrary()
    }
}

impl<'a> From<&'a RelOperation> for CompOperation {
    fn from(value: &'a RelOperation) -> (res: Self)
        ensures
            res.loc == value.loc,
            res.left.copies(value),
            res.right is None,
    {
        Self { loc: value.loc.clone(), left: value.clone(), right: None }
    }
}

impl<'a> FromSpecImpl<&'a RelOperation> for CompOperation {
    /// The result is stated by the `ensures` of `from` alone.
    open spec fn obeys_from_spec() -> bool {
        false
    }

    open spec fn from_spec(v: &'a RelOperation) -> Self {
        arbitrary()
    }
}

impl<'a> From<&'a CompOperation> for LogOperation {
    fn from(value: &'a CompOperation) -> (res: Self)
        ensures
            res.loc == value.loc,
            res.left.copies(value),
            res.right@.len() == 0,
    {
        Self { loc: value.loc.clone(), left: value.clone(), right: vec![] }
    }
}

impl<'a> FromSpecImpl<&'a CompOperation> for LogOperation {
    /// The result is stated by the `ensures` of `from` alone.
    open spec fn obeys_from_spec() -> bool {
        false
    }

    open spec fn from_spec(v: &'a CompOperation) -> Self {
        arbitrary()
    }
}

impl<'a> From<&'a LogOperation> for Expression {
    fn from(value: &'a LogOperation) -> (res: Self)
        ensures
            res is LogOperation,
            res->LogOperation_0.copies(value),
    {
        Self::LogOperation(value.clone())
    }
}

impl<'a> FromSpecImpl<&'a LogOperation> for Expression {
    /// The result is stated by the `ensures` of `from` alone.
    open spec fn obeys_from_spec() -> bool {
        false
    }

    open spec fn from_spec(v: &'a LogOperation) -> Self {
        arbitrary()
    }
}

impl<'a> From<&'a UnaryOperation> for Expression {
    fn from(value: &'a UnaryOperation) -> (res: Self)
        ensures
            res is LogOperation,
            res->LogOperation_0.is_operator_free(),
            res->LogOperation_0.chain_located_at(value.loc),
            res->LogOperation_0.innermost().copies(value),
    {
        wrap_unary(value.clone())
    }
}

impl<'a> FromSpecImpl<&'a UnaryOperation> for Expression {
    /// The result is stated by the `ensures` of `from` alone.
    open spec fn obeys_from_spec() -> bool {
        false
    }

    open spec fn from_spec(v: &'a UnaryOperation) -> Self {
        arbitrary()
    }
}

impl<'a> From<&'a PostfixExpression> for Expression {
    fn from(value: &'a PostfixExpression) -> (res: Self)
        ensures
            res.wraps_postfix(value),
    {
        let postfix = PostfixRvalue::from(value);
        wrap_unary(UnaryOperation { loc: value.loc.clone(), operand: None, postfix })
    }
}

impl<'a> FromSpecImpl<&'a PostfixExpression> for Expression {
    /// The result is stated by the `ensures` of `from` alone.
    open spec fn obeys_from_spec() -> bool {
        false
    }

    open spec fn from_spec(v: &'a PostfixExpression) -> Self {
        arbitrary()
    }
}

impl<'a> From<&'a Identifier> for Expression {
    fn from(value: &'a Identifier) -> (res: Self)
        ensures
            res is LogOperation,
            res->LogOperation_0.is_operator_free(),
            res->LogOperation_0.chain_located_at(value.loc),
            res->LogOperation_0.innermost().operand is None,
            res->LogOperation_0.innermost().postfix.loc == value.loc,
            res->LogOperation_0.innermost().postfix.expr.loc == value.loc,
            res->LogOperation_0.innermost().postfix.expr.base == Primary::Identifier(*value),
            res->LogOperation_0.innermost().postfix.expr.terms@.len() == 0,
    {
        let pfe = PostfixExpression {
            loc: value.loc.clone(),
            base: Primary::Identifier(value.clone()),
            terms: vec![],
        };
        let postfix = PostfixRvalue { loc: value.loc.clone(), expr: pfe };
        wrap_unary(UnaryOperation { loc: value.loc.clone(), operand: None, postfix })
    }
}

impl<'a> FromSpecImpl<&'a Identifier> for Expression {
    /// The result is stated by the `ensures` of `from` alone.
    open spec fn obeys_from_spec() -> bool {
        false
    }

    open spec fn from_spec(v: &'a Identifier) -> Self {
        arbitrary()
    }
}

impl<'a> From<&'a Identifier> for DeclarationId {
    fn from(value: &'a Identifier) -> (res: Self)
        ensures
            res.loc == value.loc,
            res.name == *value,
            res.ty is None,
    {
        Self { loc: value.loc.clone(), name: value.clone(), ty: None }
    }
}

impl<'a> FromSpecImpl<&'a Identifier> for DeclarationId {
    /// The result is stated by the `ensures` of `from` alone.
    open spec fn obeys_from_spec() -> bool {
        false
    }

    open spec fn from_spec(v: &'a Identifier) -> Self {
        arbitrary()
    }
}

impl<'a> From<&'a Expression> for ReturnStatement {
    fn from(val: &'a Expression) -> (res: Self)
        ensures
            res.loc == val.spec_loc(),
            res.val is Some,
            res.val->0.copies(val),
    {
        Self { loc: val.loc().clone(), val: Some(val.clone()) }
    }
}

impl<'a> FromSpecImpl<&'a Expression> for ReturnStatement {
    /// The result is stated by the `ensures` of `from` alone.
    open spec fn obeys_from_spec() -> bool {
        false
    }

    open spec fn from_spec(v: &'a Expression) -> Self {
        arbitrary()
    }
}

impl<'a> From<&'a Statement> for CodeBlock {
    fn from(value: &'a Statement) -> (res: Self)
        ensures
            res.loc == value.spec_loc(),
            res.entries@.len() == 1,
            res.entries@[0].copies(value),
    {
        Self { loc: value.loc().clone(), entries: vec![value.clone()] }
    }
}

impl<'a> FromSpecImpl<&'a Statement> for CodeBlock {
    /// The result is stated by the `ensures` of `from` alone.
    open spec fn obeys_from_spec() -> bool {
        false
    }

    open spec fn from_spec(v: &'a Statement) -> Self {
        arbitrary()
    }
}

impl<'a> From<&'a DeclarationId> for ArgumentDecl {
    fn from(value: &'a DeclarationId) -> (res: Self)
        ensures
            res.loc == value.loc,
            res.id.copies(value),
            res.deft is None,
    {
        Self { loc: value.loc.clone(), id: value.clone(), deft: None }
    }
}

impl<'a> FromSpecImpl<&'a DeclarationId> for ArgumentDecl {
    /// The result is stated by the `ensures` of `from` alone.
    open spec fn obeys_from_spec() -> bool {
        false
    }

    open spec fn from_spec(v: &'a DeclarationId) -> Self {
        arbitrary()
    }
}

impl<'a> From<&'a MixinEntry> for StructEntry {
    fn from(value: &'a MixinEntry) -> (res: Self)
        ensures
            (value is Method) == (res is Method),
            value is Method ==> res->Method_0.copies(&value->Method_0),
            (value is Operator) == (res is Operator),
            value is Operator ==> res->Operator_0.copies(&value->Operator_0),
            (value is Include) == (res is MixinInclude),
            value is Include ==> res->MixinInclude_0.copies(&value->Include_0),
    {
        match value {
            MixinEntry::Method(m) => StructEntry::Method(Box::new((**m).clone())),
            MixinEntry::Operator(o) => StructEntry::Operator(Box::new((**o).clone())),
            MixinEntry::Include(i) => StructEntry::MixinInclude(Box::new((**i).clone())),
        }
    }
}

impl<'a> FromSpecImpl<&'a MixinEntry> for StructEntry {
    /// The result is stated by the `ensures` of `from` alone.
    open spec fn obeys_from_spec() -> bool {
        false
    }

    open spec fn from_spec(v: &'a MixinEntry) -> Self {
        arbitrary()
    }
}

/// `p` alone at the bottom of every operator level, each at `p`'s location.
pub(crate) fn wrap_postfix(p: PostfixExpression) -> (res: Expression)
    ensures
        res is LogOperation,
        res->LogOperation_0.is_operator_free(),
        res->LogOperation_0.chain_located_at(p.loc),
        res->LogOperation_0.innermost().operand is None,
        res->LogOperation_0.innermost().postfix.loc == p.loc,
        res->LogOperation_0.innermost().postfix.expr == p,
{
    let loc = p.loc.clone();
    let postfix = PostfixRvalue { loc: loc.clone(), expr: p };
    wrap_unary(UnaryOperation { loc, operand: None, postfix })
}

/// `u` alone at the bottom of every operator level, each at `u`'s location.
fn wrap_unary(u: UnaryOperation) -> (res: Expression)
    ensures
        res is LogOperation,
        res->LogOperation_0.is_operator_free(),
        res->LogOperation_0.chain_located_at(u.loc),
        res->LogOperation_0.innermost() == u,
{
    let loc = u.loc.clone();
    let mul = MulOperation { loc: loc.clone(), left: u, right: vec![] };
    let add = AddOperation { loc: loc.clone(), left: mul, right: vec![] };
    let shift = ShiftOperation { loc: loc.clone(), left: add, right: None };
    let rel = RelOperation { loc: loc.clone(), left: shift, right: None };
    let comp = CompOperation { loc: loc.clone(), left: rel, right: None };
    Expression::LogOperation(LogOperation { loc, left: comp, right: vec![] })
}

} // verus!
