//! Expressions: their locations, how a call is recognised in one, and the
//! expressions that the compiler builds to read an attribute or to make a call.
use super::{
    AddOperation, CompOperation, Expression, ExpressionList, Identifier, LogOperation,
    MulOperation, PostfixExpression, PostfixRvalue, PostfixTerm, PostfixTermAttribute,
    PostfixTermCall, PostfixTermWrite, Primary, RelOperation, ShiftOperation, SourcePointer,
    UnaryOperation,
};
use super::conversions::wrap_postfix;
use vstd::prelude::*;

verus! {

impl Primary {
    /// The location of the primary, whatever its kind.
    pub open spec fn spec_loc(&self) -> SourcePointer {
        match self {
            Primary::IntLiteral(il) => il.loc,
            Primary::FloatLiteral(fp) => fp.loc,
            Primary::Identifier(id) => id.loc,
            Primary::ListLiteral(ll) => ll.loc,
            Primary::StringLiteral(sl) => sl.loc,
            Primary::ParenExpression(pe) => pe.loc,
        }
    }

    /// The location of the primary.
    pub fn loc(&self) -> (res: &SourcePointer)
        ensures
            *res == self.spec_loc(),
    {
        match self {
            Self::IntLiteral(il) => &il.loc,
            Self::FloatLiteral(fp) => &fp.loc,
            Self::Identifier(id) => &id.loc,
            Self::ListLiteral(ll) => &ll.loc,
            Self::StringLiteral(sl) => &sl.loc,
            Self::ParenExpression(pe) => &pe.loc,
        }
    }
}

impl PostfixTermWrite {
    /// The location of the write.
    pub open spec fn spec_loc(&self) -> SourcePointer {
        match self {
            PostfixTermWrite::PostfixTermFieldWrite(fw) => fw.loc,
            PostfixTermWrite::PostfixTermIndexWrite(iw) => iw.loc,
        }
    }

    /// The location of the write.
    pub fn loc(&self) -> (res: &SourcePointer)
        ensures
            *res == self.spec_loc(),
    {
        match self {
            Self::PostfixTermFieldWrite(fw) => &fw.loc,
            Self::PostfixTermIndexWrite(iw) => &iw.loc,
        }
    }
}

impl Expression {
    /// The location of the expression, whatever its kind.
    pub open spec fn spec_loc(&self) -> SourcePointer {
        match self {
            Expression::LogOperation(c) => c.loc,
            Expression::LambdaFunction(f) => f.loc,
            Expression::TernaryExpression(t) => t.loc,
        }
    }

    /// The location of the expression.
    pub fn loc(&self) -> (res: &SourcePointer)
        ensures
            *res == self.spec_loc(),
    {
        match self {
            Expression::LogOperation(c) => &c.loc,
            Expression::LambdaFunction(f) => &f.loc,
            Expression::TernaryExpression(t) => &t.loc,
        }
    }

    /// Whether the expression is a call, and the name of what it calls where
    /// that can be read off: `(true, name)` for a bare postfix expression
    /// whose last term is a call, `(false, None)` otherwise.
    pub open spec fn spec_function_call(&self) -> (bool, Option<Seq<char>>) {
        match self {
            Expression::LogOperation(log) => if log.is_operator_free()
                && log.innermost().postfix.expr.spec_ends_with_call() {
                (true, log.innermost().postfix.expr.spec_called_name())
            } else {
                (false, None)
            },
            _ => (false, None),
        }
    }

    /// The expression is the postfix expression `p` alone: one of each
    /// operator level around it, each at `p`'s location, with no operator.
    pub open spec fn wraps_postfix(&self, p: &PostfixExpression) -> bool {
        match self {
            Expression::LogOperation(log) => {
                &&& log.is_operator_free()
                &&& log.chain_located_at(p.loc)
                &&& log.innermost().operand is None
                &&& log.innermost().postfix.loc == p.loc
                &&& log.innermost().postfix.expr.copies(p)
            },
            _ => false,
        }
    }
}

impl LogOperation {
    /// No level of the operation below this one holds an operator.
    pub open spec fn is_operator_free(&self) -> bool {
        &&& self.right@.len() == 0
        &&& self.left.right is None
        &&& self.left.left.right is None
        &&& self.left.left.left.right is None
        &&& self.left.left.left.left.right@.len() == 0
        &&& self.left.left.left.left.left.right@.len() == 0
    }

    /// The unary operation at the bottom of the levels.
    pub open spec fn innermost(&self) -> UnaryOperation {
        self.left.left.left.left.left.left
    }

    /// Every level, down to the unary operation, is at `loc`.
    pub open spec fn chain_located_at(&self, loc: SourcePointer) -> bool {
        &&& self.loc == loc
        &&& self.left.loc == loc
        &&& self.left.left.loc == loc
        &&& self.left.left.left.loc == loc
        &&& self.left.left.left.left.loc == loc
        &&& self.left.left.left.left.left.loc == loc
        &&& self.innermost().loc == loc
    }
}

impl PostfixExpression {
    /// The last term is a call.
    pub open spec fn spec_ends_with_call(&self) -> bool {
        self.terms@.len() > 0 && self.terms@.last() is PostfixTermCall
    }

    /// The name of what a call calls: the identifier before a single call, or
    /// the attribute just before the last call.
    pub open spec fn spec_called_name(&self) -> Option<Seq<char>> {
        let n = self.terms@.len();
        if !self.spec_ends_with_call() {
            None
        } else if n == 1 && self.base is Identifier {
            Some(self.base->Identifier_0.value@)
        } else if n >= 2 && self.terms@[n - 2] is PostfixTermAttribute {
            Some(self.terms@[n - 2]->PostfixTermAttribute_0.id.value@)
        } else {
            None
        }
    }

    /// The postfix expression `base.name`, everything at `base`'s location.
    pub fn attrib_read(base: &Primary, name: &str) -> (res: PostfixExpression)
        ensures
            res.loc == base.spec_loc(),
            res.base.copies(base),
            res.terms@.len() == 1,
            res.terms@[0] is PostfixTermAttribute,
            res.terms@[0]->PostfixTermAttribute_0.loc == base.spec_loc(),
            res.terms@[0]->PostfixTermAttribute_0.id.loc == base.spec_loc(),
            res.terms@[0]->PostfixTermAttribute_0.id.value@ == name@,
            !res.spec_ends_with_call(),
    {
        let read_attr = PostfixTerm::PostfixTermAttribute(
            PostfixTermAttribute {
                loc: base.loc().clone(),
                id: Identifier { loc: base.loc().clone(), value: name.to_owned() },
            },
        );
        Self { loc: base.loc().clone(), base: base.clone(), terms: vec![read_attr] }
    }

    /// The postfix expression `base.name(args...)`, everything at `base`'s location.
    pub fn method_call(base: &Primary, name: &str, args: &[Expression]) -> (res: PostfixExpression)
        ensures
            res.loc == base.spec_loc(),
            res.base.copies(base),
            res.terms@.len() == 2,
            res.terms@[0] is PostfixTermAttribute,
            res.terms@[0]->PostfixTermAttribute_0.loc == base.spec_loc(),
            res.terms@[0]->PostfixTermAttribute_0.id.loc == base.spec_loc(),
            res.terms@[0]->PostfixTermAttribute_0.id.value@ == name@,
            res.terms@[1] is PostfixTermCall,
            res.terms@[1]->PostfixTermCall_0.loc == base.spec_loc(),
            res.terms@[1]->PostfixTermCall_0.args.loc == base.spec_loc(),
            res.terms@[1]->PostfixTermCall_0.args.expressions@.len() == args@.len(),
            forall|i: int|
                0 <= i < args@.len() ==> (
                #[trigger] res.terms@[1]->PostfixTermCall_0.args.expressions@[i]).copies(&args@[i]),
            res.spec_ends_with_call(),
            res.spec_called_name() == Some(name@),
    {
        let read_attr = PostfixTerm::PostfixTermAttribute(
            PostfixTermAttribute {
                loc: base.loc().clone(),
                id: Identifier { loc: base.loc().clone(), value: name.to_owned() },
            },
        );
        let mut copied: Vec<Expression> = Vec::new();
        let mut i: usize = 0;
        while i < args.len()
            invariant
                i <= args@.len(),
                copied@.len() == i,
                forall|j: int| 0 <= j < i ==> (#[trigger] copied@[j]).copies(&args@[j]),
            decreases args@.len() - i,
        {
            copied.push(args[i].clone());
            i = i + 1;
        }
        let call_attr = PostfixTerm::PostfixTermCall(
            PostfixTermCall {
                loc: base.loc().clone(),
                args: ExpressionList { loc: base.loc().clone(), expressions: copied },
            },
        );
        Self { loc: base.loc().clone(), base: base.clone(), terms: vec![read_attr, call_attr] }
    }
}

impl Expression {
    /// The expression `func_name(self)`, everything at this expression's location.
    pub fn call_function_passing_me(&self, func_name: &str) -> (res: Expression)
        ensures
            res is LogOperation,
            res->LogOperation_0.is_operator_free(),
            res->LogOperation_0.chain_located_at(self.spec_loc()),
            res->LogOperation_0.innermost().operand is None,
            res->LogOperation_0.innermost().postfix.loc == self.spec_loc(),
            ({
                let p = res->LogOperation_0.innermost().postfix.expr;
                &&& p.loc == self.spec_loc()
                &&& p.base is Identifier
                &&& p.base->Identifier_0.loc == self.spec_loc()
                &&& p.base->Identifier_0.value@ == func_name@
                &&& p.terms@.len() == 1
                &&& p.terms@[0] is PostfixTermCall
                &&& p.terms@[0]->PostfixTermCall_0.loc == self.spec_loc()
                &&& p.terms@[0]->PostfixTermCall_0.args.loc == self.spec_loc()
                &&& p.terms@[0]->PostfixTermCall_0.args.expressions@.len() == 1
                &&& p.terms@[0]->PostfixTermCall_0.args.expressions@[0].copies(self)
            }),
            res.spec_function_call() == (true, Some(func_name@)),
    {
        let loc = self.loc().clone();
        let func_ident = Identifier { loc: loc.clone(), value: func_name.to_owned() };
        let base = Primary::Identifier(func_ident);
        let args = ExpressionList { loc: loc.clone(), expressions: vec![self.clone()] };
        let call = PostfixTerm::PostfixTermCall(PostfixTermCall { loc: loc.clone(), args });
        let pfe = PostfixExpression { loc, base, terms: vec![call] };
        wrap_postfix(pfe)
    }

    /// Whether the expression is a call, and the name of what it calls where
    /// that can be read off.
    pub fn is_function_call(&self) -> (res: (bool, Option<&str>))
        ensures
            res.0 == self.spec_function_call().0,
            match res.1 {
                Some(s) => self.spec_function_call().1 == Some(s@),
                None => self.spec_function_call().1 is None,
            },
    {
        match self {
            Expression::LogOperation(log) => {
                match lone_postfix(log) {
                    Some(pfe) => {
                        if pfe.terms.len() > 0 && matches!(pfe.terms[pfe.terms.len() - 1], PostfixTerm::PostfixTermCall(_)) {
                            (true, called_name(pfe))
                        } else {
                            (false, None)
                        }
                    },
                    None => (false, None),
                }
            },
            _ => (false, None),
        }
    }
}

/// The postfix expression that `log` consists of, when no level holds an operator.
fn lone_postfix(log: &LogOperation) -> (res: Option<&PostfixExpression>)
    ensures
        match res {
            Some(p) => log.is_operator_free() && *p == log.innermost().postfix.expr,
            None => !log.is_operator_free(),
        },
{
    if !log.right.is_empty() {
        return None;
    }
    let comp: &CompOperation = &log.left;
    if comp.right.is_some() {
        return None;
    }
    let rel: &RelOperation = &comp.left;
    if rel.right.is_some() {
        return None;
    }
    let shift: &ShiftOperation = &rel.left;
    if shift.right.is_some() {
        return None;
    }
    let add: &AddOperation = &shift.left;
    if !add.right.is_empty() {
        return None;
    }
    let mul: &MulOperation = &add.left;
    if !mul.right.is_empty() {
        return None;
    }
    let unary: &UnaryOperation = &mul.left;
    let rvalue: &PostfixRvalue = &unary.postfix;
    Some(&rvalue.expr)
}

/// The name that a call expression calls, where it can be read off.
fn called_name(pfe: &PostfixExpression) -> (res: Option<&str>)
    requires
        pfe.spec_ends_with_call(),
    ensures
        match res {
            Some(s) => pfe.spec_called_name() == Some(s@),
            None => pfe.spec_called_name() is None,
        },
{
    let n = pfe.terms.len();
    if n == 1 {
        if let Primary::Identifier(id) = &pfe.base {
            return Some(id.value.as_str());
        }
    }
    if n >= 2 {
        if let PostfixTerm::PostfixTermAttribute(attr) = &pfe.terms[n - 2] {
            return Some(attr.id.value.as_str());
        }
    }
    None
}

/// A copy of a postfix expression is a call exactly when the original is, and
/// calls the same name.
pub proof fn lemma_copies_keep_call(p: &PostfixExpression, q: &PostfixExpression)
    requires
        p.copies(q),
    ensures
        p.spec_ends_with_call() == q.spec_ends_with_call(),
        p.spec_called_name() == q.spec_called_name(),
{
    let n = q.terms@.len();
    if n > 0 {
        assert(p.terms@[n - 1].copies(&q.terms@[n - 1]));
    }
    if n >= 2 {
        assert(p.terms@[n - 2].copies(&q.terms@[n - 2]));
    }
}

/// Converting a postfix expression into an expression keeps what
/// `is_function_call` reads: the result is a call exactly when the postfix
/// expression ends with a call, and calls the same name.
pub proof fn law_wrapped_postfix_call(p: PostfixExpression, e: Expression)
    requires
        e.wraps_postfix(&p),
    ensures
        e.spec_function_call() == if p.spec_ends_with_call() {
            (true, p.spec_called_name())
        } else {
            (false, None)
        },
{
    lemma_copies_keep_call(&e->LogOperation_0.innermost().postfix.expr, &p);
}

/// What `is_function_call` reads off the expression that wraps a postfix
/// expression `p`: a call to the attribute named just before a final call,
/// whatever the base and however many terms come before it; a call to the
/// base name where a name is called directly; a call with no name when a
/// final call follows anything else; and no call when `p` does not end with
/// a call.
pub proof fn law_call_names(p: PostfixExpression, e: Expression)
    requires
        e.wraps_postfix(&p),
    ensures
        ({
            let n = p.terms@.len();
            &&& (n >= 2 && p.terms@[n - 1] is PostfixTermCall && p.terms@[n - 2] is PostfixTermAttribute)
                ==> e.spec_function_call() == (true, Some(p.terms@[n - 2]->PostfixTermAttribute_0.id.value@))
            &&& (n == 1 && p.terms@[0] is PostfixTermCall && p.base is Identifier)
                ==> e.spec_function_call() == (true, Some(p.base->Identifier_0.value@))
            &&& (n >= 1 && p.terms@[n - 1] is PostfixTermCall && !(n == 1 && p.base is Identifier)
                && !(n >= 2 && p.terms@[n - 2] is PostfixTermAttribute))
                ==> e.spec_function_call() == (true, None::<Seq<char>>)
            &&& (n == 0 || !(p.terms@[n - 1] is PostfixTermCall)) ==> e.spec_function_call() == (
                false,
                None::<Seq<char>>,
            )
        }),
{
    law_wrapped_postfix_call(p, e);
}

/// A copy of an expression, such as its clone, is a call exactly when the
/// expression is, and calls the same name: `is_function_call` reads the same
/// of both.
pub proof fn law_copy_keeps_call(c: Expression, e: Expression)
    requires
        c.copies(&e),
    ensures
        c.spec_function_call() == e.spec_function_call(),
{
    if e is LogOperation {
        let cl = c->LogOperation_0;
        let el = e->LogOperation_0;
        assert(cl.copies(&el));
        assert(cl.left.copies(&el.left));
        assert(cl.left.left.copies(&el.left.left));
        assert(cl.left.left.left.copies(&el.left.left.left));
        assert(cl.left.left.left.left.copies(&el.left.left.left.left));
        assert(cl.left.left.left.left.left.copies(&el.left.left.left.left.left));
        assert(cl.innermost().copies(&el.innermost()));
        assert(cl.innermost().postfix.copies(&el.innermost().postfix));
        assert(cl.innermost().postfix.expr.copies(&el.innermost().postfix.expr));
        lemma_copies_keep_call(&cl.innermost().postfix.expr, &el.innermost().postfix.expr);
    }
}

} // verus!
