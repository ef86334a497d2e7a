use aria_parser::ast::{
    CompOperation, Expression, ExpressionList, Identifier, IntLiteral, Location, LogOperation,
    LogSymbol, ParenExpression, PostfixExpression, PostfixRvalue, PostfixTerm, PostfixTermCall,
    PostfixTermFieldWrite, PostfixTermIndexWrite, PostfixTermWrite, Primary, SourceBuffer,
    SourcePointer, StringLiteral, UnaryOperation, UnarySymbol,
};

fn at(start: usize, stop: usize) -> SourcePointer {
    SourceBuffer::stdin("val result = compute(a.b, 1) + list.len();")
        .pointer(Location { start, stop })
}

fn ident(name: &str, start: usize) -> Identifier {
    Identifier { loc: at(start, start + name.len()), value: name.to_owned() }
}

fn ident_expr(name: &str, start: usize) -> Expression {
    Expression::from(&ident(name, start))
}

fn log_of(e: &Expression) -> &LogOperation {
    match e {
        Expression::LogOperation(log) => log,
        _ => panic!("not an operation"),
    }
}

fn innermost(e: &Expression) -> &UnaryOperation {
    &log_of(e).left.left.left.left.left.left
}

#[test]
fn primary_loc_of_each_kind() {
    let p = Primary::Identifier(ident("a", 21));
    assert_eq!(p.loc(), &at(21, 22));
    let p = Primary::IntLiteral(IntLiteral { loc: at(26, 27), val: 1 });
    assert_eq!(p.loc(), &at(26, 27));
    let p = Primary::StringLiteral(StringLiteral { loc: at(3, 9), value: "s".to_owned() });
    assert_eq!(p.loc(), &at(3, 9));
    let p = Primary::ParenExpression(ParenExpression::from(&ident_expr("x", 13)));
    assert_eq!(p.loc(), &at(13, 14));
}

#[test]
fn expression_from_identifier_is_a_bare_name() {
    let e = ident_expr("compute", 13);
    assert_eq!(e.loc(), &at(13, 20));
    let log = log_of(&e);
    assert!(log.right.is_empty());
    let unary = innermost(&e);
    assert_eq!(unary.operand, None);
    assert_eq!(unary.postfix.expr.base, Primary::Identifier(ident("compute", 13)));
    assert!(unary.postfix.expr.terms.is_empty());
    assert_eq!(e.is_function_call(), (false, None));
}

#[test]
fn postfix_write_loc() {
    let w = PostfixTermWrite::PostfixTermFieldWrite(PostfixTermFieldWrite {
        loc: at(4, 10),
        id: ident("x", 4),
        val: None,
    });
    assert_eq!(w.loc(), &at(4, 10));
    let w = PostfixTermWrite::PostfixTermIndexWrite(PostfixTermIndexWrite {
        loc: at(11, 20),
        idx: ident_expr("i", 12),
        val: ident_expr("v", 16),
    });
    assert_eq!(w.loc(), &at(11, 20));
}

#[test]
fn attrib_read_builds_base_dot_name() {
    let base = Primary::Identifier(ident("list", 32));
    let read = PostfixExpression::attrib_read(&base, "len");
    assert_eq!(read.loc, at(32, 36));
    assert_eq!(read.base, base);
    assert_eq!(read.terms.len(), 1);
    match &read.terms[0] {
        PostfixTerm::PostfixTermAttribute(attr) => {
            assert_eq!(attr.loc, at(32, 36));
            assert_eq!(attr.id.value, "len");
            assert_eq!(attr.id.loc, at(32, 36));
        }
        _ => panic!("expected an attribute"),
    }
    let e = Expression::from(&read);
    assert_eq!(e.is_function_call(), (false, None));
}

#[test]
fn method_call_builds_base_dot_name_call() {
    let base = Primary::Identifier(ident("list", 32));
    let args = vec![ident_expr("a", 21), ident_expr("b", 23)];
    let call = PostfixExpression::method_call(&base, "push", &args);
    assert_eq!(call.loc, at(32, 36));
    assert_eq!(call.base, base);
    assert_eq!(call.terms.len(), 2);
    match &call.terms[0] {
        PostfixTerm::PostfixTermAttribute(attr) => assert_eq!(attr.id.value, "push"),
        _ => panic!("expected an attribute"),
    }
    match &call.terms[1] {
        PostfixTerm::PostfixTermCall(c) => {
            assert_eq!(c.loc, at(32, 36));
            assert_eq!(c.args.loc, at(32, 36));
            assert_eq!(c.args.expressions, args);
        }
        _ => panic!("expected a call"),
    }
    let e = Expression::from(&call);
    assert_eq!(e.is_function_call(), (true, Some("push")));
}

#[test]
fn method_call_without_arguments() {
    let base = Primary::Identifier(ident("list", 32));
    let call = PostfixExpression::method_call(&base, "len", &[]);
    match &call.terms[1] {
        PostfixTerm::PostfixTermCall(c) => assert!(c.args.expressions.is_empty()),
        _ => panic!("expected a call"),
    }
    assert_eq!(Expression::from(&call).is_function_call(), (true, Some("len")));
}

#[test]
fn call_function_passing_me_wraps_the_expression() {
    let arg = ident_expr("a", 21);
    let call = arg.call_function_passing_me("compute");
    assert_eq!(call.loc(), &at(21, 22));
    let pfe = &innermost(&call).postfix.expr;
    assert_eq!(pfe.base, Primary::Identifier(Identifier { loc: at(21, 22), value: "compute".to_owned() }));
    assert_eq!(pfe.terms.len(), 1);
    match &pfe.terms[0] {
        PostfixTerm::PostfixTermCall(c) => assert_eq!(c.args.expressions, vec![arg.clone()]),
        _ => panic!("expected a call"),
    }
    assert_eq!(call.is_function_call(), (true, Some("compute")));
}

#[test]
fn call_on_a_non_name_has_no_name() {
    let base = Primary::IntLiteral(IntLiteral { loc: at(26, 27), val: 1 });
    let call = PostfixTerm::PostfixTermCall(PostfixTermCall {
        loc: at(26, 27),
        args: ExpressionList::empty(at(26, 27)),
    });
    let pfe = PostfixExpression { loc: at(26, 27), base, terms: vec![call] };
    assert_eq!(Expression::from(&pfe).is_function_call(), (true, None));
}

#[test]
fn call_after_index_has_no_name() {
    let base = Primary::Identifier(ident("a", 21));
    let index = PostfixTerm::PostfixTermIndex(aria_parser::ast::PostfixTermIndex {
        loc: at(22, 25),
        index: ident_expr("i", 23),
    });
    let call = PostfixTerm::PostfixTermCall(PostfixTermCall {
        loc: at(25, 27),
        args: ExpressionList::empty(at(25, 27)),
    });
    let pfe = PostfixExpression { loc: at(21, 27), base, terms: vec![index, call] };
    assert_eq!(Expression::from(&pfe).is_function_call(), (true, None));
}

#[test]
fn call_under_an_operator_is_not_a_call() {
    let mut e = ident_expr("a", 21).call_function_passing_me("f");
    let other: CompOperation = log_of(&ident_expr("b", 23)).left.clone();
    match &mut e {
        Expression::LogOperation(log) => log.right.push((LogSymbol::DoubleAmpersand, other)),
        _ => panic!("not an operation"),
    }
    assert_eq!(e.is_function_call(), (false, None));
}

#[test]
fn call_under_a_prefix_operator_is_still_a_call() {
    let base = Primary::Identifier(ident("f", 13));
    let call = PostfixTerm::PostfixTermCall(PostfixTermCall {
        loc: at(14, 16),
        args: ExpressionList::empty(at(14, 16)),
    });
    let pfe = PostfixExpression { loc: at(13, 16), base, terms: vec![call] };
    let unary = UnaryOperation {
        loc: at(12, 16),
        operand: Some(UnarySymbol::Exclamation),
        postfix: PostfixRvalue::from(&pfe),
    };
    let e = Expression::from(&unary);
    assert_eq!(e.is_function_call(), (true, Some("f")));
}

#[test]
fn conversions_keep_the_location() {
    let e = ident_expr("x", 4);
    let paren = ParenExpression::from(&e);
    assert_eq!(paren.loc, at(4, 5));
    assert_eq!(*paren.value, e);
    let base = Primary::ParenExpression(paren);
    let pfe = PostfixExpression::from(&base);
    assert_eq!(pfe.loc, at(4, 5));
    assert!(pfe.terms.is_empty());
    let wrapped = Expression::from(&pfe);
    assert_eq!(wrapped.loc(), &at(4, 5));
    assert_eq!(innermost(&wrapped).postfix.expr, pfe);
}

#[test]
fn clone_of_expression_is_equal() {
    let e = ident_expr("a", 21).call_function_passing_me("g");
    assert_eq!(e.clone(), e);
}

#[test]
fn clone_is_the_same_call() {
    let base = Primary::Identifier(ident("list", 32));
    let call = Expression::from(&PostfixExpression::method_call(&base, "push", &[ident_expr("a", 21)]));
    assert_eq!(call.clone().is_function_call(), call.is_function_call());
    let plain = ident_expr("b", 23);
    assert_eq!(plain.clone().is_function_call(), (false, None));
}

#[test]
fn call_passing_me_has_no_prefix_operator() {
    let call = ident_expr("a", 21).call_function_passing_me("f");
    let unary = innermost(&call);
    assert_eq!(unary.operand, None);
    assert_eq!(unary.postfix.loc, at(21, 22));
}
