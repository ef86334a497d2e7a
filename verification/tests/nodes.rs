use aria_parser::ast::location::InputPosition;
use aria_parser::ast::{
    ArgumentDecl, ArgumentList, BreakStatement, CodeBlock, ContinueStatement, DeclarationId,
    EnumCaseDecl, EnumDeclEntry, Expression, ExpressionList, Identifier, IdentifierList,
    Location, MatchPattern, MatchPatternComp, MatchPatternEnumCase,
    MixinEntry, MixinIncludeDecl, ModuleFlags, ParserError, ReturnStatement, SourceBuffer,
    SourcePointer, Statement, StructEntry, CompSymbol,
};

fn at(start: usize, stop: usize) -> SourcePointer {
    SourceBuffer::stdin_with_name("struct S { uses M }\nmatch x { == 1 => { break; } }", "m.aria")
        .pointer(Location { start, stop })
}

fn ident(name: &str, start: usize) -> Identifier {
    Identifier { loc: at(start, start + name.len()), value: name.to_owned() }
}

#[test]
fn empty_lists_are_empty_at_their_location() {
    let ids = IdentifierList::empty(at(1, 2));
    assert_eq!(ids.loc, at(1, 2));
    assert!(ids.identifiers.is_empty());
    let exprs = ExpressionList::empty(at(3, 4));
    assert_eq!(exprs.loc, at(3, 4));
    assert!(exprs.expressions.is_empty());
    let args = ArgumentList::empty(at(5, 6));
    assert_eq!(args.loc, at(5, 6));
    assert!(args.names.is_empty());
    assert!(!args.vararg);
    assert_eq!(args.len(), 0);
    assert!(args.is_empty());
}

#[test]
fn module_flags_start_empty() {
    assert!(ModuleFlags::empty().flags.is_empty());
}

#[test]
fn argument_decl_reads_its_declaration() {
    let id = DeclarationId::from(&ident("count", 7));
    assert_eq!(id.loc, at(7, 12));
    assert_eq!(id.ty, None);
    let arg = ArgumentDecl::from(&id);
    assert_eq!(arg.loc, at(7, 12));
    assert_eq!(arg.deft, None);
    assert_eq!(arg.name(), "count");
    assert_eq!(arg.type_info(), None);
}

#[test]
fn argument_decl_with_a_type() {
    let ty = Expression::from(&ident("Int", 13));
    let id = DeclarationId { loc: at(7, 16), name: ident("n", 7), ty: Some(ty.clone()) };
    let arg = ArgumentDecl::from(&id);
    assert_eq!(arg.name(), "n");
    assert_eq!(arg.type_info(), Some(&ty));
}

#[test]
fn argument_list_counts_its_arguments() {
    let mut args = ArgumentList::empty(at(0, 10));
    args.names.push(ArgumentDecl::from(&DeclarationId::from(&ident("a", 1))));
    args.names.push(ArgumentDecl::from(&DeclarationId::from(&ident("b", 3))));
    assert_eq!(args.len(), 2);
    assert!(!args.is_empty());
}

#[test]
fn statement_loc_of_each_kind() {
    let brk = Statement::BreakStatement(BreakStatement { loc: at(42, 48) });
    assert_eq!(brk.loc(), &at(42, 48));
    let cont = Statement::ContinueStatement(ContinueStatement { loc: at(1, 9) });
    assert_eq!(cont.loc(), &at(1, 9));
    let ret = Statement::ReturnStatement(ReturnStatement::from(&Expression::from(&ident("x", 29))));
    assert_eq!(ret.loc(), &at(29, 30));
    let block = Statement::CodeBlock(CodeBlock::from(&brk));
    assert_eq!(block.loc(), &at(42, 48));
}

#[test]
fn return_statement_from_expression() {
    let e = Expression::from(&ident("x", 29));
    let ret = ReturnStatement::from(&e);
    assert_eq!(ret.loc, at(29, 30));
    assert_eq!(ret.val, Some(e));
}

#[test]
fn code_block_from_statement_holds_it() {
    let brk = Statement::BreakStatement(BreakStatement { loc: at(42, 48) });
    let block = CodeBlock::from(&brk);
    assert_eq!(block.loc, at(42, 48));
    assert_eq!(block.entries, vec![brk]);
}

#[test]
fn match_pattern_loc() {
    let comp = MatchPattern::MatchPatternComp(MatchPatternComp {
        loc: at(33, 37),
        op: CompSymbol::Equal,
        expr: Expression::from(&ident("x", 29)),
    });
    assert_eq!(comp.loc(), &at(33, 37));
    let case = MatchPattern::MatchPatternEnumCase(MatchPatternEnumCase {
        loc: at(2, 8),
        case: ident("Some", 2),
        payload: None,
    });
    assert_eq!(case.loc(), &at(2, 8));
}

#[test]
fn struct_and_mixin_entry_loc() {
    let inclusion = MixinIncludeDecl { loc: at(11, 20), what: Expression::from(&ident("M", 19)) };
    let mixin = MixinEntry::Include(Box::new(inclusion.clone()));
    assert_eq!(mixin.loc(), &at(11, 20));
    let entry = StructEntry::from(&mixin);
    assert_eq!(entry, StructEntry::MixinInclude(Box::new(inclusion)));
    assert_eq!(entry.loc(), &at(11, 20));
}

#[test]
fn enum_entry_loc() {
    let case = EnumDeclEntry::EnumCaseDecl(EnumCaseDecl { loc: at(5, 9), name: ident("A", 5), payload: None });
    assert_eq!(case.loc(), &at(5, 9));
    let inclusion = MixinIncludeDecl { loc: at(11, 20), what: Expression::from(&ident("M", 19)) };
    let nested = EnumDeclEntry::StructEntry(StructEntry::MixinInclude(Box::new(inclusion)));
    assert_eq!(nested.loc(), &at(11, 20));
}

#[test]
fn parser_error_text_is_its_message() {
    let err = ParserError { loc: at(0, 1), msg: "expected identifier".to_owned() };
    assert_eq!(err.to_string(), "expected identifier");
}

#[test]
fn location_of_an_error_position() {
    assert_eq!(Location::from_input_position(&InputPosition::Pos(7)), Location { start: 7, stop: 7 });
    assert_eq!(
        Location::from_input_position(&InputPosition::Span(3, 9)),
        Location { start: 3, stop: 9 }
    );
}

#[test]
fn location_of_a_pest_error_location() {
    let pos = pest::error::InputLocation::Pos(4);
    assert_eq!(Location::from(&pos), Location { start: 4, stop: 4 });
    let span = pest::error::InputLocation::Span((2, 6));
    assert_eq!(Location::from(&span), Location { start: 2, stop: 6 });
}

#[test]
fn location_of_a_pest_span() {
    let text = "struct S";
    let span = pest::Span::new(text, 7, 8).expect("a valid span");
    assert_eq!(Location::from(&span), Location { start: 7, stop: 8 });
}

#[test]
fn parser_error_from_failure_points_into_the_source() {
    let source = SourceBuffer::stdin_with_name("val = ;", "bad.aria");
    let err = ParserError::from_failure(
        &source,
        &InputPosition::Span(4, 5),
        "expected expression".to_owned(),
    );
    assert_eq!(err.msg, "expected expression");
    assert_eq!(err.loc.buffer, source);
    assert_eq!(err.loc.location, Location { start: 4, stop: 5 });
    assert_eq!(err.loc.to_string(), "bad.aria:1");
}
