//! The syntax tree of the language: its nodes, the source buffers that they
//! point into, and the operations that the parser and the compiler use on them.
use std::rc::Rc;
use vstd::prelude::*;

pub mod duplicate;
pub mod conversions;
pub mod expression;
pub mod import_path;
pub mod location;
pub mod nodes;
pub mod source;

verus! {

/// A range of byte offsets `start..stop` into the text of a source buffer.
#[derive(Debug, Clone, Copy, PartialEq, Eq)]
pub struct Location {
    pub start: usize,
    pub stop: usize,
}

/// The prefix operator of a unary operation.
#[derive(Debug, Clone, Copy, PartialEq, Eq)]
pub enum UnarySymbol {
    Exclamation,
    Minus,
}

/// A multiplicative operator.
#[derive(Debug, PartialEq, Eq)]
pub enum MulSymbol {
    Star,
    Slash,
    Percent,
}

impl Clone for MulSymbol {
    fn clone(&self) -> (res: Self)
        ensures
            res == *self,
    {
        match self {
            MulSymbol::Star => MulSymbol::Star,
            MulSymbol::Slash => MulSymbol::Slash,
            MulSymbol::Percent => MulSymbol::Percent,
        }
    }
}

/// An additive operator.
#[derive(Debug, PartialEq, Eq)]
pub enum AddSymbol {
    Plus,
    Minus,
}

impl Clone for AddSymbol {
    fn clone(&self) -> (res: Self)
        ensures
            res == *self,
    {
        match self {
            AddSymbol::Plus => AddSymbol::Plus,
            AddSymbol::Minus => AddSymbol::Minus,
        }
    }
}

/// The operator of a compound assignment such as `+=`.
#[derive(Debug, PartialEq, Eq)]
pub enum AddEqSymbol {
    PlusEq,
    MinusEq,
    StarEq,
    SlashEq,
    PercentEq,
}

impl Clone for AddEqSymbol {
    fn clone(&self) -> (res: Self)
        ensures
            res == *self,
    {
        match self {
            AddEqSymbol::PlusEq => AddEqSymbol::PlusEq,
            AddEqSymbol::MinusEq => AddEqSymbol::MinusEq,
            AddEqSymbol::StarEq => AddEqSymbol::StarEq,
            AddEqSymbol::SlashEq => AddEqSymbol::SlashEq,
            AddEqSymbol::PercentEq => AddEqSymbol::PercentEq,
        }
    }
}

/// A bit-shift operator.
#[derive(Debug, Clone, Copy, PartialEq, Eq)]
pub enum ShiftSymbol {
    Leftward,
    Rightward,
}

/// A relational (ordering) operator.
#[derive(Debug, Clone, Copy, PartialEq, Eq)]
pub enum RelSymbol {
    Less,
    LessEqual,
    Greater,
    GreaterEqual,
}

/// An equality or type-test operator.
#[derive(Debug, PartialEq, Eq)]
pub enum CompSymbol {
    Equal,
    NotEqual,
    Isa,
}

impl Clone for CompSymbol {
    fn clone(&self) -> (res: Self)
        ensures
            res == *self,
    {
        match self {
            CompSymbol::Equal => CompSymbol::Equal,
            CompSymbol::NotEqual => CompSymbol::NotEqual,
            CompSymbol::Isa => CompSymbol::Isa,
        }
    }
}

/// A logical or bitwise connective.
#[derive(Debug, PartialEq, Eq)]
pub enum LogSymbol {
    Ampersand,
    DoubleAmpersand,
    DoublePipe,
    Pipe,
    Caret,
}

impl Clone for LogSymbol {
    fn clone(&self) -> (res: Self)
        ensures
            res == *self,
    {
        match self {
            LogSymbol::Ampersand => LogSymbol::Ampersand,
            LogSymbol::DoubleAmpersand => LogSymbol::DoubleAmpersand,
            LogSymbol::DoublePipe => LogSymbol::DoublePipe,
            LogSymbol::Pipe => LogSymbol::Pipe,
            LogSymbol::Caret => LogSymbol::Caret,
        }
    }
}

/// Whether a method is called on instances or on the type itself.
#[derive(Debug, PartialEq, Eq)]
pub enum MethodAccess {
    Instance,
    Type,
}

impl Clone for MethodAccess {
    fn clone(&self) -> (res: Self)
        ensures
            res == *self,
    {
        match self {
            MethodAccess::Instance => MethodAccess::Instance,
            MethodAccess::Type => MethodAccess::Type,
        }
    }
}

/// The operator that an operator declaration overloads.
#[derive(Debug, PartialEq, Eq)]
pub enum OperatorSymbol {
    Plus,
    Minus,
    UnaryMinus,
    Star,
    Slash,
    Percent,
    LeftShift,
    RightShift,
    Equals,
    LessThanEqual,
    GreaterThanEqual,
    LessThan,
    GreaterThan,
    BitwiseAnd,
    BitwiseOr,
    BitwiseXor,
    Call,
    GetSquareBrackets,
    SetSquareBrackets,
}

impl Clone for OperatorSymbol {
    fn clone(&self) -> (res: Self)
        ensures
            res == *self,
    {
        match self {
            OperatorSymbol::Plus => OperatorSymbol::Plus,
            OperatorSymbol::Minus => OperatorSymbol::Minus,
            OperatorSymbol::UnaryMinus => OperatorSymbol::UnaryMinus,
            OperatorSymbol::Star => OperatorSymbol::Star,
            OperatorSymbol::Slash => OperatorSymbol::Slash,
            OperatorSymbol::Percent => OperatorSymbol::Percent,
            OperatorSymbol::LeftShift => OperatorSymbol::LeftShift,
            OperatorSymbol::RightShift => OperatorSymbol::RightShift,
            OperatorSymbol::Equals => OperatorSymbol::Equals,
            OperatorSymbol::LessThanEqual => OperatorSymbol::LessThanEqual,
            OperatorSymbol::GreaterThanEqual => OperatorSymbol::GreaterThanEqual,
            OperatorSymbol::LessThan => OperatorSymbol::LessThan,
            OperatorSymbol::GreaterThan => OperatorSymbol::GreaterThan,
            OperatorSymbol::BitwiseAnd => OperatorSymbol::BitwiseAnd,
            OperatorSymbol::BitwiseOr => OperatorSymbol::BitwiseOr,
            OperatorSymbol::BitwiseXor => OperatorSymbol::BitwiseXor,
            OperatorSymbol::Call => OperatorSymbol::Call,
            OperatorSymbol::GetSquareBrackets => OperatorSymbol::GetSquareBrackets,
            OperatorSymbol::SetSquareBrackets => OperatorSymbol::SetSquareBrackets,
        }
    }
}

/// A named piece of source text; the text is shared between clones.
#[derive(Debug, PartialEq, Eq)]
pub struct SourceBuffer {
    pub content: Rc<String>,
    pub name: String,
}

/// A location together with the buffer that it points into.
#[derive(Debug, PartialEq, Eq)]
pub struct SourcePointer {
    pub location: Location,
    pub buffer: SourceBuffer,
}

/// An integer literal.
#[derive(Debug, PartialEq, Eq)]
pub struct IntLiteral {
    pub loc: SourcePointer,
    pub val: i64,
}

/// A floating-point literal, kept as its source text.
#[derive(Debug, PartialEq, Eq)]
pub struct FloatLiteral {
    pub loc: SourcePointer,
    pub val: String,
}

/// A string literal.
#[derive(Debug, PartialEq, Eq)]
pub struct StringLiteral {
    pub loc: SourcePointer,
    pub value: String,
}

/// A name.
#[derive(Debug, PartialEq, Eq)]
pub struct Identifier {
    pub loc: SourcePointer,
    pub value: String,
}

/// A list of names.
#[derive(Debug, PartialEq, Eq)]
pub struct IdentifierList {
    pub loc: SourcePointer,
    pub identifiers: Vec<Identifier>,
}

/// A list of expressions, such as the arguments of a call.
#[derive(Debug, PartialEq, Eq)]
pub struct ExpressionList {
    pub loc: SourcePointer,
    pub expressions: Vec<Expression>,
}

/// A list literal `[a, b, ...]`.
#[derive(Debug, PartialEq, Eq)]
pub struct ListLiteral {
    pub loc: SourcePointer,
    pub items: ExpressionList,
}

/// An expression in parentheses.
#[derive(Debug, PartialEq, Eq)]
pub struct ParenExpression {
    pub loc: SourcePointer,
    pub value: Box<Expression>,
}

/// The innermost operand of an expression.
#[derive(Debug, PartialEq, Eq)]
pub enum Primary {
    IntLiteral(IntLiteral),
    FloatLiteral(FloatLiteral),
    Identifier(Identifier),
    ListLiteral(ListLiteral),
    StringLiteral(StringLiteral),
    ParenExpression(ParenExpression),
}

/// The postfix term `.name`.
#[derive(Debug, PartialEq, Eq)]
pub struct PostfixTermAttribute {
    pub loc: SourcePointer,
    pub id: Identifier,
}

/// The postfix term `[index]`.
#[derive(Debug, PartialEq, Eq)]
pub struct PostfixTermIndex {
    pub loc: SourcePointer,
    pub index: Expression,
}

/// The postfix term `(args)`.
#[derive(Debug, PartialEq, Eq)]
pub struct PostfixTermCall {
    pub loc: SourcePointer,
    pub args: ExpressionList,
}

/// The postfix term `::Case(payload)`.
#[derive(Debug, PartialEq, Eq)]
pub struct PostfixTermEnumCase {
    pub loc: SourcePointer,
    pub id: Identifier,
    pub payload: Option<Expression>,
}

/// A postfix sigil.
#[derive(Debug, PartialEq, Eq)]
pub struct PostfixTermSigil {
    pub loc: SourcePointer,
    pub sigil: String,
}

/// A field write `.name = value` inside an object write.
#[derive(Debug, PartialEq, Eq)]
pub struct PostfixTermFieldWrite {
    pub loc: SourcePointer,
    pub id: Identifier,
    pub val: Option<Expression>,
}

/// An index write `[idx] = value` inside an object write.
#[derive(Debug, PartialEq, Eq)]
pub struct PostfixTermIndexWrite {
    pub loc: SourcePointer,
    pub idx: Expression,
    pub val: Expression,
}

/// One write of an object-write term.
#[derive(Debug, PartialEq, Eq)]
pub enum PostfixTermWrite {
    PostfixTermFieldWrite(PostfixTermFieldWrite),
    PostfixTermIndexWrite(PostfixTermIndexWrite),
}

/// The writes of an object-write term.
#[derive(Debug, PartialEq, Eq)]
pub struct PostfixTermWriteList {
    pub loc: SourcePointer,
    pub terms: Vec<PostfixTermWrite>,
}

/// The postfix term `{ .a = x, [i] = y }`.
#[derive(Debug, PartialEq, Eq)]
pub struct PostfixTermObjectWrite {
    pub loc: SourcePointer,
    pub terms: PostfixTermWriteList,
}

/// One postfix term applied to a primary.
#[derive(Debug, PartialEq, Eq)]
pub enum PostfixTerm {
    PostfixTermAttribute(PostfixTermAttribute),
    PostfixTermIndex(PostfixTermIndex),
    PostfixTermCall(PostfixTermCall),
    PostfixTermObjectWrite(PostfixTermObjectWrite),
    PostfixTermEnumCase(PostfixTermEnumCase),
    PostfixTermSigil(PostfixTermSigil),
}

/// A primary followed by postfix terms.
#[derive(Debug, PartialEq, Eq)]
pub struct PostfixExpression {
    pub loc: SourcePointer,
    pub base: Primary,
    pub terms: Vec<PostfixTerm>,
}

/// A postfix expression used as a value.
#[derive(Debug, PartialEq, Eq)]
pub struct PostfixRvalue {
    pub loc: SourcePointer,
    pub expr: PostfixExpression,
}

/// A postfix value with an optional prefix operator.
#[derive(Debug, PartialEq, Eq)]
pub struct UnaryOperation {
    pub loc: SourcePointer,
    pub operand: Option<UnarySymbol>,
    pub postfix: PostfixRvalue,
}

/// A chain of multiplicative operations.
#[derive(Debug, PartialEq, Eq)]
pub struct MulOperation {
    pub loc: SourcePointer,
    pub left: UnaryOperation,
    pub right: Vec<(MulSymbol, UnaryOperation)>,
}

/// A chain of additive operations.
#[derive(Debug, PartialEq, Eq)]
pub struct AddOperation {
    pub loc: SourcePointer,
    pub left: MulOperation,
    pub right: Vec<(AddSymbol, MulOperation)>,
}

/// An optional shift applied to an additive operation.
#[derive(Debug, PartialEq, Eq)]
pub struct ShiftOperation {
    pub loc: SourcePointer,
    pub left: AddOperation,
    pub right: Option<(ShiftSymbol, AddOperation)>,
}

/// An optional ordering comparison.
#[derive(Debug, PartialEq, Eq)]
pub struct RelOperation {
    pub loc: SourcePointer,
    pub left: ShiftOperation,
    pub right: Option<(RelSymbol, ShiftOperation)>,
}

/// An optional equality or type test.
#[derive(Debug, PartialEq, Eq)]
pub struct CompOperation {
    pub loc: SourcePointer,
    pub left: RelOperation,
    pub right: Option<(CompSymbol, RelOperation)>,
}

/// A chain of logical connectives; the outermost binary level of an expression.
#[derive(Debug, PartialEq, Eq)]
pub struct LogOperation {
    pub loc: SourcePointer,
    pub left: CompOperation,
    pub right: Vec<(LogSymbol, CompOperation)>,
}

/// The body of a lambda: an expression or a block.
#[derive(Debug, PartialEq, Eq)]
pub enum LambaBody {
    Expression(Expression),
    CodeBlock(CodeBlock),
}

/// An anonymous function.
#[derive(Debug, PartialEq, Eq)]
pub struct LambdaFunction {
    pub loc: SourcePointer,
    pub args: ArgumentList,
    pub body: Box<LambaBody>,
}

/// The body of a function, method or operator.
#[derive(Debug, PartialEq, Eq)]
pub struct FunctionBody {
    pub code: CodeBlock,
}

/// The conditional expression `cond ? a : b`.
#[derive(Debug, PartialEq, Eq)]
pub struct TernaryExpression {
    pub loc: SourcePointer,
    pub condition: Box<LogOperation>,
    pub true_expression: Box<Expression>,
    pub false_expression: Box<Expression>,
}

/// An expression.
#[derive(Debug, PartialEq, Eq)]
pub enum Expression {
    LambdaFunction(LambdaFunction),
    LogOperation(LogOperation),
    TernaryExpression(TernaryExpression),
}

/// A declared name with an optional type expression.
#[derive(Debug, PartialEq, Eq)]
pub struct DeclarationId {
    pub loc: SourcePointer,
    pub name: Identifier,
    pub ty: Option<Expression>,
}

/// A statement made of an optional expression.
#[derive(Debug, PartialEq, Eq)]
pub struct ExpressionStatement {
    pub loc: SourcePointer,
    pub val: Option<Expression>,
}

/// A `val` declaration.
#[derive(Debug, PartialEq, Eq)]
pub struct ValDeclStatement {
    pub loc: SourcePointer,
    pub id: DeclarationId,
    pub val: Expression,
}

/// An assignment.
#[derive(Debug, PartialEq, Eq)]
pub struct AssignStatement {
    pub loc: SourcePointer,
    pub id: PostfixExpression,
    pub val: Expression,
}

/// A compound assignment such as `x += 1`.
#[derive(Debug, PartialEq, Eq)]
pub struct WriteOpEqStatement {
    pub loc: SourcePointer,
    pub id: PostfixExpression,
    pub op: AddEqSymbol,
    pub val: Expression,
}

/// A condition together with the block that it guards.
#[derive(Debug, PartialEq, Eq)]
pub struct IfCondPiece {
    pub loc: SourcePointer,
    pub expression: Box<Expression>,
    pub then_block: CodeBlock,
}

/// An `else` block.
#[derive(Debug, PartialEq, Eq)]
pub struct ElsePiece {
    pub loc: SourcePointer,
    pub then_block: CodeBlock,
}

/// An `elsif` branch.
#[derive(Debug, PartialEq, Eq)]
pub struct ElsifPiece {
    pub content: IfCondPiece,
}

/// The first branch of an `if` statement.
#[derive(Debug, PartialEq, Eq)]
pub struct IfPiece {
    pub content: IfCondPiece,
}

/// An `if` statement.
#[derive(Debug, PartialEq, Eq)]
pub struct IfStatement {
    pub loc: SourcePointer,
    pub iff: IfPiece,
    pub elsif: Vec<ElsifPiece>,
    pub els: Option<ElsePiece>,
}

/// A match pattern made of an equality or type test.
#[derive(Debug, PartialEq, Eq)]
pub struct MatchPatternComp {
    pub loc: SourcePointer,
    pub op: CompSymbol,
    pub expr: Expression,
}

/// A match pattern made of an ordering comparison.
#[derive(Debug, PartialEq, Eq)]
pub struct MatchPatternRel {
    pub loc: SourcePointer,
    pub op: RelSymbol,
    pub expr: Expression,
}

/// A match pattern naming an enum case and an optional payload binding.
#[derive(Debug, PartialEq, Eq)]
pub struct MatchPatternEnumCase {
    pub loc: SourcePointer,
    pub case: Identifier,
    pub payload: Option<DeclarationId>,
}

/// A pattern of a match rule.
#[derive(Debug, PartialEq, Eq)]
pub enum MatchPattern {
    MatchPatternComp(MatchPatternComp),
    MatchPatternRel(MatchPatternRel),
    MatchPatternEnumCase(MatchPatternEnumCase),
}

/// A match rule: patterns and the block that runs when one applies.
#[derive(Debug, PartialEq, Eq)]
pub struct MatchRule {
    pub loc: SourcePointer,
    pub patterns: Vec<MatchPattern>,
    pub then_block: CodeBlock,
}

/// A `match` statement.
#[derive(Debug, PartialEq, Eq)]
pub struct MatchStatement {
    pub loc: SourcePointer,
    pub expr: Expression,
    pub rules: Vec<MatchRule>,
    pub els: Option<ElsePiece>,
}

/// A `while` loop.
#[derive(Debug, PartialEq, Eq)]
pub struct WhileStatement {
    pub loc: SourcePointer,
    pub cond: Expression,
    pub then_block: CodeBlock,
    pub els: Option<ElsePiece>,
}

/// A `for` loop.
#[derive(Debug, PartialEq, Eq)]
pub struct ForStatement {
    pub loc: SourcePointer,
    pub id: Identifier,
    pub expr: Expression,
    pub then_block: CodeBlock,
    pub els: Option<ElsePiece>,
}

/// A `return` statement.
#[derive(Debug, PartialEq, Eq)]
pub struct ReturnStatement {
    pub loc: SourcePointer,
    pub val: Option<Expression>,
}

/// A `throw` statement.
#[derive(Debug, PartialEq, Eq)]
pub struct ThrowStatement {
    pub loc: SourcePointer,
    pub val: Expression,
}

/// An `assert` statement.
#[derive(Debug, PartialEq, Eq)]
pub struct AssertStatement {
    pub loc: SourcePointer,
    pub val: Expression,
}

/// A `break` statement.
#[derive(Debug, PartialEq, Eq)]
pub struct BreakStatement {
    pub loc: SourcePointer,
}

/// A `continue` statement.
#[derive(Debug, PartialEq, Eq)]
pub struct ContinueStatement {
    pub loc: SourcePointer,
}

/// A guard block.
#[derive(Debug, PartialEq, Eq)]
pub struct GuardBlock {
    pub loc: SourcePointer,
    pub id: Identifier,
    pub expr: Expression,
    pub body: CodeBlock,
}

/// A `try` block with its `catch` block.
#[derive(Debug, PartialEq, Eq)]
pub struct TryBlock {
    pub loc: SourcePointer,
    pub body: CodeBlock,
    pub id: Identifier,
    pub catch: CodeBlock,
}

/// A statement.
#[derive(Debug, PartialEq, Eq)]
pub enum Statement {
    ValDeclStatement(ValDeclStatement),
    AssignStatement(AssignStatement),
    WriteOpEqStatement(WriteOpEqStatement),
    IfStatement(IfStatement),
    MatchStatement(MatchStatement),
    WhileStatement(WhileStatement),
    ForStatement(ForStatement),
    CodeBlock(CodeBlock),
    ReturnStatement(ReturnStatement),
    ThrowStatement(ThrowStatement),
    GuardBlock(GuardBlock),
    TryBlock(TryBlock),
    AssertStatement(AssertStatement),
    ExpressionStatement(ExpressionStatement),
    BreakStatement(BreakStatement),
    ContinueStatement(ContinueStatement),
    StructDecl(StructDecl),
    EnumDecl(EnumDecl),
}

/// A block of statements.
#[derive(Debug, PartialEq, Eq)]
pub struct CodeBlock {
    pub loc: SourcePointer,
    pub entries: Vec<Statement>,
}

/// A declared argument with an optional default.
#[derive(Debug, PartialEq, Eq)]
pub struct ArgumentDecl {
    pub loc: SourcePointer,
    pub id: DeclarationId,
    pub deft: Option<Expression>,
}

/// The declared arguments of a function.
#[derive(Debug, PartialEq, Eq)]
pub struct ArgumentList {
    pub loc: SourcePointer,
    pub names: Vec<ArgumentDecl>,
    pub vararg: bool,
}

/// A function declaration.
#[derive(Debug, PartialEq, Eq)]
pub struct FunctionDecl {
    pub loc: SourcePointer,
    pub name: Identifier,
    pub args: ArgumentList,
    pub body: FunctionBody,
}

/// A method declaration.
#[derive(Debug, PartialEq, Eq)]
pub struct MethodDecl {
    pub loc: SourcePointer,
    pub access: MethodAccess,
    pub name: Identifier,
    pub args: ArgumentList,
    pub body: FunctionBody,
}

/// An operator declaration.
#[derive(Debug, PartialEq, Eq)]
pub struct OperatorDecl {
    pub loc: SourcePointer,
    pub reverse: bool,
    pub symbol: OperatorSymbol,
    pub args: ArgumentList,
    pub body: FunctionBody,
}

/// The inclusion of a mixin in a struct.
#[derive(Debug, PartialEq, Eq)]
pub struct MixinIncludeDecl {
    pub loc: SourcePointer,
    pub what: Expression,
}

/// An entry of a struct body.
#[derive(Debug, PartialEq, Eq)]
pub enum StructEntry {
    Method(Box<MethodDecl>),
    Operator(Box<OperatorDecl>),
    Variable(Box<ValDeclStatement>),
    Struct(Box<StructDecl>),
    Enum(Box<EnumDecl>),
    MixinInclude(Box<MixinIncludeDecl>),
}

/// A struct declaration.
#[derive(Debug, PartialEq, Eq)]
pub struct StructDecl {
    pub loc: SourcePointer,
    pub name: Identifier,
    pub body: Vec<StructEntry>,
}

/// An entry of a mixin body.
#[derive(Debug, PartialEq, Eq)]
pub enum MixinEntry {
    Method(Box<MethodDecl>),
    Operator(Box<OperatorDecl>),
    Include(Box<MixinIncludeDecl>),
}

/// A mixin declaration.
#[derive(Debug, PartialEq, Eq)]
pub struct MixinDecl {
    pub loc: SourcePointer,
    pub name: Identifier,
    pub body: Vec<MixinEntry>,
}

/// A case of an enum declaration.
#[derive(Debug, PartialEq, Eq)]
pub struct EnumCaseDecl {
    pub loc: SourcePointer,
    pub name: Identifier,
    pub payload: Option<Expression>,
}

/// An entry of an enum body.
#[derive(Debug, PartialEq, Eq)]
pub enum EnumDeclEntry {
    EnumCaseDecl(EnumCaseDecl),
    StructEntry(StructEntry),
}

/// An enum declaration.
#[derive(Debug, PartialEq, Eq)]
pub struct EnumDecl {
    pub loc: SourcePointer,
    pub name: Identifier,
    pub body: Vec<EnumDeclEntry>,
}

/// An extension of an existing type.
#[derive(Debug, PartialEq, Eq)]
pub struct ExtensionDecl {
    pub loc: SourcePointer,
    pub target: Expression,
    pub body: Vec<StructEntry>,
}

/// A dotted module path such as `a.b.c`.
#[derive(Debug, PartialEq, Eq)]
pub struct ImportPath {
    pub loc: SourcePointer,
    pub entries: Vec<Identifier>,
}

/// An `import` statement.
#[derive(Debug, PartialEq, Eq)]
pub struct ImportStatement {
    pub loc: SourcePointer,
    pub what: ImportPath,
}

/// What an `import ... from` statement brings in.
#[derive(Debug, PartialEq, Eq)]
pub enum ImportTarget {
    IdentifierList(IdentifierList),
    All,
}

/// An `import ... from` statement.
#[derive(Debug, PartialEq, Eq)]
pub struct ImportFromStatement {
    pub loc: SourcePointer,
    pub what: ImportTarget,
    pub from: ImportPath,
}

/// A flag that a module declares.
#[derive(Debug, PartialEq, Eq, Hash)]
pub enum ModuleFlag {
    NoStandardLibrary,
    UsesDylib(String),
}

/// The flags of a module.
#[derive(Debug, PartialEq, Eq)]
pub struct ModuleFlags {
    pub flags: Vec<ModuleFlag>,
}

/// An entry at the top level of a module.
#[derive(Debug, PartialEq, Eq)]
pub enum TopLevelEntry {
    ExpressionStatement(ExpressionStatement),
    ValDeclStatement(ValDeclStatement),
    WriteOpEqStatement(WriteOpEqStatement),
    AssignStatement(AssignStatement),
    FunctionDecl(FunctionDecl),
    StructDecl(StructDecl),
    MixinDecl(MixinDecl),
    EnumDecl(EnumDecl),
    ExtensionDecl(ExtensionDecl),
    AssertStatement(AssertStatement),
    ImportStatement(ImportStatement),
    ImportFromStatement(ImportFromStatement),
    IfStatement(IfStatement),
    MatchStatement(MatchStatement),
    WhileStatement(WhileStatement),
    ForStatement(ForStatement),
    CodeBlock(CodeBlock),
    GuardBlock(GuardBlock),
    TryBlock(TryBlock),
}

/// A parsed module.
#[derive(Debug, PartialEq, Eq)]
pub struct ParsedModule {
    pub loc: SourcePointer,
    pub flags: ModuleFlags,
    pub entries: Vec<TopLevelEntry>,
}

/// A parse error with its location and message.
#[derive(Debug, PartialEq, Eq)]
pub struct ParserError {
    pub loc: SourcePointer,
    pub msg: String,
}
/// Shares the text of a buffer: `Rc::clone`, which returns a new pointer to
/// the same string, so the result holds the same text.
#[verifier::external_body]
pub(crate) fn share_text(text: &Rc<String>) -> (res: Rc<String>)
    ensures
        res == *text,
{
    Rc::clone(text)
}

} // verus!
