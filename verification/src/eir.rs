//! The expression IR: expressions, patterns and statements of a function
//! body, as the rewriting passes and the C# emitter see them.
//!
//! Every node may remember the syntax node it was lowered from; a syntax
//! node is known here by its identity alone (`AstRef`). Nodes made up by a
//! rewriting pass remember none.

use vstd::prelude::*;
use core::marker::PhantomData;
use crate::output::Code;

verus! {

/// The identity of a syntax node of the source program.
#[derive(Copy, Clone, PartialEq, Eq, Structural, Debug)]
pub struct AstRef {
    pub id: u64,
}

/// Where a node comes from: a syntax node, or none for a node that a pass made up.
#[derive(Copy, Clone, Debug)]
pub enum NodeInfo<T> {
    Ast(T),
    NoAst,
}

/// The older form of `NodeInfo`, kept by expression nodes.
#[derive(Copy, Clone, Debug)]
pub enum ExprInfo<T> {
    Ast(T),
    NoAst,
}

/// The info of a node that remembers nothing.
pub struct DummyInfo<T>(pub PhantomData<T>);

impl<T> DummyInfo<T> {
    /// A dummy info of any other node type.
    pub fn cast<U>(&self) -> (r: DummyInfo<U>) {
        DummyInfo(PhantomData)
    }
}

impl<T> Default for DummyInfo<T> {
    fn default() -> (r: Self) {
        DummyInfo(PhantomData)
    }
}

/// A syntax node that is either a name or a reference to a name.
#[derive(Copy, Clone, PartialEq, Eq, Structural, Debug)]
pub enum NameOrNameRef {
    Name(AstRef),
    NameRef(AstRef),
}

/// The mechanism of an info cast that converts the syntax node one for one.
pub struct ViaFrom<T, U>(pub PhantomData<(T, U)>);

/// The mechanism of an info cast from a node type that has no syntax node.
pub struct ViaInfallible<T>(pub PhantomData<T>);

/// The mechanism of an info cast written out for one pair of node types.
pub struct Manual;

/// Changes the node type that an info speaks of, keeping whether it has a syntax node.
pub trait ExprInfoCastDispatch<Target, Mechanism>: Sized {
    spec fn cast_spec(&self) -> Target;

    fn cast_impl(&self) -> (r: Target)
        ensures
            r == self.cast_spec(),
    ;
}

/// Changes the node type that an info speaks of.
pub trait ExprInfoCast<Target, Mechanism>: Sized {
    spec fn cast_spec(&self) -> Target;

    fn cast(&self) -> (r: Target)
        ensures
            r == self.cast_spec(),
    ;
}

impl ExprInfoCastDispatch<NodeInfo<AstRef>, ViaFrom<AstRef, AstRef>> for NodeInfo<AstRef> {
    open spec fn cast_spec(&self) -> NodeInfo<AstRef> {
        *self
    }

    fn cast_impl(&self) -> (r: NodeInfo<AstRef>) {
        *self
    }
}

impl ExprInfoCastDispatch<NodeInfo<NameOrNameRef>, Manual> for NodeInfo<AstRef> {
    /// A name reference seen as a name-or-reference.
    open spec fn cast_spec(&self) -> NodeInfo<NameOrNameRef> {
        match *self {
            NodeInfo::Ast(a) => NodeInfo::Ast(NameOrNameRef::NameRef(a)),
            NodeInfo::NoAst => NodeInfo::NoAst,
        }
    }

    fn cast_impl(&self) -> (r: NodeInfo<NameOrNameRef>) {
        match *self {
            NodeInfo::Ast(a) => NodeInfo::Ast(NameOrNameRef::NameRef(a)),
            NodeInfo::NoAst => NodeInfo::NoAst,
        }
    }
}

impl<T> ExprInfoCastDispatch<NodeInfo<T>, ViaInfallible<T>> for NodeInfo<core::convert::Infallible> {
    open spec fn cast_spec(&self) -> NodeInfo<T> {
        NodeInfo::NoAst
    }

    fn cast_impl(&self) -> (r: NodeInfo<T>) {
        NodeInfo::NoAst
    }
}

impl ExprInfoCast<NodeInfo<AstRef>, ViaFrom<AstRef, AstRef>> for NodeInfo<AstRef> {
    open spec fn cast_spec(&self) -> NodeInfo<AstRef> {
        *self
    }

    fn cast(&self) -> (r: NodeInfo<AstRef>) {
        self.cast_impl()
    }
}

impl ExprInfoCast<NodeInfo<NameOrNameRef>, Manual> for NodeInfo<AstRef> {
    open spec fn cast_spec(&self) -> NodeInfo<NameOrNameRef> {
        ExprInfoCastDispatch::<NodeInfo<NameOrNameRef>, Manual>::cast_spec(self)
    }

    fn cast(&self) -> (r: NodeInfo<NameOrNameRef>) {
        ExprInfoCastDispatch::<NodeInfo<NameOrNameRef>, Manual>::cast_impl(self)
    }
}

impl ExprInfoCastDispatch<ExprInfo<AstRef>, ViaFrom<AstRef, AstRef>> for ExprInfo<AstRef> {
    open spec fn cast_spec(&self) -> ExprInfo<AstRef> {
        *self
    }

    fn cast_impl(&self) -> (r: ExprInfo<AstRef>) {
        *self
    }
}

impl ExprInfoCast<ExprInfo<AstRef>, ViaFrom<AstRef, AstRef>> for ExprInfo<AstRef> {
    open spec fn cast_spec(&self) -> ExprInfo<AstRef> {
        *self
    }

    fn cast(&self) -> (r: ExprInfo<AstRef>) {
        self.cast_impl()
    }
}

/// The info every node of a body keeps.
pub type Info = NodeInfo<AstRef>;

/// An immutable sequence of child nodes.
pub enum ChildrenContainer<T> {
    Empty,
    More(Box<T>, Box<ChildrenContainer<T>>),
}

/// The children in order.
pub open spec fn children_seq<T>(c: ChildrenContainer<T>) -> Seq<T>
    decreases c,
{
    match c {
        ChildrenContainer::Empty => Seq::empty(),
        ChildrenContainer::More(first, rest) => seq![*first] + children_seq(*rest),
    }
}

impl<T> View for ChildrenContainer<T> {
    type V = Seq<T>;

    open spec fn view(&self) -> Seq<T> {
        children_seq(*self)
    }
}

/// The container that holds `s` in order.
pub open spec fn container_of<T>(s: Seq<T>) -> ChildrenContainer<T>
    decreases s.len(),
{
    if s.len() == 0 {
        ChildrenContainer::Empty
    } else {
        ChildrenContainer::More(Box::new(s[0]), Box::new(container_of(s.drop_first())))
    }
}

/// A container is determined by the children it holds, and holds what it
/// was made from.
pub proof fn lemma_children_view_inverse<T>(c: ChildrenContainer<T>, s: Seq<T>)
    ensures
        children_seq(container_of(s)) == s,
        container_of(children_seq(c)) == c,
    decreases s.len(), c,
{
    if s.len() > 0 {
        lemma_children_view_inverse(c, s.drop_first());
        assert(children_seq(container_of(s)) =~= s);
    }
    match c {
        ChildrenContainer::Empty => {},
        ChildrenContainer::More(first, rest) => {
            lemma_children_view_inverse(*rest, s);
            let cs = children_seq(c);
            assert(cs.drop_first() =~= children_seq(*rest));
        },
    }
}

/// Two containers that hold the same children are equal.
pub proof fn lemma_children_view_injective<T>(a: ChildrenContainer<T>, b: ChildrenContainer<T>)
    requires
        a@ == b@,
    ensures
        a == b,
{
    lemma_children_view_inverse(a, Seq::empty());
    lemma_children_view_inverse(b, Seq::empty());
}

impl<T> ChildrenContainer<T> {
    /// No children.
    pub fn new() -> (r: Self)
        ensures
            r@ == Seq::<T>::empty(),
    {
        ChildrenContainer::Empty
    }

    /// The children of `v`, in order.
    pub fn from_vec(v: Vec<T>) -> (r: Self)
        ensures
            r@ == v@,
    {
        let ghost all = v@;
        let mut v = v;
        let mut acc = ChildrenContainer::Empty;
        while v.len() > 0
            invariant
                v@.len() <= all.len(),
                v@ == all.subrange(0, v@.len() as int),
                acc@ == all.subrange(v@.len() as int, all.len() as int),
            decreases v@.len(),
        {
            let ghost before = acc@;
            let x = v.pop().unwrap();
            acc = ChildrenContainer::More(Box::new(x), Box::new(acc));
            assert(acc@ =~= all.subrange(v@.len() as int, all.len() as int)) by {
                assert(acc@ == seq![x] + before);
            }
        }
        assert(acc@ =~= all);
        acc
    }

    /// The children, in order, as a vector.
    pub fn into_iter(self) -> (r: Vec<T>)
        ensures
            r@ == self@,
    {
        let ghost all = self@;
        let mut out: Vec<T> = Vec::new();
        let mut cur = self;
        loop
            invariant
                out@ + cur@ == all,
                all == self@,
            decreases cur@.len(),
        {
            match cur {
                ChildrenContainer::Empty => {
                    assert(out@ =~= all);
                    return out;
                },
                ChildrenContainer::More(first, rest) => {
                    let ghost rs = rest@;
                    out.push(*first);
                    cur = *rest;
                    assert(out@ + cur@ =~= all) by {
                        assert(all =~= out@.drop_last() + (seq![out@.last()] + rs));
                    }
                },
            }
        }
    }

    /// The number of children.
    pub fn len(&self) -> (r: usize)
        requires
            self@.len() <= usize::MAX,
        ensures
            r == self@.len(),
    {
        let mut n: usize = 0;
        let mut cur = self;
        loop
            invariant
                n + cur@.len() == self@.len(),
                self@.len() <= usize::MAX,
            decreases cur@.len(),
        {
            match cur {
                ChildrenContainer::Empty => {
                    return n;
                },
                ChildrenContainer::More(_, rest) => {
                    n = n + 1;
                    cur = rest;
                },
            }
        }
    }

    /// The child at position `i`.
    pub fn get(&self, i: usize) -> (r: Option<&T>)
        ensures
            i < self@.len() ==> r == Some(&self@[i as int]),
            i >= self@.len() ==> r.is_none(),
    {
        let mut k: usize = i;
        let mut cur = self;
        loop
            invariant
                k <= i,
                i - k <= self@.len(),
                cur@ == self@.skip(i - k),
            decreases k,
        {
            match cur {
                ChildrenContainer::Empty => {
                    return None;
                },
                ChildrenContainer::More(first, rest) => {
                    assert(cur@ == seq![**first] + children_seq(**rest));
                    if k == 0 {
                        assert(cur@[0] == **first);
                        return Some(&**first);
                    }
                    assert(children_seq(**rest) =~= self@.skip(i - k + 1)) by {
                        assert(cur@.drop_first() =~= children_seq(**rest));
                    }
                    k = k - 1;
                    cur = rest;
                },
            }
        }
    }

    /// The container with `x` added after the last child.
    pub fn pushed(self, x: T) -> (r: Self)
        ensures
            r@ == self@.push(x),
        decreases self,
    {
        match self {
            ChildrenContainer::Empty => ChildrenContainer::More(Box::new(x), Box::new(ChildrenContainer::Empty)),
            ChildrenContainer::More(first, rest) => {
                let ghost f = *first;
                let ghost rs = rest@;
                let r = ChildrenContainer::More(first, Box::new((*rest).pushed(x)));
                assert(r@ =~= (seq![f] + rs).push(x));
                r
            },
        }
    }

    /// Adds `x` after the last child.
    pub fn push(&mut self, x: T)
        ensures
            final(self)@ == old(self)@.push(x),
    {
        let mut c = ChildrenContainer::Empty;
        core::mem::swap(&mut c, self);
        *self = c.pushed(x);
    }

    /// A cursor at the first child.
    pub fn iterator(&self) -> (r: Children<'_, T>)
        ensures
            *r.0 == *self,
            r.1 == 0,
    {
        Children(self, 0)
    }
}

impl<'a, T> Children<'a, T> {
    /// The child under the cursor, moving the cursor on past it.
    pub fn next(&mut self) -> (r: Option<&'a T>)
        requires
            old(self).0@.len() <= usize::MAX,
        ensures
            final(self).0 == old(self).0,
            old(self).1 < old(self).0@.len() ==> r == Some(&old(self).0@[old(self).1 as int])
                && final(self).1 == old(self).1 + 1,
            old(self).1 >= old(self).0@.len() ==> r.is_none() && final(self).1 == old(self).1,
    {
        let r = self.0.get(self.1);
        if r.is_some() {
            self.1 = self.1 + 1;
        }
        r
    }
}

/// A cursor over the children of a `ChildrenContainer`, from a position on.
pub struct Children<'a, T>(pub &'a ChildrenContainer<T>, pub usize);

/// A block's modifier keyword.
#[derive(Copy, Clone, PartialEq, Eq, Structural, Debug)]
pub enum BlockModifier {
    Async,
    Unsafe,
    Const,
    AsyncGen,
    Gen,
    Label(AstRef),
}

/// An arithmetic operator, alone or in a compound assignment.
#[derive(Copy, Clone, PartialEq, Eq, Structural, Debug)]
pub enum ArithOp {
    Add,
    Mul,
    Sub,
    Div,
    Rem,
    Shl,
    Shr,
    BitXor,
    BitOr,
    BitAnd,
}

/// A short-circuiting boolean operator.
#[derive(Copy, Clone, PartialEq, Eq, Structural, Debug)]
pub enum LogicOp {
    And,
    Or,
}

/// A comparison: `==`/`!=`, or one of `<`, `<=`, `>`, `>=`.
#[derive(Copy, Clone, PartialEq, Eq, Structural, Debug)]
pub enum CmpOp {
    Eq { negated: bool },
    Ord { greater: bool, strict: bool },
}

/// A binary operator.
#[derive(Copy, Clone, PartialEq, Eq, Structural, Debug)]
pub enum BinaryOp {
    LogicOp(LogicOp),
    ArithOp(ArithOp),
    CmpOp(CmpOp),
    Assignment { op: Option<ArithOp> },
}

/// The token an arithmetic or bitwise operator is written with in Rust.
pub open spec fn arith_token(a: ArithOp) -> Seq<char> {
    match a {
        ArithOp::Add => seq!['+'],
        ArithOp::Mul => seq!['*'],
        ArithOp::Sub => seq!['-'],
        ArithOp::Div => seq!['/'],
        ArithOp::Rem => seq!['%'],
        ArithOp::Shl => seq!['<', '<'],
        ArithOp::Shr => seq!['>', '>'],
        ArithOp::BitXor => seq!['^'],
        ArithOp::BitOr => seq!['|'],
        ArithOp::BitAnd => seq!['&'],
    }
}

/// The token a comparison is written with in Rust.
pub open spec fn comparison_token(c: CmpOp) -> Seq<char> {
    match c {
        CmpOp::Eq { negated } => if negated { seq!['!', '='] } else { seq!['=', '='] },
        CmpOp::Ord { greater, strict } => {
            let sign = if greater { '>' } else { '<' };
            if strict { seq![sign] } else { seq![sign, '='] }
        },
    }
}

/// The token a binary operator is written with in Rust.
pub open spec fn rust_token(op: BinaryOp) -> Seq<char> {
    match op {
        BinaryOp::LogicOp(l) => match l {
            LogicOp::And => seq!['&', '&'],
            LogicOp::Or => seq!['|', '|'],
        },
        BinaryOp::ArithOp(a) => arith_token(a),
        BinaryOp::CmpOp(c) => comparison_token(c),
        BinaryOp::Assignment { op } => match op {
            None => seq!['='],
            Some(a) => arith_token(a).push('='),
        },
    }
}

/// A prefix operator.
#[derive(Copy, Clone, PartialEq, Eq, Structural, Debug)]
pub enum UnaryOp {
    Deref,
    Not,
    Neg,
}

/// `..` or `..=`.
#[derive(Copy, Clone, PartialEq, Eq, Structural, Debug)]
pub enum RangeOp {
    Exclusive,
    Inclusive,
}

/// The kind of a literal, with the token it was written as.
#[derive(Copy, Clone, PartialEq, Eq, Structural, Debug)]
pub enum LiteralKind {
    String(AstRef),
    ByteString(AstRef),
    CString(AstRef),
    IntNumber(AstRef),
    FloatNumber(AstRef),
    Char(AstRef),
    Byte(AstRef),
    Bool(bool),
}

/// A path: one written in the source, a name looked up in a macro call's
/// scope, or the variable that an identifier pattern binds.
pub enum Path {
    Ast(AstRef),
    ScopedName { scope: AstRef, name: String },
    IdentPat(AstRef),
}

/// A name reference: one written in the source, or a C# name.
pub enum NameRef {
    Ast(AstRef),
    CSharp(String),
}

/// An expression.
pub enum Expr {
    RawCodeExpr(RawCodeExpr),
    ArrayRepeatExpr(ArrayRepeatExpr),
    ArrayElementListExpr(ArrayElementListExpr),
    AwaitExpr(AwaitExpr),
    BinExpr(BinExpr),
    BlockExpr(BlockExpr),
    BreakExpr(BreakExpr),
    CallExpr(CallExpr),
    CastExpr(CastExpr),
    ClosureExpr(ClosureExpr),
    ContinueExpr(ContinueExpr),
    FieldExpr(FieldExpr),
    ForExpr(ForExpr),
    IfExpr(IfExpr),
    IndexExpr(IndexExpr),
    LetExpr(LetExpr),
    Literal(Literal),
    LoopExpr(LoopExpr),
    MatchExpr(MatchExpr),
    MethodCallExpr(MethodCallExpr),
    PathExpr(PathExpr),
    PrefixExpr(PrefixExpr),
    RangeExpr(RangeExpr),
    RecordExpr(RecordExpr),
    RefExpr(RefExpr),
    ReturnExpr(ReturnExpr),
    TryExpr(TryExpr),
    TupleExpr(TupleExpr),
    UnderscoreExpr(UnderscoreExpr),
    WhileExpr(WhileExpr),
    FormatArgsExpr(FormatArgsExpr),
    VecRepeatExpr(VecRepeatExpr),
    VecListExpr(VecListExpr),
    MacroStmts(MacroStmts),
}

/// C# code written out already; `divergent` when it never completes.
pub struct RawCodeExpr {
    pub code: Code,
    pub divergent: bool,
    pub node_info: Info,
}

pub struct ArrayRepeatExpr {
    pub initializer: Box<Expr>,
    pub repeat: Box<Expr>,
    pub node_info: Info,
}

pub struct ArrayElementListExpr {
    pub elements: ChildrenContainer<Expr>,
    pub node_info: Info,
}

pub struct AwaitExpr {
    pub expr: Box<Expr>,
    pub node_info: Info,
}

pub struct BinExpr {
    pub lhs: Box<Expr>,
    pub rhs: Box<Expr>,
    pub op_kind: BinaryOp,
    pub node_info: Info,
}

pub struct BlockExpr {
    pub modifier: Option<BlockModifier>,
    pub statements: ChildrenContainer<Stmt>,
    pub tail_expr: Option<Box<Expr>>,
    pub node_info: Info,
}

pub struct BreakExpr {
    pub expr: Option<Box<Expr>>,
    pub lifetime: Option<AstRef>,
    pub node_info: Info,
}

pub struct CallExpr {
    pub expr: Box<Expr>,
    pub arg_list: ArgList,
    pub node_info: Info,
}

pub struct CastExpr {
    pub expr: Box<Expr>,
    pub ty: AstRef,
    pub node_info: Info,
}

pub struct ClosureExpr {
    pub async_token: bool,
    pub param_list: ParamList,
    pub body: Box<Expr>,
    pub node_info: Info,
}

pub struct ContinueExpr {
    pub lifetime: Option<AstRef>,
    pub node_info: Info,
}

pub struct FieldExpr {
    pub expr: Box<Expr>,
    pub name_ref: NameRef,
    pub node_info: Info,
}

pub struct ForExpr {
    pub pat: Pat,
    pub iterable: Box<Expr>,
    pub label: Option<AstRef>,
    pub loop_body: BlockExpr,
    pub node_info: Info,
}

pub struct IfExpr {
    pub condition: Box<Expr>,
    pub then_branch: BlockExpr,
    pub else_branch: Option<Box<ElseBranch>>,
    pub node_info: Info,
}

pub struct IndexExpr {
    pub base: Box<Expr>,
    pub index: Box<Expr>,
    pub node_info: Info,
}

pub struct LetExpr {
    pub pat: Pat,
    pub expr: Box<Expr>,
    pub node_info: Info,
}

pub struct Literal {
    pub kind: LiteralKind,
    pub node_info: Info,
}

pub struct LoopExpr {
    pub label: Option<AstRef>,
    pub loop_body: BlockExpr,
    pub node_info: Info,
}

pub struct MatchExpr {
    pub expr: Box<Expr>,
    pub match_arm_list: MatchArmList,
    pub node_info: Info,
}

pub struct MethodCallExpr {
    pub receiver: Box<Expr>,
    pub name_ref: NameRef,
    pub arg_list: ArgList,
    pub node_info: Info,
}

pub struct PathExpr {
    pub path: Path,
    pub node_info: Info,
}

pub struct PrefixExpr {
    pub op_kind: UnaryOp,
    pub expr: Box<Expr>,
    pub node_info: Info,
}

pub struct RangeExpr {
    pub start: Option<Box<Expr>>,
    pub end: Option<Box<Expr>>,
    pub op_kind: RangeOp,
    pub node_info: Info,
}

pub struct RecordExpr {
    pub record_expr_field_list: RecordExprFieldList,
    pub node_info: Info,
}

pub struct RefExpr {
    pub expr: Box<Expr>,
    pub node_info: Info,
}

pub struct ReturnExpr {
    pub expr: Option<Box<Expr>>,
    pub node_info: Info,
}

pub struct TryExpr {
    pub expr: Box<Expr>,
    pub node_info: Info,
}

pub struct TupleExpr {
    pub fields: ChildrenContainer<Expr>,
    pub node_info: Info,
}

pub struct UnderscoreExpr {
    pub node_info: Info,
}

pub struct WhileExpr {
    pub label: AstRef,
    pub condition: Box<Expr>,
    pub loop_body: BlockExpr,
    pub node_info: Info,
}

/// `format_args!` with its format string taken apart.
pub struct FormatArgsExpr {
    pub segments: ChildrenContainer<FormatArgsSegment>,
    pub node_info: Info,
}

/// `vec![initializer; repeat]`.
pub struct VecRepeatExpr {
    pub initializer: Option<Box<Expr>>,
    pub repeat: Option<Box<Expr>>,
    pub node_info: Info,
}

/// `vec![elements...]`.
pub struct VecListExpr {
    pub elements: ChildrenContainer<Expr>,
    pub node_info: Info,
}

/// Statements that a macro expands to: like a block, but with no scope of
/// their own; only valid as a statement or in tail position.
pub struct MacroStmts {
    pub statements: ChildrenContainer<Stmt>,
    pub tail_expr: Option<Box<Expr>>,
    pub node_info: Info,
}

/// What follows `else`.
pub enum ElseBranch {
    Block(BlockExpr),
    IfExpr(IfExpr),
}

pub struct MatchArmList {
    pub arms: ChildrenContainer<MatchArm>,
    pub node_info: Info,
}

pub struct ArgList {
    pub args: ChildrenContainer<Expr>,
    pub node_info: Info,
}

pub struct MatchArm {
    pub pat: Pat,
    pub guard: Option<Expr>,
    pub expr: Expr,
    pub node_info: Info,
}

pub struct RecordExprFieldList {
    pub fields: ChildrenContainer<RecordExprField>,
    pub spread: Option<Box<Expr>>,
    pub node_info: Info,
}

pub struct RecordExprField {
    pub field_name: Option<NameRef>,
    pub expr: Expr,
    pub node_info: Info,
}

pub struct ParamList {
    pub self_param: Option<SelfParam>,
    pub params: ChildrenContainer<Param>,
    pub node_info: Info,
}

pub struct SelfParam {
    pub node_info: Info,
}

pub struct Param {
    pub pat: Pat,
    pub node_info: Info,
}

/// A statement.
pub enum Stmt {
    ExprStmt(ExprStmt),
    LetStmt(LetStmt),
    Item(AstRef),
}

pub struct ExprStmt {
    pub expr: Expr,
    pub node_info: Info,
}

pub struct LetStmt {
    pub pat: Pat,
    pub initializer: Option<Expr>,
    pub let_else: Option<LetElse>,
    pub node_info: Info,
}

pub struct LetElse {
    pub block_expr: BlockExpr,
    pub node_info: Info,
}

/// A piece of a format string: text, an escaped brace, or a value to format.
pub enum FormatArgsSegment {
    Literal(String),
    Braces(char),
    Expr(Expr),
}

/// A pattern.
pub enum Pat {
    IdentPat(IdentPat),
    LiteralPat(LiteralPat),
    OrPat(OrPat),
    PathPat(PathPat),
    RangePat(RangePat),
    RecordPat(RecordPat),
    RefPat(RefPat),
    RestPat(RestPat),
    SlicePat(SlicePat),
    TuplePat(TuplePat),
    TupleStructPat(TupleStructPat),
    WildcardPat(WildcardPat),
}

/// An identifier pattern; `binds_local` when the name declares a new local
/// variable (rather than naming a constant or a unit variant).
pub struct IdentPat {
    pub name: AstRef,
    pub pat: Option<Box<Pat>>,
    pub binds_local: bool,
    pub node_info: Info,
}

pub struct LiteralPat {
    pub literal: Literal,
    pub node_info: Info,
}

pub struct OrPat {
    pub pats: ChildrenContainer<Pat>,
    pub node_info: Info,
}

pub struct PathPat {
    pub path: Path,
    pub node_info: Info,
}

pub struct RangePat {
    pub start: Option<Box<Pat>>,
    pub end: Option<Box<Pat>>,
    pub op_kind: RangeOp,
    pub node_info: Info,
}

pub struct RecordPat {
    pub path: Path,
    pub record_pat_field_list: RecordPatFieldList,
    pub node_info: Info,
}

pub struct RefPat {
    pub pat: Box<Pat>,
    pub mut_token: bool,
    pub node_info: Info,
}

pub struct RestPat {
    pub node_info: Info,
}

pub struct SlicePat {
    pub components: SlicePatComponents,
    pub node_info: Info,
}

pub struct TuplePat {
    pub fields: ChildrenContainer<Pat>,
    pub node_info: Info,
}

pub struct TupleStructPat {
    pub path: Path,
    pub fields: ChildrenContainer<Pat>,
    pub node_info: Info,
}

pub struct WildcardPat {
    pub node_info: Info,
}

pub struct RecordPatFieldList {
    pub fields: ChildrenContainer<RecordPatField>,
    pub rest: bool,
    pub node_info: Info,
}

/// The parts of a slice pattern: before the `..` binding, it, and after it.
pub struct SlicePatComponents {
    pub prefix: ChildrenContainer<Pat>,
    pub slice: Option<Box<Pat>>,
    pub suffix: ChildrenContainer<Pat>,
    pub node_info: Info,
}

pub struct RecordPatField {
    pub name_ref: NameRef,
    pub pat: Pat,
    pub node_info: Info,
}

/// A function, as far as the passes over its body see it.
pub struct Function {
    pub body: Option<BlockExpr>,
    pub node_info: Info,
}

/// The syntax node an expression was lowered from, if any.
pub open spec fn expr_info(e: Expr) -> Info {
    match e {
        Expr::RawCodeExpr(x) => x.node_info,
        Expr::ArrayRepeatExpr(x) => x.node_info,
        Expr::ArrayElementListExpr(x) => x.node_info,
        Expr::AwaitExpr(x) => x.node_info,
        Expr::BinExpr(x) => x.node_info,
        Expr::BlockExpr(x) => x.node_info,
        Expr::BreakExpr(x) => x.node_info,
        Expr::CallExpr(x) => x.node_info,
        Expr::CastExpr(x) => x.node_info,
        Expr::ClosureExpr(x) => x.node_info,
        Expr::ContinueExpr(x) => x.node_info,
        Expr::FieldExpr(x) => x.node_info,
        Expr::ForExpr(x) => x.node_info,
        Expr::IfExpr(x) => x.node_info,
        Expr::IndexExpr(x) => x.node_info,
        Expr::LetExpr(x) => x.node_info,
        Expr::Literal(x) => x.node_info,
        Expr::LoopExpr(x) => x.node_info,
        Expr::MatchExpr(x) => x.node_info,
        Expr::MethodCallExpr(x) => x.node_info,
        Expr::PathExpr(x) => x.node_info,
        Expr::PrefixExpr(x) => x.node_info,
        Expr::RangeExpr(x) => x.node_info,
        Expr::RecordExpr(x) => x.node_info,
        Expr::RefExpr(x) => x.node_info,
        Expr::ReturnExpr(x) => x.node_info,
        Expr::TryExpr(x) => x.node_info,
        Expr::TupleExpr(x) => x.node_info,
        Expr::UnderscoreExpr(x) => x.node_info,
        Expr::WhileExpr(x) => x.node_info,
        Expr::FormatArgsExpr(x) => x.node_info,
        Expr::VecRepeatExpr(x) => x.node_info,
        Expr::VecListExpr(x) => x.node_info,
        Expr::MacroStmts(x) => x.node_info,
    }
}

impl Expr {
    /// The syntax node this expression was lowered from, if any.
    pub fn node_info(&self) -> (r: Info)
        ensures
            r == expr_info(*self),
    {
        match self {
            Expr::RawCodeExpr(x) => x.node_info,
            Expr::ArrayRepeatExpr(x) => x.node_info,
            Expr::ArrayElementListExpr(x) => x.node_info,
            Expr::AwaitExpr(x) => x.node_info,
            Expr::BinExpr(x) => x.node_info,
            Expr::BlockExpr(x) => x.node_info,
            Expr::BreakExpr(x) => x.node_info,
            Expr::CallExpr(x) => x.node_info,
            Expr::CastExpr(x) => x.node_info,
            Expr::ClosureExpr(x) => x.node_info,
            Expr::ContinueExpr(x) => x.node_info,
            Expr::FieldExpr(x) => x.node_info,
            Expr::ForExpr(x) => x.node_info,
            Expr::IfExpr(x) => x.node_info,
            Expr::IndexExpr(x) => x.node_info,
            Expr::LetExpr(x) => x.node_info,
            Expr::Literal(x) => x.node_info,
            Expr::LoopExpr(x) => x.node_info,
            Expr::MatchExpr(x) => x.node_info,
            Expr::MethodCallExpr(x) => x.node_info,
            Expr::PathExpr(x) => x.node_info,
            Expr::PrefixExpr(x) => x.node_info,
            Expr::RangeExpr(x) => x.node_info,
            Expr::RecordExpr(x) => x.node_info,
            Expr::RefExpr(x) => x.node_info,
            Expr::ReturnExpr(x) => x.node_info,
            Expr::TryExpr(x) => x.node_info,
            Expr::TupleExpr(x) => x.node_info,
            Expr::UnderscoreExpr(x) => x.node_info,
            Expr::WhileExpr(x) => x.node_info,
            Expr::FormatArgsExpr(x) => x.node_info,
            Expr::VecRepeatExpr(x) => x.node_info,
            Expr::VecListExpr(x) => x.node_info,
            Expr::MacroStmts(x) => x.node_info,
        }
    }
}

} // verus!
