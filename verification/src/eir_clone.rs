//! Deep copies of expression IR nodes, equal to what they copy.

use vstd::prelude::*;
use crate::eir::{
    ChildrenContainer,
    Path,
    NameRef,
    Expr,
    RawCodeExpr,
    ArrayRepeatExpr,
    ArrayElementListExpr,
    AwaitExpr,
    BinExpr,
    BlockExpr,
    BreakExpr,
    CallExpr,
    CastExpr,
    ClosureExpr,
    ContinueExpr,
    FieldExpr,
    ForExpr,
    IfExpr,
    IndexExpr,
    LetExpr,
    Literal,
    LoopExpr,
    MatchExpr,
    MethodCallExpr,
    PathExpr,
    PrefixExpr,
    RangeExpr,
    RecordExpr,
    RefExpr,
    ReturnExpr,
    TryExpr,
    TupleExpr,
    UnderscoreExpr,
    WhileExpr,
    FormatArgsExpr,
    VecRepeatExpr,
    VecListExpr,
    MacroStmts,
    ElseBranch,
    MatchArmList,
    ArgList,
    MatchArm,
    RecordExprFieldList,
    RecordExprField,
    ParamList,
    SelfParam,
    Param,
    Stmt,
    ExprStmt,
    LetStmt,
    LetElse,
    FormatArgsSegment,
    Pat,
    IdentPat,
    LiteralPat,
    OrPat,
    PathPat,
    RangePat,
    RecordPat,
    RefPat,
    RestPat,
    SlicePat,
    TuplePat,
    TupleStructPat,
    WildcardPat,
    RecordPatFieldList,
    SlicePatComponents,
    RecordPatField,
};

verus! {

pub fn clone_raw_code_expr(x: &RawCodeExpr) -> (r: RawCodeExpr)
    ensures
        r == *x,
    decreases x,
{
    RawCodeExpr {
        code: x.code.clone(),
        divergent: x.divergent,
        node_info: x.node_info,
    }
}

pub fn clone_array_repeat_expr(x: &ArrayRepeatExpr) -> (r: ArrayRepeatExpr)
    ensures
        r == *x,
    decreases x,
{
    ArrayRepeatExpr {
        initializer: Box::new(clone_expr(&*x.initializer)),
        repeat: Box::new(clone_expr(&*x.repeat)),
        node_info: x.node_info,
    }
}

pub fn clone_array_element_list_expr(x: &ArrayElementListExpr) -> (r: ArrayElementListExpr)
    ensures
        r == *x,
    decreases x,
{
    ArrayElementListExpr {
        elements: clone_exprs(&x.elements),
        node_info: x.node_info,
    }
}

pub fn clone_await_expr(x: &AwaitExpr) -> (r: AwaitExpr)
    ensures
        r == *x,
    decreases x,
{
    AwaitExpr {
        expr: Box::new(clone_expr(&*x.expr)),
        node_info: x.node_info,
    }
}

pub fn clone_bin_expr(x: &BinExpr) -> (r: BinExpr)
    ensures
        r == *x,
    decreases x,
{
    BinExpr {
        lhs: Box::new(clone_expr(&*x.lhs)),
        rhs: Box::new(clone_expr(&*x.rhs)),
        op_kind: x.op_kind,
        node_info: x.node_info,
    }
}

pub fn clone_block_expr(x: &BlockExpr) -> (r: BlockExpr)
    ensures
        r == *x,
    decreases x,
{
    BlockExpr {
        modifier: x.modifier,
        statements: clone_stmts(&x.statements),
        tail_expr: clone_opt_box_expr(&x.tail_expr),
        node_info: x.node_info,
    }
}

pub fn clone_break_expr(x: &BreakExpr) -> (r: BreakExpr)
    ensures
        r == *x,
    decreases x,
{
    BreakExpr {
        expr: clone_opt_box_expr(&x.expr),
        lifetime: x.lifetime,
        node_info: x.node_info,
    }
}

pub fn clone_call_expr(x: &CallExpr) -> (r: CallExpr)
    ensures
        r == *x,
    decreases x,
{
    CallExpr {
        expr: Box::new(clone_expr(&*x.expr)),
        arg_list: clone_arg_list(&x.arg_list),
        node_info: x.node_info,
    }
}

pub fn clone_cast_expr(x: &CastExpr) -> (r: CastExpr)
    ensures
        r == *x,
    decreases x,
{
    CastExpr {
        expr: Box::new(clone_expr(&*x.expr)),
        ty: x.ty,
        node_info: x.node_info,
    }
}

pub fn clone_closure_expr(x: &ClosureExpr) -> (r: ClosureExpr)
    ensures
        r == *x,
    decreases x,
{
    ClosureExpr {
        async_token: x.async_token,
        param_list: clone_param_list(&x.param_list),
        body: Box::new(clone_expr(&*x.body)),
        node_info: x.node_info,
    }
}

pub fn clone_continue_expr(x: &ContinueExpr) -> (r: ContinueExpr)
    ensures
        r == *x,
    decreases x,
{
    ContinueExpr {
        lifetime: x.lifetime,
        node_info: x.node_info,
    }
}

pub fn clone_field_expr(x: &FieldExpr) -> (r: FieldExpr)
    ensures
        r == *x,
    decreases x,
{
    FieldExpr {
        expr: Box::new(clone_expr(&*x.expr)),
        name_ref: clone_name_ref(&x.name_ref),
        node_info: x.node_info,
    }
}

pub fn clone_for_expr(x: &ForExpr) -> (r: ForExpr)
    ensures
        r == *x,
    decreases x,
{
    ForExpr {
        pat: clone_pat(&x.pat),
        iterable: Box::new(clone_expr(&*x.iterable)),
        label: x.label,
        loop_body: clone_block_expr(&x.loop_body),
        node_info: x.node_info,
    }
}

pub fn clone_if_expr(x: &IfExpr) -> (r: IfExpr)
    ensures
        r == *x,
    decreases x,
{
    IfExpr {
        condition: Box::new(clone_expr(&*x.condition)),
        then_branch: clone_block_expr(&x.then_branch),
        else_branch: clone_opt_box_else_branch(&x.else_branch),
        node_info: x.node_info,
    }
}

pub fn clone_index_expr(x: &IndexExpr) -> (r: IndexExpr)
    ensures
        r == *x,
    decreases x,
{
    IndexExpr {
        base: Box::new(clone_expr(&*x.base)),
        index: Box::new(clone_expr(&*x.index)),
        node_info: x.node_info,
    }
}

pub fn clone_let_expr(x: &LetExpr) -> (r: LetExpr)
    ensures
        r == *x,
    decreases x,
{
    LetExpr {
        pat: clone_pat(&x.pat),
        expr: Box::new(clone_expr(&*x.expr)),
        node_info: x.node_info,
    }
}

pub fn clone_literal(x: &Literal) -> (r: Literal)
    ensures
        r == *x,
    decreases x,
{
    Literal {
        kind: x.kind,
        node_info: x.node_info,
    }
}

pub fn clone_loop_expr(x: &LoopExpr) -> (r: LoopExpr)
    ensures
        r == *x,
    decreases x,
{
    LoopExpr {
        label: x.label,
        loop_body: clone_block_expr(&x.loop_body),
        node_info: x.node_info,
    }
}

pub fn clone_match_expr(x: &MatchExpr) -> (r: MatchExpr)
    ensures
        r == *x,
    decreases x,
{
    MatchExpr {
        expr: Box::new(clone_expr(&*x.expr)),
        match_arm_list: clone_match_arm_list(&x.match_arm_list),
        node_info: x.node_info,
    }
}

pub fn clone_method_call_expr(x: &MethodCallExpr) -> (r: MethodCallExpr)
    ensures
        r == *x,
    decreases x,
{
    MethodCallExpr {
        receiver: Box::new(clone_expr(&*x.receiver)),
        name_ref: clone_name_ref(&x.name_ref),
        arg_list: clone_arg_list(&x.arg_list),
        node_info: x.node_info,
    }
}

pub fn clone_path_expr(x: &PathExpr) -> (r: PathExpr)
    ensures
        r == *x,
    decreases x,
{
    PathExpr {
        path: clone_path(&x.path),
        node_info: x.node_info,
    }
}

pub fn clone_prefix_expr(x: &PrefixExpr) -> (r: PrefixExpr)
    ensures
        r == *x,
    decreases x,
{
    PrefixExpr {
        op_kind: x.op_kind,
        expr: Box::new(clone_expr(&*x.expr)),
        node_info: x.node_info,
    }
}

pub fn clone_range_expr(x: &RangeExpr) -> (r: RangeExpr)
    ensures
        r == *x,
    decreases x,
{
    RangeExpr {
        start: clone_opt_box_expr(&x.start),
        end: clone_opt_box_expr(&x.end),
        op_kind: x.op_kind,
        node_info: x.node_info,
    }
}

pub fn clone_record_expr(x: &RecordExpr) -> (r: RecordExpr)
    ensures
        r == *x,
    decreases x,
{
    RecordExpr {
        record_expr_field_list: clone_record_expr_field_list(&x.record_expr_field_list),
        node_info: x.node_info,
    }
}

pub fn clone_ref_expr(x: &RefExpr) -> (r: RefExpr)
    ensures
        r == *x,
    decreases x,
{
    RefExpr {
        expr: Box::new(clone_expr(&*x.expr)),
        node_info: x.node_info,
    }
}

pub fn clone_return_expr(x: &ReturnExpr) -> (r: ReturnExpr)
    ensures
        r == *x,
    decreases x,
{
    ReturnExpr {
        expr: clone_opt_box_expr(&x.expr),
        node_info: x.node_info,
    }
}

pub fn clone_try_expr(x: &TryExpr) -> (r: TryExpr)
    ensures
        r == *x,
    decreases x,
{
    TryExpr {
        expr: Box::new(clone_expr(&*x.expr)),
        node_info: x.node_info,
    }
}

pub fn clone_tuple_expr(x: &TupleExpr) -> (r: TupleExpr)
    ensures
        r == *x,
    decreases x,
{
    TupleExpr {
        fields: clone_exprs(&x.fields),
        node_info: x.node_info,
    }
}

pub fn clone_underscore_expr(x: &UnderscoreExpr) -> (r: UnderscoreExpr)
    ensures
        r == *x,
    decreases x,
{
    UnderscoreExpr {
        node_info: x.node_info,
    }
}

pub fn clone_while_expr(x: &WhileExpr) -> (r: WhileExpr)
    ensures
        r == *x,
    decreases x,
{
    WhileExpr {
        label: x.label,
        condition: Box::new(clone_expr(&*x.condition)),
        loop_body: clone_block_expr(&x.loop_body),
        node_info: x.node_info,
    }
}

pub fn clone_format_args_expr(x: &FormatArgsExpr) -> (r: FormatArgsExpr)
    ensures
        r == *x,
    decreases x,
{
    FormatArgsExpr {
        segments: clone_segments(&x.segments),
        node_info: x.node_info,
    }
}

pub fn clone_vec_repeat_expr(x: &VecRepeatExpr) -> (r: VecRepeatExpr)
    ensures
        r == *x,
    decreases x,
{
    VecRepeatExpr {
        initializer: clone_opt_box_expr(&x.initializer),
        repeat: clone_opt_box_expr(&x.repeat),
        node_info: x.node_info,
    }
}

pub fn clone_vec_list_expr(x: &VecListExpr) -> (r: VecListExpr)
    ensures
        r == *x,
    decreases x,
{
    VecListExpr {
        elements: clone_exprs(&x.elements),
        node_info: x.node_info,
    }
}

pub fn clone_macro_stmts(x: &MacroStmts) -> (r: MacroStmts)
    ensures
        r == *x,
    decreases x,
{
    MacroStmts {
        statements: clone_stmts(&x.statements),
        tail_expr: clone_opt_box_expr(&x.tail_expr),
        node_info: x.node_info,
    }
}

pub fn clone_match_arm_list(x: &MatchArmList) -> (r: MatchArmList)
    ensures
        r == *x,
    decreases x,
{
    MatchArmList {
        arms: clone_arms(&x.arms),
        node_info: x.node_info,
    }
}

pub fn clone_arg_list(x: &ArgList) -> (r: ArgList)
    ensures
        r == *x,
    decreases x,
{
    ArgList {
        args: clone_exprs(&x.args),
        node_info: x.node_info,
    }
}

pub fn clone_match_arm(x: &MatchArm) -> (r: MatchArm)
    ensures
        r == *x,
    decreases x,
{
    MatchArm {
        pat: clone_pat(&x.pat),
        guard: clone_opt_expr(&x.guard),
        expr: clone_expr(&x.expr),
        node_info: x.node_info,
    }
}

pub fn clone_record_expr_field_list(x: &RecordExprFieldList) -> (r: RecordExprFieldList)
    ensures
        r == *x,
    decreases x,
{
    RecordExprFieldList {
        fields: clone_record_expr_fields(&x.fields),
        spread: clone_opt_box_expr(&x.spread),
        node_info: x.node_info,
    }
}

pub fn clone_record_expr_field(x: &RecordExprField) -> (r: RecordExprField)
    ensures
        r == *x,
    decreases x,
{
    RecordExprField {
        field_name: clone_opt_name_ref(&x.field_name),
        expr: clone_expr(&x.expr),
        node_info: x.node_info,
    }
}

pub fn clone_param_list(x: &ParamList) -> (r: ParamList)
    ensures
        r == *x,
    decreases x,
{
    ParamList {
        self_param: clone_opt_self_param(&x.self_param),
        params: clone_params(&x.params),
        node_info: x.node_info,
    }
}

pub fn clone_self_param(x: &SelfParam) -> (r: SelfParam)
    ensures
        r == *x,
    decreases x,
{
    SelfParam {
        node_info: x.node_info,
    }
}

pub fn clone_param(x: &Param) -> (r: Param)
    ensures
        r == *x,
    decreases x,
{
    Param {
        pat: clone_pat(&x.pat),
        node_info: x.node_info,
    }
}

pub fn clone_expr_stmt(x: &ExprStmt) -> (r: ExprStmt)
    ensures
        r == *x,
    decreases x,
{
    ExprStmt {
        expr: clone_expr(&x.expr),
        node_info: x.node_info,
    }
}

pub fn clone_let_stmt(x: &LetStmt) -> (r: LetStmt)
    ensures
        r == *x,
    decreases x,
{
    LetStmt {
        pat: clone_pat(&x.pat),
        initializer: clone_opt_expr(&x.initializer),
        let_else: clone_opt_let_else(&x.let_else),
        node_info: x.node_info,
    }
}

pub fn clone_let_else(x: &LetElse) -> (r: LetElse)
    ensures
        r == *x,
    decreases x,
{
    LetElse {
        block_expr: clone_block_expr(&x.block_expr),
        node_info: x.node_info,
    }
}

pub fn clone_ident_pat(x: &IdentPat) -> (r: IdentPat)
    ensures
        r == *x,
    decreases x,
{
    IdentPat {
        name: x.name,
        pat: clone_opt_box_pat(&x.pat),
        binds_local: x.binds_local,
        node_info: x.node_info,
    }
}

pub fn clone_literal_pat(x: &LiteralPat) -> (r: LiteralPat)
    ensures
        r == *x,
    decreases x,
{
    LiteralPat {
        literal: clone_literal(&x.literal),
        node_info: x.node_info,
    }
}

pub fn clone_or_pat(x: &OrPat) -> (r: OrPat)
    ensures
        r == *x,
    decreases x,
{
    OrPat {
        pats: clone_pats(&x.pats),
        node_info: x.node_info,
    }
}

pub fn clone_path_pat(x: &PathPat) -> (r: PathPat)
    ensures
        r == *x,
    decreases x,
{
    PathPat {
        path: clone_path(&x.path),
        node_info: x.node_info,
    }
}

pub fn clone_range_pat(x: &RangePat) -> (r: RangePat)
    ensures
        r == *x,
    decreases x,
{
    RangePat {
        start: clone_opt_box_pat(&x.start),
        end: clone_opt_box_pat(&x.end),
        op_kind: x.op_kind,
        node_info: x.node_info,
    }
}

pub fn clone_record_pat(x: &RecordPat) -> (r: RecordPat)
    ensures
        r == *x,
    decreases x,
{
    RecordPat {
        path: clone_path(&x.path),
        record_pat_field_list: clone_record_pat_field_list(&x.record_pat_field_list),
        node_info: x.node_info,
    }
}

pub fn clone_ref_pat(x: &RefPat) -> (r: RefPat)
    ensures
        r == *x,
    decreases x,
{
    RefPat {
        pat: Box::new(clone_pat(&*x.pat)),
        mut_token: x.mut_token,
        node_info: x.node_info,
    }
}

pub fn clone_rest_pat(x: &RestPat) -> (r: RestPat)
    ensures
        r == *x,
    decreases x,
{
    RestPat {
        node_info: x.node_info,
    }
}

pub fn clone_slice_pat(x: &SlicePat) -> (r: SlicePat)
    ensures
        r == *x,
    decreases x,
{
    SlicePat {
        components: clone_slice_pat_components(&x.components),
        node_info: x.node_info,
    }
}

pub fn clone_tuple_pat(x: &TuplePat) -> (r: TuplePat)
    ensures
        r == *x,
    decreases x,
{
    TuplePat {
        fields: clone_pats(&x.fields),
        node_info: x.node_info,
    }
}

pub fn clone_tuple_struct_pat(x: &TupleStructPat) -> (r: TupleStructPat)
    ensures
        r == *x,
    decreases x,
{
    TupleStructPat {
        path: clone_path(&x.path),
        fields: clone_pats(&x.fields),
        node_info: x.node_info,
    }
}

pub fn clone_wildcard_pat(x: &WildcardPat) -> (r: WildcardPat)
    ensures
        r == *x,
    decreases x,
{
    WildcardPat {
        node_info: x.node_info,
    }
}

pub fn clone_record_pat_field_list(x: &RecordPatFieldList) -> (r: RecordPatFieldList)
    ensures
        r == *x,
    decreases x,
{
    RecordPatFieldList {
        fields: clone_record_pat_fields(&x.fields),
        rest: x.rest,
        node_info: x.node_info,
    }
}

pub fn clone_slice_pat_components(x: &SlicePatComponents) -> (r: SlicePatComponents)
    ensures
        r == *x,
    decreases x,
{
    SlicePatComponents {
        prefix: clone_pats(&x.prefix),
        slice: clone_opt_box_pat(&x.slice),
        suffix: clone_pats(&x.suffix),
        node_info: x.node_info,
    }
}

pub fn clone_record_pat_field(x: &RecordPatField) -> (r: RecordPatField)
    ensures
        r == *x,
    decreases x,
{
    RecordPatField {
        name_ref: clone_name_ref(&x.name_ref),
        pat: clone_pat(&x.pat),
        node_info: x.node_info,
    }
}

pub fn clone_exprs(c: &ChildrenContainer<Expr>) -> (r: ChildrenContainer<Expr>)
    ensures
        r == *c,
    decreases c,
{
    match c {
        ChildrenContainer::Empty => ChildrenContainer::Empty,
        ChildrenContainer::More(first, rest) => ChildrenContainer::More(
            Box::new(clone_expr(&**first)),
            Box::new(clone_exprs(&**rest)),
        ),
    }
}

pub fn clone_stmts(c: &ChildrenContainer<Stmt>) -> (r: ChildrenContainer<Stmt>)
    ensures
        r == *c,
    decreases c,
{
    match c {
        ChildrenContainer::Empty => ChildrenContainer::Empty,
        ChildrenContainer::More(first, rest) => ChildrenContainer::More(
            Box::new(clone_stmt(&**first)),
            Box::new(clone_stmts(&**rest)),
        ),
    }
}

pub fn clone_pats(c: &ChildrenContainer<Pat>) -> (r: ChildrenContainer<Pat>)
    ensures
        r == *c,
    decreases c,
{
    match c {
        ChildrenContainer::Empty => ChildrenContainer::Empty,
        ChildrenContainer::More(first, rest) => ChildrenContainer::More(
            Box::new(clone_pat(&**first)),
            Box::new(clone_pats(&**rest)),
        ),
    }
}

pub fn clone_arms(c: &ChildrenContainer<MatchArm>) -> (r: ChildrenContainer<MatchArm>)
    ensures
        r == *c,
    decreases c,
{
    match c {
        ChildrenContainer::Empty => ChildrenContainer::Empty,
        ChildrenContainer::More(first, rest) => ChildrenContainer::More(
            Box::new(clone_match_arm(&**first)),
            Box::new(clone_arms(&**rest)),
        ),
    }
}

pub fn clone_record_expr_fields(c: &ChildrenContainer<RecordExprField>) -> (r: ChildrenContainer<RecordExprField>)
    ensures
        r == *c,
    decreases c,
{
    match c {
        ChildrenContainer::Empty => ChildrenContainer::Empty,
        ChildrenContainer::More(first, rest) => ChildrenContainer::More(
            Box::new(clone_record_expr_field(&**first)),
            Box::new(clone_record_expr_fields(&**rest)),
        ),
    }
}

pub fn clone_params(c: &ChildrenContainer<Param>) -> (r: ChildrenContainer<Param>)
    ensures
        r == *c,
    decreases c,
{
    match c {
        ChildrenContainer::Empty => ChildrenContainer::Empty,
        ChildrenContainer::More(first, rest) => ChildrenContainer::More(
            Box::new(clone_param(&**first)),
            Box::new(clone_params(&**rest)),
        ),
    }
}

pub fn clone_record_pat_fields(c: &ChildrenContainer<RecordPatField>) -> (r: ChildrenContainer<RecordPatField>)
    ensures
        r == *c,
    decreases c,
{
    match c {
        ChildrenContainer::Empty => ChildrenContainer::Empty,
        ChildrenContainer::More(first, rest) => ChildrenContainer::More(
            Box::new(clone_record_pat_field(&**first)),
            Box::new(clone_record_pat_fields(&**rest)),
        ),
    }
}

pub fn clone_segments(c: &ChildrenContainer<FormatArgsSegment>) -> (r: ChildrenContainer<FormatArgsSegment>)
    ensures
        r == *c,
    decreases c,
{
    match c {
        ChildrenContainer::Empty => ChildrenContainer::Empty,
        ChildrenContainer::More(first, rest) => ChildrenContainer::More(
            Box::new(clone_format_args_segment(&**first)),
            Box::new(clone_segments(&**rest)),
        ),
    }
}

pub fn clone_opt_box_expr(x: &Option<Box<Expr>>) -> (r: Option<Box<Expr>>)
    ensures
        r == *x,
    decreases x,
{
    match x {
        Some(v) => Some(Box::new(clone_expr(&**v))),
        None => None,
    }
}

pub fn clone_opt_box_pat(x: &Option<Box<Pat>>) -> (r: Option<Box<Pat>>)
    ensures
        r == *x,
    decreases x,
{
    match x {
        Some(v) => Some(Box::new(clone_pat(&**v))),
        None => None,
    }
}

pub fn clone_opt_box_else_branch(x: &Option<Box<ElseBranch>>) -> (r: Option<Box<ElseBranch>>)
    ensures
        r == *x,
    decreases x,
{
    match x {
        Some(v) => Some(Box::new(clone_else_branch(&**v))),
        None => None,
    }
}

pub fn clone_opt_expr(x: &Option<Expr>) -> (r: Option<Expr>)
    ensures
        r == *x,
    decreases x,
{
    match x {
        Some(v) => Some(clone_expr(v)),
        None => None,
    }
}

pub fn clone_opt_name_ref(x: &Option<NameRef>) -> (r: Option<NameRef>)
    ensures
        r == *x,
    decreases x,
{
    match x {
        Some(v) => Some(clone_name_ref(v)),
        None => None,
    }
}

pub fn clone_opt_let_else(x: &Option<LetElse>) -> (r: Option<LetElse>)
    ensures
        r == *x,
    decreases x,
{
    match x {
        Some(v) => Some(clone_let_else(v)),
        None => None,
    }
}

pub fn clone_opt_self_param(x: &Option<SelfParam>) -> (r: Option<SelfParam>)
    ensures
        r == *x,
    decreases x,
{
    match x {
        Some(v) => Some(clone_self_param(v)),
        None => None,
    }
}

pub fn clone_expr(x: &Expr) -> (r: Expr)
    ensures
        r == *x,
    decreases x,
{
    match x {
        Expr::RawCodeExpr(a) => Expr::RawCodeExpr(clone_raw_code_expr(a)),
        Expr::ArrayRepeatExpr(a) => Expr::ArrayRepeatExpr(clone_array_repeat_expr(a)),
        Expr::ArrayElementListExpr(a) => Expr::ArrayElementListExpr(clone_array_element_list_expr(a)),
        Expr::AwaitExpr(a) => Expr::AwaitExpr(clone_await_expr(a)),
        Expr::BinExpr(a) => Expr::BinExpr(clone_bin_expr(a)),
        Expr::BlockExpr(a) => Expr::BlockExpr(clone_block_expr(a)),
        Expr::BreakExpr(a) => Expr::BreakExpr(clone_break_expr(a)),
        Expr::CallExpr(a) => Expr::CallExpr(clone_call_expr(a)),
        Expr::CastExpr(a) => Expr::CastExpr(clone_cast_expr(a)),
        Expr::ClosureExpr(a) => Expr::ClosureExpr(clone_closure_expr(a)),
        Expr::ContinueExpr(a) => Expr::ContinueExpr(clone_continue_expr(a)),
        Expr::FieldExpr(a) => Expr::FieldExpr(clone_field_expr(a)),
        Expr::ForExpr(a) => Expr::ForExpr(clone_for_expr(a)),
        Expr::IfExpr(a) => Expr::IfExpr(clone_if_expr(a)),
        Expr::IndexExpr(a) => Expr::IndexExpr(clone_index_expr(a)),
        Expr::LetExpr(a) => Expr::LetExpr(clone_let_expr(a)),
        Expr::Literal(a) => Expr::Literal(clone_literal(a)),
        Expr::LoopExpr(a) => Expr::LoopExpr(clone_loop_expr(a)),
        Expr::MatchExpr(a) => Expr::MatchExpr(clone_match_expr(a)),
        Expr::MethodCallExpr(a) => Expr::MethodCallExpr(clone_method_call_expr(a)),
        Expr::PathExpr(a) => Expr::PathExpr(clone_path_expr(a)),
        Expr::PrefixExpr(a) => Expr::PrefixExpr(clone_prefix_expr(a)),
        Expr::RangeExpr(a) => Expr::RangeExpr(clone_range_expr(a)),
        Expr::RecordExpr(a) => Expr::RecordExpr(clone_record_expr(a)),
        Expr::RefExpr(a) => Expr::RefExpr(clone_ref_expr(a)),
        Expr::ReturnExpr(a) => Expr::ReturnExpr(clone_return_expr(a)),
        Expr::TryExpr(a) => Expr::TryExpr(clone_try_expr(a)),
        Expr::TupleExpr(a) => Expr::TupleExpr(clone_tuple_expr(a)),
        Expr::UnderscoreExpr(a) => Expr::UnderscoreExpr(clone_underscore_expr(a)),
        Expr::WhileExpr(a) => Expr::WhileExpr(clone_while_expr(a)),
        Expr::FormatArgsExpr(a) => Expr::FormatArgsExpr(clone_format_args_expr(a)),
        Expr::VecRepeatExpr(a) => Expr::VecRepeatExpr(clone_vec_repeat_expr(a)),
        Expr::VecListExpr(a) => Expr::VecListExpr(clone_vec_list_expr(a)),
        Expr::MacroStmts(a) => Expr::MacroStmts(clone_macro_stmts(a)),
    }
}

pub fn clone_pat(x: &Pat) -> (r: Pat)
    ensures
        r == *x,
    decreases x,
{
    match x {
        Pat::IdentPat(a) => Pat::IdentPat(clone_ident_pat(a)),
        Pat::LiteralPat(a) => Pat::LiteralPat(clone_literal_pat(a)),
        Pat::OrPat(a) => Pat::OrPat(clone_or_pat(a)),
        Pat::PathPat(a) => Pat::PathPat(clone_path_pat(a)),
        Pat::RangePat(a) => Pat::RangePat(clone_range_pat(a)),
        Pat::RecordPat(a) => Pat::RecordPat(clone_record_pat(a)),
        Pat::RefPat(a) => Pat::RefPat(clone_ref_pat(a)),
        Pat::RestPat(a) => Pat::RestPat(clone_rest_pat(a)),
        Pat::SlicePat(a) => Pat::SlicePat(clone_slice_pat(a)),
        Pat::TuplePat(a) => Pat::TuplePat(clone_tuple_pat(a)),
        Pat::TupleStructPat(a) => Pat::TupleStructPat(clone_tuple_struct_pat(a)),
        Pat::WildcardPat(a) => Pat::WildcardPat(clone_wildcard_pat(a)),
    }
}

pub fn clone_stmt(x: &Stmt) -> (r: Stmt)
    ensures
        r == *x,
    decreases x,
{
    match x {
        Stmt::ExprStmt(a) => Stmt::ExprStmt(clone_expr_stmt(a)),
        Stmt::LetStmt(a) => Stmt::LetStmt(clone_let_stmt(a)),
        Stmt::Item(a) => Stmt::Item(*a),
    }
}

pub fn clone_else_branch(x: &ElseBranch) -> (r: ElseBranch)
    ensures
        r == *x,
    decreases x,
{
    match x {
        ElseBranch::Block(a) => ElseBranch::Block(clone_block_expr(a)),
        ElseBranch::IfExpr(a) => ElseBranch::IfExpr(clone_if_expr(a)),
    }
}

pub fn clone_format_args_segment(x: &FormatArgsSegment) -> (r: FormatArgsSegment)
    ensures
        r == *x,
    decreases x,
{
    match x {
        FormatArgsSegment::Literal(s) => FormatArgsSegment::Literal(s.clone()),
        FormatArgsSegment::Braces(c) => FormatArgsSegment::Braces(*c),
        FormatArgsSegment::Expr(e) => FormatArgsSegment::Expr(clone_expr(e)),
    }
}

pub fn clone_path(x: &Path) -> (r: Path)
    ensures
        r == *x,
{
    match x {
        Path::Ast(a) => Path::Ast(*a),
        Path::ScopedName { scope, name } => Path::ScopedName { scope: *scope, name: name.clone() },
        Path::IdentPat(a) => Path::IdentPat(*a),
    }
}

pub fn clone_name_ref(x: &NameRef) -> (r: NameRef)
    ensures
        r == *x,
{
    match x {
        NameRef::Ast(a) => NameRef::Ast(*a),
        NameRef::CSharp(s) => NameRef::CSharp(s.clone()),
    }
}

impl Clone for Expr {
    fn clone(&self) -> (r: Self)
        ensures
            r == *self,
    {
        clone_expr(self)
    }
}

impl Clone for Pat {
    fn clone(&self) -> (r: Self)
        ensures
            r == *self,
    {
        clone_pat(self)
    }
}

impl Clone for Stmt {
    fn clone(&self) -> (r: Self)
        ensures
            r == *self,
    {
        clone_stmt(self)
    }
}

impl Clone for BlockExpr {
    fn clone(&self) -> (r: Self)
        ensures
            r == *self,
    {
        clone_block_expr(self)
    }
}

impl Clone for MatchArm {
    fn clone(&self) -> (r: Self)
        ensures
            r == *self,
    {
        clone_match_arm(self)
    }
}

impl Clone for FormatArgsSegment {
    fn clone(&self) -> (r: Self)
        ensures
            r == *self,
    {
        clone_format_args_segment(self)
    }
}

} // verus!
