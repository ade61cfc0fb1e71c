//! MIR (mid-level IR) bodies → C# statements.
//!
//! Output strategy:
//! - Each basic block becomes a goto-labeled C# block (`_bb<n>: ;`); the
//!   entry block `bb0` gets no label.
//! - `SwitchInt` with one arm becomes `if / else`; with any other number of
//!   arms a `switch`.
//! - Other terminators (Goto, Return, Call, Drop, …) are mapped directly.

use vstd::prelude::*;
use crate::eir::{rust_token, ArithOp, BinaryOp, CmpOp};
use crate::names::join_with;
use crate::text::{decimal, push_decimal, push_str, to_string, views};
use crate::types::{cs_path_spec, def_id_to_cs_path, join_strings, ty_cs, ty_to_cs, DefPath, RustTy};
use crate::writer::{CsWriter, WriterState};

verus! {

/// A projection applied to a place.
pub enum PlaceElem {
    Deref,
    /// A field, by index and by the C# name it resolves to.
    Field(usize, String),
    /// Indexing by the value of a local.
    Index(usize),
    /// Indexing by a constant offset.
    ConstantIndex(u64),
    /// The view of an enum value as one of its variants.
    Downcast(usize),
    /// Any other projection.
    Other,
}

/// A memory place: a local and the projections applied to it.
pub struct Place {
    pub local: usize,
    pub projection: Vec<PlaceElem>,
}

/// A constant operand.
pub enum MirConst {
    /// A scalar integer, by its bits.
    Int(u128),
    /// A scalar pointer.
    Ptr,
    /// A zero-sized value.
    ZeroSized,
    /// Any other evaluated value.
    OtherValue,
    /// A constant not yet evaluated.
    Unevaluated,
}

/// An operand: a place read by copy or by move, or a constant.
pub enum Operand {
    Copy(Place),
    Move(Place),
    Constant(MirConst),
}

/// Binary operators.
#[derive(Copy, Clone)]
pub enum BinOp {
    Add,
    AddUnchecked,
    Sub,
    SubUnchecked,
    Mul,
    MulUnchecked,
    Div,
    Rem,
    BitAnd,
    BitOr,
    BitXor,
    Shl,
    ShlUnchecked,
    Shr,
    ShrUnchecked,
    Eq,
    Ne,
    Lt,
    Le,
    Gt,
    Ge,
    /// Any other operator.
    Other,
}

/// Unary operators.
#[derive(Copy, Clone)]
pub enum UnOp {
    Not,
    Neg,
    PtrMetadata,
}

/// What an aggregate builds.
pub enum AggregateKind {
    Tuple,
    /// A struct or enum variant: its definition path and the Rust names of
    /// the variant's fields, in order.
    Adt(DefPath, Vec<String>),
    Other,
}

/// The right-hand side of an assignment.
pub enum Rvalue {
    Use(Operand),
    Ref(Place),
    BinaryOp(BinOp, Operand, Operand),
    UnaryOp(UnOp, Operand),
    Aggregate(AggregateKind, Vec<Operand>),
    Discriminant(Place),
    CopyForDeref(Place),
    Other,
}

/// A statement.
pub enum Statement {
    Assign(Place, Rvalue),
    StorageLive(usize),
    StorageDead(usize),
    /// Any other statement (no C# equivalent).
    Other,
}

/// How a basic block ends.
#[allow(inconsistent_fields)]
pub enum TerminatorKind {
    Return,
    Goto(usize),
    /// A switch on `discr`: each `(value, block)` pair, and the block for
    /// any other value.
    SwitchInt { discr: Operand, targets: Vec<(u128, usize)>, otherwise: usize },
    Call { func: Operand, args: Vec<Operand>, destination: Place, target: Option<usize> },
    /// Dropping `place`, whose type is `place_ty`.
    Drop { place: Place, place_ty: RustTy, target: usize },
    Unreachable,
    UnwindResume,
    UnwindTerminate,
    Other,
}

/// A basic block.
pub struct BasicBlockData {
    pub statements: Vec<Statement>,
    pub terminator: Option<TerminatorKind>,
}

/// A MIR body: the types of its locals (`_0` is the return slot,
/// `_1 ..= _arg_count` the parameters) and its basic blocks.
pub struct Body {
    pub arg_count: usize,
    pub local_decls: Vec<RustTy>,
    pub basic_blocks: Vec<BasicBlockData>,
}

/// The C# name of local `n`: `_<n>`.
pub open spec fn local_text(n: nat) -> Seq<char> {
    "_"@ + decimal(n)
}

/// The label of basic block `n`: `_bb<n>`.
pub open spec fn bb_label_text(n: nat) -> Seq<char> {
    "_bb"@ + decimal(n)
}

/// The C# name of a local.
pub fn local_cs_name(local: usize) -> (r: String)
    ensures
        r@ == local_text(local as nat),
{
    let mut r = to_string("_");
    push_decimal(&mut r, local as u128);
    r
}

/// The label of a basic block.
pub fn bb_label(bb: usize) -> (r: String)
    ensures
        r@ == bb_label_text(bb as nat),
{
    let mut r = to_string("_bb");
    push_decimal(&mut r, bb as u128);
    r
}

/// The text of `s` after projection `e`.
pub open spec fn project_text(s: Seq<char>, e: PlaceElem) -> Seq<char> {
    match e {
        PlaceElem::Deref => "(*"@ + s + ")"@,
        PlaceElem::Field(_, name) => s + "."@ + name@,
        PlaceElem::Index(l) => s + "["@ + local_text(l as nat) + "]"@,
        PlaceElem::ConstantIndex(off) => s + "["@ + decimal(off as nat) + "]"@,
        PlaceElem::Downcast(v) => s + " /* downcast variant "@ + decimal(v as nat) + " */"@,
        PlaceElem::Other => s + " /* proj */"@,
    }
}

/// The text of a local after the first `n` projections.
pub open spec fn place_prefix(local: usize, proj: Seq<PlaceElem>, n: nat) -> Seq<char>
    decreases n,
{
    if n == 0 || n > proj.len() {
        local_text(local as nat)
    } else {
        project_text(place_prefix(local, proj, (n - 1) as nat), proj[n - 1])
    }
}

/// The C# text of a place.
pub open spec fn place_text(p: Place) -> Seq<char> {
    place_prefix(p.local, p.projection@, p.projection@.len())
}

/// The C# text of a constant: an integer by its bits in decimal.
pub open spec fn const_text(c: MirConst) -> Seq<char> {
    match c {
        MirConst::Int(bits) => decimal(bits as nat),
        MirConst::Ptr => "/* ptr const */default"@,
        MirConst::ZeroSized => "default"@,
        MirConst::OtherValue => "/* const */default"@,
        MirConst::Unevaluated => "/* const */default"@,
    }
}

/// The C# text of an operand.
pub open spec fn operand_text(op: Operand) -> Seq<char> {
    match op {
        Operand::Copy(p) => place_text(p),
        Operand::Move(p) => place_text(p),
        Operand::Constant(c) => const_text(c),
    }
}

/// The C# operator of a binary operator.
pub open spec fn bin_op_text(op: BinOp) -> Seq<char> {
    match op {
        BinOp::Add | BinOp::AddUnchecked => "+"@,
        BinOp::Sub | BinOp::SubUnchecked => "-"@,
        BinOp::Mul | BinOp::MulUnchecked => "*"@,
        BinOp::Div => "/"@,
        BinOp::Rem => "%"@,
        BinOp::BitAnd => "&"@,
        BinOp::BitOr => "|"@,
        BinOp::BitXor => "^"@,
        BinOp::Shl | BinOp::ShlUnchecked => "<<"@,
        BinOp::Shr | BinOp::ShrUnchecked => ">>"@,
        BinOp::Eq => "=="@,
        BinOp::Ne => "!="@,
        BinOp::Lt => "<"@,
        BinOp::Le => "<="@,
        BinOp::Gt => ">"@,
        BinOp::Ge => ">="@,
        BinOp::Other => "/* BinOp */+"@,
    }
}

/// The operator of Rust source that a MIR operator stands for, unchecked
/// arithmetic as its checked form; `None` for any other operator.
pub open spec fn source_op(op: BinOp) -> Option<BinaryOp> {
    match op {
        BinOp::Add | BinOp::AddUnchecked => Some(BinaryOp::ArithOp(ArithOp::Add)),
        BinOp::Sub | BinOp::SubUnchecked => Some(BinaryOp::ArithOp(ArithOp::Sub)),
        BinOp::Mul | BinOp::MulUnchecked => Some(BinaryOp::ArithOp(ArithOp::Mul)),
        BinOp::Div => Some(BinaryOp::ArithOp(ArithOp::Div)),
        BinOp::Rem => Some(BinaryOp::ArithOp(ArithOp::Rem)),
        BinOp::BitAnd => Some(BinaryOp::ArithOp(ArithOp::BitAnd)),
        BinOp::BitOr => Some(BinaryOp::ArithOp(ArithOp::BitOr)),
        BinOp::BitXor => Some(BinaryOp::ArithOp(ArithOp::BitXor)),
        BinOp::Shl | BinOp::ShlUnchecked => Some(BinaryOp::ArithOp(ArithOp::Shl)),
        BinOp::Shr | BinOp::ShrUnchecked => Some(BinaryOp::ArithOp(ArithOp::Shr)),
        BinOp::Eq => Some(BinaryOp::CmpOp(CmpOp::Eq { negated: false })),
        BinOp::Ne => Some(BinaryOp::CmpOp(CmpOp::Eq { negated: true })),
        BinOp::Lt => Some(BinaryOp::CmpOp(CmpOp::Ord { greater: false, strict: true })),
        BinOp::Le => Some(BinaryOp::CmpOp(CmpOp::Ord { greater: false, strict: false })),
        BinOp::Gt => Some(BinaryOp::CmpOp(CmpOp::Ord { greater: true, strict: true })),
        BinOp::Ge => Some(BinaryOp::CmpOp(CmpOp::Ord { greater: true, strict: false })),
        BinOp::Other => None,
    }
}

/// A MIR operator is rendered as the C# operator that expressions get for
/// the source operator it stands for, which is that operator's Rust token.
pub proof fn lemma_mir_op_as_source_op(op: BinOp)
    ensures
        source_op(op) matches Some(e) ==> bin_op_text(op) == crate::emitter::bin_op_text(e)
            && bin_op_text(op) == rust_token(e),
{
    reveal_strlit("+");
    reveal_strlit("*");
    reveal_strlit("-");
    reveal_strlit("/");
    reveal_strlit("%");
    reveal_strlit("<<");
    reveal_strlit(">>");
    reveal_strlit("^");
    reveal_strlit("|");
    reveal_strlit("&");
    reveal_strlit("!=");
    reveal_strlit("==");
    reveal_strlit(">");
    reveal_strlit(">=");
    reveal_strlit("<");
    reveal_strlit("<=");
    if let Some(e) = source_op(op) {
        crate::emitter::lemma_bin_op_keeps_rust_token(e);
        assert(bin_op_text(op) =~= rust_token(e));
    }
}

/// MIR operators that stand for different source operators are rendered
/// differently; in particular the six comparisons get six texts.
pub proof fn lemma_mir_ops_distinct(a: BinOp, b: BinOp)
    requires
        source_op(a) is Some,
        source_op(b) is Some,
        source_op(a) != source_op(b),
    ensures
        bin_op_text(a) != bin_op_text(b),
{
    lemma_mir_op_as_source_op(a);
    lemma_mir_op_as_source_op(b);
    crate::emitter::lemma_bin_ops_distinct(source_op(a).unwrap(), source_op(b).unwrap());
}

/// A non-strict comparison is rendered as the strict one followed by `=`.
pub proof fn lemma_mir_nonstrict_comparisons()
    ensures
        bin_op_text(BinOp::Ge) == bin_op_text(BinOp::Gt).push('='),
        bin_op_text(BinOp::Le) == bin_op_text(BinOp::Lt).push('='),
{
    lemma_mir_op_as_source_op(BinOp::Ge);
    lemma_mir_op_as_source_op(BinOp::Gt);
    lemma_mir_op_as_source_op(BinOp::Le);
    lemma_mir_op_as_source_op(BinOp::Lt);
    crate::emitter::lemma_bin_op_suffixes(ArithOp::Add, true);
    crate::emitter::lemma_bin_op_suffixes(ArithOp::Add, false);
}

/// The texts of the first `n` operands.
pub open spec fn operand_texts(ops: Seq<Operand>, n: nat) -> Seq<Seq<char>>
    decreases n,
{
    if n == 0 || n > ops.len() {
        Seq::empty()
    } else {
        operand_texts(ops, (n - 1) as nat).push(operand_text(ops[n - 1]))
    }
}

/// The field initializers `f_<name> = <value>` of an aggregate, pairing
/// field names and operands up to the shorter of the two.
pub open spec fn field_inits(names: Seq<String>, ops: Seq<Operand>, n: nat) -> Seq<Seq<char>>
    decreases n,
{
    if n == 0 || n > names.len() || n > ops.len() {
        Seq::empty()
    } else {
        field_inits(names, ops, (n - 1) as nat).push(
            "f_"@ + names[n - 1]@ + " = "@ + operand_text(ops[n - 1]),
        )
    }
}

/// The smaller of two numbers.
pub open spec fn min_nat(a: nat, b: nat) -> nat {
    if a < b { a } else { b }
}

/// The C# text of an rvalue.
pub open spec fn rvalue_text(rv: Rvalue) -> Seq<char> {
    match rv {
        Rvalue::Use(op) => operand_text(op),
        Rvalue::Ref(p) => place_text(p),
        Rvalue::BinaryOp(op, l, r) => "("@ + operand_text(l) + " "@ + bin_op_text(op) + " "@ + operand_text(r) + ")"@,
        Rvalue::UnaryOp(op, a) => match op {
            UnOp::Not => "(!"@ + operand_text(a) + ")"@,
            UnOp::Neg => "(-"@ + operand_text(a) + ")"@,
            UnOp::PtrMetadata => "/* PtrMetadata */"@ + operand_text(a),
        },
        Rvalue::Aggregate(kind, fields) => match kind {
            AggregateKind::Tuple => "("@ + join_with(operand_texts(fields@, fields@.len()), ", "@) + ")"@,
            AggregateKind::Adt(path, names) => "new "@ + cs_path_spec(path) + " { "@
                + join_with(field_inits(names@, fields@, min_nat(names@.len(), fields@.len())), ", "@) + " }"@,
            AggregateKind::Other => "/* agg */default"@,
        },
        Rvalue::Discriminant(p) => "/* discriminant */"@ + place_text(p),
        Rvalue::CopyForDeref(p) => place_text(p),
        Rvalue::Other => "/* rvalue */default"@,
    }
}

/// The C# text of a place.
pub fn place_cs(place: &Place) -> (r: String)
    ensures
        r@ == place_text(*place),
{
    let mut s = local_cs_name(place.local);
    let mut i: usize = 0;
    while i < place.projection.len()
        invariant
            i <= place.projection@.len(),
            s@ == place_prefix(place.local, place.projection@, i as nat),
        decreases place.projection@.len() - i,
    {
        let next = match &place.projection[i] {
            PlaceElem::Deref => {
                let mut t = to_string("(*");
                push_str(&mut t, s.as_str());
                push_str(&mut t, ")");
                t
            },
            PlaceElem::Field(_, name) => {
                let mut t = s;
                push_str(&mut t, ".");
                push_str(&mut t, name.as_str());
                t
            },
            PlaceElem::Index(local) => {
                let mut t = s;
                push_str(&mut t, "[");
                let l = local_cs_name(*local);
                push_str(&mut t, l.as_str());
                push_str(&mut t, "]");
                t
            },
            PlaceElem::ConstantIndex(offset) => {
                let mut t = s;
                push_str(&mut t, "[");
                push_decimal(&mut t, *offset as u128);
                push_str(&mut t, "]");
                t
            },
            PlaceElem::Downcast(variant) => {
                let mut t = s;
                push_str(&mut t, " /* downcast variant ");
                push_decimal(&mut t, *variant as u128);
                push_str(&mut t, " */");
                t
            },
            PlaceElem::Other => {
                let mut t = s;
                push_str(&mut t, " /* proj */");
                t
            },
        };
        s = next;
        i = i + 1;
    }
    s
}

/// The C# text of a constant.
pub fn const_cs(c: &MirConst) -> (r: String)
    ensures
        r@ == const_text(*c),
{
    match c {
        MirConst::Int(bits) => crate::text::decimal_string(*bits),
        MirConst::Ptr => to_string("/* ptr const */default"),
        MirConst::ZeroSized => to_string("default"),
        MirConst::OtherValue => to_string("/* const */default"),
        MirConst::Unevaluated => to_string("/* const */default"),
    }
}

/// The C# text of an operand.
pub fn operand_cs(op: &Operand) -> (r: String)
    ensures
        r@ == operand_text(*op),
{
    match op {
        Operand::Copy(place) | Operand::Move(place) => place_cs(place),
        Operand::Constant(c) => const_cs(c),
    }
}

/// The C# operator of a binary operator.
pub fn bin_op_cs(op: BinOp) -> (r: &'static str)
    ensures
        r@ == bin_op_text(op),
{
    match op {
        BinOp::Add | BinOp::AddUnchecked => "+",
        BinOp::Sub | BinOp::SubUnchecked => "-",
        BinOp::Mul | BinOp::MulUnchecked => "*",
        BinOp::Div => "/",
        BinOp::Rem => "%",
        BinOp::BitAnd => "&",
        BinOp::BitOr => "|",
        BinOp::BitXor => "^",
        BinOp::Shl | BinOp::ShlUnchecked => "<<",
        BinOp::Shr | BinOp::ShrUnchecked => ">>",
        BinOp::Eq => "==",
        BinOp::Ne => "!=",
        BinOp::Lt => "<",
        BinOp::Le => "<=",
        BinOp::Gt => ">",
        BinOp::Ge => ">=",
        BinOp::Other => "/* BinOp */+",
    }
}

/// The texts of operands.
fn operands_cs(ops: &Vec<Operand>) -> (r: Vec<String>)
    ensures
        views(r@) == operand_texts(ops@, ops@.len()),
{
    let mut r: Vec<String> = Vec::new();
    let mut i: usize = 0;
    while i < ops.len()
        invariant
            i <= ops@.len(),
            views(r@) == operand_texts(ops@, i as nat),
        decreases ops@.len() - i,
    {
        let ghost before = views(r@);
        r.push(operand_cs(&ops[i]));
        assert(views(r@) =~= before.push(operand_text(ops@[i as int])));
        i = i + 1;
    }
    r
}

/// The C# text of an rvalue.
pub fn rvalue_cs(rv: &Rvalue) -> (r: String)
    ensures
        r@ == rvalue_text(*rv),
{
    match rv {
        Rvalue::Use(op) => operand_cs(op),
        Rvalue::Ref(place) => place_cs(place),
        Rvalue::BinaryOp(op, lhs, rhs) => {
            let l = operand_cs(lhs);
            let r = operand_cs(rhs);
            let mut t = to_string("(");
            push_str(&mut t, l.as_str());
            push_str(&mut t, " ");
            push_str(&mut t, bin_op_cs(*op));
            push_str(&mut t, " ");
            push_str(&mut t, r.as_str());
            push_str(&mut t, ")");
            t
        },
        Rvalue::UnaryOp(op, operand) => {
            let a = operand_cs(operand);
            match op {
                UnOp::Not => {
                    let mut t = to_string("(!");
                    push_str(&mut t, a.as_str());
                    push_str(&mut t, ")");
                    t
                },
                UnOp::Neg => {
                    let mut t = to_string("(-");
                    push_str(&mut t, a.as_str());
                    push_str(&mut t, ")");
                    t
                },
                UnOp::PtrMetadata => {
                    let mut t = to_string("/* PtrMetadata */");
                    push_str(&mut t, a.as_str());
                    t
                },
            }
        },
        Rvalue::Aggregate(kind, fields) => match kind {
            AggregateKind::Tuple => {
                let parts = operands_cs(fields);
                let joined = join_strings(&parts, ", ");
                let mut t = to_string("(");
                push_str(&mut t, joined.as_str());
                push_str(&mut t, ")");
                t
            },
            AggregateKind::Adt(path, names) => {
                let ty_str = def_id_to_cs_path(path);
                let mut inits: Vec<String> = Vec::new();
                let n = if names.len() < fields.len() { names.len() } else { fields.len() };
                let mut i: usize = 0;
                while i < n
                    invariant
                        i <= n,
                        n == min_nat(names@.len(), fields@.len()),
                        views(inits@) == field_inits(names@, fields@, i as nat),
                    decreases n - i,
                {
                    let mut init = crate::naming::field_name(names[i].as_str());
                    push_str(&mut init, " = ");
                    let val = operand_cs(&fields[i]);
                    push_str(&mut init, val.as_str());
                    let ghost before = views(inits@);
                    inits.push(init);
                    assert(views(inits@) =~= before.push(views(inits@).last()));
                    i = i + 1;
                }
                let joined = join_strings(&inits, ", ");
                let mut t = to_string("new ");
                push_str(&mut t, ty_str.as_str());
                push_str(&mut t, " { ");
                push_str(&mut t, joined.as_str());
                push_str(&mut t, " }");
                t
            },
            AggregateKind::Other => to_string("/* agg */default"),
        },
        Rvalue::Discriminant(place) => {
            let mut t = to_string("/* discriminant */");
            let p = place_cs(place);
            push_str(&mut t, p.as_str());
            t
        },
        Rvalue::CopyForDeref(place) => place_cs(place),
        Rvalue::Other => to_string("/* rvalue */default"),
    }
}

/// The line that jumps to block `t`.
pub open spec fn goto_text(t: nat) -> Seq<char> {
    "goto "@ + bb_label_text(t) + ";"@
}

/// The writer after a statement: an assignment becomes `<place> = <rvalue>;`,
/// other statements (storage markers and the like) write nothing.
pub open spec fn stmt_state(st: WriterState, s: Statement) -> WriterState {
    match s {
        Statement::Assign(p, rv) => st.write_line(place_text(p) + " = "@ + rvalue_text(rv) + ";"@),
        _ => st,
    }
}

/// The writer after one `case` of a switch.
pub open spec fn case_state(st: WriterState, t: (u128, usize)) -> WriterState {
    st.write_line("case "@ + decimal(t.0 as nat) + ":"@).indent().write_line(goto_text(t.1 as nat)).dedent()
}

/// The writer after the first `n` cases of a switch.
pub open spec fn cases_state(st: WriterState, ts: Seq<(u128, usize)>, n: nat) -> WriterState
    decreases n,
{
    if n == 0 || n > ts.len() {
        st
    } else {
        case_state(cases_state(st, ts, (n - 1) as nat), ts[n - 1])
    }
}

/// The throw statement for unreachable code.
pub open spec fn unreachable_text() -> Seq<char> {
    "throw new global::System.InvalidOperationException(\"unreachable\");"@
}

/// The throw statement for unwinding.
pub open spec fn unwind_text() -> Seq<char> {
    "throw new global::r2CsRuntime.PanicException(\"unwind\");"@
}

/// The writer after a terminator.
pub open spec fn terminator_state(st: WriterState, k: TerminatorKind) -> WriterState {
    match k {
        TerminatorKind::Return => st.write_line("return _0;"@),
        TerminatorKind::Goto(t) => if t == 0 {
            st.write_line("goto _entry;"@)
        } else {
            st.write_line(goto_text(t as nat))
        },
        TerminatorKind::SwitchInt { discr, targets, otherwise } => {
            let d = operand_text(discr);
            if targets@.len() == 1 {
                st.write_line("if (("@ + d + ") == "@ + decimal(targets@[0].0 as nat) + ")"@)
                    .write_line("{"@).indent().write_line(goto_text(targets@[0].1 as nat)).dedent()
                    .write_line("}"@).write_line("else"@)
                    .write_line("{"@).indent().write_line(goto_text(otherwise as nat)).dedent()
                    .write_line("}"@)
            } else {
                cases_state(st.write_line("switch ("@ + d + ")"@).write_line("{"@).indent(), targets@, targets@.len())
                    .write_line("default:"@).indent().write_line(goto_text(otherwise as nat)).dedent()
                    .dedent().write_line("}"@)
            }
        },
        TerminatorKind::Call { func, args, destination, target } => {
            let s1 = st.write_line(place_text(destination) + " = "@ + operand_text(func) + "("@
                + join_with(operand_texts(args@, args@.len()), ", "@) + ")"@ + ";"@);
            match target {
                Some(t) => if t != 0 { s1.write_line(goto_text(t as nat)) } else { s1 },
                None => s1,
            }
        },
        TerminatorKind::Drop { place, place_ty, target } => {
            let s1 = match ty_cs(place_ty) {
                Some(ts) => st.write_line("/* drop */ (("@ + ts + ")"@ + place_text(place) + ").Dispose();"@),
                None => st,
            };
            s1.write_line(goto_text(target as nat))
        },
        TerminatorKind::Unreachable => st.write_line(unreachable_text()),
        TerminatorKind::UnwindResume => st.write_line(unwind_text()),
        TerminatorKind::UnwindTerminate => st.write_line(unwind_text()),
        TerminatorKind::Other => st.write_line("/* TODO: unsupported terminator */"@),
    }
}

proof fn lemma_cases_level(st: WriterState, ts: Seq<(u128, usize)>, n: nat)
    ensures
        cases_state(st, ts, n).level == st.level,
    decreases n,
{
    if n > 0 && n <= ts.len() {
        lemma_cases_level(st, ts, (n - 1) as nat);
    }
}

/// A terminator leaves the indentation level as it found it.
pub proof fn lemma_terminator_level(st: WriterState, k: TerminatorKind)
    ensures
        terminator_state(st, k).level == st.level,
{
    match k {
        TerminatorKind::SwitchInt { discr, targets, otherwise } => {
            let d = operand_text(discr);
            lemma_cases_level(st.write_line("switch ("@ + d + ")"@).write_line("{"@).indent(), targets@, targets@.len());
        },
        _ => {},
    }
}

/// A `goto` line.
fn goto_line(bb: usize) -> (r: String)
    ensures
        r@ == goto_text(bb as nat),
{
    let mut r = to_string("goto ");
    let l = bb_label(bb);
    push_str(&mut r, l.as_str());
    push_str(&mut r, ";");
    r
}

/// Emit one statement.
pub fn compile_stmt(stmt: &Statement, w: &mut CsWriter)
    ensures
        final(w)@ == stmt_state(old(w)@, *stmt),
{
    match stmt {
        Statement::Assign(place, rvalue) => {
            let mut line = place_cs(place);
            push_str(&mut line, " = ");
            let rhs = rvalue_cs(rvalue);
            push_str(&mut line, rhs.as_str());
            push_str(&mut line, ";");
            w.write_line(line.as_str());
        },
        // Storage markers are hints to the optimizer: no C# equivalent.
        Statement::StorageLive(_) | Statement::StorageDead(_) => {},
        Statement::Other => {},
    }
}

/// Emit one terminator.
pub fn compile_terminator(kind: &TerminatorKind, w: &mut CsWriter)
    requires
        old(w)@.level + 2 < usize::MAX,
    ensures
        final(w)@ == terminator_state(old(w)@, *kind),
{
    match kind {
        TerminatorKind::Return => {
            // _0 holds the return value.
            w.write_line("return _0;");
        },
        TerminatorKind::Goto(target) => {
            if *target == 0 {
                // Never in valid MIR, but handled.
                w.write_line("goto _entry;");
            } else {
                let line = goto_line(*target);
                w.write_line(line.as_str());
            }
        },
        TerminatorKind::SwitchInt { discr, targets, otherwise } => {
            let disc_cs = operand_cs(discr);
            if targets.len() == 1 {
                // Bool-like: the one value against all others.
                let (val, true_bb) = targets[0];
                let mut line = to_string("if ((");
                push_str(&mut line, disc_cs.as_str());
                push_str(&mut line, ") == ");
                push_decimal(&mut line, val);
                push_str(&mut line, ")");
                w.write_line(line.as_str());
                w.write_line("{");
                w.indent();
                let g = goto_line(true_bb);
                w.write_line(g.as_str());
                w.dedent();
                w.write_line("}");
                w.write_line("else");
                w.write_line("{");
                w.indent();
                let g = goto_line(*otherwise);
                w.write_line(g.as_str());
                w.dedent();
                w.write_line("}");
            } else {
                // Multi-arm switch.
                let mut line = to_string("switch (");
                push_str(&mut line, disc_cs.as_str());
                push_str(&mut line, ")");
                w.write_line(line.as_str());
                w.write_line("{");
                w.indent();
                let ghost start = w@;
                let mut i: usize = 0;
                while i < targets.len()
                    invariant
                        i <= targets@.len(),
                        start.level == old(w)@.level + 1,
                        old(w)@.level + 2 < usize::MAX,
                        w@ == cases_state(start, targets@, i as nat),
                    decreases targets@.len() - i,
                {
                    proof {
                        lemma_cases_level(start, targets@, i as nat);
                    }
                    let (val, target_bb) = targets[i];
                    let mut case_line = to_string("case ");
                    push_decimal(&mut case_line, val);
                    push_str(&mut case_line, ":");
                    w.write_line(case_line.as_str());
                    w.indent();
                    let g = goto_line(target_bb);
                    w.write_line(g.as_str());
                    w.dedent();
                    i = i + 1;
                }
                proof {
                    lemma_cases_level(start, targets@, targets@.len());
                }
                w.write_line("default:");
                w.indent();
                let g = goto_line(*otherwise);
                w.write_line(g.as_str());
                w.dedent();
                w.dedent();
                w.write_line("}");
            }
        },
        TerminatorKind::Call { func, args, destination, target } => {
            let func_cs = operand_cs(func);
            let args_cs = operands_cs(args);
            let joined = join_strings(&args_cs, ", ");
            let mut line = place_cs(destination);
            push_str(&mut line, " = ");
            push_str(&mut line, func_cs.as_str());
            push_str(&mut line, "(");
            push_str(&mut line, joined.as_str());
            push_str(&mut line, ")");
            push_str(&mut line, ";");
            w.write_line(line.as_str());
            if let Some(next_bb) = target {
                if *next_bb != 0 {
                    let g = goto_line(*next_bb);
                    w.write_line(g.as_str());
                }
            }
        },
        TerminatorKind::Drop { place, place_ty, target } => {
            // A call of the drop glue where the type is known.
            let p = place_cs(place);
            if let Some(ty_str) = ty_to_cs(place_ty) {
                let mut line = to_string("/* drop */ ((");
                push_str(&mut line, ty_str.as_str());
                push_str(&mut line, ")");
                push_str(&mut line, p.as_str());
                push_str(&mut line, ").Dispose();");
                w.write_line(line.as_str());
            }
            let g = goto_line(*target);
            w.write_line(g.as_str());
        },
        TerminatorKind::Unreachable => {
            w.write_line("throw new global::System.InvalidOperationException(\"unreachable\");");
        },
        TerminatorKind::UnwindResume | TerminatorKind::UnwindTerminate => {
            w.write_line("throw new global::r2CsRuntime.PanicException(\"unwind\");");
        },
        TerminatorKind::Other => {
            w.write_line("/* TODO: unsupported terminator */");
        },
    }
}

/// The writer after the first `n` statements.
pub open spec fn stmts_state(st: WriterState, ss: Seq<Statement>, n: nat) -> WriterState
    decreases n,
{
    if n == 0 || n > ss.len() {
        st
    } else {
        stmt_state(stmts_state(st, ss, (n - 1) as nat), ss[n - 1])
    }
}

/// The writer after basic block `bb`: its label (none for the entry block),
/// its statements, then its terminator.
pub open spec fn bb_state(st: WriterState, bb: nat, data: BasicBlockData) -> WriterState {
    let s1 = if bb != 0 { st.write_line(bb_label_text(bb) + ": ;"@) } else { st };
    let s2 = stmts_state(s1, data.statements@, data.statements@.len());
    match data.terminator {
        Some(k) => terminator_state(s2, k),
        None => s2,
    }
}

/// The C# type of a local, or a placeholder where it is not supported.
pub open spec fn ty_or_unknown(t: RustTy) -> Seq<char> {
    match ty_cs(t) {
        Some(s) => s,
        None => "object /* unknown */"@,
    }
}

/// The writer after declaring the first `n` locals: the return slot `_0`
/// and the parameters are skipped, every other local is declared with its
/// type and `default`.
pub open spec fn decls_state(st: WriterState, arg_count: nat, decls: Seq<RustTy>, n: nat) -> WriterState
    decreases n,
{
    if n == 0 || n > decls.len() {
        st
    } else {
        let prev = decls_state(st, arg_count, decls, (n - 1) as nat);
        let idx = (n - 1) as nat;
        if idx == 0 || (idx >= 1 && idx <= arg_count) {
            prev
        } else {
            prev.write_line(ty_or_unknown(decls[idx as int]) + " "@ + local_text(idx) + " = default;"@)
        }
    }
}

/// The writer after the first `n` basic blocks.
pub open spec fn bbs_state(st: WriterState, bbs: Seq<BasicBlockData>, n: nat) -> WriterState
    decreases n,
{
    if n == 0 || n > bbs.len() {
        st
    } else {
        bb_state(bbs_state(st, bbs, (n - 1) as nat), (n - 1) as nat, bbs[n - 1])
    }
}

/// The writer after a whole body: the local declarations, then each block.
pub open spec fn body_state(st: WriterState, body: Body) -> WriterState {
    bbs_state(
        decls_state(st, body.arg_count as nat, body.local_decls@, body.local_decls@.len()),
        body.basic_blocks@,
        body.basic_blocks@.len(),
    )
}

proof fn lemma_stmts_level(st: WriterState, ss: Seq<Statement>, n: nat)
    ensures
        stmts_state(st, ss, n).level == st.level,
    decreases n,
{
    if n > 0 && n <= ss.len() {
        lemma_stmts_level(st, ss, (n - 1) as nat);
    }
}

proof fn lemma_bb_level(st: WriterState, bb: nat, data: BasicBlockData)
    ensures
        bb_state(st, bb, data).level == st.level,
{
    let s1 = if bb != 0 { st.write_line(bb_label_text(bb) + ": ;"@) } else { st };
    lemma_stmts_level(s1, data.statements@, data.statements@.len());
    if let Some(k) = data.terminator {
        lemma_terminator_level(stmts_state(s1, data.statements@, data.statements@.len()), k);
    }
}

proof fn lemma_bbs_level(st: WriterState, bbs: Seq<BasicBlockData>, n: nat)
    ensures
        bbs_state(st, bbs, n).level == st.level,
    decreases n,
{
    if n > 0 && n <= bbs.len() {
        lemma_bbs_level(st, bbs, (n - 1) as nat);
        lemma_bb_level(bbs_state(st, bbs, (n - 1) as nat), (n - 1) as nat, bbs[n - 1]);
    }
}

proof fn lemma_decls_level(st: WriterState, a: nat, decls: Seq<RustTy>, n: nat)
    ensures
        decls_state(st, a, decls, n).level == st.level,
    decreases n,
{
    if n > 0 && n <= decls.len() {
        lemma_decls_level(st, a, decls, (n - 1) as nat);
    }
}

/// A body leaves the indentation level as it found it.
pub proof fn lemma_body_level(st: WriterState, body: Body)
    ensures
        body_state(st, body).level == st.level,
{
    lemma_decls_level(st, body.arg_count as nat, body.local_decls@, body.local_decls@.len());
    lemma_bbs_level(
        decls_state(st, body.arg_count as nat, body.local_decls@, body.local_decls@.len()),
        body.basic_blocks@,
        body.basic_blocks@.len(),
    );
}

/// Emit one basic block.
pub fn compile_bb(bb: usize, data: &BasicBlockData, w: &mut CsWriter)
    requires
        old(w)@.level + 2 < usize::MAX,
    ensures
        final(w)@ == bb_state(old(w)@, bb as nat, *data),
{
    // The entry block needs no label; C# labels need a statement after them.
    if bb != 0 {
        let mut line = bb_label(bb);
        push_str(&mut line, ": ;");
        w.write_line(line.as_str());
    }
    let ghost s1 = w@;
    let mut i: usize = 0;
    while i < data.statements.len()
        invariant
            i <= data.statements@.len(),
            w@ == stmts_state(s1, data.statements@, i as nat),
        decreases data.statements@.len() - i,
    {
        compile_stmt(&data.statements[i], w);
        i = i + 1;
    }
    proof {
        lemma_stmts_level(s1, data.statements@, data.statements@.len());
    }
    if let Some(term) = &data.terminator {
        compile_terminator(term, w);
    }
}

/// Declare the local variables other than the return slot and parameters.
pub fn emit_local_decls(body: &Body, w: &mut CsWriter)
    ensures
        final(w)@ == decls_state(old(w)@, body.arg_count as nat, body.local_decls@, body.local_decls@.len()),
{
    let arg_count = body.arg_count;
    let mut idx: usize = 0;
    while idx < body.local_decls.len()
        invariant
            idx <= body.local_decls@.len(),
            arg_count == body.arg_count,
            w@ == decls_state(old(w)@, arg_count as nat, body.local_decls@, idx as nat),
        decreases body.local_decls@.len() - idx,
    {
        if idx == 0 || (idx >= 1 && idx <= arg_count) {
            // The return slot and the parameters are in the signature.
        } else {
            let mut line = match ty_to_cs(&body.local_decls[idx]) {
                Some(t) => t,
                None => to_string("object /* unknown */"),
            };
            push_str(&mut line, " ");
            let l = local_cs_name(idx);
            push_str(&mut line, l.as_str());
            push_str(&mut line, " = default;");
            w.write_line(line.as_str());
        }
        idx = idx + 1;
    }
}

/// Emit the C# statements of a function body at the writer's current
/// indentation level.
pub fn compile_mir_body(body: &Body, w: &mut CsWriter)
    requires
        old(w)@.level + 2 < usize::MAX,
    ensures
        final(w)@ == body_state(old(w)@, *body),
{
    emit_local_decls(body, w);
    let ghost s1 = w@;
    proof {
        lemma_decls_level(old(w)@, body.arg_count as nat, body.local_decls@, body.local_decls@.len());
    }
    let mut bb: usize = 0;
    while bb < body.basic_blocks.len()
        invariant
            bb <= body.basic_blocks@.len(),
            s1.level + 2 < usize::MAX,
            w@ == bbs_state(s1, body.basic_blocks@, bb as nat),
        decreases body.basic_blocks@.len() - bb,
    {
        proof {
            lemma_bbs_level(s1, body.basic_blocks@, bb as nat);
        }
        compile_bb(bb, &body.basic_blocks[bb], w);
        bb = bb + 1;
    }
}

} // verus!
