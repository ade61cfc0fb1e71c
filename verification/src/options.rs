//! Small option and result records of the code generator.

use vstd::prelude::*;
use crate::output::Code;

verus! {

/// How a Rust type is rendered as a C# type.
pub struct CsTypeOption {
    pub apply_special: bool,
    pub is_static_container: bool,
    pub is_static_access: bool,
}

impl Default for CsTypeOption {
    /// Special mappings applied, neither a static container nor a static access.
    fn default() -> (r: Self)
        ensures
            r.apply_special,
            !r.is_static_container,
            !r.is_static_access,
    {
        CsTypeOption { apply_special: true, is_static_container: false, is_static_access: false }
    }
}

impl CsTypeOption {
    /// The option without special type mappings.
    pub fn no_special(self) -> (r: Self)
        ensures
            !r.apply_special,
            r.is_static_container == self.is_static_container,
            r.is_static_access == self.is_static_access,
    {
        CsTypeOption { apply_special: false, ..self }
    }

    /// The option with the static-container flag set to `static_container`.
    pub fn static_container(self, static_container: bool) -> (r: Self)
        ensures
            r.apply_special == self.apply_special,
            r.is_static_container == static_container,
            r.is_static_access == self.is_static_access,
    {
        CsTypeOption { is_static_container: static_container, ..self }
    }

    /// The option with the static-access flag set to `is_static_access`.
    pub fn static_access(self, is_static_access: bool) -> (r: Self)
        ensures
            r.apply_special == self.apply_special,
            r.is_static_container == self.is_static_container,
            r.is_static_access == is_static_access,
    {
        CsTypeOption { is_static_access: is_static_access, ..self }
    }
}

/// Options for emitting an expression: whether its value is returned.
pub struct ExprGenOption {
    pub returning: bool,
}

impl Clone for ExprGenOption {
    fn clone(&self) -> (r: Self)
        ensures
            r.returning == self.returning,
    {
        ExprGenOption { returning: self.returning }
    }
}

impl ExprGenOption {
    /// The option for an expression whose value is returned.
    pub fn returning() -> (r: Self)
        ensures
            r.returning,
    {
        ExprGenOption { returning: true }
    }

    /// The option for an expression that is not the last one.
    pub fn non_last(&self) -> (r: ExprGenOption)
        ensures
            !r.returning,
    {
        ExprGenOption { returning: false }
    }
}

/// What is known of emitted code: whether control never leaves it normally.
#[derive(Copy, Clone)]
pub struct EmittedExprInfo {
    pub diverging: bool,
}

impl EmittedExprInfo {
    pub fn diverging() -> (r: Self)
        ensures
            r.diverging,
    {
        EmittedExprInfo { diverging: true }
    }

    pub fn non_diverging() -> (r: Self)
        ensures
            !r.diverging,
    {
        EmittedExprInfo { diverging: false }
    }

}

impl std::ops::BitOr<EmittedExprInfo> for EmittedExprInfo {
    type Output = EmittedExprInfo;

    /// Either part diverges (one after the other).
    fn bitor(self, rhs: EmittedExprInfo) -> (r: EmittedExprInfo)
        ensures
            r.diverging == (self.diverging || rhs.diverging),
    {
        EmittedExprInfo { diverging: self.diverging || rhs.diverging }
    }
}

impl std::ops::BitAnd<EmittedExprInfo> for EmittedExprInfo {
    type Output = EmittedExprInfo;

    /// Both parts diverge (alternatives).
    fn bitand(self, rhs: EmittedExprInfo) -> (r: EmittedExprInfo)
        ensures
            r.diverging == (self.diverging && rhs.diverging),
    {
        EmittedExprInfo { diverging: self.diverging && rhs.diverging }
    }
}

impl vstd::std_specs::ops::BitOrSpecImpl<EmittedExprInfo> for EmittedExprInfo {
    open spec fn obeys_bitor_spec() -> bool {
        true
    }

    open spec fn bitor_req(self, rhs: EmittedExprInfo) -> bool {
        true
    }

    open spec fn bitor_spec(self, rhs: EmittedExprInfo) -> EmittedExprInfo {
        EmittedExprInfo { diverging: self.diverging || rhs.diverging }
    }
}

impl vstd::std_specs::ops::BitAndSpecImpl<EmittedExprInfo> for EmittedExprInfo {
    open spec fn obeys_bitand_spec() -> bool {
        true
    }

    open spec fn bitand_req(self, rhs: EmittedExprInfo) -> bool {
        true
    }

    open spec fn bitand_spec(self, rhs: EmittedExprInfo) -> EmittedExprInfo {
        EmittedExprInfo { diverging: self.diverging && rhs.diverging }
    }
}

impl std::ops::BitAndAssign for EmittedExprInfo {
    fn bitand_assign(&mut self, rhs: Self) {
        self.diverging = self.diverging && rhs.diverging;
    }
}

impl std::ops::BitOrAssign<EmittedExprInfo> for EmittedExprInfo {
    fn bitor_assign(&mut self, rhs: EmittedExprInfo) {
        self.diverging = self.diverging || rhs.diverging;
    }
}

/// Where a C# function stands relative to a Rust trait.
#[derive(Copy, Clone)]
pub enum CsFunctionType {
    Normal,
    TraitStaticStruct,
    TraitDefaultImpl,
}

/// Where an argument of a rewritten call comes from: an argument of the
/// call as written, by index, or a fixed expression.
pub enum ArgSource {
    Source(usize),
    CustomExpr(Code),
}

} // verus!
