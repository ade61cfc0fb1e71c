use rust_to_cs_compiler::types::{float_ty, int_ty, int_ty_cs, uint_ty, FloatTy, IntTy, UintTy};

#[test]
fn int_types_mapped() {
    assert_eq!(int_ty(&IntTy::I32), "int");
    assert_eq!(int_ty(&IntTy::I64), "long");
    assert_eq!(int_ty(&IntTy::I8), "sbyte");
    assert_eq!(int_ty(&IntTy::I128), "global::System.Int128");
    assert_eq!(int_ty(&IntTy::Isize), "nint");
}

#[test]
fn uint_types_mapped() {
    assert_eq!(uint_ty(&UintTy::U32), "uint");
    assert_eq!(uint_ty(&UintTy::U8), "byte");
    assert_eq!(uint_ty(&UintTy::U128), "global::System.UInt128");
    assert_eq!(uint_ty(&UintTy::Usize), "nuint");
}

#[test]
fn float_types_mapped() {
    assert_eq!(float_ty(&FloatTy::F32), "float");
    assert_eq!(float_ty(&FloatTy::F64), "double");
}

#[test]
fn remaining_widths_mapped() {
    assert_eq!(int_ty(&IntTy::I16), "short");
    assert_eq!(int_ty_cs(&IntTy::I16), "short");
    assert_eq!(uint_ty(&UintTy::U16), "ushort");
    assert_eq!(uint_ty(&UintTy::U64), "ulong");
    assert_eq!(float_ty(&FloatTy::F16), "global::System.Half");
    assert_eq!(float_ty(&FloatTy::F128), "global::System.Double");
}
