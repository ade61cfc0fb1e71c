use rust_to_cs_compiler::consts::{get_memory, scalar_kind, AllocationFacts, MemoryMapFacts, ScalarKind, ScalarTy};

fn allocation(map: MemoryMapFacts) -> AllocationFacts {
    AllocationFacts { memory: vec![1, 2, 3, 4], memory_map: map }
}

#[test]
fn own_bytes_without_an_address() {
    let a = allocation(MemoryMapFacts::Empty);
    assert_eq!(get_memory(&a, None, 1, 3), Some(vec![2, 3]));
    assert_eq!(get_memory(&a, None, 0, 4), Some(vec![1, 2, 3, 4]));
    assert_eq!(get_memory(&a, None, 2, 5), None);
    assert_eq!(get_memory(&a, None, 3, 2), None);
}

#[test]
fn addressed_bytes_by_memory_map() {
    let empty = allocation(MemoryMapFacts::Empty);
    assert_eq!(get_memory(&empty, Some(8), 0, 4), Some(Vec::new()));
    let simple = allocation(MemoryMapFacts::Simple(vec![9, 8, 7]));
    assert_eq!(get_memory(&simple, Some(0), 1, 3), Some(vec![8, 7]));
    assert_eq!(get_memory(&simple, Some(1), 0, 1), None);
    assert_eq!(get_memory(&simple, Some(1), 2, 2), Some(Vec::new()));
    let complex = allocation(MemoryMapFacts::Complex(vec![(16, vec![5, 6]), (32, vec![7, 8, 9])]));
    assert_eq!(get_memory(&complex, Some(32), 1, 3), Some(vec![8, 9]));
    assert_eq!(get_memory(&complex, Some(16), 0, 3), None);
    assert_eq!(get_memory(&complex, Some(48), 0, 1), None);
}

fn own(bytes: Vec<u8>) -> AllocationFacts {
    AllocationFacts { memory: bytes, memory_map: MemoryMapFacts::Empty }
}

#[test]
fn scalar_values_read_from_bytes() {
    assert!(matches!(scalar_kind(&own(vec![0]), None, 0, 1, ScalarTy::Bool), ScalarKind::Bool(false)));
    assert!(matches!(scalar_kind(&own(vec![2]), None, 0, 1, ScalarTy::Bool), ScalarKind::Bool(true)));
    assert!(matches!(scalar_kind(&own(vec![0x41, 0, 0, 0]), None, 0, 4, ScalarTy::Char), ScalarKind::Char('A')));
    assert!(matches!(
        scalar_kind(&own(vec![0x00, 0xD8, 0, 0]), None, 0, 4, ScalarTy::Char),
        ScalarKind::Error("<unicode-error>")
    ));
    assert!(matches!(scalar_kind(&own(vec![0xFE, 0xFF]), None, 0, 2, ScalarTy::Int), ScalarKind::Int(-2)));
    assert!(matches!(scalar_kind(&own(vec![0xFE, 0x7F]), None, 0, 2, ScalarTy::Int), ScalarKind::Int(0x7FFE)));
    assert!(matches!(scalar_kind(&own(vec![0xFE, 0xFF]), None, 0, 2, ScalarTy::Uint), ScalarKind::Uint(0xFFFE)));
    assert!(matches!(scalar_kind(&own(vec![1, 1]), None, 0, 2, ScalarTy::RawPtr), ScalarKind::RawPtr(257)));
    assert!(matches!(scalar_kind(&own(vec![3]), None, 0, 1, ScalarTy::FnPtr), ScalarKind::FnPtr(3)));
    assert!(matches!(scalar_kind(&own(vec![1, 2]), None, 0, 3, ScalarTy::Uint), ScalarKind::Error("bad address")));
}
