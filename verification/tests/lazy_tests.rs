use lazy_link::{begin_group, AbiType, CallConv, FnDescriptor, GroupDecl, LazyGroup, LibSpecifier, LibraryGroup};

fn stub_group(opens: &mut u32, addr: usize) -> LibraryGroup {
    *opens += 1;
    let mut g = begin_group(GroupDecl {
        libs: vec![LibSpecifier::Path(String::from("libc.so.6"))],
        fns: vec![FnDescriptor {
            name: b"f_one".to_vec(),
            lib: 0,
            convention: CallConv::C,
            params: vec![AbiType::U32],
            ret: Some(AbiType::I32),
            feature: Some(b"has_one".to_vec()),
            doc: None,
        }],
    })
    .ok()
    .expect("declaration is well formed");
    g.resolve_all(&vec![Some(addr)]);
    g
}

#[test]
fn lazy_group_starts_empty() {
    let cell = LazyGroup::new();
    assert!(!cell.is_built());
    assert!(cell.get().is_none());
}

#[test]
fn repeated_access_builds_exactly_once() {
    // A counting stub provider: every build attempt bumps `opens`.
    let mut opens: u32 = 0;
    let mut cell = LazyGroup::new();
    let mut seen: Vec<usize> = Vec::new();
    for round in 0..5usize {
        if !cell.is_built() {
            let g = stub_group(&mut opens, 0x9000 + round);
            let installed = cell.install(g);
            assert!(installed.is_ok());
        }
        let table = cell.get().expect("built by now");
        seen.push(table.resolved_addr(0));
    }
    assert_eq!(opens, 1);
    assert_eq!(seen, vec![0x9000; 5]);
}

#[test]
fn second_install_is_rejected_and_table_kept() {
    let mut opens: u32 = 0;
    let mut cell = LazyGroup::new();
    assert!(cell.install(stub_group(&mut opens, 0x1111)).is_ok());
    let rejected = cell.install(stub_group(&mut opens, 0x2222));
    match rejected {
        Err(g) => assert_eq!(g.resolved_addr(0), 0x2222),
        Ok(()) => panic!("a second install must be rejected"),
    }
    assert_eq!(cell.get().expect("still built").resolved_addr(0), 0x1111);
    assert!(cell.is_built());
}
