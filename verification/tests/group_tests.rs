use lazy_link::{begin_group, AbiType, CallConv, FnDescriptor, GroupDecl, LibSpecifier, LibraryGroup, SymbolAnswer};
use lazy_link::LoadFnPtr;

fn fd(name: &[u8], lib: usize, feature: Option<&[u8]>) -> FnDescriptor {
    FnDescriptor {
        name: name.to_vec(),
        lib,
        convention: CallConv::C,
        params: vec![AbiType::U32],
        ret: Some(AbiType::I32),
        feature: feature.map(|f| f.to_vec()),
        doc: None,
    }
}

fn build(libs: Vec<LibSpecifier>, fns: Vec<FnDescriptor>, answers: Vec<Option<usize>>) -> LibraryGroup {
    let mut g = begin_group(GroupDecl { libs, fns }).ok().expect("declaration is well formed");
    g.resolve_all(&answers);
    g
}

#[test]
fn open_records_presence_and_diagnostics() {
    let g = build(
        vec![
            LibSpecifier::Path(String::from("libc.so.6")),
            LibSpecifier::Path(String::from("no-such-library-zzz.so.0")),
            LibSpecifier::Outcome(Err(String::from("nope"))),
        ],
        vec![],
        vec![],
    );
    assert!(g.lib_handle(0).is_some());
    assert!(g.diags[0].is_none());
    assert!(g.lib_handle(1).is_none());
    assert!(g.diags[1].is_some());
    assert!(g.lib_handle(2).is_none());
    assert_eq!(g.diags[2].as_deref(), Some("nope"));
}

#[test]
fn symbol_request_appends_nul_when_library_open() {
    let g = build(
        vec![
            LibSpecifier::Path(String::from("libc.so.6")),
            LibSpecifier::Path(String::from("no-such-library-zzz.so.0")),
        ],
        vec![fd(b"strlen", 0, None), fd(b"strcmp", 1, None)],
        vec![None, None],
    );
    assert_eq!(g.symbol_request(0), Some(b"strlen\0".to_vec()));
    assert_eq!(g.symbol_request(1), None);
}

#[test]
fn degradation_missing_library_disables_all_its_functions() {
    let g = build(
        vec![LibSpecifier::Path(String::from("no-such-library-zzz.so.0"))],
        vec![fd(b"f_one", 0, Some(b"has_one")), fd(b"f_two", 0, Some(b"has_two"))],
        vec![Some(0x1000), Some(0x2000)],
    );
    assert!(!g.is_resolved(0));
    assert!(!g.is_resolved(1));
    assert!(!g.feature_query(&b"has_one".to_vec()));
    assert!(!g.feature_query(&b"has_two".to_vec()));
}

#[test]
fn partial_availability_is_per_symbol() {
    let g = build(
        vec![LibSpecifier::Path(String::from("libc.so.6"))],
        vec![fd(b"f_one", 0, Some(b"has_one")), fd(b"f_two", 0, Some(b"has_two"))],
        vec![Some(0x1000), None],
    );
    assert!(g.is_resolved(0));
    assert!(!g.is_resolved(1));
    assert!(g.feature_query(&b"has_one".to_vec()));
    assert!(!g.feature_query(&b"has_two".to_vec()));
}

#[test]
fn feature_query_unknown_name_is_false() {
    let g = build(
        vec![LibSpecifier::Path(String::from("libc.so.6"))],
        vec![fd(b"f_one", 0, Some(b"has_one"))],
        vec![Some(0x1000)],
    );
    assert!(!g.feature_query(&b"has_other".to_vec()));
}

#[test]
fn is_resolved_out_of_range_is_false() {
    let g = build(vec![], vec![], vec![]);
    assert!(!g.is_resolved(0));
    assert!(!g.is_resolved(7));
}

#[test]
fn fatal_call_contract_names_the_function() {
    let g = build(
        vec![LibSpecifier::Path(String::from("libc.so.6"))],
        vec![fd(b"f_one", 0, None), fd(b"f_two", 0, None)],
        vec![Some(0x1234), None],
    );
    assert_eq!(g.call_target(0), Ok(0x1234));
    assert_eq!(g.call_target(1), Err(b"f_two".to_vec()));
    assert_eq!(g.resolved_addr(0), 0x1234);
}

#[test]
fn resolution_step_ignores_answer_for_absent_library() {
    let mut g = build(
        vec![LibSpecifier::Outcome(Err(String::from("gone")))],
        vec![fd(b"f_one", 0, None)],
        vec![None],
    );
    let step = SymbolAnswer { index: 0, addr: Some(0x4000) };
    step.load_from_lib(&mut g);
    assert!(!g.is_resolved(0));
}

#[test]
fn resolution_step_out_of_range_changes_nothing() {
    let mut g = build(
        vec![LibSpecifier::Path(String::from("libc.so.6"))],
        vec![fd(b"f_one", 0, None)],
        vec![Some(0x1000)],
    );
    let step = SymbolAnswer { index: 9, addr: Some(0x4000) };
    step.load_from_lib(&mut g);
    assert_eq!(g.call_target(0), Ok(0x1000));
    assert_eq!(g.slots.len(), 1);
}

#[test]
fn scenario_mixed_group() {
    // Library A is present with function F resolving and function G not;
    // library B is absent and function H depends on it.
    let stub_addr: usize = 0x5150;
    let g = build(
        vec![
            LibSpecifier::Path(String::from("libc.so.6")),
            LibSpecifier::Path(String::from("B.dll")),
        ],
        vec![
            fd(b"F", 0, Some(b"feature_f")),
            fd(b"G", 0, Some(b"feature_g")),
            fd(b"H", 1, Some(b"feature_h")),
        ],
        vec![Some(stub_addr), None, None],
    );
    assert!(g.feature_query(&b"feature_f".to_vec()));
    assert!(!g.feature_query(&b"feature_g".to_vec()));
    assert!(!g.feature_query(&b"feature_h".to_vec()));
    assert_eq!(g.call_target(0), Ok(stub_addr));
    assert_eq!(g.call_target(1), Err(b"G".to_vec()));
}

#[test]
fn begin_group_rejects_invalid_declaration() {
    let r = begin_group(GroupDecl {
        libs: vec![],
        fns: vec![fd(b"f_one", 0, None)],
    });
    assert!(r.is_err());
}
