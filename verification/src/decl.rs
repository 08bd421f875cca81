//! The declaration-time model: library specifiers and function descriptors.

use vstd::prelude::*;

use crate::bytes::bytes_eq;
use crate::loader::open_library;

verus! {

/// How one dynamic library of a group is obtained: by asking the platform
/// loader for a textual name, by passing the outcome of an earlier open
/// attempt through, or by handing over a library that is already open.
pub enum LibSpecifier {
    /// A path or soname for the platform loader.
    Path(String),
    /// The outcome of an open attempt made elsewhere, passed through as is.
    Outcome(Result<libloading::Library, String>),
    /// An already-open library, adopted by the group.
    Handle(libloading::Library),
}

impl LibSpecifier {
    /// Obtain the library this specifier describes.  The pass-through
    /// variants are exact; for a textual name the platform loader decides,
    /// and either outcome is normal.
    pub fn load_lib(self) -> (r: Result<libloading::Library, String>)
        ensures
            self matches LibSpecifier::Outcome(o) ==> r == o,
            self matches LibSpecifier::Handle(h) ==> r == Ok::<libloading::Library, String>(h),
    {
        match self {
            LibSpecifier::Path(p) => open_library(p.as_str()),
            LibSpecifier::Outcome(o) => o,
            LibSpecifier::Handle(h) => Ok(h),
        }
    }
}

/// The calling convention a declared function uses at the foreign boundary.
/// Recorded for the embedding program's call wrapper; the group itself only
/// carries it.
#[derive(Clone, Copy, PartialEq, Eq, Structural)]
pub enum CallConv {
    C,
    System,
    Stdcall,
}

/// The machine-level shape of one parameter or of the result of a declared
/// function.  Like the calling convention, it only describes the wrapper's
/// signature; nothing checks it against the real symbol.
#[derive(Clone, Copy, PartialEq, Eq, Structural)]
pub enum AbiType {
    I32,
    U32,
    I64,
    U64,
    Pointer,
}

/// The declaration of one external function: its logical name (which is
/// also the symbol looked up), the library slot that supplies it, the
/// shape of the generated wrapper, an optional feature-flag name under
/// which the group answers availability queries, and optional
/// documentation text.
pub struct FnDescriptor {
    /// Logical name, and the symbol looked up (without the terminating NUL).
    pub name: Vec<u8>,
    /// Index of the library, within the same group declaration, that
    /// supplies the symbol.
    pub lib: usize,
    pub convention: CallConv,
    pub params: Vec<AbiType>,
    pub ret: Option<AbiType>,
    /// When present, the name under which feature queries report whether
    /// this function resolved.
    pub feature: Option<Vec<u8>>,
    pub doc: Option<String>,
}

/// One group declaration: the libraries to open and the functions to
/// resolve from them, both in declaration order.
pub struct GroupDecl {
    pub libs: Vec<LibSpecifier>,
    pub fns: Vec<FnDescriptor>,
}

/// A usable symbol name: nonempty, and free of NUL so that the terminating
/// NUL the lookup appends is the only one.
pub open spec fn symbol_name_ok(name: Seq<u8>) -> bool {
    &&& name.len() > 0
    &&& forall|i: int| 0 <= i < name.len() ==> name[i] != 0u8
}

/// Whether descriptor `d` declares the feature-flag name `f`.
pub open spec fn has_feature(d: FnDescriptor, f: Seq<u8>) -> bool {
    d.feature matches Some(g) && g@ == f
}

/// Well-formed descriptors against `nlibs` declared libraries: every
/// function names a declared library slot and a usable symbol; function
/// names are distinct; declared feature-flag names are distinct and
/// collide with no function name.
pub open spec fn valid_fns(fns: Seq<FnDescriptor>, nlibs: int) -> bool {
    &&& forall|j: int| 0 <= j < fns.len() ==> (#[trigger] fns[j]).lib < nlibs
    &&& forall|j: int| 0 <= j < fns.len() ==> symbol_name_ok((#[trigger] fns[j]).name@)
    &&& forall|j: int, k: int|
        0 <= j < k < fns.len() ==> (#[trigger] fns[j]).name@ != (#[trigger] fns[k]).name@
    &&& forall|j: int, k: int|
        0 <= j < k < fns.len() && (#[trigger] fns[j]).feature is Some && (#[trigger] fns[k]).feature
            is Some ==> fns[j].feature->0@ != fns[k].feature->0@
    &&& forall|j: int, k: int|
        0 <= j < fns.len() && 0 <= k < fns.len() && (#[trigger] fns[k]).feature is Some
            ==> (#[trigger] fns[j]).name@ != fns[k].feature->0@
}

/// A well-formed group declaration.
pub open spec fn valid_decl(d: GroupDecl) -> bool {
    valid_fns(d.fns@, d.libs@.len() as int)
}

/// Why a group declaration was rejected.  Each variant carries the
/// indices that witness the violation.
pub enum DeclError {
    /// Function `index` names a library slot the group does not declare.
    LibraryOutOfRange { index: usize },
    /// Function `index`'s name is empty or holds an interior NUL.
    BadSymbolName { index: usize },
    /// Functions `first` and `second` share one logical name.
    DuplicateName { first: usize, second: usize },
    /// Functions `first` and `second` declare one feature-flag name.
    DuplicateFeature { first: usize, second: usize },
    /// Function `feature_of`'s feature-flag name is function `named`'s
    /// logical name.
    FeatureClashesWithName { named: usize, feature_of: usize },
}

/// The violation a `DeclError` reports, in the declaration it was
/// reported of.
pub open spec fn decl_error_witness(e: DeclError, d: GroupDecl) -> bool {
    match e {
        DeclError::LibraryOutOfRange { index } => index < d.fns@.len() && d.fns@[index as int].lib
            >= d.libs@.len(),
        DeclError::BadSymbolName { index } => index < d.fns@.len() && !symbol_name_ok(
            d.fns@[index as int].name@,
        ),
        DeclError::DuplicateName { first, second } => first < second && second < d.fns@.len()
            && d.fns@[first as int].name@ == d.fns@[second as int].name@,
        DeclError::DuplicateFeature { first, second } => first < second && second < d.fns@.len()
            && d.fns@[first as int].feature is Some && d.fns@[second as int].feature is Some
            && d.fns@[first as int].feature->0@ == d.fns@[second as int].feature->0@,
        DeclError::FeatureClashesWithName { named, feature_of } => named < d.fns@.len()
            && feature_of < d.fns@.len() && d.fns@[feature_of as int].feature is Some
            && d.fns@[named as int].name@ == d.fns@[feature_of as int].feature->0@,
    }
}

/// A rejection's witness refutes the declaration: whatever error
/// `validate` reports, the declaration is not well formed.
pub proof fn lemma_witness_refutes(e: DeclError, d: GroupDecl)
    requires
        decl_error_witness(e, d),
    ensures
        !valid_decl(d),
{
    match e {
        DeclError::LibraryOutOfRange { index } => {
            assert(valid_decl(d) ==> d.fns@[index as int].lib < d.libs@.len());
        },
        DeclError::BadSymbolName { index } => {
            assert(valid_decl(d) ==> symbol_name_ok(d.fns@[index as int].name@));
        },
        DeclError::DuplicateName { first, second } => {
            assert(valid_decl(d) ==> d.fns@[first as int].name@ != d.fns@[second as int].name@);
        },
        DeclError::DuplicateFeature { first, second } => {
            assert(valid_decl(d) && d.fns@[first as int].feature is Some
                && d.fns@[second as int].feature is Some ==> d.fns@[first as int].feature->0@
                != d.fns@[second as int].feature->0@);
        },
        DeclError::FeatureClashesWithName { named, feature_of } => {
            assert(valid_decl(d) && d.fns@[feature_of as int].feature is Some
                ==> d.fns@[named as int].name@ != d.fns@[feature_of as int].feature->0@);
        },
    }
}

/// Whether `name` can be looked up as a symbol: nonempty and free of NUL.
pub fn symbol_name_usable(name: &Vec<u8>) -> (r: bool)
    ensures
        r == symbol_name_ok(name@),
{
    if name.len() == 0 {
        return false;
    }
    let mut i: usize = 0;
    while i < name.len()
        invariant
            i <= name@.len(),
            name@.len() > 0,
            forall|k: int| 0 <= k < i ==> name@[k] != 0u8,
        decreases name@.len() - i,
    {
        if name[i] == 0 {
            return false;
        }
        i = i + 1;
    }
    true
}

/// Declaration-time validation: accepts exactly the well-formed
/// declarations, and reports a rejection with the indices that witness
/// the violation.
pub fn validate(d: &GroupDecl) -> (r: Result<(), DeclError>)
    ensures
        r is Ok <==> valid_decl(*d),
        r matches Err(e) ==> decl_error_witness(e, *d),
{
    let n = d.fns.len();
    let mut j: usize = 0;
    while j < n
        invariant
            n == d.fns@.len(),
            j <= n,
            forall|a: int| 0 <= a < j ==> (#[trigger] d.fns@[a]).lib < d.libs@.len(),
            forall|a: int| 0 <= a < j ==> symbol_name_ok((#[trigger] d.fns@[a]).name@),
        decreases n - j,
    {
        if d.fns[j].lib >= d.libs.len() {
            return Err(DeclError::LibraryOutOfRange { index: j });
        }
        if !symbol_name_usable(&d.fns[j].name) {
            return Err(DeclError::BadSymbolName { index: j });
        }
        j = j + 1;
    }
    let mut a: usize = 0;
    while a < n
        invariant
            n == d.fns@.len(),
            a <= n,
            forall|x: int, y: int|
                0 <= x < y < n && x < a ==> (#[trigger] d.fns@[x]).name@ != (
                #[trigger] d.fns@[y]).name@,
            forall|x: int, y: int|
                0 <= x < y < n && x < a && (#[trigger] d.fns@[x]).feature is Some && (
                #[trigger] d.fns@[y]).feature is Some ==> d.fns@[x].feature->0@
                    != d.fns@[y].feature->0@,
        decreases n - a,
    {
        let mut b: usize = a + 1;
        while b < n
            invariant
                n == d.fns@.len(),
                a < b,
                b <= n,
                a < n,
                forall|y: int|
                    a < y < b ==> (#[trigger] d.fns@[y]).name@ != d.fns@[a as int].name@,
                forall|y: int|
                    a < y < b && d.fns@[a as int].feature is Some && (#[trigger] d.fns@[y]).feature
                        is Some ==> d.fns@[a as int].feature->0@ != d.fns@[y].feature->0@,
            decreases n - b,
        {
            if bytes_eq(&d.fns[a].name, &d.fns[b].name) {
                return Err(DeclError::DuplicateName { first: a, second: b });
            }
            let dup_feature = match (&d.fns[a].feature, &d.fns[b].feature) {
                (Some(fa), Some(fb)) => bytes_eq(fa, fb),
                _ => false,
            };
            if dup_feature {
                return Err(DeclError::DuplicateFeature { first: a, second: b });
            }
            b = b + 1;
        }
        a = a + 1;
    }
    let mut a: usize = 0;
    while a < n
        invariant
            n == d.fns@.len(),
            a <= n,
            forall|x: int, y: int|
                0 <= x < a && 0 <= y < n && (#[trigger] d.fns@[y]).feature is Some ==> (
                #[trigger] d.fns@[x]).name@ != d.fns@[y].feature->0@,
        decreases n - a,
    {
        let mut b: usize = 0;
        while b < n
            invariant
                n == d.fns@.len(),
                b <= n,
                a < n,
                forall|y: int|
                    0 <= y < b && (#[trigger] d.fns@[y]).feature is Some ==> d.fns@[a as int].name@
                        != d.fns@[y].feature->0@,
            decreases n - b,
        {
            let clash = match &d.fns[b].feature {
                Some(fb) => bytes_eq(&d.fns[a].name, fb),
                None => false,
            };
            if clash {
                return Err(DeclError::FeatureClashesWithName { named: a, feature_of: b });
            }
            b = b + 1;
        }
        a = a + 1;
    }
    Ok(())
}

} // verus!
