//! The library group: the once-built table of open libraries and resolved
//! function slots, and the resolution and access layer over it.

use vstd::prelude::*;
use vstd::pervasive::VecAdditionalExecFns;

use crate::bytes::{bytes_eq, copy_bytes};
use crate::decl::{decl_error_witness, has_feature, valid_decl, valid_fns, validate, DeclError, FnDescriptor, GroupDecl, LibSpecifier};

verus! {

/// Ties a declared function to the type its resolved pointer is carried
/// as.  The group stores every resolved pointer as an opaque address
/// token; the embedding program's call wrapper gives it back its real
/// foreign type.
pub trait ExternFnPtr {
    type FnPtr;
}

impl ExternFnPtr for FnDescriptor {
    type FnPtr = usize;
}

/// The resolution-step interface: a value that can write one function's
/// slot into a group under construction.
pub trait LoadFnPtr<G> {
    fn load_from_lib(&self, libs: &mut G);
}

/// The group table.  `libs` and `diags` hold, per declared library, the
/// open handle or the loader's diagnostic; `slots` holds, per declared
/// function, the resolved pointer token or nothing.  Built once by
/// `open_libraries` and `resolve_all`; no access mutates a slot afterwards.
pub struct LibraryGroup {
    pub fns: Vec<FnDescriptor>,
    pub libs: Vec<Option<libloading::Library>>,
    pub diags: Vec<Option<String>>,
    pub slots: Vec<Option<usize>>,
}

/// What one resolution step stores: with the library absent the slot
/// stays empty without any lookup; otherwise the slot is exactly the
/// lookup's answer.
pub open spec fn resolve_slot(lib_present: bool, answer: Option<usize>) -> Option<usize> {
    if lib_present {
        answer
    } else {
        None
    }
}

impl LibraryGroup {
    /// Function `j` exists and the library slot it names holds an open
    /// handle.
    pub open spec fn lib_present(self, j: int) -> bool {
        &&& 0 <= j < self.fns@.len()
        &&& self.fns@[j].lib < self.libs@.len()
        &&& self.libs@[self.fns@[j].lib as int] is Some
    }

    /// Structural well-formedness: the four columns agree in length per
    /// declaration, a diagnostic is retained exactly for the libraries
    /// that did not open, and a populated function slot always has its
    /// library open.
    pub open spec fn wf(self) -> bool {
        &&& self.diags@.len() == self.libs@.len()
        &&& self.slots@.len() == self.fns@.len()
        &&& forall|j: int|
            0 <= j < self.fns@.len() ==> (#[trigger] self.fns@[j]).lib < self.libs@.len()
        &&& forall|i: int|
            0 <= i < self.libs@.len() ==> ((#[trigger] self.libs@[i]) is Some <==> self.diags@[i] is None)
        &&& forall|j: int|
            0 <= j < self.slots@.len() ==> ((#[trigger] self.slots@[j]) is Some ==> self.lib_present(j))
    }

    /// Function `j`'s pointer slot is populated.
    pub open spec fn spec_resolved(self, j: int) -> bool {
        &&& 0 <= j < self.slots@.len()
        &&& self.slots@[j] is Some
    }
}

/// The open phase of construction: obtain every declared library in
/// declaration order, tolerating every failure.  Each library slot gets
/// the open handle or nothing; `diags` retains the loader's diagnostic
/// exactly where the open failed.  The pass-through specifier variants
/// are pinned; what the platform loader answers for a textual name is the
/// machine's business, and both outcomes are normal.  Function slots all
/// start out unresolved.
pub fn open_libraries(decl: GroupDecl) -> (g: LibraryGroup)
    requires
        valid_decl(decl),
    ensures
        g.wf(),
        g.fns@ == decl.fns@,
        g.libs@.len() == decl.libs@.len(),
        forall|j: int| 0 <= j < g.slots@.len() ==> (#[trigger] g.slots@[j]) is None,
        forall|i: int|
            0 <= i < decl.libs@.len() ==> ((#[trigger] decl.libs@[i]) matches LibSpecifier::Handle(
                h,
            ) ==> g.libs@[i] == Some(h)),
        forall|i: int|
            0 <= i < decl.libs@.len() ==> ((#[trigger] decl.libs@[i]) matches LibSpecifier::Outcome(
                Ok(h),
            ) ==> g.libs@[i] == Some(h)),
        forall|i: int|
            0 <= i < decl.libs@.len() ==> ((#[trigger] decl.libs@[i]) matches LibSpecifier::Outcome(
                Err(s),
            ) ==> g.libs@[i] is None && g.diags@[i] == Some(s)),
{
    let ghost orig = decl.libs@;
    let mut specs = decl.libs;
    let fns = decl.fns;
    let mut libs: Vec<Option<libloading::Library>> = Vec::new();
    let mut diags: Vec<Option<String>> = Vec::new();
    while specs.len() > 0
        invariant
            libs@.len() == diags@.len(),
            libs@.len() + specs@.len() == orig.len(),
            specs@ == orig.skip(libs@.len() as int),
            forall|i: int|
                0 <= i < libs@.len() ==> ((#[trigger] libs@[i]) is Some <==> diags@[i] is None),
            forall|i: int|
                0 <= i < libs@.len() ==> ((#[trigger] orig[i]) matches LibSpecifier::Handle(
                    h,
                ) ==> libs@[i] == Some(h)),
            forall|i: int|
                0 <= i < libs@.len() ==> ((#[trigger] orig[i]) matches LibSpecifier::Outcome(
                    Ok(h),
                ) ==> libs@[i] == Some(h)),
            forall|i: int|
                0 <= i < libs@.len() ==> ((#[trigger] orig[i]) matches LibSpecifier::Outcome(
                    Err(s),
                ) ==> libs@[i] is None && diags@[i] == Some(s)),
        decreases specs@.len(),
    {
        let ghost done = libs@.len() as int;
        let s = specs.remove(0);
        proof {
            assert(s == orig[done]);
            assert(specs@ =~= orig.skip(done + 1));
        }
        match s.load_lib() {
            Ok(h) => {
                libs.push(Some(h));
                diags.push(None);
            },
            Err(e) => {
                libs.push(None);
                diags.push(Some(e));
            },
        }
    }
    let mut slots: Vec<Option<usize>> = Vec::new();
    while slots.len() < fns.len()
        invariant
            slots@.len() <= fns@.len(),
            forall|j: int| 0 <= j < slots@.len() ==> (#[trigger] slots@[j]) is None,
        decreases fns@.len() - slots@.len(),
    {
        slots.push(None);
    }
    LibraryGroup { fns, libs, diags, slots }
}

impl LibraryGroup {
    /// The front half of function `j`'s resolution step: the exact symbol
    /// to look up — the function's name with the terminating NUL appended
    /// — or nothing when the library never opened, in which case
    /// resolution short-circuits without any lookup.
    pub fn symbol_request(&self, j: usize) -> (r: Option<Vec<u8>>)
        requires
            self.wf(),
            j < self.fns@.len(),
        ensures
            r is Some <==> self.lib_present(j as int),
            r matches Some(b) ==> b@ == self.fns@[j as int].name@.push(0u8),
    {
        let d = &self.fns[j];
        if self.libs[d.lib].is_some() {
            let mut b = copy_bytes(&d.name);
            b.push(0u8);
            Some(b)
        } else {
            None
        }
    }

    /// The open handle of library slot `i`, for the embedding program to
    /// run a requested lookup against.
    pub fn lib_handle(&self, i: usize) -> (r: Option<&libloading::Library>)
        requires
            i < self.libs@.len(),
        ensures
            r is Some <==> self.libs@[i as int] is Some,
            r matches Some(h) ==> self.libs@[i as int] == Some(*h),
    {
        self.libs[i].as_ref()
    }

    /// The resolution phase of construction: run every function's resolution step
    /// in declaration order.  `answers[j]` is what the lookup for function
    /// `j` returned; for a function whose library never opened the answer
    /// is ignored and the slot stays empty.
    pub fn resolve_all(&mut self, answers: &Vec<Option<usize>>)
        requires
            old(self).wf(),
            answers@.len() == old(self).fns@.len(),
        ensures
            final(self).wf(),
            final(self).fns == old(self).fns,
            final(self).libs == old(self).libs,
            final(self).diags == old(self).diags,
            final(self).slots@.len() == old(self).slots@.len(),
            forall|j: int|
                0 <= j < answers@.len() ==> #[trigger] final(self).slots@[j] == resolve_slot(
                    old(self).lib_present(j),
                    answers@[j],
                ),
            resolved_from(*final(self), answers@),
    {
        let mut j: usize = 0;
        while j < answers.len()
            invariant
                self.wf(),
                self.fns == old(self).fns,
                self.libs == old(self).libs,
                self.diags == old(self).diags,
                self.slots@.len() == old(self).slots@.len(),
                answers@.len() == self.fns@.len(),
                j <= answers@.len(),
                forall|k: int|
                    0 <= k < j ==> #[trigger] self.slots@[k] == resolve_slot(
                        old(self).lib_present(k),
                        answers@[k],
                    ),
            decreases answers@.len() - j,
        {
            let a = SymbolAnswer { index: j, addr: answers[j] };
            a.apply(self);
            j = j + 1;
        }
    }

    /// The feature query by slot: a pure report of whether function `j`'s
    /// pointer slot is populated.
    pub fn is_resolved(&self, j: usize) -> (r: bool)
        ensures
            r == self.spec_resolved(j as int),
    {
        j < self.slots.len() && self.slots[j].is_some()
    }

    /// The feature query by feature-flag name: whether some function
    /// declared under the feature name `feature` resolved.  With no such
    /// function the answer is `false`.
    pub fn feature_query(&self, feature: &Vec<u8>) -> (r: bool)
        ensures
            r == exists|j: int|
                0 <= j < self.fns@.len() && has_feature(#[trigger] self.fns@[j], feature@)
                    && self.spec_resolved(j),
    {
        let mut j: usize = 0;
        while j < self.fns.len()
            invariant
                j <= self.fns@.len(),
                forall|k: int|
                    0 <= k < j ==> !(has_feature(#[trigger] self.fns@[k], feature@)
                        && self.spec_resolved(k)),
            decreases self.fns@.len() - j,
        {
            let matched = match &self.fns[j].feature {
                Some(f) => bytes_eq(f, feature),
                None => false,
            };
            if matched && self.is_resolved(j) {
                proof {
                    assert(has_feature(self.fns@[j as int], feature@) && self.spec_resolved(
                        j as int,
                    ));
                }
                return true;
            }
            j = j + 1;
        }
        false
    }

    /// The decision the call wrapper acts on.  `Ok` carries the
    /// resolved address to call through; `Err` carries the diagnostic —
    /// the name of the function whose slot is absent — on which the
    /// wrapper must halt instead of touching any pointer.
    pub fn call_target(&self, j: usize) -> (r: Result<usize, Vec<u8>>)
        requires
            j < self.fns@.len(),
            j < self.slots@.len(),
        ensures
            self.slots@[j as int] matches Some(a) ==> r == Ok::<usize, Vec<u8>>(a),
            self.slots@[j as int] is None ==> (r matches Err(n) && n@ == self.fns@[j as int].name@),
    {
        match self.slots[j] {
            Some(a) => Ok(a),
            None => Err(copy_bytes(&self.fns[j].name)),
        }
    }

    /// The resolved address of function `j`, for callers that already
    /// established availability.
    pub fn resolved_addr(&self, j: usize) -> (a: usize)
        requires
            self.spec_resolved(j as int),
        ensures
            self.slots@[j as int] == Some(a),
    {
        self.slots[j].unwrap()
    }
}

/// The outcome of one symbol lookup as the resolution step consumes it:
/// which function slot it answers, and the pointer token the lookup
/// produced, if any.
pub struct SymbolAnswer {
    pub index: usize,
    pub addr: Option<usize>,
}

impl SymbolAnswer {
    /// The back half of a resolution step: write function `self.index`'s
    /// slot.  With the associated library absent the slot
    /// stays empty whatever the answer says; a step naming no declared
    /// slot changes nothing.
    pub fn apply(&self, libs: &mut LibraryGroup)
        ensures
            final(libs).fns == old(libs).fns,
            final(libs).libs == old(libs).libs,
            final(libs).diags == old(libs).diags,
            self.index < old(libs).slots@.len() && self.index < old(libs).fns@.len()
                ==> final(libs).slots@ == old(libs).slots@.update(
                self.index as int,
                resolve_slot(old(libs).lib_present(self.index as int), self.addr),
            ),
            !(self.index < old(libs).slots@.len() && self.index < old(libs).fns@.len())
                ==> final(libs).slots@ == old(libs).slots@,
    {
        if self.index < libs.slots.len() && self.index < libs.fns.len() {
            let d_lib = libs.fns[self.index].lib;
            let present = d_lib < libs.libs.len() && libs.libs[d_lib].is_some();
            let v = if present {
                self.addr
            } else {
                None
            };
            libs.slots.set(self.index, v);
        }
    }
}

impl LoadFnPtr<LibraryGroup> for SymbolAnswer {
    fn load_from_lib(&self, libs: &mut LibraryGroup) {
        self.apply(libs)
    }
}

/// The shape `resolve_all` leaves the function slots in, given the
/// lookup answers it consumed.
pub open spec fn resolved_from(g: LibraryGroup, answers: Seq<Option<usize>>) -> bool {
    &&& answers.len() == g.fns@.len()
    &&& g.slots@.len() == g.fns@.len()
    &&& forall|j: int|
        0 <= j < answers.len() ==> #[trigger] g.slots@[j] == resolve_slot(
            g.lib_present(j),
            answers[j],
        )
}

/// Degradation law: when library slot `l` of a well-formed group holds no
/// handle, every function that names `l` is unresolved, so its feature
/// query answers `false` — and nothing else about the group is affected.
pub proof fn lemma_degradation(g: LibraryGroup, l: int, j: int)
    requires
        g.wf(),
        0 <= j < g.fns@.len(),
        g.fns@[j].lib == l,
        0 <= l < g.libs@.len(),
        g.libs@[l] is None,
    ensures
        !g.spec_resolved(j),
{
    assert(g.slots@[j] is Some ==> g.lib_present(j));
}

/// Partial-availability law: in a group built from `answers`, a function
/// whose library opened is resolved exactly when its own lookup answered,
/// and its slot is exactly that answer — independently of every other
/// function and of every other symbol of the same library.
pub proof fn lemma_partial_availability(g: LibraryGroup, answers: Seq<Option<usize>>, j: int)
    requires
        resolved_from(g, answers),
        0 <= j < answers.len(),
    ensures
        g.lib_present(j) ==> g.slots@[j] == answers[j],
        g.spec_resolved(j) <==> (g.lib_present(j) && answers[j] is Some),
{
}

/// Construction is deterministic: two groups over the same descriptors
/// and the same library presence, resolved from the same answers, hold
/// identical slot tables.
pub proof fn lemma_deterministic(g1: LibraryGroup, g2: LibraryGroup, answers: Seq<Option<usize>>)
    requires
        resolved_from(g1, answers),
        resolved_from(g2, answers),
        g1.fns@ == g2.fns@,
        forall|j: int| 0 <= j < g1.fns@.len() ==> g1.lib_present(j) == g2.lib_present(j),
    ensures
        g1.slots@ == g2.slots@,
{
    assert(g1.slots@ =~= g2.slots@);
}

/// Under a valid declaration a feature-flag name belongs to at most one
/// function, so the feature query under `f` answers exactly the
/// availability of the function that declares `f`.
pub proof fn lemma_feature_query_exact(g: LibraryGroup, j: int, f: Seq<u8>)
    requires
        valid_fns(g.fns@, g.libs@.len() as int),
        0 <= j < g.fns@.len(),
        has_feature(g.fns@[j], f),
    ensures
        (exists|k: int|
            0 <= k < g.fns@.len() && has_feature(#[trigger] g.fns@[k], f) && g.spec_resolved(k))
            <==> g.spec_resolved(j),
{
    if exists|k: int|
        0 <= k < g.fns@.len() && has_feature(#[trigger] g.fns@[k], f) && g.spec_resolved(k) {
        let k = choose|k: int|
            0 <= k < g.fns@.len() && has_feature(#[trigger] g.fns@[k], f) && g.spec_resolved(k);
        if k < j {
            assert(g.fns@[k].feature->0@ != g.fns@[j].feature->0@);
        } else if j < k {
            assert(g.fns@[j].feature->0@ != g.fns@[k].feature->0@);
        }
    }
}

/// Validate a declaration and, when it is well formed, run the open phase
/// of construction.  The rejected declarations are exactly the
/// invalid ones; an accepted group starts with every function slot
/// unresolved and the pass-through library outcomes in place.
pub fn begin_group(decl: GroupDecl) -> (r: Result<LibraryGroup, DeclError>)
    ensures
        r is Ok <==> valid_decl(decl),
        r matches Err(e) ==> decl_error_witness(e, decl),
        r matches Ok(g) ==> {
            &&& g.wf()
            &&& g.fns@ == decl.fns@
            &&& g.libs@.len() == decl.libs@.len()
            &&& forall|j: int| 0 <= j < g.slots@.len() ==> (#[trigger] g.slots@[j]) is None
            &&& forall|i: int|
                0 <= i < decl.libs@.len() ==> ((#[trigger] decl.libs@[i]) matches
                LibSpecifier::Handle(h) ==> g.libs@[i] == Some(h))
            &&& forall|i: int|
                0 <= i < decl.libs@.len() ==> ((#[trigger] decl.libs@[i]) matches
                LibSpecifier::Outcome(Ok(h)) ==> g.libs@[i] == Some(h))
            &&& forall|i: int|
                0 <= i < decl.libs@.len() ==> ((#[trigger] decl.libs@[i]) matches
                LibSpecifier::Outcome(Err(s)) ==> g.libs@[i] is None && g.diags@[i] == Some(s))
        },
{
    match validate(&decl) {
        Ok(()) => Ok(open_libraries(decl)),
        Err(e) => Err(e),
    }
}

} // verus!

