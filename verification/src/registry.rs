//! The program assembler: a process-wide ordered registry of emitted
//! fragments, keyed by source name for duplicate detection, append-only,
//! rendered as the concatenation of all fragment texts in registration
//! order with one blank line between fragments.

use vstd::prelude::*;

use crate::ast::AnnotatedFunction;
use crate::emit::{diags_view, emit_function, emit_function_s, DiagKind, Diagnostic,
    EmittedFragment};
use crate::policy::HostCatalog;

verus! {

/// The ghost reading of a fragment list: (source name, text) pairs.
pub open spec fn registry_view(frs: Seq<EmittedFragment>) -> Seq<(Seq<char>, Seq<char>)> {
    frs.map_values(|f: EmittedFragment| (f.source_name@, f.text@))
}

/// The elementwise reading of `registry_view`.
pub proof fn registry_view_props(frs: Seq<EmittedFragment>)
    ensures
        registry_view(frs).len() == frs.len(),
        forall|i: int|
            0 <= i < frs.len() ==> #[trigger] registry_view(frs)[i] == (
                frs[i].source_name@,
                frs[i].text@,
            ),
{
}

/// The registered source names, in registration order.
pub open spec fn registered_names_s(frs: Seq<(Seq<char>, Seq<char>)>) -> Seq<Seq<char>> {
    frs.map_values(|f: (Seq<char>, Seq<char>)| f.0)
}

/// The first position from `i` on holding `name`, or -1.
pub open spec fn find_name_s(frs: Seq<(Seq<char>, Seq<char>)>, name: Seq<char>, i: int) -> int
    decreases frs.len() - i,
{
    if 0 <= i < frs.len() {
        if frs[i].0 == name {
            i
        } else {
            find_name_s(frs, name, i + 1)
        }
    } else {
        -1
    }
}

/// What registering a fragment does: a fresh source name is appended, a
/// reused one replaces the earlier fragment's text in place — the later
/// registration wins, the original order is kept — and the reuse is
/// reported.
pub open spec fn register_s(frs: Seq<(Seq<char>, Seq<char>)>, fr: (Seq<char>, Seq<char>)) -> (
    Seq<(Seq<char>, Seq<char>)>,
    bool,
) {
    let idx = find_name_s(frs, fr.0, 0);
    if idx >= 0 {
        (frs.update(idx, fr), true)
    } else {
        (frs.push(fr), false)
    }
}

/// The rendered program from fragment `i` on: the texts in registration
/// order, separated by a single blank line.
pub open spec fn render_program_s(frs: Seq<(Seq<char>, Seq<char>)>, i: int) -> Seq<char>
    decreases frs.len() - i,
{
    if i < 0 || i >= frs.len() {
        Seq::empty()
    } else if i == frs.len() - 1 {
        frs[i].1
    } else {
        frs[i].1 + "\n\n"@ + render_program_s(frs, i + 1)
    }
}

/// Where `find_name_s` points: the first match, if any.
pub proof fn find_name_s_props(frs: Seq<(Seq<char>, Seq<char>)>, name: Seq<char>, i: int)
    requires
        0 <= i <= frs.len(),
    ensures
        find_name_s(frs, name, i) == -1 ==> forall|k: int| i <= k < frs.len() ==> frs[k].0 != name,
        find_name_s(frs, name, i) != -1 ==> {
            let r = find_name_s(frs, name, i);
            &&& i <= r < frs.len()
            &&& frs[r].0 == name
            &&& forall|k: int| i <= k < r ==> frs[k].0 != name
        },
    decreases frs.len() - i,
{
    if i < frs.len() {
        find_name_s_props(frs, name, i + 1);
    }
}

/// `find_name_s` points at `j` when `j` holds the first match.
pub proof fn find_name_s_at(frs: Seq<(Seq<char>, Seq<char>)>, name: Seq<char>, i: int, j: int)
    requires
        0 <= i <= j < frs.len(),
        frs[j].0 == name,
        forall|k: int| i <= k < j ==> frs[k].0 != name,
    ensures
        find_name_s(frs, name, i) == j,
    decreases j - i,
{
    if i < j {
        find_name_s_at(frs, name, i + 1, j);
    }
}

/// `find_name_s` finds nothing when nothing matches.
pub proof fn find_name_s_none(frs: Seq<(Seq<char>, Seq<char>)>, name: Seq<char>, i: int)
    requires
        0 <= i <= frs.len(),
        forall|k: int| i <= k < frs.len() ==> frs[k].0 != name,
    ensures
        find_name_s(frs, name, i) == -1,
    decreases frs.len() - i,
{
    if i < frs.len() {
        find_name_s_none(frs, name, i + 1);
    }
}

/// The ordered, append-only collection of emitted fragments.
pub struct ProgramRegistry {
    pub fragments: Vec<EmittedFragment>,
}

impl ProgramRegistry {
    /// An empty registry.
    pub fn new() -> (r: ProgramRegistry)
        ensures
            registry_view(r.fragments@) == Seq::<(Seq<char>, Seq<char>)>::empty(),
    {
        let r = ProgramRegistry { fragments: Vec::new() };
        proof {
            assert(registry_view(r.fragments@) =~= Seq::<(Seq<char>, Seq<char>)>::empty());
        }
        r
    }

    /// Registers a fragment; reports whether the source name was already
    /// taken, in which case the later registration replaced the earlier
    /// text in place.
    pub fn register(&mut self, fr: EmittedFragment) -> (dup: bool)
        ensures
            registry_view(final(self).fragments@) == register_s(
                registry_view(old(self).fragments@),
                (fr.source_name@, fr.text@),
            ).0,
            dup == register_s(
                registry_view(old(self).fragments@),
                (fr.source_name@, fr.text@),
            ).1,
    {
        let ghost frs = registry_view(old(self).fragments@);
        let ghost frv = (fr.source_name@, fr.text@);
        proof {
            assert(frs == registry_view(self.fragments@));
            registry_view_props(self.fragments@);
            find_name_s_props(frs, frv.0, 0);
        }
        let n = self.fragments.len();
        let mut j: usize = 0;
        while j < n
            invariant
                n == self.fragments@.len(),
                0 <= j <= n,
                frs == registry_view(self.fragments@),
                frs == registry_view(old(self).fragments@),
                frv == (fr.source_name@, fr.text@),
                forall|k: int|
                    0 <= k < j ==> #[trigger] self.fragments@[k].source_name@ != frv.0,
            decreases n - j,
        {
            let name_hit = self.fragments[j].source_name == fr.source_name;
            if name_hit {
                proof {
                    registry_view_props(self.fragments@);
                    assert(forall|k: int| 0 <= k < j ==> frs[k].0 != frv.0);
                    assert(frs[j as int].0 == frv.0);
                    find_name_s_at(frs, frv.0, 0, j as int);
                }
                self.fragments.set(j, fr);
                proof {
                    registry_view_props(self.fragments@);
                    assert(registry_view(self.fragments@) =~= frs.update(j as int, frv));
                    assert(register_s(frs, frv).1);
                    assert(registry_view(self.fragments@) == register_s(frs, frv).0);
                }
                return true;
            }
            j = j + 1;
        }
        proof {
            registry_view_props(self.fragments@);
            assert(forall|k: int| 0 <= k < frs.len() ==> frs[k].0 != frv.0);
            find_name_s_none(frs, frv.0, 0);
        }
        self.fragments.push(fr);
        proof {
            registry_view_props(self.fragments@);
            assert(registry_view(self.fragments@) =~= frs.push(frv));
            assert(!register_s(frs, frv).1);
            assert(registry_view(self.fragments@) == register_s(frs, frv).0);
        }
        false
    }

    /// Renders the whole registry, deterministically: the output depends
    /// on the ordered fragments alone.
    pub fn render(&self) -> (r: String)
        ensures
            r@ == render_program_s(registry_view(self.fragments@), 0),
    {
        render_fragments(&self.fragments, 0)
    }
}

fn render_fragments(frs: &Vec<EmittedFragment>, i: usize) -> (r: String)
    ensures
        r@ == render_program_s(registry_view(frs@), i as int),
    decreases frs@.len() - i,
{
    if i >= frs.len() {
        String::new()
    } else if i == frs.len() - 1 {
        frs[i].text.clone()
    } else {
        let mut out = frs[i].text.clone();
        out.append("\n\n");
        let rest = render_fragments(frs, i + 1);
        out.append(rest.as_str());
        out
    }
}

/// What adding one annotated function to the assembler does: its
/// diagnostics are appended; unless a structural error suppressed the
/// fragment, the fragment is registered, and a re-registration under a
/// used name is reported as one more duplicate-symbol warning.
pub open spec fn add_function_s(
    cat: HostCatalog,
    frs: Seq<(Seq<char>, Seq<char>)>,
    ds: Seq<(DiagKind, Seq<char>)>,
    f: AnnotatedFunction,
) -> (Seq<(Seq<char>, Seq<char>)>, Seq<(DiagKind, Seq<char>)>) {
    let e = emit_function_s(cat, registered_names_s(frs), f);
    match e.1 {
        None => (frs, ds + e.0),
        Some(fr) => {
            let rg = register_s(frs, fr);
            (
                rg.0,
                ds + e.0 + (if rg.1 {
                    seq![(DiagKind::DuplicateSymbolWarning, fr.0)]
                } else {
                    Seq::empty()
                }),
            )
        },
    }
}

/// The root of the engine: the catalog, the fragment registry, and every
/// diagnostic reported so far, in order.
pub struct ProgramAssembler {
    pub catalog: HostCatalog,
    pub registry: ProgramRegistry,
    pub diagnostics: Vec<Diagnostic>,
}

impl ProgramAssembler {
    /// An assembler with an empty registry and no diagnostics.
    pub fn new(catalog: HostCatalog) -> (r: ProgramAssembler)
        ensures
            r.catalog == catalog,
            registry_view(r.registry.fragments@) == Seq::<(Seq<char>, Seq<char>)>::empty(),
            diags_view(r.diagnostics@) == Seq::<(DiagKind, Seq<char>)>::empty(),
    {
        let r = ProgramAssembler {
            catalog,
            registry: ProgramRegistry::new(),
            diagnostics: Vec::new(),
        };
        proof {
            assert(diags_view(r.diagnostics@) =~= Seq::<(DiagKind, Seq<char>)>::empty());
        }
        r
    }

    /// Lowers, checks and registers one annotated function; returns
    /// whether a fragment was emitted.  One function's structural failure
    /// never blocks the rest of the batch: the assembler stays usable and
    /// only gains diagnostics.
    pub fn add_function(&mut self, f: &AnnotatedFunction) -> (emitted: bool)
        ensures
            final(self).catalog == old(self).catalog,
            registry_view(final(self).registry.fragments@) == add_function_s(
                old(self).catalog,
                registry_view(old(self).registry.fragments@),
                diags_view(old(self).diagnostics@),
                *f,
            ).0,
            diags_view(final(self).diagnostics@) == add_function_s(
                old(self).catalog,
                registry_view(old(self).registry.fragments@),
                diags_view(old(self).diagnostics@),
                *f,
            ).1,
            emitted == (emit_function_s(
                old(self).catalog,
                registered_names_s(registry_view(old(self).registry.fragments@)),
                *f,
            ).1 is Some),
    {
        let ghost frs0 = registry_view(self.registry.fragments@);
        let ghost ds0 = diags_view(self.diagnostics@);
        let mut known: Vec<String> = Vec::new();
        let n = self.registry.fragments.len();
        for j in 0..n
            invariant
                n == self.registry.fragments@.len(),
                known@.len() == j,
                forall|k: int|
                    0 <= k < j ==> known@[k]@ == self.registry.fragments@[k].source_name@,
        {
            known.push(self.registry.fragments[j].source_name.clone());
        }
        proof {
            assert(crate::lower::names_view(known@) =~= registered_names_s(frs0));
        }
        let (mut ds, frag) = emit_function(&self.catalog, &known, f);
        let emitted = frag.is_some();
        self.diagnostics.append(&mut ds);
        proof {
            assert(diags_view(self.diagnostics@) =~= ds0 + emit_function_s(
                self.catalog,
                registered_names_s(frs0),
                *f,
            ).0);
        }
        match frag {
            None => {},
            Some(fr) => {
                let dup_name = fr.source_name.clone();
                let dup = self.registry.register(fr);
                if dup {
                    self.diagnostics.push(
                        Diagnostic { kind: DiagKind::DuplicateSymbolWarning, name: dup_name },
                    );
                }
                proof {
                    assert(diags_view(self.diagnostics@) =~= add_function_s(
                        self.catalog,
                        frs0,
                        ds0,
                        *f,
                    ).1);
                }
            },
        }
        emitted
    }

    /// Renders the assembled program.
    pub fn render(&self) -> (r: String)
        ensures
            r@ == render_program_s(registry_view(self.registry.fragments@), 0),
    {
        self.registry.render()
    }
}

/// Law: rendering is deterministic.  The rendered text is a function of
/// the ordered fragment sequence alone, so rendering the same ordered set
/// of registered functions twice — or two registries holding equal
/// fragments — yields byte-identical output.
pub proof fn lemma_render_deterministic(
    r1: Seq<(Seq<char>, Seq<char>)>,
    r2: Seq<(Seq<char>, Seq<char>)>,
)
    requires
        r1 == r2,
    ensures
        render_program_s(r1, 0) == render_program_s(r2, 0),
{
}

/// Law: registering a second fragment under an already-used source name
/// produces no new entry — the count is unchanged and the later text
/// replaces the earlier one at its original position — and the reuse is
/// reported to the caller.
pub proof fn lemma_duplicate_registration(
    frs: Seq<(Seq<char>, Seq<char>)>,
    fr: (Seq<char>, Seq<char>),
    j: int,
)
    requires
        0 <= j < frs.len(),
        frs[j].0 == fr.0,
    ensures
        register_s(frs, fr).0.len() == frs.len(),
        register_s(frs, fr).1,
        register_s(frs, fr).0[find_name_s(frs, fr.0, 0)] == fr,
{
    find_name_s_props(frs, fr.0, 0);
    if find_name_s(frs, fr.0, 0) == -1 {
        assert(frs[j].0 != fr.0);
    }
}

} // verus!
