//! The identifier policy: a fixed, author-supplied catalog of host API
//! receivers, globals, constructors and methods, plus the reserved words of
//! the target language.  Names found in the catalog pass through verbatim,
//! exact case included; user symbols are emitted under their own name,
//! mangled only when they collide with a reserved or catalog name.

use vstd::prelude::*;

verus! {

/// One catalog row: a method on a kind of host receiver, always emitted
/// verbatim.
pub struct CatalogMethod {
    pub receiver: String,
    pub method: String,
}

/// The host API catalog: the single extension point for recognising more
/// of the host surface.  Extend it by adding rows, never by code paths.
pub struct HostCatalog {
    /// Global host objects referenced by name.
    pub receivers: Vec<String>,
    /// Global host functions callable by name.
    pub functions: Vec<String>,
    /// Host classes that may be constructed.
    pub constructors: Vec<String>,
    /// Known methods per receiver kind; informational: an unknown method
    /// is still passed through verbatim and fails only at target runtime.
    pub methods: Vec<CatalogMethod>,
}

/// Membership of a name in a list of names.
pub open spec fn contains_name(names: Seq<Seq<char>>, x: Seq<char>) -> bool {
    exists|i: int| 0 <= i < names.len() && names[i] == x
}

/// The names a catalog passes through when referenced as a plain
/// identifier or a receiver.
pub open spec fn catalog_receiver(cat: HostCatalog, x: Seq<char>) -> bool {
    contains_name(cat.receivers@.map_values(|s: String| s@), x)
}

/// The names a catalog passes through when called as a bare function.
pub open spec fn catalog_function(cat: HostCatalog, x: Seq<char>) -> bool {
    contains_name(cat.functions@.map_values(|s: String| s@), x)
}

/// The class names a catalog recognises in a host-object construction.
pub open spec fn catalog_constructor(cat: HostCatalog, x: Seq<char>) -> bool {
    contains_name(cat.constructors@.map_values(|s: String| s@), x)
}

/// Whether the catalog lists `method` on receiver kind `receiver`.
pub open spec fn catalog_method(cat: HostCatalog, receiver: Seq<char>, method: Seq<char>) -> bool {
    exists|i: int|
        0 <= i < cat.methods@.len() && cat.methods@[i].receiver@ == receiver
            && cat.methods@[i].method@ == method
}

/// The reserved words of the target language that a user symbol must not
/// shadow.
pub open spec fn reserved_word(x: Seq<char>) -> bool {
    ||| x == "let"@
    ||| x == "const"@
    ||| x == "var"@
    ||| x == "function"@
    ||| x == "new"@
    ||| x == "return"@
    ||| x == "if"@
    ||| x == "else"@
    ||| x == "while"@
    ||| x == "for"@
    ||| x == "of"@
    ||| x == "in"@
    ||| x == "null"@
    ||| x == "undefined"@
    ||| x == "true"@
    ||| x == "false"@
    ||| x == "typeof"@
    ||| x == "class"@
    ||| x == "this"@
}

/// A user symbol collides when it matches a reserved word or any catalog
/// name; colliding symbols are emitted with a `_` suffix.
pub open spec fn name_collides(cat: HostCatalog, x: Seq<char>) -> bool {
    ||| reserved_word(x)
    ||| catalog_receiver(cat, x)
    ||| catalog_function(cat, x)
    ||| catalog_constructor(cat, x)
}

/// The emitted spelling of a user symbol.
pub open spec fn emit_name_s(cat: HostCatalog, x: Seq<char>) -> Seq<char> {
    if name_collides(cat, x) {
        x + "_"@
    } else {
        x
    }
}

/// Whether `x` occurs in `names`.
pub fn name_in_list(names: &Vec<String>, x: &String) -> (r: bool)
    ensures
        r == contains_name(names@.map_values(|s: String| s@), x@),
{
    let ghost m = names@.map_values(|s: String| s@);
    for j in 0..names.len()
        invariant
            m == names@.map_values(|s: String| s@),
            forall|i: int| 0 <= i < j ==> m[i] != x@,
    {
        if names[j] == *x {
            assert(m[j as int] == x@);
            return true;
        }
    }
    false
}

/// Whether `x` spells exactly `lit`.
pub fn text_eq(x: &String, lit: &str) -> (r: bool)
    ensures
        r == (x@ == lit@),
{
    let s = String::from_str(lit);
    *x == s
}

impl HostCatalog {
    /// Whether `x` names a global host object.
    pub fn is_receiver(&self, x: &String) -> (r: bool)
        ensures
            r == catalog_receiver(*self, x@),
    {
        name_in_list(&self.receivers, x)
    }

    /// Whether `x` names a global host function.
    pub fn is_function(&self, x: &String) -> (r: bool)
        ensures
            r == catalog_function(*self, x@),
    {
        name_in_list(&self.functions, x)
    }

    /// Whether `x` names a host class recognised for construction.
    pub fn is_constructor(&self, x: &String) -> (r: bool)
        ensures
            r == catalog_constructor(*self, x@),
    {
        name_in_list(&self.constructors, x)
    }

    /// Whether the catalog lists `method` on receiver kind `receiver`.
    pub fn has_method(&self, receiver: &String, method: &String) -> (r: bool)
        ensures
            r == catalog_method(*self, receiver@, method@),
    {
        for j in 0..self.methods.len()
            invariant
                forall|i: int|
                    0 <= i < j ==> !(self.methods@[i].receiver@ == receiver@
                        && self.methods@[i].method@ == method@),
        {
            if self.methods[j].receiver == *receiver && self.methods[j].method == *method {
                return true;
            }
        }
        false
    }
}

/// Whether `x` is a reserved word of the target language.
pub fn is_reserved_word(x: &String) -> (r: bool)
    ensures
        r == reserved_word(x@),
{
    text_eq(x, "let") || text_eq(x, "const") || text_eq(x, "var") || text_eq(
        x,
        "function",
    ) || text_eq(x, "new") || text_eq(x, "return") || text_eq(x, "if") || text_eq(
        x,
        "else",
    ) || text_eq(x, "while") || text_eq(x, "for") || text_eq(x, "of") || text_eq(
        x,
        "in",
    ) || text_eq(x, "null") || text_eq(x, "undefined") || text_eq(x, "true")
        || text_eq(x, "false") || text_eq(x, "typeof") || text_eq(x, "class")
        || text_eq(x, "this")
}

/// The emitted spelling of the user symbol `x`: verbatim, or suffixed with
/// `_` when it collides with a reserved or catalog name.  Pass-through
/// names never go through here.
pub fn emit_name(cat: &HostCatalog, x: &String) -> (r: String)
    ensures
        r@ == emit_name_s(*cat, x@),
{
    let collides = is_reserved_word(x) || cat.is_receiver(x) || cat.is_function(x)
        || cat.is_constructor(x);
    if collides {
        let mut s = x.clone();
        s.append("_");
        s
    } else {
        x.clone()
    }
}

fn push_name(v: &mut Vec<String>, lit: &str)
    ensures
        final(v)@.map_values(|s: String| s@) == old(v)@.map_values(|s: String| s@).push(lit@),
{
    v.push(String::from_str(lit));
    assert(v@.map_values(|s: String| s@) =~= old(v)@.map_values(|s: String| s@).push(lit@));
}

fn push_method(v: &mut Vec<CatalogMethod>, receiver: &str, method: &str)
    ensures
        final(v)@.len() == old(v)@.len() + 1,
        final(v)@[old(v)@.len() as int].receiver@ == receiver@,
        final(v)@[old(v)@.len() as int].method@ == method@,
        forall|i: int| 0 <= i < old(v)@.len() ==> final(v)@[i] == old(v)@[i],
{
    v.push(
        CatalogMethod { receiver: String::from_str(receiver), method: String::from_str(method) },
    );
}

/// The catalog of the browser surface this engine targets: document-like,
/// window-like, console-like, storage-like and navigation receivers, the
/// timer and animation globals, and the network-request constructor.
pub fn default_catalog() -> (r: HostCatalog)
    ensures
        r.receivers@.map_values(|s: String| s@) =~= seq![
            "document"@,
            "window"@,
            "console"@,
            "localStorage"@,
            "navigator"@,
            "location"@,
        ],
        r.functions@.map_values(|s: String| s@) =~= seq![
            "alert"@,
            "confirm"@,
            "setTimeout"@,
            "setInterval"@,
            "clearTimeout"@,
            "clearInterval"@,
            "requestAnimationFrame"@,
        ],
        r.constructors@.map_values(|s: String| s@) =~= seq!["XMLHttpRequest"@],
        catalog_method(r, "document"@, "getElementById"@),
        catalog_method(r, "storage"@, "getItem"@),
{
    let mut receivers: Vec<String> = Vec::new();
    push_name(&mut receivers, "document");
    push_name(&mut receivers, "window");
    push_name(&mut receivers, "console");
    push_name(&mut receivers, "localStorage");
    push_name(&mut receivers, "navigator");
    push_name(&mut receivers, "location");
    let mut functions: Vec<String> = Vec::new();
    push_name(&mut functions, "alert");
    push_name(&mut functions, "confirm");
    push_name(&mut functions, "setTimeout");
    push_name(&mut functions, "setInterval");
    push_name(&mut functions, "clearTimeout");
    push_name(&mut functions, "clearInterval");
    push_name(&mut functions, "requestAnimationFrame");
    let mut constructors: Vec<String> = Vec::new();
    push_name(&mut constructors, "XMLHttpRequest");
    let mut methods: Vec<CatalogMethod> = Vec::new();
    push_method(&mut methods, "document", "getElementById");
    push_method(&mut methods, "document", "createElement");
    push_method(&mut methods, "document", "getElementsByTagName");
    push_method(&mut methods, "document", "querySelector");
    push_method(&mut methods, "document", "querySelectorAll");
    push_method(&mut methods, "window", "getComputedStyle");
    push_method(&mut methods, "window", "addEventListener");
    push_method(&mut methods, "window", "innerWidth");
    push_method(&mut methods, "window", "innerHeight");
    push_method(&mut methods, "console", "log");
    push_method(&mut methods, "console", "warn");
    push_method(&mut methods, "console", "error");
    push_method(&mut methods, "storage", "getItem");
    push_method(&mut methods, "storage", "setItem");
    push_method(&mut methods, "location", "reload");
    push_method(&mut methods, "element", "addEventListener");
    push_method(&mut methods, "element", "insertAdjacentHTML");
    push_method(&mut methods, "element", "setAttribute");
    push_method(&mut methods, "element", "querySelectorAll");
    push_method(&mut methods, "request", "open");
    push_method(&mut methods, "request", "send");
    push_method(&mut methods, "request", "setRequestHeader");
    push_method(&mut methods, "request", "addEventListener");
    let r = HostCatalog { receivers, functions, constructors, methods };
    assert(r.methods@[0].receiver@ == "document"@ && r.methods@[0].method@ == "getElementById"@);
    assert(r.methods@[12].receiver@ == "storage"@ && r.methods@[12].method@ == "getItem"@);
    r
}

} // verus!
