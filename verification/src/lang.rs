use vstd::prelude::*;

verus! {

/// The closed set of language ecosystems the launcher knows about.
/// A few entries are reserved for ecosystems that have no registry
/// data yet; looking one of them up is an expected "unknown language"
/// outcome, not a failure of the registry itself.
#[derive(Clone, Copy, PartialEq, Eq, Debug, Structural)]
pub enum Lang {
    C,
    CPP,
    Zig,
    Scheme,
    CommonLisp,
    Racket,
    Sml,
    Haskell,
    Ocaml,
    Coq,
    Agda,
    Idris,
    Rust,
    Clojure,
}

/// The action category the user asks for.
#[derive(Clone, Copy, PartialEq, Eq, Debug, Structural)]
pub enum Command {
    Build,
    Run,
    Docs,
    Test,
    Repl,
}

} // verus!
