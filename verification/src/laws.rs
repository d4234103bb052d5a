use vstd::prelude::*;
use crate::discovery::{
    discovered_model, ends_with, first_with_suffix, lemma_first_with_suffix_skip,
    lemma_no_suffix_match, DiscoveryRule, ListingModel,
};
use crate::dispatch::{
    build_model, dispatch_model, run_outcome, ActionModel, DispatchError,
};
use crate::lang::{Command, Lang};
use crate::registry::{advice_model, bin_for, bin_wf, exec_model, textual_model, BinModel};

verus! {

// ---------------------------------------------------------------------------
// The guarantees the launcher gives as a whole, stated over the spec
// models that the executable functions' contracts are written in.
// ---------------------------------------------------------------------------

/// Every language the textual tier knows has a non-empty advice line
/// for every command, the repl placeholder included.
pub proof fn lemma_textual_advice_nonempty(lang: Lang, cmd: Command)
    requires
        textual_model(lang) is Some,
    ensures
        advice_model(textual_model(lang)->Some_0, cmd).len() > 0,
{
    match lang {
        Lang::C => {
            reveal_strlit("clang");
            reveal_strlit("uhh, run the binary");
            reveal_strlit("https://en.cppreference.com/w/c");
            reveal_strlit("good luck");
            reveal_strlit("it don't have none");
            assert(advice_model(textual_model(lang)->Some_0, cmd).len() > 0);
        },
        Lang::CPP => {
            reveal_strlit("clang++");
            reveal_strlit("uhh, run the binary");
            reveal_strlit("https://en.cppreference.com/w/cpp");
            reveal_strlit("good luck");
            reveal_strlit("it don't have none");
            assert(advice_model(textual_model(lang)->Some_0, cmd).len() > 0);
        },
        Lang::Zig => {
            reveal_strlit("zig build");
            reveal_strlit("zig run");
            reveal_strlit("https://ziglang.org/documentation/master/std/#A;std");
            reveal_strlit("zig test");
            reveal_strlit("it don't have none");
            assert(advice_model(textual_model(lang)->Some_0, cmd).len() > 0);
        },
        Lang::Scheme => {
            reveal_strlit("see repl");
            reveal_strlit("https://www.gnu.org/software/guile/manual/guile.html#API-Reference");
            reveal_strlit("guile");
            assert(advice_model(textual_model(lang)->Some_0, cmd).len() > 0);
        },
        Lang::CommonLisp => {
            reveal_strlit("see repl");
            reveal_strlit("https://www.lispworks.com/documentation/lw51/CLHS/Front/X_AllSym.htm");
            reveal_strlit("sbcl");
            assert(advice_model(textual_model(lang)->Some_0, cmd).len() > 0);
        },
        Lang::Racket => {
            reveal_strlit("see repl");
            reveal_strlit("racket <file_name>");
            reveal_strlit("https://docs.racket-lang.org/reference/index.html");
            reveal_strlit("racket");
            assert(advice_model(textual_model(lang)->Some_0, cmd).len() > 0);
        },
        Lang::Sml => {
            reveal_strlit("- CM.make()");
            reveal_strlit("load files into repl using `use \"myfile.sml\"`");
            reveal_strlit("https://smlfamily.github.io/Basis/overview.html");
            reveal_strlit("good luck");
            reveal_strlit("sml");
            assert(advice_model(textual_model(lang)->Some_0, cmd).len() > 0);
        },
        Lang::Haskell => {
            reveal_strlit("stack build");
            reveal_strlit("stack run");
            reveal_strlit("https://hoogle.haskell.org/");
            reveal_strlit("stack test");
            reveal_strlit("stack ghci");
            assert(advice_model(textual_model(lang)->Some_0, cmd).len() > 0);
        },
        Lang::Ocaml => {
            reveal_strlit("dune build");
            reveal_strlit("dune exec <project_name>");
            reveal_strlit("https://v2.ocaml.org/releases/5.1/api/index.html");
            reveal_strlit("dune test");
            reveal_strlit("utop");
            assert(advice_model(textual_model(lang)->Some_0, cmd).len() > 0);
        },
        Lang::Rust => {
            reveal_strlit("cargo build");
            reveal_strlit("cargo run");
            reveal_strlit("https://doc.rust-lang.org/stable/std/");
            reveal_strlit("cargo test");
            reveal_strlit("cargo install irust && irust");
            assert(advice_model(textual_model(lang)->Some_0, cmd).len() > 0);
        },
        Lang::Clojure => {
            reveal_strlit("lein uberjar");
            reveal_strlit("lein run");
            reveal_strlit("https://clojuredocs.org");
            reveal_strlit("lein test");
            reveal_strlit("lein repl");
            assert(advice_model(textual_model(lang)->Some_0, cmd).len() > 0);
        },
        Lang::Coq => {},
        Lang::Agda => {},
        Lang::Idris => {},
    }
}

/// A dry request for a language the textual tier knows always resolves
/// to its advice line for the command, never degraded and never empty,
/// whatever the directory holds and whether or not an override came.
pub proof fn lemma_dry_mode_always_advises(
    lang: Lang,
    cmd: Command,
    ov: Option<Seq<char>>,
    listing: ListingModel,
)
    requires
        textual_model(lang) is Some,
    ensures
        ({
            let m = dispatch_model(lang, cmd, true, ov, listing);
            &&& m == Ok::<ActionModel, DispatchError>(
                (ActionModel::Advice {
                    degraded: false,
                    text: advice_model(textual_model(lang)->Some_0, cmd),
                }),
            )
            &&& advice_model(textual_model(lang)->Some_0, cmd).len() > 0
        }),
{
    lemma_textual_advice_nonempty(lang, cmd);
}

/// Every language in the executable tier also stands in the textual
/// tier, so a fallback advice line always exists for it.
pub proof fn lemma_exec_tier_within_textual_tier(lang: Lang)
    ensures
        exec_model(lang) is Some ==> textual_model(lang) is Some,
{
    match lang {
        Lang::C => assert(textual_model(lang) is Some),
        Lang::CPP => assert(textual_model(lang) is Some),
        Lang::Zig => assert(textual_model(lang) is Some),
        Lang::Scheme => assert(textual_model(lang) is Some),
        Lang::CommonLisp => assert(textual_model(lang) is Some),
        Lang::Racket => assert(textual_model(lang) is Some),
        Lang::Sml => assert(textual_model(lang) is Some),
        Lang::Haskell => assert(textual_model(lang) is Some),
        Lang::Ocaml => assert(textual_model(lang) is Some),
        Lang::Rust => assert(textual_model(lang) is Some),
        Lang::Clojure => assert(textual_model(lang) is Some),
        Lang::Coq => assert(exec_model(lang) is None),
        Lang::Agda => assert(exec_model(lang) is None),
        Lang::Idris => assert(exec_model(lang) is None),
    }
}

/// No command spec in the registry carries more fixed arguments than
/// its declared required count.
pub proof fn lemma_registry_bins_wf(lang: Lang, cmd: Command)
    ensures
        exec_model(lang) matches Some(em) ==> bin_for(em, cmd) matches Some(b) ==> bin_wf(b),
{
    match lang {
        Lang::C => assert(exec_model(lang) matches Some(em) ==> bin_for(em, cmd) matches Some(b)
            ==> bin_wf(b)),
        Lang::CPP => assert(exec_model(lang) matches Some(em) ==> bin_for(em, cmd) matches Some(b)
            ==> bin_wf(b)),
        Lang::Zig => assert(exec_model(lang) matches Some(em) ==> bin_for(em, cmd) matches Some(b)
            ==> bin_wf(b)),
        Lang::Scheme => assert(exec_model(lang) matches Some(em) ==> bin_for(em, cmd) matches Some(
            b,
        ) ==> bin_wf(b)),
        Lang::CommonLisp => assert(exec_model(lang) matches Some(em) ==> bin_for(em, cmd) matches Some(
            b,
        ) ==> bin_wf(b)),
        Lang::Racket => assert(exec_model(lang) matches Some(em) ==> bin_for(em, cmd) matches Some(
            b,
        ) ==> bin_wf(b)),
        Lang::Sml => assert(exec_model(lang) matches Some(em) ==> bin_for(em, cmd) matches Some(b)
            ==> bin_wf(b)),
        Lang::Haskell => assert(exec_model(lang) matches Some(em) ==> bin_for(em, cmd) matches Some(
            b,
        ) ==> bin_wf(b)),
        Lang::Ocaml => assert(exec_model(lang) matches Some(em) ==> bin_for(em, cmd) matches Some(
            b,
        ) ==> bin_wf(b)),
        Lang::Rust => assert(exec_model(lang) matches Some(em) ==> bin_for(em, cmd) matches Some(b)
            ==> bin_wf(b)),
        Lang::Clojure => assert(exec_model(lang) matches Some(em) ==> bin_for(em, cmd) matches Some(
            b,
        ) ==> bin_wf(b)),
        Lang::Coq => assert(exec_model(lang) is None),
        Lang::Agda => assert(exec_model(lang) is None),
        Lang::Idris => assert(exec_model(lang) is None),
    }
}

/// A live request whose executable spec is already complete resolves
/// to exactly the spec's program and fixed arguments, unchanged,
/// whatever the directory holds: discovery is never consulted.
pub proof fn lemma_complete_spec_runs_unchanged(lang: Lang, cmd: Command, listing: ListingModel)
    requires
        exec_model(lang) is Some,
        bin_for(exec_model(lang)->Some_0, cmd) is Some,
        bin_for(exec_model(lang)->Some_0, cmd)->Some_0.args.len() >= bin_for(
            exec_model(lang)->Some_0,
            cmd,
        )->Some_0.required,
    ensures
        ({
            let b = bin_for(exec_model(lang)->Some_0, cmd)->Some_0;
            dispatch_model(lang, cmd, false, None, listing) == Ok::<ActionModel, DispatchError>(
                run_outcome(b, b.args),
            )
        }),
{
}

/// A user override always wins: the built list is the fixed arguments
/// with the override appended verbatim as the final element, whether
/// or not the spec was already complete, and discovery is never
/// consulted.
pub proof fn lemma_override_is_final(
    b: BinModel,
    ov: Seq<char>,
    rule: Option<DiscoveryRule>,
    listing: ListingModel,
)
    ensures
        ({
            let m = build_model(b, Some(ov), rule, listing);
            &&& m == Ok::<Seq<Seq<char>>, DispatchError>(b.args.push(ov))
            &&& m->Ok_0.len() == b.args.len() + 1
            &&& m->Ok_0.last() == ov
            &&& m->Ok_0.take(b.args.len() as int) == b.args
        }),
{
    assert(b.args.push(ov).take(b.args.len() as int) =~= b.args);
}

/// The override seen at the whole-request level: when a live request
/// with an override resolves to a spawn, the spawned argument list
/// ends with the override string.
pub proof fn lemma_override_reaches_spawn(
    lang: Lang,
    cmd: Command,
    ov: Seq<char>,
    listing: ListingModel,
)
    requires
        exec_model(lang) is Some,
        bin_for(exec_model(lang)->Some_0, cmd) is Some,
    ensures
        ({
            let b = bin_for(exec_model(lang)->Some_0, cmd)->Some_0;
            let m = dispatch_model(lang, cmd, false, Some(ov), listing);
            &&& m == Ok::<ActionModel, DispatchError>(run_outcome(b, b.args.push(ov)))
            &&& m->Ok_0 matches ActionModel::Spawn { args, .. } ==> args.len() > 0 && args.last()
                == ov
        }),
{
}

/// A scan that holds exactly one matching entry hands back that entry,
/// wherever it stands in the listing order.
pub proof fn lemma_unique_match_is_found(entries: Seq<Seq<char>>, suffix: Seq<char>, k: int)
    requires
        0 <= k < entries.len(),
        ends_with(entries[k], suffix),
        forall|j: int| 0 <= j < entries.len() && j != k ==> !ends_with(entries[j], suffix),
    ensures
        first_with_suffix(entries, suffix) == Some(entries[k]),
{
    lemma_first_with_suffix_skip(entries, suffix, k);
    assert(entries.skip(k)[0] == entries[k]);
}

/// The working directory holds exactly one project-descriptor file:
/// discovery for the project-name policy resolves to its name with the
/// descriptor extension stripped.
pub proof fn lemma_ocaml_discovery_unique(listing: ListingModel, k: int)
    requires
        0 <= k < listing.entries.len(),
        ends_with(listing.entries[k], ".opam"@),
        forall|j: int| 0 <= j < listing.entries.len() && j != k ==> !ends_with(
            listing.entries[j],
            ".opam"@,
        ),
    ensures
        discovered_model(DiscoveryRule::OcamlProject, listing) == Some(
            listing.entries[k].take(listing.entries[k].len() - ".opam"@.len()),
        ),
{
    lemma_unique_match_is_found(listing.entries, ".opam"@, k);
}

/// The working directory holds no source file but the `src`
/// subdirectory holds exactly one: discovery for the source-file
/// policy resolves to that file's name behind the `src/` prefix.
pub proof fn lemma_racket_discovery_src_fallback(listing: ListingModel, k: int)
    requires
        forall|j: int| 0 <= j < listing.entries.len() ==> !ends_with(listing.entries[j], ".rkt"@),
        0 <= k < listing.src_entries.len(),
        ends_with(listing.src_entries[k], ".rkt"@),
        forall|j: int| 0 <= j < listing.src_entries.len() && j != k ==> !ends_with(
            listing.src_entries[j],
            ".rkt"@,
        ),
    ensures
        discovered_model(DiscoveryRule::RacketSource, listing) == Some(
            "src/"@ + listing.src_entries[k],
        ),
{
    lemma_no_suffix_match(listing.entries, ".rkt"@);
    lemma_unique_match_is_found(listing.src_entries, ".rkt"@, k);
}

/// When a spec still needs an argument, no override came, and the
/// directory holds no file that any discovery policy accepts,
/// resolution fails with the discovery error: nothing is spawned and
/// nothing is opened.
pub proof fn lemma_discovery_failure(lang: Lang, cmd: Command, listing: ListingModel)
    requires
        exec_model(lang) is Some,
        bin_for(exec_model(lang)->Some_0, cmd) is Some,
        bin_for(exec_model(lang)->Some_0, cmd)->Some_0.args.len() < bin_for(
            exec_model(lang)->Some_0,
            cmd,
        )->Some_0.required,
        forall|j: int| 0 <= j < listing.entries.len() ==> !ends_with(
            listing.entries[j],
            ".opam"@,
        ),
        forall|j: int| 0 <= j < listing.entries.len() ==> !ends_with(listing.entries[j], ".rkt"@),
        forall|j: int| 0 <= j < listing.src_entries.len() ==> !ends_with(
            listing.src_entries[j],
            ".rkt"@,
        ),
    ensures
        dispatch_model(lang, cmd, false, None, listing) == Err::<ActionModel, DispatchError>(
            DispatchError::DiscoveryFailed,
        ),
{
    lemma_no_suffix_match(listing.entries, ".opam"@);
    lemma_no_suffix_match(listing.entries, ".rkt"@);
    lemma_no_suffix_match(listing.src_entries, ".rkt"@);
}

/// A live request for a command the executable tier cannot serve, for
/// a language the launcher does know, degrades to that language's
/// advice line for the very command asked for, announced as not yet
/// automated, rather than erroring.
pub proof fn lemma_unsupported_command_degrades(
    lang: Lang,
    cmd: Command,
    ov: Option<Seq<char>>,
    listing: ListingModel,
)
    requires
        exec_model(lang) is Some,
        bin_for(exec_model(lang)->Some_0, cmd) is None,
    ensures
        ({
            let m = dispatch_model(lang, cmd, false, ov, listing);
            &&& textual_model(lang) is Some
            &&& m == Ok::<ActionModel, DispatchError>(
                (ActionModel::Advice {
                    degraded: true,
                    text: advice_model(textual_model(lang)->Some_0, cmd),
                }),
            )
        }),
{
    lemma_exec_tier_within_textual_tier(lang);
}

} // verus!
