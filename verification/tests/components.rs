use poly::discovery::{discover, find_first_with_suffix, str_ends_with, DirListing, DiscoveryRule};
use poly::lang::{Command, Lang};
use poly::registry::{exec_resources, textual_resources, Bin};

fn names(v: &[&str]) -> Vec<String> {
    v.iter().map(|s| s.to_string()).collect()
}

#[test]
fn suffix_test_is_exact() {
    assert!(str_ends_with("foo.opam", ".opam"));
    assert!(str_ends_with(".opam", ".opam"));
    assert!(!str_ends_with("opam", ".opam"));
    assert!(!str_ends_with("foo.opamx", ".opam"));
    assert!(!str_ends_with("foo.rkt", ".opam"));
    assert!(str_ends_with("src/entry.rkt", ".rkt"));
    assert!(!str_ends_with("", ".rkt"));
}

#[test]
fn first_match_wins_in_listing_order() {
    let r = find_first_with_suffix(&names(&["b.rkt", "a.rkt"]), ".rkt");
    assert_eq!(r, Some("b.rkt".to_string()));
    let r = find_first_with_suffix(&names(&["x.txt", "a.rkt", "b.rkt"]), ".rkt");
    assert_eq!(r, Some("a.rkt".to_string()));
    let r = find_first_with_suffix(&names(&["x.txt"]), ".rkt");
    assert_eq!(r, None);
}

#[test]
fn ocaml_discovery_strips_the_descriptor_extension() {
    let l = DirListing { entries: names(&["myproj.opam"]), src_entries: names(&[]) };
    assert_eq!(discover(DiscoveryRule::OcamlProject, &l), Some("myproj".to_string()));
}

#[test]
fn racket_discovery_prefixes_the_src_fallback() {
    let l = DirListing { entries: names(&[]), src_entries: names(&["entry.rkt"]) };
    assert_eq!(discover(DiscoveryRule::RacketSource, &l), Some("src/entry.rkt".to_string()));
}

#[test]
fn discovery_finds_nothing_in_an_unrelated_directory() {
    let l = DirListing { entries: names(&["Cargo.toml"]), src_entries: names(&["main.rs"]) };
    assert_eq!(discover(DiscoveryRule::OcamlProject, &l), None);
    assert_eq!(discover(DiscoveryRule::RacketSource, &l), None);
}

#[test]
fn bin_new_keeps_its_fields() {
    let b = Bin::new("cargo".to_string(), names(&["build"]), 1);
    assert_eq!(b.name, "cargo");
    assert_eq!(b.args, names(&["build"]));
    assert_eq!(b.required, 1);
}

#[test]
fn get_resource_selects_by_command() {
    let res = exec_resources(Lang::Rust).expect("rust is in the executable tier");
    let b = Command::Build.get_resource(&res).expect("rust build is executable");
    assert_eq!(b.name, "cargo");
    assert_eq!(b.args, names(&["build"]));
    let b = Command::Docs.get_resource(&res).expect("rust docs is executable");
    assert_eq!(b.name, "open");
    let res = exec_resources(Lang::Scheme).expect("scheme is in the executable tier");
    assert!(Command::Build.get_resource(&res).is_none());
    assert!(Command::Repl.get_resource(&res).is_some());
}

#[test]
fn reserved_languages_are_absent_from_both_tiers() {
    for lang in [Lang::Coq, Lang::Agda, Lang::Idris] {
        assert!(textual_resources(lang).is_none());
        assert!(exec_resources(lang).is_none());
    }
}

#[test]
fn executable_tier_languages_always_have_advice() {
    for lang in [
        Lang::C,
        Lang::CPP,
        Lang::Zig,
        Lang::Scheme,
        Lang::CommonLisp,
        Lang::Racket,
        Lang::Sml,
        Lang::Haskell,
        Lang::Ocaml,
        Lang::Rust,
        Lang::Clojure,
    ] {
        if exec_resources(lang).is_some() {
            assert!(textual_resources(lang).is_some());
        }
    }
}

#[test]
fn advice_selects_the_right_line() {
    let res = textual_resources(Lang::Sml).expect("sml is in the textual tier");
    assert_eq!(Command::Build.advice(&res), "- CM.make()");
    assert_eq!(Command::Run.advice(&res), "load files into repl using `use \"myfile.sml\"`");
    assert_eq!(Command::Repl.advice(&res), "sml");
    let res = textual_resources(Lang::C).expect("c is in the textual tier");
    assert_eq!(Command::Repl.advice(&res), "it don't have none");
    assert_eq!(Command::Docs.advice(&res), "https://en.cppreference.com/w/c");
}
