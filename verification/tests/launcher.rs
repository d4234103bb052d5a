use poly::discovery::DirListing;
use poly::dispatch::{dispatch, Action, DispatchError};
use poly::lang::{Command, Lang};

fn listing(entries: &[&str], src_entries: &[&str]) -> DirListing {
    DirListing {
        entries: entries.iter().map(|s| s.to_string()).collect(),
        src_entries: src_entries.iter().map(|s| s.to_string()).collect(),
    }
}

fn empty_listing() -> DirListing {
    listing(&[], &[])
}

fn textual_langs() -> [Lang; 11] {
    [
        Lang::C,
        Lang::CPP,
        Lang::Zig,
        Lang::Scheme,
        Lang::CommonLisp,
        Lang::Racket,
        Lang::Sml,
        Lang::Haskell,
        Lang::Ocaml,
        Lang::Rust,
        Lang::Clojure,
    ]
}

fn commands() -> [Command; 5] {
    [Command::Build, Command::Run, Command::Docs, Command::Test, Command::Repl]
}

#[test]
fn dry_mode_always_gives_nonempty_advice() {
    for lang in textual_langs() {
        for cmd in commands() {
            let r = dispatch(lang, cmd, true, &None, &empty_listing());
            match r {
                Ok(Action::Advice { degraded, text }) => {
                    assert!(!degraded);
                    assert!(!text.is_empty());
                }
                other => panic!("dry run for {:?} {:?} gave {:?}", lang, cmd, describe(&other)),
            }
        }
    }
}

fn describe(r: &Result<Action, DispatchError>) -> String {
    match r {
        Ok(Action::Advice { degraded, text }) => format!("advice (degraded {degraded}): {text}"),
        Ok(Action::Spawn { program, args }) => format!("spawn {program} {args:?}"),
        Ok(Action::OpenResource { target }) => format!("open {target}"),
        Err(DispatchError::UnknownLanguage) => "unknown language".to_string(),
        Err(DispatchError::DiscoveryFailed) => "discovery failed".to_string(),
    }
}

#[test]
fn dry_mode_exact_lines() {
    let r = dispatch(Lang::Rust, Command::Build, true, &None, &empty_listing());
    match r {
        Ok(Action::Advice { degraded, text }) => {
            assert!(!degraded);
            assert_eq!(text, "cargo build");
        }
        _ => panic!("expected advice"),
    }
    let r = dispatch(Lang::Ocaml, Command::Run, true, &None, &empty_listing());
    match r {
        Ok(Action::Advice { text, .. }) => assert_eq!(text, "dune exec <project_name>"),
        _ => panic!("expected advice"),
    }
}

#[test]
fn dry_mode_repl_placeholder() {
    for lang in [Lang::C, Lang::CPP, Lang::Zig] {
        let r = dispatch(lang, Command::Repl, true, &None, &empty_listing());
        match r {
            Ok(Action::Advice { text, .. }) => assert_eq!(text, "it don't have none"),
            _ => panic!("expected advice"),
        }
    }
}

#[test]
fn unknown_language_is_fatal_in_both_modes() {
    for lang in [Lang::Coq, Lang::Agda, Lang::Idris] {
        for dry in [true, false] {
            let r = dispatch(lang, Command::Build, dry, &None, &empty_listing());
            match r {
                Err(DispatchError::UnknownLanguage) => {}
                _ => panic!("expected unknown language for {:?}", lang),
            }
        }
    }
}

#[test]
fn complete_spec_runs_program_and_fixed_args_unchanged() {
    let cases: [(Lang, Command, &str, &[&str]); 5] = [
        (Lang::Rust, Command::Build, "cargo", &["build"]),
        (Lang::Rust, Command::Test, "cargo", &["test"]),
        (Lang::Zig, Command::Run, "zig", &["run"]),
        (Lang::Haskell, Command::Repl, "stack", &["ghci"]),
        (Lang::C, Command::Build, "make", &[]),
    ];
    for (lang, cmd, prog, fixed) in cases {
        let r = dispatch(lang, cmd, false, &None, &empty_listing());
        match r {
            Ok(Action::Spawn { program, args }) => {
                assert_eq!(program, prog);
                assert_eq!(args, fixed.iter().map(|s| s.to_string()).collect::<Vec<_>>());
            }
            other => panic!("expected spawn for {:?} {:?}, got {}", lang, cmd, describe(&other)),
        }
    }
}

#[test]
fn docs_goes_to_the_open_sentinel() {
    let r = dispatch(Lang::Rust, Command::Docs, false, &None, &empty_listing());
    match r {
        Ok(Action::OpenResource { target }) => {
            assert_eq!(target, "https://doc.rust-lang.org/stable/std/");
        }
        _ => panic!("expected open resource"),
    }
}

#[test]
fn override_is_always_the_final_argument() {
    let ov = Some("--release".to_string());
    let r = dispatch(Lang::Rust, Command::Run, false, &ov, &empty_listing());
    match r {
        Ok(Action::Spawn { program, args }) => {
            assert_eq!(program, "cargo");
            assert_eq!(args, vec!["run".to_string(), "--release".to_string()]);
        }
        _ => panic!("expected spawn"),
    }
}

#[test]
fn override_beats_discovery() {
    // The listing holds a perfectly good candidate, but the override wins.
    let ov = Some("mychoice".to_string());
    let r = dispatch(Lang::Ocaml, Command::Run, false, &ov, &listing(&["other.opam"], &[]));
    match r {
        Ok(Action::Spawn { program, args }) => {
            assert_eq!(program, "dune");
            assert_eq!(args, vec!["exec".to_string(), "mychoice".to_string()]);
        }
        _ => panic!("expected spawn"),
    }
}

#[test]
fn override_on_a_complete_spec_is_still_appended() {
    let ov = Some("--verbose".to_string());
    let r = dispatch(Lang::Zig, Command::Build, false, &ov, &empty_listing());
    match r {
        Ok(Action::Spawn { program, args }) => {
            assert_eq!(program, "zig");
            assert_eq!(args, vec!["build".to_string(), "--verbose".to_string()]);
        }
        _ => panic!("expected spawn"),
    }
}

#[test]
fn ocaml_run_discovers_the_project_descriptor_stem() {
    let r = dispatch(Lang::Ocaml, Command::Run, false, &None, &listing(&["myproj.opam"], &[]));
    match r {
        Ok(Action::Spawn { program, args }) => {
            assert_eq!(program, "dune");
            assert_eq!(args, vec!["exec".to_string(), "myproj".to_string()]);
        }
        other => panic!("expected spawn, got {}", describe(&other)),
    }
}

#[test]
fn ocaml_run_discovery_skips_non_matching_names() {
    let r = dispatch(
        Lang::Ocaml,
        Command::Run,
        false,
        &None,
        &listing(&["README.md", "dune-project", "foo.opam"], &[]),
    );
    match r {
        Ok(Action::Spawn { args, .. }) => {
            assert_eq!(args, vec!["exec".to_string(), "foo".to_string()]);
        }
        other => panic!("expected spawn, got {}", describe(&other)),
    }
}

#[test]
fn racket_run_discovers_a_source_file_in_the_working_directory() {
    let r = dispatch(Lang::Racket, Command::Run, false, &None, &listing(&["main.rkt"], &[]));
    match r {
        Ok(Action::Spawn { program, args }) => {
            assert_eq!(program, "racket");
            assert_eq!(args, vec!["main.rkt".to_string()]);
        }
        other => panic!("expected spawn, got {}", describe(&other)),
    }
}

#[test]
fn racket_run_falls_back_to_the_src_subdirectory() {
    let r = dispatch(Lang::Racket, Command::Run, false, &None, &listing(&[], &["entry.rkt"]));
    match r {
        Ok(Action::Spawn { program, args }) => {
            assert_eq!(program, "racket");
            assert_eq!(args, vec!["src/entry.rkt".to_string()]);
        }
        other => panic!("expected spawn, got {}", describe(&other)),
    }
}

#[test]
fn racket_discovery_prefers_the_working_directory() {
    let r = dispatch(
        Lang::Racket,
        Command::Repl,
        false,
        &None,
        &listing(&["top.rkt"], &["nested.rkt"]),
    );
    match r {
        Ok(Action::Spawn { args, .. }) => assert_eq!(args, vec!["top.rkt".to_string()]),
        other => panic!("expected spawn, got {}", describe(&other)),
    }
}

#[test]
fn discovery_failure_is_fatal_and_spawns_nothing() {
    for (lang, cmd) in [
        (Lang::Ocaml, Command::Run),
        (Lang::Racket, Command::Run),
        (Lang::Racket, Command::Repl),
    ] {
        let r = dispatch(lang, cmd, false, &None, &listing(&["README.md"], &["notes.txt"]));
        match r {
            Err(DispatchError::DiscoveryFailed) => {}
            other => panic!(
                "expected discovery failure for {:?} {:?}, got {}",
                lang,
                cmd,
                describe(&other)
            ),
        }
    }
}

#[test]
fn unsupported_command_degrades_to_advice() {
    let r = dispatch(Lang::C, Command::Run, false, &None, &empty_listing());
    match r {
        Ok(Action::Advice { degraded, text }) => {
            assert!(degraded);
            assert_eq!(text, "uhh, run the binary");
        }
        other => panic!("expected degraded advice, got {}", describe(&other)),
    }
    let r = dispatch(Lang::Scheme, Command::Build, false, &None, &empty_listing());
    match r {
        Ok(Action::Advice { degraded, text }) => {
            assert!(degraded);
            assert_eq!(text, "see repl");
        }
        other => panic!("expected degraded advice, got {}", describe(&other)),
    }
}
