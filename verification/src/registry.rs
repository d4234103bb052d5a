use vstd::prelude::*;
use vstd::string::StringExecFns;
use crate::lang::{Command, Lang};

verus! {

// ---------------------------------------------------------------------------
// Textual tier: per language, one line of human-readable advice per command.
// ---------------------------------------------------------------------------

/// Advice lines for one language. The repl line is optional: some
/// ecosystems have no interactive session worth recommending.
pub struct Resources {
    pub build: String,
    pub run: String,
    pub docs: String,
    pub test: String,
    pub repl: Option<String>,
}

/// Mathematical image of `Resources`: each line as a character sequence.
pub ghost struct AdviceModel {
    pub build: Seq<char>,
    pub run: Seq<char>,
    pub docs: Seq<char>,
    pub test: Seq<char>,
    pub repl: Option<Seq<char>>,
}

impl View for Resources {
    type V = AdviceModel;

    open spec fn view(&self) -> AdviceModel {
        AdviceModel {
            build: self.build@,
            run: self.run@,
            docs: self.docs@,
            test: self.test@,
            repl: match self.repl {
                Some(s) => Some(s@),
                None => None,
            },
        }
    }
}

/// The textual-tier registry, fixed at authoring time. `None` means the
/// language is not known to the launcher at all.
pub open spec fn textual_model(lang: Lang) -> Option<AdviceModel> {
    match lang {
        Lang::C => Some(AdviceModel {
            build: "clang"@,
            run: "uhh, run the binary"@,
            docs: "https://en.cppreference.com/w/c"@,
            test: "good luck"@,
            repl: None,
        }),
        Lang::CPP => Some(AdviceModel {
            build: "clang++"@,
            run: "uhh, run the binary"@,
            docs: "https://en.cppreference.com/w/cpp"@,
            test: "good luck"@,
            repl: None,
        }),
        Lang::Zig => Some(AdviceModel {
            build: "zig build"@,
            run: "zig run"@,
            docs: "https://ziglang.org/documentation/master/std/#A;std"@,
            test: "zig test"@,
            repl: None,
        }),
        Lang::Scheme => Some(AdviceModel {
            build: "see repl"@,
            run: "see repl"@,
            docs: "https://www.gnu.org/software/guile/manual/guile.html#API-Reference"@,
            test: "see repl"@,
            repl: Some("guile"@),
        }),
        Lang::CommonLisp => Some(AdviceModel {
            build: "see repl"@,
            run: "see repl"@,
            docs: "https://www.lispworks.com/documentation/lw51/CLHS/Front/X_AllSym.htm"@,
            test: "see repl"@,
            repl: Some("sbcl"@),
        }),
        Lang::Racket => Some(AdviceModel {
            build: "see repl"@,
            run: "racket <file_name>"@,
            docs: "https://docs.racket-lang.org/reference/index.html"@,
            test: "see repl"@,
            repl: Some("racket"@),
        }),
        Lang::Sml => Some(AdviceModel {
            build: "- CM.make()"@,
            run: "load files into repl using `use \"myfile.sml\"`"@,
            docs: "https://smlfamily.github.io/Basis/overview.html"@,
            test: "good luck"@,
            repl: Some("sml"@),
        }),
        Lang::Haskell => Some(AdviceModel {
            build: "stack build"@,
            run: "stack run"@,
            docs: "https://hoogle.haskell.org/"@,
            test: "stack test"@,
            repl: Some("stack ghci"@),
        }),
        Lang::Ocaml => Some(AdviceModel {
            build: "dune build"@,
            run: "dune exec <project_name>"@,
            docs: "https://v2.ocaml.org/releases/5.1/api/index.html"@,
            test: "dune test"@,
            repl: Some("utop"@),
        }),
        Lang::Rust => Some(AdviceModel {
            build: "cargo build"@,
            run: "cargo run"@,
            docs: "https://doc.rust-lang.org/stable/std/"@,
            test: "cargo test"@,
            repl: Some("cargo install irust && irust"@),
        }),
        Lang::Clojure => Some(AdviceModel {
            build: "lein uberjar"@,
            run: "lein run"@,
            docs: "https://clojuredocs.org"@,
            test: "lein test"@,
            repl: Some("lein repl"@),
        }),
        Lang::Coq => None,
        Lang::Agda => None,
        Lang::Idris => None,
    }
}

/// Looks a language up in the textual tier. Returns `None` exactly for
/// the languages the launcher does not know yet.
pub fn textual_resources(lang: Lang) -> (r: Option<Resources>)
    ensures
        r is Some <==> textual_model(lang) is Some,
        r matches Some(res) ==> Some(res@) == textual_model(lang),
{
    match lang {
        Lang::C => Some(Resources {
            build: String::from_str("clang"),
            run: String::from_str("uhh, run the binary"),
            docs: String::from_str("https://en.cppreference.com/w/c"),
            test: String::from_str("good luck"),
            repl: None,
        }),
        Lang::CPP => Some(Resources {
            build: String::from_str("clang++"),
            run: String::from_str("uhh, run the binary"),
            docs: String::from_str("https://en.cppreference.com/w/cpp"),
            test: String::from_str("good luck"),
            repl: None,
        }),
        Lang::Zig => Some(Resources {
            build: String::from_str("zig build"),
            run: String::from_str("zig run"),
            docs: String::from_str("https://ziglang.org/documentation/master/std/#A;std"),
            test: String::from_str("zig test"),
            repl: None,
        }),
        Lang::Scheme => Some(Resources {
            build: String::from_str("see repl"),
            run: String::from_str("see repl"),
            docs: String::from_str("https://www.gnu.org/software/guile/manual/guile.html#API-Reference"),
            test: String::from_str("see repl"),
            repl: Some(String::from_str("guile")),
        }),
        Lang::CommonLisp => Some(Resources {
            build: String::from_str("see repl"),
            run: String::from_str("see repl"),
            docs: String::from_str("https://www.lispworks.com/documentation/lw51/CLHS/Front/X_AllSym.htm"),
            test: String::from_str("see repl"),
            repl: Some(String::from_str("sbcl")),
        }),
        Lang::Racket => Some(Resources {
            build: String::from_str("see repl"),
            run: String::from_str("racket <file_name>"),
            docs: String::from_str("https://docs.racket-lang.org/reference/index.html"),
            test: String::from_str("see repl"),
            repl: Some(String::from_str("racket")),
        }),
        Lang::Sml => Some(Resources {
            build: String::from_str("- CM.make()"),
            run: String::from_str("load files into repl using `use \"myfile.sml\"`"),
            docs: String::from_str("https://smlfamily.github.io/Basis/overview.html"),
            test: String::from_str("good luck"),
            repl: Some(String::from_str("sml")),
        }),
        Lang::Haskell => Some(Resources {
            build: String::from_str("stack build"),
            run: String::from_str("stack run"),
            docs: String::from_str("https://hoogle.haskell.org/"),
            test: String::from_str("stack test"),
            repl: Some(String::from_str("stack ghci")),
        }),
        Lang::Ocaml => Some(Resources {
            build: String::from_str("dune build"),
            run: String::from_str("dune exec <project_name>"),
            docs: String::from_str("https://v2.ocaml.org/releases/5.1/api/index.html"),
            test: String::from_str("dune test"),
            repl: Some(String::from_str("utop")),
        }),
        Lang::Rust => Some(Resources {
            build: String::from_str("cargo build"),
            run: String::from_str("cargo run"),
            docs: String::from_str("https://doc.rust-lang.org/stable/std/"),
            test: String::from_str("cargo test"),
            repl: Some(String::from_str("cargo install irust && irust")),
        }),
        Lang::Clojure => Some(Resources {
            build: String::from_str("lein uberjar"),
            run: String::from_str("lein run"),
            docs: String::from_str("https://clojuredocs.org"),
            test: String::from_str("lein test"),
            repl: Some(String::from_str("lein repl")),
        }),
        Lang::Coq => None,
        Lang::Agda => None,
        Lang::Idris => None,
    }
}

/// The advice line selected for one command, with the fixed placeholder
/// where a language has no repl recommendation.
pub open spec fn advice_model(m: AdviceModel, cmd: Command) -> Seq<char> {
    match cmd {
        Command::Build => m.build,
        Command::Run => m.run,
        Command::Docs => m.docs,
        Command::Test => m.test,
        Command::Repl => match m.repl {
            Some(s) => s,
            None => "it don't have none"@,
        },
    }
}

impl Command {
    /// Selects the advice line for this command from one language's entry.
    pub fn advice(&self, r: &Resources) -> (line: String)
        ensures
            line@ == advice_model(r@, *self),
    {
        match self {
            Command::Build => r.build.clone(),
            Command::Run => r.run.clone(),
            Command::Docs => r.docs.clone(),
            Command::Test => r.test.clone(),
            Command::Repl => match &r.repl {
                Some(s) => s.clone(),
                None => String::from_str("it don't have none"),
            },
        }
    }
}

// ---------------------------------------------------------------------------
// Executable tier: per language, up to five invocable command specs.
// ---------------------------------------------------------------------------

/// One invocable command: a program name, the argument sequence that is
/// always passed, and the number of arguments the sequence must hold
/// before the action counts as complete. When `args` is shorter than
/// `required`, the missing trailing argument has to come from a user
/// override or from project discovery.
pub struct Bin {
    pub name: String,
    pub args: Vec<String>,
    pub required: usize,
}

/// Mathematical image of `Bin`.
pub ghost struct BinModel {
    pub name: Seq<char>,
    pub args: Seq<Seq<char>>,
    pub required: nat,
}

impl View for Bin {
    type V = BinModel;

    open spec fn view(&self) -> BinModel {
        BinModel { name: self.name@, args: self.args.deep_view(), required: self.required as nat }
    }
}

/// A command spec never declares fewer required arguments than it
/// already carries.
pub open spec fn bin_wf(b: BinModel) -> bool {
    b.args.len() <= b.required
}

impl Bin {
    pub fn new(name: String, args: Vec<String>, required: usize) -> (b: Bin)
        requires
            args.deep_view().len() <= required as nat,
        ensures
            b@ == (BinModel { name: name@, args: args.deep_view(), required: required as nat }),
            bin_wf(b@),
    {
        Bin { name, args, required }
    }
}

/// The executable-tier record for one language: an optional command
/// spec per command category.
pub struct ResourcesV2 {
    pub build: Option<Bin>,
    pub run: Option<Bin>,
    pub test: Option<Bin>,
    pub repl: Option<Bin>,
    pub docs: Option<Bin>,
}

/// Mathematical image of `ResourcesV2`.
pub ghost struct CommandSetModel {
    pub build: Option<BinModel>,
    pub run: Option<BinModel>,
    pub test: Option<BinModel>,
    pub repl: Option<BinModel>,
    pub docs: Option<BinModel>,
}

pub open spec fn view_bin_opt(o: Option<Bin>) -> Option<BinModel> {
    match o {
        Some(b) => Some(b@),
        None => None,
    }
}

impl View for ResourcesV2 {
    type V = CommandSetModel;

    open spec fn view(&self) -> CommandSetModel {
        CommandSetModel {
            build: view_bin_opt(self.build),
            run: view_bin_opt(self.run),
            test: view_bin_opt(self.test),
            repl: view_bin_opt(self.repl),
            docs: view_bin_opt(self.docs),
        }
    }
}

/// The executable-tier registry, fixed at authoring time. The program
/// name `"open"` is the sentinel for "hand the first argument to the
/// OS default-viewer facility" rather than spawning a process.
pub open spec fn exec_model(lang: Lang) -> Option<CommandSetModel> {
    match lang {
        Lang::C => Some(CommandSetModel {
            build: Some(BinModel { name: "make"@, args: Seq::empty(), required: 0 }),
            run: None,
            test: None,
            repl: None,
            docs: Some(BinModel { name: "open"@, args: seq!["https://en.cppreference.com/w/c"@], required: 1 }),
        }),
        Lang::CPP => Some(CommandSetModel {
            build: Some(BinModel { name: "make"@, args: Seq::empty(), required: 0 }),
            run: None,
            test: None,
            repl: None,
            docs: Some(BinModel { name: "open"@, args: seq!["https://en.cppreference.com/w/cpp"@], required: 1 }),
        }),
        Lang::Zig => Some(CommandSetModel {
            build: Some(BinModel { name: "zig"@, args: seq!["build"@], required: 1 }),
            run: Some(BinModel { name: "zig"@, args: seq!["run"@], required: 1 }),
            test: Some(BinModel { name: "zig"@, args: seq!["test"@], required: 1 }),
            repl: None,
            docs: Some(BinModel { name: "open"@, args: seq!["https://ziglang.org/documentation/master/std/#A;std"@], required: 1 }),
        }),
        Lang::Scheme => Some(CommandSetModel {
            build: None,
            run: None,
            test: None,
            repl: Some(BinModel { name: "guile"@, args: Seq::empty(), required: 0 }),
            docs: Some(BinModel { name: "open"@, args: seq!["https://www.gnu.org/software/guile/manual/guile.html#API-Reference"@], required: 1 }),
        }),
        Lang::CommonLisp => Some(CommandSetModel {
            build: None,
            run: None,
            test: None,
            repl: Some(BinModel { name: "sbcl"@, args: Seq::empty(), required: 0 }),
            docs: Some(BinModel { name: "open"@, args: seq!["https://www.lispworks.com/documentation/lw51/CLHS/Front/X_AllSym.htm"@], required: 1 }),
        }),
        Lang::Racket => Some(CommandSetModel {
            build: None,
            run: Some(BinModel { name: "racket"@, args: Seq::empty(), required: 1 }),
            test: None,
            repl: Some(BinModel { name: "racket"@, args: Seq::empty(), required: 1 }),
            docs: Some(BinModel { name: "open"@, args: seq!["https://docs.racket-lang.org/reference/index.html"@], required: 1 }),
        }),
        Lang::Sml => Some(CommandSetModel {
            build: None,
            run: None,
            test: None,
            repl: Some(BinModel { name: "sml"@, args: Seq::empty(), required: 0 }),
            docs: Some(BinModel { name: "open"@, args: seq!["https://smlfamily.github.io/Basis/overview.html"@], required: 1 }),
        }),
        Lang::Haskell => Some(CommandSetModel {
            build: Some(BinModel { name: "stack"@, args: seq!["build"@], required: 1 }),
            run: Some(BinModel { name: "stack"@, args: seq!["run"@], required: 1 }),
            test: Some(BinModel { name: "stack"@, args: seq!["test"@], required: 1 }),
            repl: Some(BinModel { name: "stack"@, args: seq!["ghci"@], required: 1 }),
            docs: Some(BinModel { name: "open"@, args: seq!["https://hoogle.haskell.org/"@], required: 1 }),
        }),
        Lang::Ocaml => Some(CommandSetModel {
            build: Some(BinModel { name: "dune"@, args: seq!["build"@], required: 1 }),
            run: Some(BinModel { name: "dune"@, args: seq!["exec"@], required: 2 }),
            test: Some(BinModel { name: "dune"@, args: seq!["test"@], required: 1 }),
            repl: Some(BinModel { name: "utop"@, args: Seq::empty(), required: 0 }),
            docs: Some(BinModel { name: "open"@, args: seq!["https://twitch.tv/dmmulroy"@], required: 1 }),
        }),
        Lang::Rust => Some(CommandSetModel {
            build: Some(BinModel { name: "cargo"@, args: seq!["build"@], required: 1 }),
            run: Some(BinModel { name: "cargo"@, args: seq!["run"@], required: 1 }),
            test: Some(BinModel { name: "cargo"@, args: seq!["test"@], required: 1 }),
            repl: Some(BinModel { name: "irust"@, args: Seq::empty(), required: 0 }),
            docs: Some(BinModel { name: "open"@, args: seq!["https://doc.rust-lang.org/stable/std/"@], required: 1 }),
        }),
        Lang::Clojure => Some(CommandSetModel {
            build: Some(BinModel { name: "lein"@, args: seq!["uberjar"@], required: 1 }),
            run: Some(BinModel { name: "lein"@, args: seq!["run"@], required: 1 }),
            test: Some(BinModel { name: "lein"@, args: seq!["test"@], required: 1 }),
            repl: Some(BinModel { name: "lein"@, args: seq!["repl"@], required: 1 }),
            docs: Some(BinModel { name: "open"@, args: seq!["https://clojuredocs.org"@], required: 1 }),
        }),
        Lang::Coq => None,
        Lang::Agda => None,
        Lang::Idris => None,
    }
}

/// An empty fixed-argument list.
fn vec0() -> (v: Vec<String>)
    ensures
        v.deep_view() == Seq::<Seq<char>>::empty(),
{
    let v: Vec<String> = Vec::new();
    proof {
        assert(v.deep_view() =~= Seq::<Seq<char>>::empty());
    }
    v
}

/// A fixed-argument list of one entry.
fn vec1(s: &str) -> (v: Vec<String>)
    ensures
        v.deep_view() == seq![s@],
{
    let mut v: Vec<String> = Vec::new();
    v.push(String::from_str(s));
    proof {
        assert(v.deep_view() =~= seq![s@]);
    }
    v
}

/// Looks a language up in the executable tier. Returns `None` exactly
/// for the languages the launcher does not know yet.
pub fn exec_resources(lang: Lang) -> (r: Option<ResourcesV2>)
    ensures
        r is Some <==> exec_model(lang) is Some,
        r matches Some(res) ==> Some(res@) == exec_model(lang),
{
    match lang {
        Lang::C => Some(ResourcesV2 {
            build: Some(Bin::new(String::from_str("make"), vec0(), 0)),
            run: None,
            test: None,
            repl: None,
            docs: Some(Bin::new(String::from_str("open"), vec1("https://en.cppreference.com/w/c"), 1)),
        }),
        Lang::CPP => Some(ResourcesV2 {
            build: Some(Bin::new(String::from_str("make"), vec0(), 0)),
            run: None,
            test: None,
            repl: None,
            docs: Some(Bin::new(String::from_str("open"), vec1("https://en.cppreference.com/w/cpp"), 1)),
        }),
        Lang::Zig => Some(ResourcesV2 {
            build: Some(Bin::new(String::from_str("zig"), vec1("build"), 1)),
            run: Some(Bin::new(String::from_str("zig"), vec1("run"), 1)),
            test: Some(Bin::new(String::from_str("zig"), vec1("test"), 1)),
            repl: None,
            docs: Some(Bin::new(String::from_str("open"), vec1("https://ziglang.org/documentation/master/std/#A;std"), 1)),
        }),
        Lang::Scheme => Some(ResourcesV2 {
            build: None,
            run: None,
            test: None,
            repl: Some(Bin::new(String::from_str("guile"), vec0(), 0)),
            docs: Some(Bin::new(String::from_str("open"), vec1("https://www.gnu.org/software/guile/manual/guile.html#API-Reference"), 1)),
        }),
        Lang::CommonLisp => Some(ResourcesV2 {
            build: None,
            run: None,
            test: None,
            repl: Some(Bin::new(String::from_str("sbcl"), vec0(), 0)),
            docs: Some(Bin::new(String::from_str("open"), vec1("https://www.lispworks.com/documentation/lw51/CLHS/Front/X_AllSym.htm"), 1)),
        }),
        Lang::Racket => Some(ResourcesV2 {
            build: None,
            run: Some(Bin::new(String::from_str("racket"), vec0(), 1)),
            test: None,
            repl: Some(Bin::new(String::from_str("racket"), vec0(), 1)),
            docs: Some(Bin::new(String::from_str("open"), vec1("https://docs.racket-lang.org/reference/index.html"), 1)),
        }),
        Lang::Sml => Some(ResourcesV2 {
            build: None,
            run: None,
            test: None,
            repl: Some(Bin::new(String::from_str("sml"), vec0(), 0)),
            docs: Some(Bin::new(String::from_str("open"), vec1("https://smlfamily.github.io/Basis/overview.html"), 1)),
        }),
        Lang::Haskell => Some(ResourcesV2 {
            build: Some(Bin::new(String::from_str("stack"), vec1("build"), 1)),
            run: Some(Bin::new(String::from_str("stack"), vec1("run"), 1)),
            test: Some(Bin::new(String::from_str("stack"), vec1("test"), 1)),
            repl: Some(Bin::new(String::from_str("stack"), vec1("ghci"), 1)),
            docs: Some(Bin::new(String::from_str("open"), vec1("https://hoogle.haskell.org/"), 1)),
        }),
        Lang::Ocaml => Some(ResourcesV2 {
            build: Some(Bin::new(String::from_str("dune"), vec1("build"), 1)),
            run: Some(Bin::new(String::from_str("dune"), vec1("exec"), 2)),
            test: Some(Bin::new(String::from_str("dune"), vec1("test"), 1)),
            repl: Some(Bin::new(String::from_str("utop"), vec0(), 0)),
            docs: Some(Bin::new(String::from_str("open"), vec1("https://twitch.tv/dmmulroy"), 1)),
        }),
        Lang::Rust => Some(ResourcesV2 {
            build: Some(Bin::new(String::from_str("cargo"), vec1("build"), 1)),
            run: Some(Bin::new(String::from_str("cargo"), vec1("run"), 1)),
            test: Some(Bin::new(String::from_str("cargo"), vec1("test"), 1)),
            repl: Some(Bin::new(String::from_str("irust"), vec0(), 0)),
            docs: Some(Bin::new(String::from_str("open"), vec1("https://doc.rust-lang.org/stable/std/"), 1)),
        }),
        Lang::Clojure => Some(ResourcesV2 {
            build: Some(Bin::new(String::from_str("lein"), vec1("uberjar"), 1)),
            run: Some(Bin::new(String::from_str("lein"), vec1("run"), 1)),
            test: Some(Bin::new(String::from_str("lein"), vec1("test"), 1)),
            repl: Some(Bin::new(String::from_str("lein"), vec1("repl"), 1)),
            docs: Some(Bin::new(String::from_str("open"), vec1("https://clojuredocs.org"), 1)),
        }),
        Lang::Coq => None,
        Lang::Agda => None,
        Lang::Idris => None,
    }
}

/// The command spec a language's executable-tier record holds for one
/// command category.
pub open spec fn bin_for(m: CommandSetModel, cmd: Command) -> Option<BinModel> {
    match cmd {
        Command::Build => m.build,
        Command::Run => m.run,
        Command::Test => m.test,
        Command::Repl => m.repl,
        Command::Docs => m.docs,
    }
}

impl Command {
    /// Selects the command spec for this command from one language's
    /// executable-tier record, if the record holds one.
    pub fn get_resource<'a>(&self, r: &'a ResourcesV2) -> (res: Option<&'a Bin>)
        ensures
            res is Some <==> bin_for(r@, *self) is Some,
            res matches Some(b) ==> Some(b@) == bin_for(r@, *self),
    {
        match self {
            Command::Build => r.build.as_ref(),
            Command::Run => r.run.as_ref(),
            Command::Test => r.test.as_ref(),
            Command::Repl => r.repl.as_ref(),
            Command::Docs => r.docs.as_ref(),
        }
    }
}

} // verus!
