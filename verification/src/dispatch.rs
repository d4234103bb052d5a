use vstd::prelude::*;
use vstd::string::StringExecFns;
use crate::discovery::{discover, discovered_model, DirListing, DiscoveryRule, ListingModel};
use crate::lang::{Command, Lang};
use crate::registry::{
    advice_model, bin_for, exec_model, exec_resources, textual_model, textual_resources, Bin,
    BinModel,
};

verus! {

// ---------------------------------------------------------------------------
// Resolver/dispatcher: from (language, command, dry flag, override,
// directory listing) to the one thing the caller should do next.
// ---------------------------------------------------------------------------

/// What a resolved request asks the surrounding program to carry out.
pub enum Action {
    /// Print one line of advice. `degraded` marks a live request that
    /// had no executable spec and fell back to the textual tier.
    Advice { degraded: bool, text: String },
    /// Spawn the program with the arguments, streams inherited.
    Spawn { program: String, args: Vec<String> },
    /// Hand the target to the OS default-viewer facility.
    OpenResource { target: String },
}

/// Mathematical image of `Action`.
pub ghost enum ActionModel {
    Advice { degraded: bool, text: Seq<char> },
    Spawn { program: Seq<char>, args: Seq<Seq<char>> },
    OpenResource { target: Seq<char> },
}

impl View for Action {
    type V = ActionModel;

    open spec fn view(&self) -> ActionModel {
        match self {
            Action::Advice { degraded, text } => ActionModel::Advice {
                degraded: *degraded,
                text: text@,
            },
            Action::Spawn { program, args } => ActionModel::Spawn {
                program: program@,
                args: args.deep_view(),
            },
            Action::OpenResource { target } => ActionModel::OpenResource { target: target@ },
        }
    }
}

/// The two ways a request can fail before anything is carried out.
/// Failures of the carried-out action itself (a spawn that cannot
/// start, a viewer that rejects the target) happen outside this
/// library and are reported there.
#[derive(Clone, Copy, PartialEq, Eq, Debug, Structural)]
pub enum DispatchError {
    /// Neither tier of the registry knows the language.
    UnknownLanguage,
    /// A required argument was missing and no marker file supplied it.
    DiscoveryFailed,
}

/// The view of the optional user override.
pub open spec fn override_model(ov: Option<String>) -> Option<Seq<char>> {
    match ov {
        Some(s) => Some(s@),
        None => None,
    }
}

/// The discovery rule that applies to one (language, command) pair.
/// Pairs without a policy get no rule; for them a spec that still
/// needs an argument can only be completed by the user override.
pub open spec fn rule_model(lang: Lang, cmd: Command) -> Option<DiscoveryRule> {
    match (lang, cmd) {
        (Lang::Ocaml, Command::Run) => Some(DiscoveryRule::OcamlProject),
        (Lang::Racket, Command::Run) => Some(DiscoveryRule::RacketSource),
        (Lang::Racket, Command::Repl) => Some(DiscoveryRule::RacketSource),
        _ => None,
    }
}

/// Selects the discovery rule for one (language, command) pair.
pub fn discovery_rule(lang: Lang, cmd: Command) -> (r: Option<DiscoveryRule>)
    ensures
        r == rule_model(lang, cmd),
{
    match (lang, cmd) {
        (Lang::Ocaml, Command::Run) => Some(DiscoveryRule::OcamlProject),
        (Lang::Racket, Command::Run) => Some(DiscoveryRule::RacketSource),
        (Lang::Racket, Command::Repl) => Some(DiscoveryRule::RacketSource),
        _ => None,
    }
}

/// The argument list a command spec resolves to. An override always
/// wins and is appended verbatim; a complete spec passes its fixed
/// arguments through unchanged; only an incomplete spec without an
/// override consults discovery, and fails when discovery finds
/// nothing.
pub open spec fn build_model(
    b: BinModel,
    ov: Option<Seq<char>>,
    rule: Option<DiscoveryRule>,
    listing: ListingModel,
) -> Result<Seq<Seq<char>>, DispatchError> {
    match ov {
        Some(extra) => Ok(b.args.push(extra)),
        None => if b.args.len() >= b.required {
            Ok(b.args)
        } else {
            match rule {
                Some(r) => match discovered_model(r, listing) {
                    Some(d) => Ok(b.args.push(d)),
                    None => Err(DispatchError::DiscoveryFailed),
                },
                None => Err(DispatchError::DiscoveryFailed),
            }
        },
    }
}

/// Element-exact clone of an argument list.
fn clone_args(v: &Vec<String>) -> (r: Vec<String>)
    ensures
        r.deep_view() == v.deep_view(),
{
    let mut r: Vec<String> = Vec::new();
    let mut i: usize = 0;
    while i < v.len()
        invariant
            i <= v.len(),
            r@.len() == i,
            forall|j: int| 0 <= j < i ==> r@[j]@ == v@[j]@,
        decreases v.len() - i,
    {
        let e: &String = &v[i];
        r.push(e.clone());
        i += 1;
    }
    proof {
        assert(r.deep_view() =~= v.deep_view());
    }
    r
}

/// Resolves the concrete argument list for one command spec.
pub fn build_args(
    b: &Bin,
    ov: &Option<String>,
    rule: Option<DiscoveryRule>,
    listing: &DirListing,
) -> (r: Result<Vec<String>, DispatchError>)
    ensures
        ({
            let m = build_model(b@, override_model(*ov), rule, listing@);
            &&& r is Ok <==> m is Ok
            &&& r matches Ok(args) ==> Some(args.deep_view()) == m.ok()
            &&& r matches Err(e) ==> Some(e) == m.err()
        }),
{
    match ov {
        Some(extra) => {
            let mut args = clone_args(&b.args);
            args.push(extra.clone());
            proof {
                assert(args.deep_view() =~= b@.args.push(extra@));
            }
            Ok(args)
        },
        None => {
            if b.args.len() >= b.required {
                Ok(clone_args(&b.args))
            } else {
                match rule {
                    Some(ru) => match discover(ru, listing) {
                        Some(d) => {
                            let mut args = clone_args(&b.args);
                            let ghost dv = d@;
                            args.push(d);
                            proof {
                                assert(args.deep_view() =~= b@.args.push(dv));
                            }
                            Ok(args)
                        },
                        None => Err(DispatchError::DiscoveryFailed),
                    },
                    None => Err(DispatchError::DiscoveryFailed),
                }
            }
        },
    }
}

/// What running a resolved spec amounts to: the sentinel program name
/// `"open"` asks for the OS viewer on the first argument; every other
/// name asks for a subprocess.
pub open spec fn run_outcome(b: BinModel, args: Seq<Seq<char>>) -> ActionModel {
    if b.name == "open"@ && args.len() > 0 {
        ActionModel::OpenResource { target: args[0] }
    } else {
        ActionModel::Spawn { program: b.name, args }
    }
}

/// The advice outcome for one (language, command) pair: the textual
/// tier's line, or the one unrecoverable error when even that tier
/// does not know the language.
pub open spec fn advice_outcome(lang: Lang, cmd: Command, degraded: bool) -> Result<
    ActionModel,
    DispatchError,
> {
    match textual_model(lang) {
        Some(m) => Ok(ActionModel::Advice { degraded, text: advice_model(m, cmd) }),
        None => Err(DispatchError::UnknownLanguage),
    }
}

/// What one whole request resolves to. A dry request reads only the
/// textual tier. A live request resolves and runs the executable
/// spec when one exists, and otherwise degrades to the advice path
/// for this single request.
pub open spec fn dispatch_model(
    lang: Lang,
    cmd: Command,
    dry: bool,
    ov: Option<Seq<char>>,
    listing: ListingModel,
) -> Result<ActionModel, DispatchError> {
    if dry {
        advice_outcome(lang, cmd, false)
    } else {
        match exec_model(lang) {
            Some(em) => match bin_for(em, cmd) {
                Some(b) => match build_model(b, ov, rule_model(lang, cmd), listing) {
                    Ok(args) => Ok(run_outcome(b, args)),
                    Err(e) => Err(e),
                },
                None => advice_outcome(lang, cmd, true),
            },
            None => advice_outcome(lang, cmd, true),
        }
    }
}

/// Resolves the advice path for one (language, command) pair.
fn advice_action(lang: Lang, cmd: Command, degraded: bool) -> (r: Result<Action, DispatchError>)
    ensures
        ({
            let m = advice_outcome(lang, cmd, degraded);
            &&& r is Ok <==> m is Ok
            &&& r matches Ok(a) ==> Some(a@) == m.ok()
            &&& r matches Err(e) ==> Some(e) == m.err()
        }),
{
    match textual_resources(lang) {
        Some(res) => Ok(Action::Advice { degraded, text: cmd.advice(&res) }),
        None => Err(DispatchError::UnknownLanguage),
    }
}

/// Resolves one whole request to the action the surrounding program
/// should carry out, or to the error it should report.
pub fn dispatch(
    lang: Lang,
    cmd: Command,
    dry: bool,
    ov: &Option<String>,
    listing: &DirListing,
) -> (r: Result<Action, DispatchError>)
    ensures
        ({
            let m = dispatch_model(lang, cmd, dry, override_model(*ov), listing@);
            &&& r is Ok <==> m is Ok
            &&& r matches Ok(a) ==> Some(a@) == m.ok()
            &&& r matches Err(e) ==> Some(e) == m.err()
        }),
{
    if dry {
        return advice_action(lang, cmd, false);
    }
    match exec_resources(lang) {
        Some(res) => match cmd.get_resource(&res) {
            Some(b) => match build_args(b, ov, discovery_rule(lang, cmd), listing) {
                Ok(args) => {
                    let sentinel = String::from_str("open");
                    if b.name == sentinel && args.len() > 0 {
                        let target: &String = &args[0];
                        Ok(Action::OpenResource { target: target.clone() })
                    } else {
                        Ok(Action::Spawn { program: b.name.clone(), args })
                    }
                },
                Err(e) => Err(e),
            },
            None => advice_action(lang, cmd, true),
        },
        None => advice_action(lang, cmd, true),
    }
}

} // verus!
