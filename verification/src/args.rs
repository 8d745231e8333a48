//! Command arguments: positional values, named values, and flags, with the
//! helpers commands use to read them.

use vstd::prelude::*;
use crate::cli_error::{CliError, CliResult};
use crate::lex::str_eq;
use crate::params::{ParamSet, map_of, keys_of, unique_keys, has_key, lemma_map_of_dom,
    lemma_map_of_index, lemma_map_of_push, lemma_map_of_update};

verus! {

/// The views of a vector of flag entries.
pub open spec fn flag_entries_view(s: Seq<(String, bool)>) -> Seq<(Seq<char>, bool)> {
    s.map_values(|p: (String, bool)| (p.0@, p.1))
}

/// A set of named boolean flags. Keys are unique.
pub struct FlagMap {
    entries: Vec<(String, bool)>,
}

impl FlagMap {
    /// The stored pairs, in insertion order.
    pub closed spec fn pairs(&self) -> Seq<(Seq<char>, bool)> {
        flag_entries_view(self.entries@)
    }

    /// Well-formed: no flag name occurs twice.
    pub open spec fn wf(&self) -> bool {
        unique_keys(self.pairs())
    }

    /// The mapping the flags denote.
    pub open spec fn view(&self) -> Map<Seq<char>, bool> {
        map_of(self.pairs())
    }

    /// An empty flag set.
    pub fn new() -> (r: FlagMap)
        ensures
            r.wf(),
            r@ == Map::<Seq<char>, bool>::empty(),
    {
        let r = FlagMap { entries: Vec::new() };
        proof {
            assert(r.pairs() =~= Seq::<(Seq<char>, bool)>::empty());
        }
        r
    }

    /// The index of the entry carrying flag `k`, if any.
    fn find(&self, k: &str) -> (r: Option<usize>)
        ensures
            match r {
                Some(i) => 0 <= i < self.pairs().len() && self.pairs()[i as int].0 == k@,
                None => !has_key(self.pairs(), k@),
            },
    {
        let n = self.entries.len();
        let mut i: usize = 0;
        while i < n
            invariant
                0 <= i <= n,
                n == self.entries.len(),
                forall|j: int| 0 <= j < i ==> (#[trigger] self.pairs()[j]).0 != k@,
            decreases n - i,
        {
            if str_eq(self.entries[i].0.as_str(), k) {
                proof {
                    assert(self.pairs()[i as int].0 == k@);
                }
                return Some(i);
            }
            proof {
                assert(self.pairs()[i as int].0 == self.entries@[i as int].0@);
            }
            i = i + 1;
        }
        None
    }

    /// The value of flag `k`, if set.
    pub fn get(&self, k: &str) -> (r: Option<bool>)
        requires
            self.wf(),
        ensures
            match r {
                Some(v) => self@.contains_key(k@) && v == self@[k@],
                None => !self@.contains_key(k@),
            },
    {
        proof {
            lemma_map_of_dom(self.pairs(), k@);
        }
        match self.find(k) {
            Some(i) => {
                proof {
                    lemma_map_of_index(self.pairs(), i as int);
                }
                Some(self.entries[i].1)
            },
            None => None,
        }
    }

    /// Set flag `k`.
    pub fn insert(&mut self, k: &str, v: bool)
        requires
            old(self).wf(),
        ensures
            final(self).wf(),
            final(self)@ == old(self)@.insert(k@, v),
    {
        proof {
            lemma_map_of_dom(self.pairs(), k@);
        }
        match self.find(k) {
            Some(i) => {
                proof {
                    lemma_map_of_update(self.pairs(), i as int, v);
                }
                self.entries.set(i, (k.to_owned(), v));
                proof {
                    assert(self.pairs() =~= old(self).pairs().update(i as int, (k@, v)));
                    assert(keys_of(self.pairs()) =~= keys_of(old(self).pairs()));
                }
            },
            None => {
                self.entries.push((k.to_owned(), v));
                proof {
                    assert(self.pairs() =~= old(self).pairs().push((k@, v)));
                    lemma_map_of_push(old(self).pairs(), k@, v);
                    assert(keys_of(self.pairs()) =~= keys_of(old(self).pairs()).push(k@));
                    assert(forall|j: int|
                        0 <= j < old(self).pairs().len() ==> (#[trigger] old(self).pairs()[j]).0
                            == keys_of(old(self).pairs())[j]);
                }
            },
        }
    }
}

/// The arguments of one command invocation.
pub struct CommandArgs {
    pub positional: Vec<String>,
    pub named: ParamSet,
    pub flags: FlagMap,
}

impl CommandArgs {
    /// Both argument maps are well-formed.
    pub open spec fn wf(&self) -> bool {
        self.named.wf() && self.flags.wf()
    }

    /// Empty arguments.
    pub fn new() -> (r: CommandArgs)
        ensures
            r.wf(),
            r.positional@.len() == 0,
            r.named@ == Map::<Seq<char>, Seq<char>>::empty(),
            r.flags@ == Map::<Seq<char>, bool>::empty(),
    {
        CommandArgs { positional: Vec::new(), named: ParamSet::new(), flags: FlagMap::new() }
    }
}

impl Default for CommandArgs {
    /// Empty arguments.
    fn default() -> (r: CommandArgs)
        ensures
            r.wf(),
            r.positional@.len() == 0,
            r.named@ == Map::<Seq<char>, Seq<char>>::empty(),
            r.flags@ == Map::<Seq<char>, bool>::empty(),
    {
        CommandArgs::new()
    }
}

/// A required argument: the named value when present, else the first
/// positional value, else a missing-argument error naming the argument.
pub fn get_required_arg(args: &CommandArgs, name: &str) -> (r: CliResult<String>)
    requires
        args.wf(),
    ensures
        match r {
            Ok(v) => if args.named@.contains_key(name@) {
                v@ == args.named@[name@]
            } else {
                args.positional@.len() > 0 && v@ == args.positional@[0]@
            },
            Err(e) => {
                &&& !args.named@.contains_key(name@)
                &&& args.positional@.len() == 0
                &&& e matches CliError::MissingArgument(m) && m@ == name@
            },
        },
{
    match args.named.get(name) {
        Some(v) => Ok(v.clone()),
        None => {
            if args.positional.len() > 0 {
                Ok(args.positional[0].clone())
            } else {
                Err(CliError::missing_argument(name))
            }
        },
    }
}

/// An optional argument: the named value when present, else the default,
/// else the empty string.
pub fn get_optional_arg(args: &CommandArgs, name: &str, default: Option<&str>) -> (r: String)
    requires
        args.wf(),
    ensures
        r@ == if args.named@.contains_key(name@) {
            args.named@[name@]
        } else {
            match default {
                Some(d) => d@,
                None => Seq::<char>::empty(),
            }
        },
{
    match args.named.get(name) {
        Some(v) => v.clone(),
        None => match default {
            Some(d) => d.to_owned(),
            None => {
                let r = String::new();
                r
            },
        },
    }
}

/// A flag's value; an unset flag reads as false.
pub fn get_flag(args: &CommandArgs, name: &str) -> (r: bool)
    requires
        args.wf(),
    ensures
        r == if args.flags@.contains_key(name@) {
            args.flags@[name@]
        } else {
            false
        },
{
    match args.flags.get(name) {
        Some(v) => v,
        None => false,
    }
}

/// What a command reports about how its output was produced.
#[derive(Debug, Clone)]
pub struct OutputMetadata {
    pub cache_hit: bool,
    pub response_time_ms: u64,
    pub api_calls_made: u32,
}

impl Default for OutputMetadata {
    /// No cache hit, no time spent, no calls made.
    fn default() -> (r: OutputMetadata)
        ensures
            !r.cache_hit,
            r.response_time_ms == 0,
            r.api_calls_made == 0,
    {
        OutputMetadata { cache_hit: false, response_time_ms: 0, api_calls_made: 0 }
    }
}

/// The command that deploys the worker. Running the deployment is the
/// surrounding program's business; the command's identity lives here.
pub struct DeployCommand;

impl DeployCommand {
    /// The command's name.
    pub fn name(&self) -> (r: &'static str)
        ensures
            r@ == "worker.deploy"@,
    {
        "worker.deploy"
    }

    /// The command's description.
    pub fn description(&self) -> (r: &'static str)
        ensures
            r@ == "Deploy the worker to Cloudflare"@,
    {
        "Deploy the worker to Cloudflare"
    }

    /// Deployment takes no arguments; any are accepted.
    pub fn validate_args(&self, args: &CommandArgs) -> (r: CliResult<()>)
        ensures
            r is Ok,
    {
        let _ = args;
        Ok(())
    }
}

} // verus!
