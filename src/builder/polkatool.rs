//! `jamt`, which turns a built service into a JAM blob.

use vstd::prelude::*;
use crate::builder::cargo::push_arg;
use crate::error::CargoJamError;
use crate::template::config::{opt_view, views};
use crate::text::{has_suffix, owned, ends_with};

verus! {

/// The settings of a `jamt build` run.
#[derive(Debug)]
pub struct JamtBuilder {
    pub verbose: bool,
}

impl JamtBuilder {
    pub fn new() -> (r: Self)
        ensures
            !r.verbose,
    {
        JamtBuilder { verbose: false }
    }

    pub fn verbose(self, verbose: bool) -> (r: Self)
        ensures
            r.verbose == verbose,
    {
        JamtBuilder { verbose }
    }

    /// Whether `jamt` was found in the installed toolchain; `located` is its
    /// path when the caller found it there.
    pub fn is_available(located: &Option<String>) -> (r: bool)
        ensures
            r == located is Some,
    {
        located.is_some()
    }

    /// The path of `jamt`, or the advice to install the toolchain when it was
    /// not found.
    pub fn binary_path(located: Option<String>) -> (r: Result<String, CargoJamError>)
        ensures
            match located {
                Some(p) => r == Ok::<String, CargoJamError>(p),
                None => r matches Err(CargoJamError::ToolchainMissing { tool, .. }) && tool@ == "jamt"@,
            },
    {
        match located {
            Some(p) => Ok(p),
            None => Err(
                CargoJamError::ToolchainMissing {
                    tool: owned("jamt"),
                    install_hint: owned("Run 'cargo jam setup' to install the JAM toolchain"),
                },
            ),
        }
    }

    /// The arguments of the `jamt` command line.
    pub fn command_args(&self, elf_path: &str, output_path: &str) -> (r: Vec<String>)
        ensures
            views(r@) == seq!["build"@, elf_path@, "-o"@, output_path@] + (if self.verbose {
                seq!["--verbose"@]
            } else {
                Seq::empty()
            }),
    {
        let mut args: Vec<String> = Vec::new();
        push_arg(&mut args, "build");
        push_arg(&mut args, elf_path);
        push_arg(&mut args, "-o");
        push_arg(&mut args, output_path);
        if self.verbose {
            push_arg(&mut args, "--verbose");
        }
        proof {
            let want = seq!["build"@, elf_path@, "-o"@, output_path@] + (if self.verbose {
                seq!["--verbose"@]
            } else {
                Seq::empty()
            });
            assert(views(args@) =~= want);
        }
        args
    }
}

/// The settings of a `jamt create-service` run, which deploys a blob.
#[derive(Debug)]
pub struct DeployRequest {
    pub rpc: String,
    pub code: String,
    pub amount: String,
    pub memo: String,
    pub min_item_gas: String,
    pub min_memo_gas: String,
    pub register: Option<String>,
}

impl DeployRequest {
    /// The arguments of the `jamt` command line: the global `--rpc` option
    /// first, then the subcommand with the blob and the endowment, the memo
    /// when there is one, the gas limits, and the registration when asked for.
    pub open spec fn args_spec(&self) -> Seq<Seq<char>> {
        seq!["--rpc"@, self.rpc@, "create-service"@, self.code@, self.amount@] + (if self.memo@.len()
            > 0 {
            seq![self.memo@]
        } else {
            Seq::empty()
        }) + seq!["--min-item-gas"@, self.min_item_gas@, "--min-memo-gas"@, self.min_memo_gas@]
            + match opt_view(self.register) {
            Some(r) => seq!["--register"@, r],
            None => Seq::empty(),
        }
    }

    pub fn command_args(&self) -> (r: Vec<String>)
        ensures
            views(r@) == self.args_spec(),
    {
        let mut args: Vec<String> = Vec::new();
        push_arg(&mut args, "--rpc");
        push_arg(&mut args, self.rpc.as_str());
        push_arg(&mut args, "create-service");
        push_arg(&mut args, self.code.as_str());
        push_arg(&mut args, self.amount.as_str());
        if self.memo.as_str().unicode_len() > 0 {
            push_arg(&mut args, self.memo.as_str());
        }
        push_arg(&mut args, "--min-item-gas");
        push_arg(&mut args, self.min_item_gas.as_str());
        push_arg(&mut args, "--min-memo-gas");
        push_arg(&mut args, self.min_memo_gas.as_str());
        if let Some(r) = &self.register {
            push_arg(&mut args, "--register");
            push_arg(&mut args, r.as_str());
        }
        assert(views(args@) =~= self.args_spec());
        args
    }
}

/// The last component of the path has the extension `jam`: it ends with
/// `.jam` and has something before that dot.
pub open spec fn has_jam_extension(path: Seq<char>) -> bool {
    path.len() > 4 && has_suffix(path, ".jam"@) && path[path.len() - 5] != '/'
}

/// Whether a path names a JAM blob by its extension.
pub fn is_jam_blob(path: &str) -> (r: bool)
    ensures
        r == has_jam_extension(path@),
{
    let n = path.unicode_len();
    n > 4 && ends_with(path, ".jam") && path.get_char(n - 5) != '/'
}

} // verus!
