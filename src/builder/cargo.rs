//! `cargo build` for the JAM target.

use vstd::prelude::*;
use crate::template::config::views;
use crate::text::owned;

verus! {

/// The target triple that services are built for.
pub const JAM_TARGET: &'static str = "riscv32ema-unknown-none-elf";

/// Appends a copy of `s` to a list of arguments.
pub fn push_arg(args: &mut Vec<String>, s: &str)
    ensures
        views(final(args)@) == views(old(args)@).push(s@),
{
    args.push(owned(s));
    assert(views(args@) =~= views(old(args)@).push(s@));
}

/// The settings of a `cargo build` run.
#[derive(Debug)]
pub struct CargoBuilder {
    pub target: String,
    pub release: bool,
    pub verbose: bool,
}

impl CargoBuilder {
    /// A release build for the JAM target, not verbose.
    pub fn new() -> (r: Self)
        ensures
            r.target@ == JAM_TARGET@,
            r.release,
            !r.verbose,
    {
        CargoBuilder { target: owned(JAM_TARGET), release: true, verbose: false }
    }

    pub fn release(self, release: bool) -> (r: Self)
        ensures
            r.target == self.target,
            r.release == release,
            r.verbose == self.verbose,
    {
        CargoBuilder { release, ..self }
    }

    pub fn verbose(self, verbose: bool) -> (r: Self)
        ensures
            r.target == self.target,
            r.release == self.release,
            r.verbose == verbose,
    {
        CargoBuilder { verbose, ..self }
    }

    /// The arguments of the `cargo` command line, which builds `core` and
    /// `alloc` for the target as well.
    pub open spec fn args_spec(&self) -> Seq<Seq<char>> {
        seq!["build"@, "--target"@, self.target@] + (if self.release {
            seq!["--release"@]
        } else {
            Seq::empty()
        }) + (if self.verbose {
            seq!["--verbose"@]
        } else {
            Seq::empty()
        }) + seq![
            "-Z"@,
            "build-std=core,alloc"@,
            "-Z"@,
            "build-std-features=panic_immediate_abort"@,
        ]
    }

    pub fn command_args(&self) -> (r: Vec<String>)
        ensures
            views(r@) == self.args_spec(),
    {
        let mut args: Vec<String> = Vec::new();
        push_arg(&mut args, "build");
        push_arg(&mut args, "--target");
        push_arg(&mut args, self.target.as_str());
        if self.release {
            push_arg(&mut args, "--release");
        }
        if self.verbose {
            push_arg(&mut args, "--verbose");
        }
        push_arg(&mut args, "-Z");
        push_arg(&mut args, "build-std=core,alloc");
        push_arg(&mut args, "-Z");
        push_arg(&mut args, "build-std-features=panic_immediate_abort");
        assert(views(args@) =~= self.args_spec());
        args
    }
}

} // verus!
