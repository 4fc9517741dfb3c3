//! `jam-pvm-build`, which builds a service and links it into a JAM blob.

use vstd::prelude::*;
use crate::builder::cargo::push_arg;
use crate::error::CargoJamError;
use crate::template::config::{opt_view, views};
use crate::text::{contains, occurs_in, owned};

verus! {

/// The build profile handed to `jam-pvm-build`.
#[derive(Debug, Clone, Copy, PartialEq, Eq, Structural)]
pub enum BuildProfile {
    Debug,
    Release,
    Production,
}

impl BuildProfile {
    /// The profile's name on the command line.
    pub open spec fn name_text(&self) -> Seq<char> {
        match self {
            BuildProfile::Debug => "debug"@,
            BuildProfile::Release => "release"@,
            BuildProfile::Production => "production"@,
        }
    }

    pub fn as_str(&self) -> (r: &'static str)
        ensures
            r@ == self.name_text(),
    {
        match self {
            BuildProfile::Debug => "debug",
            BuildProfile::Release => "release",
            BuildProfile::Production => "production",
        }
    }
}

impl Default for BuildProfile {
    fn default() -> (r: Self)
        ensures
            r == BuildProfile::Release,
    {
        BuildProfile::Release
    }
}

/// The settings of a `jam-pvm-build` run.
#[derive(Debug)]
pub struct BuildPipeline {
    pub project_path: String,
    pub output_path: Option<String>,
    pub profile: BuildProfile,
    pub auto_install: bool,
    pub verbose: bool,
}

impl BuildPipeline {
    /// A release build of the project at `project_path`, written where the
    /// tool puts it by default, installing what it needs, not verbose.
    pub fn new(project_path: String) -> (r: Self)
        ensures
            r.project_path == project_path,
            r.output_path is None,
            r.profile == BuildProfile::Release,
            r.auto_install,
            !r.verbose,
    {
        BuildPipeline {
            project_path,
            output_path: None,
            profile: BuildProfile::Release,
            auto_install: true,
            verbose: false,
        }
    }

    pub fn profile(self, profile: BuildProfile) -> (r: Self)
        ensures
            r == (BuildPipeline { profile, ..self }),
    {
        BuildPipeline { profile, ..self }
    }

    /// Chooses between a release and a debug build.
    pub fn release(self, release: bool) -> (r: Self)
        ensures
            r == (BuildPipeline {
                profile: if release {
                    BuildProfile::Release
                } else {
                    BuildProfile::Debug
                },
                ..self
            }),
    {
        let profile = if release {
            BuildProfile::Release
        } else {
            BuildProfile::Debug
        };
        BuildPipeline { profile, ..self }
    }

    pub fn output(self, path: String) -> (r: Self)
        ensures
            r == (BuildPipeline { output_path: Some(path), ..self }),
    {
        BuildPipeline { output_path: Some(path), ..self }
    }

    pub fn auto_install(self, auto: bool) -> (r: Self)
        ensures
            r == (BuildPipeline { auto_install: auto, ..self }),
    {
        BuildPipeline { auto_install: auto, ..self }
    }

    pub fn verbose(self, verbose: bool) -> (r: Self)
        ensures
            r == (BuildPipeline { verbose, ..self }),
    {
        BuildPipeline { verbose, ..self }
    }

    /// The arguments of the `jam-pvm-build` command line: the project, the
    /// output file if one was chosen, the profile, the module kind `service`,
    /// and `--auto-install` when asked for.
    pub open spec fn args_spec(&self) -> Seq<Seq<char>> {
        seq![self.project_path@] + match opt_view(self.output_path) {
            Some(o) => seq!["-o"@, o],
            None => Seq::empty(),
        } + seq!["-p"@, self.profile.name_text(), "-m"@, "service"@] + if self.auto_install {
            seq!["--auto-install"@]
        } else {
            Seq::empty()
        }
    }

    pub fn command_args(&self) -> (r: Vec<String>)
        ensures
            views(r@) == self.args_spec(),
    {
        let mut args: Vec<String> = Vec::new();
        push_arg(&mut args, self.project_path.as_str());
        if let Some(o) = &self.output_path {
            push_arg(&mut args, "-o");
            push_arg(&mut args, o.as_str());
        }
        push_arg(&mut args, "-p");
        push_arg(&mut args, self.profile.as_str());
        push_arg(&mut args, "-m");
        push_arg(&mut args, "service");
        if self.auto_install {
            push_arg(&mut args, "--auto-install");
        }
        assert(views(args@) =~= self.args_spec());
        args
    }
}

/// A service manifest depends on `jam-pvm-common`, under either spelling of
/// the name.
pub open spec fn declares_jam_dependency(manifest: Seq<char>) -> bool {
    occurs_in(manifest, "jam-pvm-common"@) || occurs_in(manifest, "jam_pvm_common"@)
}

/// Checks that a project is a JAM service, given the text of its
/// `Cargo.toml` if it has one.
pub fn check_jam_project(cargo_toml: Option<&str>) -> (r: Result<(), CargoJamError>)
    ensures
        match cargo_toml {
            None => r matches Err(CargoJamError::NotJamProject(_)),
            Some(text) => (r is Ok <==> declares_jam_dependency(text@)) && (r is Err ==> r matches Err(
                CargoJamError::NotJamProject(_),
            )),
        },
{
    match cargo_toml {
        None => Err(CargoJamError::NotJamProject(owned("Cargo.toml not found"))),
        Some(text) => {
            if contains(text, "jam-pvm-common") || contains(text, "jam_pvm_common") {
                Ok(())
            } else {
                Err(
                    CargoJamError::NotJamProject(
                        owned("jam-pvm-common dependency not found in Cargo.toml"),
                    ),
                )
            }
        },
    }
}

} // verus!
