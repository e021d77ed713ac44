use vstd::prelude::*;
use vstd::string::*;
use crate::builder::{Builder, opt_text};
use crate::error::BuildError;
use crate::render::{
    dockerfile_text, env_text, or_empty, render_dockerfile, render_env, resolved_cmd,
};
use crate::source::{AppSource, text_views};

verus! {

/// Everything a staged build needs: where the source lives, the fresh
/// workspace directory, the image tag, the run command to report on
/// success, and the two artifact texts to write at the workspace root.
#[derive(Debug, Clone)]
pub struct BuildPlan {
    pub source_dir: String,
    pub workspace_dir: String,
    pub image_tag: String,
    pub run_command: String,
    pub nix_text: String,
    pub dockerfile_text: String,
}

/// Relies on `uuid::Uuid::new_v4` and its hyphenated `Display` form
/// (through `to_string`): a freshly generated random 128-bit identifier
/// rendered as 36 characters. The value depends on the generator's
/// randomness, so nothing more is promised of it.
#[verifier::external_body]
fn fresh_id() -> (r: String)
    ensures
        r@.len() == 36,
{
    uuid::Uuid::new_v4().to_string()
}

/// The orchestrator's state: the build request (output name, source
/// snapshot, command overrides, extra packages) and the builder
/// selection, unresolved until detection runs.
pub struct AppBuilder<B: Builder> {
    pub name: Option<String>,
    pub app: AppSource,
    pub custom_build_cmd: Option<String>,
    pub custom_start_cmd: Option<String>,
    pub pkgs: Vec<String>,
    pub builder: Option<B>,
}

impl<B: Builder> AppBuilder<B> {
    /// The selected builder's package inputs; empty when none is selected.
    pub open spec fn spec_builder_inputs(&self) -> Seq<Seq<char>> {
        match self.builder {
            Some(b) => b.spec_build_inputs(&self.app),
            None => Seq::empty(),
        }
    }

    /// The install command the build definition carries: the selected
    /// builder's value or empty. There is no user-override path for it.
    pub open spec fn spec_install(&self) -> Seq<char> {
        match self.builder {
            Some(b) => or_empty(b.spec_install_cmd(&self.app)),
            None => Seq::empty(),
        }
    }

    pub open spec fn spec_suggested_build(&self) -> Option<Seq<char>> {
        match self.builder {
            Some(b) => b.spec_build_cmd(&self.app),
            None => None,
        }
    }

    pub open spec fn spec_suggested_start(&self) -> Option<Seq<char>> {
        match self.builder {
            Some(b) => b.spec_start_cmd(&self.app),
            None => None,
        }
    }

    /// The environment description this request renders to.
    pub open spec fn spec_env_text(&self) -> Seq<char> {
        env_text(self.spec_builder_inputs(), text_views(self.pkgs@))
    }

    /// The build definition this request renders to: the builder's
    /// install command, and the user overrides taking precedence over the
    /// builder's suggestions for build and start.
    pub open spec fn spec_dockerfile_text(&self) -> Seq<char> {
        dockerfile_text(
            self.spec_install(),
            resolved_cmd(opt_text(self.custom_build_cmd), self.spec_suggested_build()),
            resolved_cmd(opt_text(self.custom_start_cmd), self.spec_suggested_start()),
        )
    }

    /// Can rendering the environment description fail? Only through the
    /// selected builder's inputs query; never without a selection.
    pub open spec fn env_cannot_fail(&self) -> bool {
        match self.builder {
            Some(b) => b.build_inputs_cannot_fail(),
            None => true,
        }
    }

    /// Can rendering the build definition fail? Only through the selected
    /// builder's three command queries; never without a selection.
    pub open spec fn dockerfile_cannot_fail(&self) -> bool {
        match self.builder {
            Some(b) => b.install_cmd_cannot_fail() && b.build_cmd_cannot_fail()
                && b.start_cmd_cannot_fail(),
            None => true,
        }
    }

    /// Does `p` stage this request under the workspace identifier `id`
    /// (a fresh 36-character rendering of a 128-bit value)?
    pub open spec fn plan_matches(self, p: BuildPlan, id: Seq<char>) -> bool {
        &&& id.len() == 36
        &&& p.source_dir@ == self.app.source@
        &&& p.workspace_dir@ == "./tmp/"@ + id
        &&& p.image_tag@ == (match self.name {
            Some(n) => n@,
            None => id,
        })
        &&& p.run_command@ == "docker run "@ + p.image_tag@
        &&& p.nix_text@ == self.spec_env_text()
        &&& p.dockerfile_text@ == self.spec_dockerfile_text()
    }

    /// Does `p` stage this request under some workspace identifier?
    pub open spec fn plan_staged(self, p: BuildPlan) -> bool {
        exists|id: Seq<char>| #[trigger] self.plan_matches(p, id)
    }

    /// Assemble a build request around a snapshot taken by the caller.
    /// The builder selection starts unresolved.
    pub fn new(
        name: Option<String>,
        source: String,
        paths: Vec<String>,
        custom_build_cmd: Option<String>,
        custom_start_cmd: Option<String>,
        pkgs: Vec<String>,
    ) -> (r: AppBuilder<B>)
        ensures
            r.name == name,
            r.app.source == source,
            r.app.paths == paths,
            r.custom_build_cmd == custom_build_cmd,
            r.custom_start_cmd == custom_start_cmd,
            r.pkgs == pkgs,
            r.builder is None,
    {
        AppBuilder {
            name,
            app: AppSource { source, paths },
            custom_build_cmd,
            custom_start_cmd,
            pkgs,
            builder: None,
        }
    }

    /// The index of the first builder whose recognizer matches, in the
    /// caller-given order; `None` when every recognizer answered and none
    /// matched. A recognizer's own failure aborts the scan.
    fn first_match(app: &AppSource, builders: &Vec<B>) -> (r: Result<Option<usize>, BuildError>)
        ensures
            r matches Ok(Some(i)) ==> 0 <= i < builders@.len() && builders@[i as int].spec_matches(
                app,
            ) && forall|j: int| 0 <= j < i ==> !(#[trigger] builders@[j].spec_matches(app)),
            r matches Ok(None) ==> forall|j: int|
                0 <= j < builders@.len() ==> !(#[trigger] builders@[j].spec_matches(app)),
            r matches Err(e) ==> e is DetectFailed,
            r is Err ==> exists|i: int|
                0 <= i < builders@.len() && !(#[trigger] builders@[i].detect_cannot_fail()),
    {
        let mut i: usize = 0;
        while i < builders.len()
            invariant
                i <= builders@.len(),
                forall|j: int| 0 <= j < i ==> !(#[trigger] builders@[j].spec_matches(app)),
            decreases builders@.len() - i,
        {
            let m = match builders[i].detect(app) {
                Ok(m) => m,
                Err(message) => {
                    proof {
                        assert(!builders@[i as int].detect_cannot_fail());
                    }
                    return Err(
                        BuildError::DetectFailed { builder: builders[i].name(), message },
                    );
                },
            };
            if m {
                return Ok(Some(i));
            }
            i += 1;
        }
        Ok(None)
    }

    /// Run detection over the builders, strictly in the given order, and
    /// resolve the selection: the first builder whose recognizer matches
    /// wins and later ones are never consulted. When none matches, the
    /// build may still proceed on the user's start-command override;
    /// without one, detection fails. A recognizer's failure aborts
    /// detection wherever it stands in the list.
    pub fn detect(&mut self, builders: Vec<B>) -> (r: Result<(), BuildError>)
        requires
            old(self).builder is None,
        ensures
            final(self).name == old(self).name,
            final(self).app == old(self).app,
            final(self).custom_build_cmd == old(self).custom_build_cmd,
            final(self).custom_start_cmd == old(self).custom_start_cmd,
            final(self).pkgs == old(self).pkgs,
            r is Ok ==> (final(self).builder matches Some(b) ==> exists|i: int|
                {
                    &&& 0 <= i < builders@.len()
                    &&& #[trigger] builders@[i] == b
                    &&& b.spec_matches(&old(self).app)
                    &&& forall|j: int| 0 <= j < i ==> !(#[trigger] builders@[j].spec_matches(
                        &old(self).app,
                    ))
                }),
            r is Ok && final(self).builder is None ==> old(self).custom_start_cmd is Some
                && forall|i: int|
                0 <= i < builders@.len() ==> !(#[trigger] builders@[i].spec_matches(
                    &old(self).app,
                )),
            r is Err ==> final(self).builder is None,
            r matches Err(e) ==> e is NoBuilderMatched || e is DetectFailed,
            r matches Err(e) && e is NoBuilderMatched ==> old(self).custom_start_cmd is None
                && forall|i: int|
                0 <= i < builders@.len() ==> !(#[trigger] builders@[i].spec_matches(
                    &old(self).app,
                )),
            r matches Err(e) && e is DetectFailed ==> exists|i: int|
                0 <= i < builders@.len() && !(#[trigger] builders@[i].detect_cannot_fail()),
            builders@.len() == 0 && old(self).custom_start_cmd is Some ==> r is Ok,
            builders@.len() == 0 && old(self).custom_start_cmd is None ==> (r matches Err(e)
                && e is NoBuilderMatched),
    {
        let mut builders = builders;
        let sel = match Self::first_match(&self.app, &builders) {
            Ok(s) => s,
            Err(e) => {
                return Err(e);
            },
        };
        match sel {
            Some(i) => {
                let b = builders.remove(i);
                self.builder = Some(b);
                Ok(())
            },
            None => {
                if self.custom_start_cmd.is_none() {
                    Err(BuildError::NoBuilderMatched)
                } else {
                    Ok(())
                }
            },
        }
    }

    /// Render the environment description for this request: the selected
    /// builder's inputs followed by the extra packages. Pure given the
    /// builder's answer; with no builder selected it cannot fail.
    pub fn gen_nix(&self) -> (r: Result<String, BuildError>)
        ensures
            r matches Ok(s) ==> s@ == self.spec_env_text(),
            self.env_cannot_fail() ==> r is Ok,
            r matches Err(e) ==> e is BuildInputsFailed,
            r matches Err(e) ==> (self.builder matches Some(b)
                && !b.build_inputs_cannot_fail()),
    {
        let binputs: Vec<String> = match &self.builder {
            Some(b) => {
                match b.build_inputs(&self.app) {
                    Ok(v) => v,
                    Err(message) => {
                        return Err(
                            BuildError::BuildInputsFailed { builder: b.name(), message },
                        );
                    },
                }
            },
            None => Vec::new(),
        };
        Ok(render_env(&binputs, &self.pkgs))
    }

    /// Render the build definition for this request. The install clause
    /// is the builder's value or empty — no override path exists for it;
    /// the build and start clauses prefer the user's overrides over the
    /// builder's suggestions. A builder failure aborts rendering even
    /// when an override would have hidden the failing value; with no
    /// builder selected rendering cannot fail.
    pub fn gen_dockerfile(&self) -> (r: Result<String, BuildError>)
        ensures
            r matches Ok(s) ==> s@ == self.spec_dockerfile_text(),
            self.dockerfile_cannot_fail() ==> r is Ok,
            r matches Err(e) ==> e is InstallCmdFailed || e is BuildCmdFailed
                || e is StartCmdFailed,
            r matches Err(e) && e is InstallCmdFailed ==> (self.builder matches Some(b)
                && !b.install_cmd_cannot_fail()),
            r matches Err(e) && e is BuildCmdFailed ==> (self.builder matches Some(b)
                && !b.build_cmd_cannot_fail()),
            r matches Err(e) && e is StartCmdFailed ==> (self.builder matches Some(b)
                && !b.start_cmd_cannot_fail()),
    {
        let install_cmd: String = match &self.builder {
            Some(b) => {
                match b.install_cmd(&self.app) {
                    Ok(Some(c)) => c,
                    Ok(None) => String::new(),
                    Err(message) => {
                        return Err(
                            BuildError::InstallCmdFailed { builder: b.name(), message },
                        );
                    },
                }
            },
            None => String::new(),
        };
        let suggested_build: String = match &self.builder {
            Some(b) => {
                match b.suggested_build_cmd(&self.app) {
                    Ok(Some(c)) => c,
                    Ok(None) => String::new(),
                    Err(message) => {
                        return Err(BuildError::BuildCmdFailed { builder: b.name(), message });
                    },
                }
            },
            None => String::new(),
        };
        let build_cmd: String = match &self.custom_build_cmd {
            Some(c) => c.clone(),
            None => suggested_build,
        };
        let suggested_start: String = match &self.builder {
            Some(b) => {
                match b.suggested_start_command(&self.app) {
                    Ok(Some(c)) => c,
                    Ok(None) => String::new(),
                    Err(message) => {
                        return Err(BuildError::StartCmdFailed { builder: b.name(), message });
                    },
                }
            },
            None => String::new(),
        };
        let start_cmd: String = match &self.custom_start_cmd {
            Some(c) => c.clone(),
            None => suggested_start,
        };
        Ok(render_dockerfile(install_cmd.as_str(), build_cmd.as_str(), start_cmd.as_str()))
    }

    /// Stage the whole build as values: render both artifacts, draw a
    /// fresh workspace identifier and lay out the directory, tag and run
    /// command. The artifacts depend only on the request; the workspace
    /// directory embeds the fresh identifier. With no builder selected,
    /// planning cannot fail.
    pub fn plan(&self) -> (r: Result<BuildPlan, BuildError>)
        ensures
            r matches Ok(p) ==> self.plan_staged(p),
            r matches Ok(p) ==> p.nix_text@ == self.spec_env_text() && p.dockerfile_text@
                == self.spec_dockerfile_text(),
            r matches Ok(p) ==> p.workspace_dir@.len() == "./tmp/"@.len() + 36,
            self.env_cannot_fail() && self.dockerfile_cannot_fail() ==> r is Ok,
            r matches Err(e) ==> e is BuildInputsFailed || e is InstallCmdFailed
                || e is BuildCmdFailed || e is StartCmdFailed,
            r matches Err(e) && e is BuildInputsFailed ==> (self.builder matches Some(b)
                && !b.build_inputs_cannot_fail()),
            r matches Err(e) && e is InstallCmdFailed ==> (self.builder matches Some(b)
                && !b.install_cmd_cannot_fail()),
            r matches Err(e) && e is BuildCmdFailed ==> (self.builder matches Some(b)
                && !b.build_cmd_cannot_fail()),
            r matches Err(e) && e is StartCmdFailed ==> (self.builder matches Some(b)
                && !b.start_cmd_cannot_fail()),
    {
        let nix_text = match self.gen_nix() {
            Ok(s) => s,
            Err(e) => {
                return Err(e);
            },
        };
        let dockerfile = match self.gen_dockerfile() {
            Ok(s) => s,
            Err(e) => {
                return Err(e);
            },
        };
        let id = fresh_id();
        let mut workspace_dir = String::from_str("./tmp/");
        workspace_dir.append(id.as_str());
        let image_tag = match &self.name {
            Some(n) => n.clone(),
            None => id.clone(),
        };
        let mut run_command = String::from_str("docker run ");
        run_command.append(image_tag.as_str());
        let p = BuildPlan {
            source_dir: self.app.source.clone(),
            workspace_dir,
            image_tag,
            run_command,
            nix_text,
            dockerfile_text: dockerfile,
        };
        proof {
            assert(self.plan_matches(p, id@));
            assert(self.plan_staged(p));
        }
        Ok(p)
    }
}

/// Two plans for the same request carry byte-identical artifact texts,
/// and distinct workspace identifiers give them distinct workspace
/// directories.
pub proof fn lemma_plans_reproducible<B: Builder>(
    b: &AppBuilder<B>,
    p1: BuildPlan,
    p2: BuildPlan,
    id1: Seq<char>,
    id2: Seq<char>,
)
    requires
        b.plan_matches(p1, id1),
        b.plan_matches(p2, id2),
        id1 != id2,
    ensures
        p1.nix_text@ == p2.nix_text@,
        p1.dockerfile_text@ == p2.dockerfile_text@,
        p1.workspace_dir@ != p2.workspace_dir@,
{
    let pre = "./tmp/"@;
    if p1.workspace_dir@ == p2.workspace_dir@ {
        assert((pre + id1).subrange(pre.len() as int, (pre + id1).len() as int) =~= id1);
        assert((pre + id2).subrange(pre.len() as int, (pre + id2).len() as int) =~= id2);
        assert(id1 == id2);
    }
}

} // verus!
