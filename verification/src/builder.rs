use vstd::prelude::*;
use crate::source::{AppSource, source_includes, text_views};

verus! {

/// The view of an optional command string.
pub open spec fn opt_text(o: Option<String>) -> Option<Seq<char>> {
    match o {
        Some(s) => Some(s@),
        None => None,
    }
}

/// A builder capability: a pluggable unit that recognizes an application
/// kind from a source snapshot and supplies its environment, install,
/// build and start needs.
///
/// Each implementation fixes, as spec functions, what its operations
/// answer on a given snapshot; the executable operations may fail (for
/// example on an I/O error while reading a candidate file), but whenever
/// one succeeds its answer agrees with the corresponding spec function.
pub trait Builder {
    /// Does this recognizer's application kind match the snapshot?
    spec fn spec_matches(&self, app: &AppSource) -> bool;

    /// The environment package names this builder requires.
    spec fn spec_build_inputs(&self, app: &AppSource) -> Seq<Seq<char>>;

    /// The install command, if an install step is needed.
    spec fn spec_install_cmd(&self, app: &AppSource) -> Option<Seq<char>>;

    /// The suggested build command, if any.
    spec fn spec_build_cmd(&self, app: &AppSource) -> Option<Seq<char>>;

    /// The suggested start command, if any.
    spec fn spec_start_cmd(&self, app: &AppSource) -> Option<Seq<char>>;

    /// Does this recognizer answer on every snapshot? When true, `detect`
    /// is promised to succeed; the engine then owes an answer in turn.
    spec fn detect_cannot_fail(&self) -> bool;

    /// As `detect_cannot_fail`, for `build_inputs`.
    spec fn build_inputs_cannot_fail(&self) -> bool;

    /// As `detect_cannot_fail`, for `install_cmd`.
    spec fn install_cmd_cannot_fail(&self) -> bool;

    /// As `detect_cannot_fail`, for `suggested_build_cmd`.
    spec fn build_cmd_cannot_fail(&self) -> bool;

    /// As `detect_cannot_fail`, for `suggested_start_command`.
    spec fn start_cmd_cannot_fail(&self) -> bool;

    /// Identifier for diagnostics only; nothing is promised of it.
    fn name(&self) -> String;

    fn detect(&self, app: &AppSource) -> (r: Result<bool, String>)
        ensures
            r matches Ok(m) ==> m == self.spec_matches(app),
            self.detect_cannot_fail() ==> r is Ok,
    ;

    fn build_inputs(&self, app: &AppSource) -> (r: Result<Vec<String>, String>)
        ensures
            r matches Ok(v) ==> text_views(v@) == self.spec_build_inputs(app),
            self.build_inputs_cannot_fail() ==> r is Ok,
    ;

    fn install_cmd(&self, app: &AppSource) -> (r: Result<Option<String>, String>)
        ensures
            r matches Ok(c) ==> opt_text(c) == self.spec_install_cmd(app),
            self.install_cmd_cannot_fail() ==> r is Ok,
    ;

    fn suggested_build_cmd(&self, app: &AppSource) -> (r: Result<Option<String>, String>)
        ensures
            r matches Ok(c) ==> opt_text(c) == self.spec_build_cmd(app),
            self.build_cmd_cannot_fail() ==> r is Ok,
    ;

    fn suggested_start_command(&self, app: &AppSource) -> (r: Result<Option<String>, String>)
        ensures
            r matches Ok(c) ==> opt_text(c) == self.spec_start_cmd(app),
            self.start_cmd_cannot_fail() ==> r is Ok,
    ;
}

fn clone_strings(v: &Vec<String>) -> (r: Vec<String>)
    ensures
        r@ == v@,
{
    let mut r: Vec<String> = Vec::new();
    let mut i: usize = 0;
    while i < v.len()
        invariant
            i <= v@.len(),
            r@ == v@.take(i as int),
        decreases v@.len() - i,
    {
        r.push(v[i].clone());
        proof {
            assert(v@.take(i as int).push(v@[i as int]) =~= v@.take(i as int + 1));
        }
        i += 1;
    }
    proof {
        assert(v@.take(v@.len() as int) =~= v@);
    }
    r
}

fn clone_opt_string(o: &Option<String>) -> (r: Option<String>)
    ensures
        r == *o,
{
    match o {
        Some(s) => Some(s.clone()),
        None => None,
    }
}

/// A marker-file recognizer: it matches exactly when the snapshot's top
/// level holds an entry named `marker`, and answers with its fixed
/// package inputs and commands. None of its operations ever fails.
pub struct MarkerBuilder {
    pub name: String,
    pub marker: String,
    pub inputs: Vec<String>,
    pub install: Option<String>,
    pub build: Option<String>,
    pub start: Option<String>,
}

impl Builder for MarkerBuilder {
    open spec fn spec_matches(&self, app: &AppSource) -> bool {
        source_includes(text_views(app.paths@), self.marker@)
    }

    open spec fn spec_build_inputs(&self, app: &AppSource) -> Seq<Seq<char>> {
        text_views(self.inputs@)
    }

    open spec fn spec_install_cmd(&self, app: &AppSource) -> Option<Seq<char>> {
        opt_text(self.install)
    }

    open spec fn spec_build_cmd(&self, app: &AppSource) -> Option<Seq<char>> {
        opt_text(self.build)
    }

    open spec fn spec_start_cmd(&self, app: &AppSource) -> Option<Seq<char>> {
        opt_text(self.start)
    }

    open spec fn detect_cannot_fail(&self) -> bool {
        true
    }

    open spec fn build_inputs_cannot_fail(&self) -> bool {
        true
    }

    open spec fn install_cmd_cannot_fail(&self) -> bool {
        true
    }

    open spec fn build_cmd_cannot_fail(&self) -> bool {
        true
    }

    open spec fn start_cmd_cannot_fail(&self) -> bool {
        true
    }

    fn name(&self) -> String {
        self.name.clone()
    }

    fn detect(&self, app: &AppSource) -> (r: Result<bool, String>)
        ensures
            r is Ok,
    {
        Ok(app.includes_file(self.marker.as_str()))
    }

    fn build_inputs(&self, app: &AppSource) -> (r: Result<Vec<String>, String>)
        ensures
            r is Ok,
    {
        Ok(clone_strings(&self.inputs))
    }

    fn install_cmd(&self, app: &AppSource) -> (r: Result<Option<String>, String>)
        ensures
            r is Ok,
    {
        Ok(clone_opt_string(&self.install))
    }

    fn suggested_build_cmd(&self, app: &AppSource) -> (r: Result<Option<String>, String>)
        ensures
            r is Ok,
    {
        Ok(clone_opt_string(&self.build))
    }

    fn suggested_start_command(&self, app: &AppSource) -> (r: Result<Option<String>, String>)
        ensures
            r is Ok,
    {
        Ok(clone_opt_string(&self.start))
    }
}

/// A scripted capability: it reports a fixed recognition answer and fixed
/// needs, and any single operation can be made to report a failure, as a
/// real recognizer might when reading the source tree fails. Useful for
/// exercising the engine's failure propagation.
pub struct ScriptedBuilder {
    pub name: String,
    pub recognizes: bool,
    pub inputs: Vec<String>,
    pub install: Option<String>,
    pub build: Option<String>,
    pub start: Option<String>,
    pub fail_detect: Option<String>,
    pub fail_inputs: Option<String>,
    pub fail_install: Option<String>,
    pub fail_build: Option<String>,
    pub fail_start: Option<String>,
}

impl Builder for ScriptedBuilder {
    open spec fn spec_matches(&self, app: &AppSource) -> bool {
        self.recognizes
    }

    open spec fn spec_build_inputs(&self, app: &AppSource) -> Seq<Seq<char>> {
        text_views(self.inputs@)
    }

    open spec fn spec_install_cmd(&self, app: &AppSource) -> Option<Seq<char>> {
        opt_text(self.install)
    }

    open spec fn spec_build_cmd(&self, app: &AppSource) -> Option<Seq<char>> {
        opt_text(self.build)
    }

    open spec fn spec_start_cmd(&self, app: &AppSource) -> Option<Seq<char>> {
        opt_text(self.start)
    }

    open spec fn detect_cannot_fail(&self) -> bool {
        self.fail_detect is None
    }

    open spec fn build_inputs_cannot_fail(&self) -> bool {
        self.fail_inputs is None
    }

    open spec fn install_cmd_cannot_fail(&self) -> bool {
        self.fail_install is None
    }

    open spec fn build_cmd_cannot_fail(&self) -> bool {
        self.fail_build is None
    }

    open spec fn start_cmd_cannot_fail(&self) -> bool {
        self.fail_start is None
    }

    fn name(&self) -> String {
        self.name.clone()
    }

    fn detect(&self, app: &AppSource) -> (r: Result<bool, String>)
        ensures
            r is Ok <==> self.fail_detect is None,
    {
        match &self.fail_detect {
            Some(m) => Err(m.clone()),
            None => Ok(self.recognizes),
        }
    }

    fn build_inputs(&self, app: &AppSource) -> (r: Result<Vec<String>, String>)
        ensures
            r is Ok <==> self.fail_inputs is None,
    {
        match &self.fail_inputs {
            Some(m) => Err(m.clone()),
            None => Ok(clone_strings(&self.inputs)),
        }
    }

    fn install_cmd(&self, app: &AppSource) -> (r: Result<Option<String>, String>)
        ensures
            r is Ok <==> self.fail_install is None,
    {
        match &self.fail_install {
            Some(m) => Err(m.clone()),
            None => Ok(clone_opt_string(&self.install)),
        }
    }

    fn suggested_build_cmd(&self, app: &AppSource) -> (r: Result<Option<String>, String>)
        ensures
            r is Ok <==> self.fail_build is None,
    {
        match &self.fail_build {
            Some(m) => Err(m.clone()),
            None => Ok(clone_opt_string(&self.build)),
        }
    }

    fn suggested_start_command(&self, app: &AppSource) -> (r: Result<Option<String>, String>)
        ensures
            r is Ok <==> self.fail_start is None,
    {
        match &self.fail_start {
            Some(m) => Err(m.clone()),
            None => Ok(clone_opt_string(&self.start)),
        }
    }
}

} // verus!
