use vstd::prelude::*;
use vstd::string::*;
use crate::source::text_views;

verus! {

/// A package reference qualified under the fixed namespace prefix.
pub open spec fn qualified(name: Seq<char>) -> Seq<char> {
    "pkgs."@ + name
}

/// The qualified package references joined with single spaces, in order.
pub open spec fn joined_refs(pkgs: Seq<Seq<char>>) -> Seq<char>
    decreases pkgs.len(),
{
    if pkgs.len() == 0 {
        Seq::empty()
    } else if pkgs.len() == 1 {
        qualified(pkgs[0])
    } else {
        joined_refs(pkgs.drop_last()) + " "@ + qualified(pkgs.last())
    }
}

/// The environment description: one bracketed list holding the selected
/// builder's inputs followed by the user's extra packages, each qualified,
/// in their original order and without deduplication.
pub open spec fn env_text(builder_inputs: Seq<Seq<char>>, user_pkgs: Seq<Seq<char>>) -> Seq<char> {
    "with import <nixpkgs> { }; [ "@ + joined_refs(builder_inputs + user_pkgs) + " ]\n"@
}

pub open spec fn clause_base_image() -> Seq<char> {
    "FROM nixos/nix\n"@
}

pub open spec fn clause_refresh() -> Seq<char> {
    "\nRUN nix-channel --update\n"@
}

pub open spec fn clause_copy_workdir() -> Seq<char> {
    "\nCOPY . /app\nWORKDIR /app\n"@
}

pub open spec fn clause_load_env() -> Seq<char> {
    "\n# Load Nix environment\nRUN nix-env -if environment.nix\n"@
}

pub open spec fn clause_install(cmd: Seq<char>) -> Seq<char> {
    "\n# Install\nRUN "@ + cmd + "\n"@
}

pub open spec fn clause_build(cmd: Seq<char>) -> Seq<char> {
    "\n# Build\nRUN "@ + cmd + "\n"@
}

pub open spec fn clause_start(cmd: Seq<char>) -> Seq<char> {
    "\n# Start\nCMD "@ + cmd + "\n"@
}

/// The build definition: the fixed seven-clause recipe. An undetermined
/// command stands in its clause as the empty string; the clause itself is
/// never omitted.
pub open spec fn dockerfile_text(install: Seq<char>, build: Seq<char>, start: Seq<char>) -> Seq<
    char,
> {
    clause_base_image() + clause_refresh() + clause_copy_workdir() + clause_load_env()
        + clause_install(install) + clause_build(build) + clause_start(start)
}

/// The command that fills a clause: an absent command renders as empty.
pub open spec fn or_empty(cmd: Option<Seq<char>>) -> Seq<char> {
    match cmd {
        Some(c) => c,
        None => Seq::empty(),
    }
}

/// The command a clause carries when the user may override it: the
/// user-supplied command when present, else the suggested one, else empty.
pub open spec fn resolved_cmd(user: Option<Seq<char>>, suggested: Option<Seq<char>>) -> Seq<char> {
    match user {
        Some(c) => c,
        None => or_empty(suggested),
    }
}

/// Environment rendering is a pure function: identical builder inputs and
/// user package lists always yield byte-identical text.
pub proof fn lemma_env_text_deterministic(
    b1: Seq<Seq<char>>,
    u1: Seq<Seq<char>>,
    b2: Seq<Seq<char>>,
    u2: Seq<Seq<char>>,
)
    requires
        b1 == b2,
        u1 == u2,
    ensures
        env_text(b1, u1) == env_text(b2, u2),
{
}

/// The build definition always consists of the seven clauses, in order:
/// base image, environment refresh, copy and working directory,
/// environment materialization, install, build, start.
pub proof fn lemma_dockerfile_seven_clauses(install: Seq<char>, build: Seq<char>, start: Seq<char>)
    ensures
        dockerfile_text(install, build, start) == clause_base_image() + clause_refresh()
            + clause_copy_workdir() + clause_load_env() + clause_install(install) + clause_build(
            build,
        ) + clause_start(start),
{
}

/// Each command-bearing clause stands whole inside the rendered build
/// definition, at its fixed place right after the preceding clauses —
/// whatever the commands are, including the empty string.
pub proof fn lemma_clauses_stand_in_text(install: Seq<char>, build: Seq<char>, start: Seq<char>)
    ensures
        ({
            let t = dockerfile_text(install, build, start);
            let head = clause_base_image() + clause_refresh() + clause_copy_workdir()
                + clause_load_env();
            t.subrange(head.len() as int, head.len() + clause_install(install).len() as int) == clause_install(
                install,
            )
        }),
        ({
            let t = dockerfile_text(install, build, start);
            let head = clause_base_image() + clause_refresh() + clause_copy_workdir()
                + clause_load_env() + clause_install(install);
            t.subrange(head.len() as int, head.len() + clause_build(build).len() as int) == clause_build(
                build,
            )
        }),
        ({
            let t = dockerfile_text(install, build, start);
            let head = clause_base_image() + clause_refresh() + clause_copy_workdir()
                + clause_load_env() + clause_install(install) + clause_build(build);
            t.subrange(head.len() as int, head.len() + clause_start(start).len() as int) == clause_start(
                start,
            )
        }),
{
    let t = dockerfile_text(install, build, start);
    let h1 = clause_base_image() + clause_refresh() + clause_copy_workdir() + clause_load_env();
    let h2 = h1 + clause_install(install);
    let h3 = h2 + clause_build(build);
    assert(t.subrange(h1.len() as int, h1.len() + clause_install(install).len() as int) =~= clause_install(
        install,
    ));
    assert(t.subrange(h2.len() as int, h2.len() + clause_build(build).len() as int) =~= clause_build(
        build,
    ));
    assert(t.subrange(h3.len() as int, h3.len() + clause_start(start).len() as int) =~= clause_start(
        start,
    ));
}

/// An undetermined command still leaves its clause in the text: the
/// install, build and start clauses are non-empty even for the empty
/// command.
pub proof fn lemma_empty_command_keeps_clause()
    ensures
        clause_install(Seq::<char>::empty()).len() > 0,
        clause_build(Seq::<char>::empty()).len() > 0,
        clause_start(Seq::<char>::empty()).len() > 0,
{
    reveal_strlit("\n# Install\nRUN ");
    reveal_strlit("\n# Build\nRUN ");
    reveal_strlit("\n# Start\nCMD ");
    reveal_strlit("\n");
}

/// A user-supplied command always takes precedence over the suggested one
/// when both exist; without a user command the suggested one is used, and
/// an absent command resolves to empty.
pub proof fn lemma_override_precedence(user: Seq<char>, suggested: Option<Seq<char>>)
    ensures
        resolved_cmd(Some(user), suggested) == user,
        resolved_cmd(None, suggested) == or_empty(suggested),
{
}

fn render_package_refs(pkgs: &Vec<String>) -> (r: String)
    ensures
        r@ == joined_refs(text_views(pkgs@)),
{
    let mut out = String::new();
    let mut i: usize = 0;
    while i < pkgs.len()
        invariant
            i <= pkgs@.len(),
            out@ == joined_refs(text_views(pkgs@).take(i as int)),
        decreases pkgs@.len() - i,
    {
        if i > 0 {
            out.append(" ");
        }
        out.append("pkgs.");
        out.append(pkgs[i].as_str());
        proof {
            let tv = text_views(pkgs@);
            assert(tv.take(i as int + 1).drop_last() =~= tv.take(i as int));
            assert(tv.take(i as int + 1).last() == tv[i as int]);
            if i == 0 {
                assert(out@ =~= qualified(tv[0]));
                assert(out@ =~= joined_refs(tv.take(1)));
            } else {
                assert(out@ =~= joined_refs(tv.take(i as int)) + " "@ + qualified(tv[i as int]));
            }
        }
        i += 1;
    }
    proof {
        assert(text_views(pkgs@).take(pkgs@.len() as int) =~= text_views(pkgs@));
    }
    out
}

/// Render the environment description from the selected builder's inputs
/// and the user's extra packages.
pub fn render_env(builder_inputs: &Vec<String>, user_pkgs: &Vec<String>) -> (r: String)
    ensures
        r@ == env_text(text_views(builder_inputs@), text_views(user_pkgs@)),
{
    let mut all: Vec<String> = Vec::new();
    let mut i: usize = 0;
    while i < builder_inputs.len()
        invariant
            i <= builder_inputs@.len(),
            all@ == builder_inputs@.take(i as int),
        decreases builder_inputs@.len() - i,
    {
        all.push(builder_inputs[i].clone());
        proof {
            assert(builder_inputs@.take(i as int).push(builder_inputs@[i as int])
                =~= builder_inputs@.take(i as int + 1));
        }
        i += 1;
    }
    proof {
        assert(builder_inputs@.take(builder_inputs@.len() as int) =~= builder_inputs@);
    }
    let mut j: usize = 0;
    while j < user_pkgs.len()
        invariant
            j <= user_pkgs@.len(),
            all@ == builder_inputs@ + user_pkgs@.take(j as int),
        decreases user_pkgs@.len() - j,
    {
        all.push(user_pkgs[j].clone());
        proof {
            assert((builder_inputs@ + user_pkgs@.take(j as int)).push(user_pkgs@[j as int])
                =~= builder_inputs@ + user_pkgs@.take(j as int + 1));
        }
        j += 1;
    }
    proof {
        assert(builder_inputs@ + user_pkgs@.take(user_pkgs@.len() as int) =~= builder_inputs@
            + user_pkgs@);
        assert(text_views(builder_inputs@ + user_pkgs@) =~= text_views(builder_inputs@)
            + text_views(user_pkgs@));
    }
    let refs = render_package_refs(&all);
    let mut out = String::from_str("with import <nixpkgs> { }; [ ");
    out.append(refs.as_str());
    out.append(" ]\n");
    out
}

/// Render the build definition from the three resolved commands.
pub fn render_dockerfile(install: &str, build: &str, start: &str) -> (r: String)
    ensures
        r@ == dockerfile_text(install@, build@, start@),
{
    let mut out = String::from_str("FROM nixos/nix\n");
    out.append("\nRUN nix-channel --update\n");
    out.append("\nCOPY . /app\nWORKDIR /app\n");
    out.append("\n# Load Nix environment\nRUN nix-env -if environment.nix\n");
    out.append("\n# Install\nRUN ");
    out.append(install);
    out.append("\n");
    out.append("\n# Build\nRUN ");
    out.append(build);
    out.append("\n");
    out.append("\n# Start\nCMD ");
    out.append(start);
    out.append("\n");
    proof {
        assert(out@ =~= dockerfile_text(install@, build@, start@));
    }
    out
}

} // verus!
