//! Command templates and placeholder substitution.
//!
//! A template is an ordered sequence of strings: the first is the executable
//! name, the rest are argument tokens. Resolution turns a template and a
//! target directory into the concrete command for one unit of work, in one of
//! two mutually exclusive modes. Under argument substitution every occurrence
//! of the literal token `{}` inside each argument (never the executable name)
//! is replaced with the directory's textual form; when the directory path has
//! no textual form the arguments pass through unchanged, a deliberate lossy
//! fallback. Under working-directory mode nothing is substituted and the
//! child runs with the target directory as its working directory.

use vstd::prelude::*;

verus! {

/// The placeholder that substitution replaces: the two characters `{}`.
pub open spec fn spec_is_placeholder_at(s: Seq<char>, i: int) -> bool {
    i + 2 <= s.len() && s[i] == '{' && s[i + 1] == '}'
}

/// The argument token `s` with every occurrence of `{}` replaced by `d`,
/// scanning left to right without overlap.
pub open spec fn spec_substitute(s: Seq<char>, d: Seq<char>) -> Seq<char>
    decreases s.len(),
{
    if spec_is_placeholder_at(s, 0) {
        d + spec_substitute(s.skip(2), d)
    } else if s.len() >= 1 {
        seq![s[0]] + spec_substitute(s.skip(1), d)
    } else {
        Seq::<char>::empty()
    }
}

/// Replace every occurrence of the literal `{}` in `arg` with `dir`.
pub fn substitute_placeholders(arg: &str, dir: &str) -> (r: String)
    ensures
        r@ == spec_substitute(arg@, dir@),
{
    let n: usize = arg.unicode_len();
    let mut out = String::new();
    let mut i: usize = 0;
    proof {
        assert(arg@.skip(0) =~= arg@);
        assert(out@ + spec_substitute(arg@, dir@) =~= spec_substitute(arg@, dir@));
    }
    while i < n
        invariant
            n == arg@.len(),
            i <= n,
            out@ + spec_substitute(arg@.skip(i as int), dir@) == spec_substitute(arg@, dir@),
        decreases n - i,
    {
        let ghost rest = arg@.skip(i as int);
        proof {
            assert(rest.len() == n - i);
            assert(rest[0] == arg@[i as int]);
        }
        if i + 1 < n && arg.get_char(i) == '{' && arg.get_char(i + 1) == '}' {
            proof {
                assert(rest[1] == arg@[i as int + 1]);
                assert(spec_is_placeholder_at(rest, 0));
                assert(rest.skip(2) =~= arg@.skip(i as int + 2));
                assert((out@ + dir@) + spec_substitute(arg@.skip(i as int + 2), dir@)
                    =~= out@ + (dir@ + spec_substitute(arg@.skip(i as int + 2), dir@)));
            }
            out.append(dir);
            i = i + 2;
        } else {
            let c = arg.substring_char(i, i + 1);
            proof {
                if i + 1 < n {
                    assert(rest[1] == arg@[i as int + 1]);
                }
                assert(!spec_is_placeholder_at(rest, 0));
                assert(rest.skip(1) =~= arg@.skip(i as int + 1));
                assert(c@ =~= seq![arg@[i as int]]);
                assert((out@ + c@) + spec_substitute(arg@.skip(i as int + 1), dir@)
                    =~= out@ + (c@ + spec_substitute(arg@.skip(i as int + 1), dir@)));
            }
            out.append(c);
            i = i + 1;
        }
    }
    proof {
        assert(arg@.skip(n as int) =~= Seq::<char>::empty());
        assert(out@ + Seq::<char>::empty() =~= out@);
    }
    out
}

/// Which of the two mutually exclusive resolution modes a deployment uses.
#[derive(Clone, Copy, Debug, PartialEq, Eq, Structural)]
pub enum SubstMode {
    /// Replace `{}` in each argument with the directory's textual form;
    /// the child keeps the caller's working directory.
    ArgumentSubstitution,
    /// Pass arguments through unchanged; the child runs with the target
    /// directory as its working directory.
    WorkingDirectory,
}

/// The concrete command for one unit of work: the program, its arguments
/// after resolution, and whether the child must run inside the target
/// directory.
pub struct ResolvedCommand {
    pub program: String,
    pub args: Vec<String>,
    pub run_in_target: bool,
}

/// Resolve a non-empty template against one target directory.
///
/// `dir` is the directory's textual form, or `None` when the path cannot be
/// represented as text; in that case argument substitution silently passes
/// the arguments through unchanged. The executable name is never substituted.
pub fn resolve_command(template: &Vec<String>, dir: Option<&String>, mode: SubstMode) -> (r:
    ResolvedCommand)
    requires
        template@.len() >= 1,
    ensures
        r.program@ == template@[0]@,
        r.args@.len() == template@.len() - 1,
        r.run_in_target == (mode == SubstMode::WorkingDirectory),
        mode == SubstMode::WorkingDirectory ==> (forall|j: int|
            0 <= j < r.args@.len() ==> r.args@[j]@ == template@[j + 1]@),
        mode == SubstMode::ArgumentSubstitution ==> (match dir {
            Some(d) => forall|j: int|
                0 <= j < r.args@.len() ==> r.args@[j]@ == spec_substitute(template@[j + 1]@, d@),
            None => forall|j: int| 0 <= j < r.args@.len() ==> r.args@[j]@ == template@[j + 1]@,
        }),
{
    let program = template[0].clone();
    let mut args: Vec<String> = Vec::new();
    let mut j: usize = 1;
    while j < template.len()
        invariant
            1 <= j <= template@.len(),
            args@.len() == j - 1,
            mode == SubstMode::WorkingDirectory ==> (forall|k: int|
                0 <= k < args@.len() ==> args@[k]@ == template@[k + 1]@),
            mode == SubstMode::ArgumentSubstitution ==> (match dir {
                Some(d) => forall|k: int|
                    0 <= k < args@.len() ==> args@[k]@ == spec_substitute(template@[k + 1]@, d@),
                None => forall|k: int| 0 <= k < args@.len() ==> args@[k]@ == template@[k + 1]@,
            }),
        decreases template@.len() - j,
    {
        let token = &template[j];
        let resolved = match mode {
            SubstMode::ArgumentSubstitution => {
                match dir {
                    Some(d) => substitute_placeholders(token.as_str(), d.as_str()),
                    None => token.clone(),
                }
            },
            SubstMode::WorkingDirectory => token.clone(),
        };
        args.push(resolved);
        j = j + 1;
    }
    let run_in_target = match mode {
        SubstMode::ArgumentSubstitution => false,
        SubstMode::WorkingDirectory => true,
    };
    ResolvedCommand { program, args, run_in_target }
}

} // verus!
