//! Shell scripts handed to the sandboxed environment.
use vstd::prelude::*;

use crate::text::{join, join_strs, trim, trim_str, views};

verus! {

/// A character that shlex emits without quoting.
pub open spec fn is_plain_shell_char(c: char) -> bool {
    let u = c as u32;
    ||| c == '+' || c == '-' || c == '.' || c == '/' || c == ':' || c == '@' || c == ']' || c == '_'
    ||| 0x30 <= u <= 0x39
    ||| 0x41 <= u <= 0x5a
    ||| 0x61 <= u <= 0x7a
}

/// A non-empty word made only of characters that need no quoting.
pub open spec fn is_plain_word(s: Seq<char>) -> bool {
    s.len() > 0 && forall|i: int| 0 <= i < s.len() ==> #[trigger] is_plain_shell_char(s[i])
}

/// The single shell word that shlex writes for `s`.
pub uninterp spec fn shell_quoted(s: Seq<char>) -> Seq<char>;

/// Relies on `shlex::quote`: it writes `s` as one shell word. The empty
/// string becomes `''`, and a word of characters that need no quoting is
/// returned as it is.
#[verifier::external_body]
#[allow(deprecated)]
fn quote(s: &str) -> (r: String)
    ensures
        r@ == shell_quoted(s@),
        s@.len() == 0 ==> r@ == seq!['\'', '\''],
        is_plain_word(s@) ==> r@ == s@,
{
    shlex::quote(s).into_owned()
}

/// A target of `cd` that means the home directory: nothing, `~` or `~/`.
pub open spec fn is_home_target(target: Seq<char>) -> bool {
    let t = trim(target);
    t.len() == 0 || t == seq!['~'] || t == seq!['~', '/']
}

/// The directory change that `cd` with `target` asks for.
pub open spec fn cd_step(target: Seq<char>) -> Seq<char> {
    if is_home_target(target) {
        "cd"@
    } else {
        "cd "@ + shell_quoted(trim(target))
    }
}

/// The script for `cd` with the words `args`, run from `dir`: it enters
/// `dir`, changes directory, and prints where it ended up.
pub open spec fn cd_script(dir: Seq<char>, args: Seq<Seq<char>>) -> Seq<char> {
    "cd "@ + shell_quoted(dir) + " && "@ + cd_step(join(args, " "@)) + " && pwd"@
}

/// The script that runs `program` with `args`, each quoted, from `dir`.
pub open spec fn run_script(dir: Seq<char>, program: Seq<char>, args: Seq<Seq<char>>) -> Seq<
    char,
> {
    "cd "@ + shell_quoted(dir) + " && "@ + shell_quoted(program) + " "@ + join(
        args.map_values(|a: Seq<char>| shell_quoted(a)),
        " "@,
    )
}

/// The script that reports the environment's home directory: a fresh shell
/// starts there.
pub open spec fn home_script() -> Seq<char> {
    "pwd"@
}

pub fn home_query_script() -> (r: String)
    ensures
        r@ == home_script(),
{
    String::from_str("pwd")
}

fn cd_step_for(target: &str) -> (r: String)
    ensures
        r@ == cd_step(target@),
{
    let t = trim_str(target);
    let home = String::from_str("~");
    let home_slash = String::from_str("~/");
    proof {
        reveal_strlit("~");
        reveal_strlit("~/");
        assert("~"@ =~= seq!['~']);
        assert("~/"@ =~= seq!['~', '/']);
    }
    if t.unicode_len() == 0 || t == home || t == home_slash {
        String::from_str("cd")
    } else {
        let mut r = String::from_str("cd ");
        let q = quote(t.as_str());
        r.append(q.as_str());
        r
    }
}

/// The script for `cd` with the words `args`, run from `dir`.
pub fn build_cd_script(dir: &str, args: &Vec<String>) -> (r: String)
    ensures
        r@ == cd_script(dir@, views(args@)),
{
    let target = join_strs(args, " ");
    let mut r = String::from_str("cd ");
    let d = quote(dir);
    r.append(d.as_str());
    r.append(" && ");
    let step = cd_step_for(target.as_str());
    r.append(step.as_str());
    r.append(" && pwd");
    r
}

/// The script that runs `program` with `args` from `dir`.
pub fn build_run_script(dir: &str, program: &str, args: &Vec<String>) -> (r: String)
    ensures
        r@ == run_script(dir@, program@, views(args@)),
{
    let mut quoted: Vec<String> = Vec::new();
    let mut i: usize = 0;
    while i < args.len()
        invariant
            i <= args@.len(),
            quoted@.len() == i,
            forall|j: int| 0 <= j < i ==> #[trigger] quoted@[j]@ == shell_quoted(args@[j]@),
        decreases args.len() - i,
    {
        let q = quote(args[i].as_str());
        quoted.push(q);
        i = i + 1;
    }
    assert(views(quoted@) =~= views(args@).map_values(|a: Seq<char>| shell_quoted(a)));
    let mut r = String::from_str("cd ");
    let d = quote(dir);
    r.append(d.as_str());
    r.append(" && ");
    let p = quote(program);
    r.append(p.as_str());
    r.append(" ");
    let rest = join_strs(&quoted, " ");
    r.append(rest.as_str());
    r
}

} // verus!
