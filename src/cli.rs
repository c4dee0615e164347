use vstd::prelude::*;
use vstd::string::StrSliceExecFns;

use crate::text::has_prefix;
use crate::text::starts_with;
use crate::text::str_eq;

verus! {

/// The command line: `[-a|--verbose] [-i|--ssh-private-key PATH] [REPOS_DIRECTORY]`.
pub struct Args {
    /// Show all entries, informational messages included.
    pub verbose: bool,
    /// Path to the SSH private key used to authenticate fetches.
    pub ssh_private_key: Option<String>,
    /// The directory that holds the repositories.
    pub repos_directory: Option<String>,
}

/// Why the arguments give no `Args`.
#[derive(Clone, Copy, Debug, PartialEq, Eq, Structural)]
pub enum ArgsError {
    /// Help was asked for.
    Help,
    /// The version was asked for.
    Version,
    /// The arguments do not fit the command line.
    Usage,
}

/// The long key option with its value attached after `=`.
pub const KEY_LONG_EQ: &'static str = "--ssh-private-key=";

/// The short key option, to which a value may be attached.
pub const KEY_SHORT: &'static str = "-i";

/// Parsed arguments as plain values: verbose, key path, directory.
pub type ArgsModel = (bool, Option<Seq<char>>, Option<Seq<char>>);

/// The text of an optional string.
pub open spec fn opt_view(o: Option<String>) -> Option<Seq<char>> {
    match o {
        Some(s) => Some(s@),
        None => None,
    }
}

/// The plain values that `a` holds.
pub open spec fn args_view(a: Args) -> ArgsModel {
    (a.verbose, opt_view(a.ssh_private_key), opt_view(a.repos_directory))
}

/// `t` asks for help.
pub open spec fn is_help_flag(t: Seq<char>) -> bool {
    t == "-h"@ || t == "--help"@
}

/// `t` asks for the version.
pub open spec fn is_version_flag(t: Seq<char>) -> bool {
    t == "-V"@ || t == "--version"@
}

/// `t` asks for verbose output.
pub open spec fn is_verbose_flag(t: Seq<char>) -> bool {
    t == "-a"@ || t == "--verbose"@
}

/// `t` announces the path of the private key in the next argument.
pub open spec fn is_key_flag(t: Seq<char>) -> bool {
    t == KEY_SHORT@ || t == "--ssh-private-key"@
}

/// `t` is read as an option, not as a value: a dash followed by more.
pub open spec fn looks_like_flag(t: Seq<char>) -> bool {
    t.len() > 1 && t[0] == '-'
}

/// `t` can stand as a separate path value.
pub open spec fn is_value(t: Seq<char>) -> bool {
    t.len() > 0 && !looks_like_flag(t)
}

/// The key path attached to `t` (`--ssh-private-key=PATH` or `-iPATH`), if any.
pub open spec fn attached_key(t: Seq<char>) -> Option<Seq<char>> {
    if has_prefix(t, KEY_LONG_EQ@) {
        Some(t.subrange(KEY_LONG_EQ@.len() as int, t.len() as int))
    } else if has_prefix(t, KEY_SHORT@) && t.len() > KEY_SHORT@.len() {
        Some(t.subrange(KEY_SHORT@.len() as int, t.len() as int))
    } else {
        None
    }
}

/// The arguments from `toks[i..]` on, with `st` parsed so far. Help and
/// version requests end the parse; so does what does not fit: an unknown
/// option, an option given twice, a key option without a path value, an
/// empty path, or a second directory.
pub open spec fn parse_from(toks: Seq<String>, i: int, st: ArgsModel) -> Result<
    ArgsModel,
    ArgsError,
>
    decreases toks.len() - i,
{
    if i < 0 || i >= toks.len() {
        Ok(st)
    } else {
        let t = toks[i]@;
        if is_help_flag(t) {
            Err(ArgsError::Help)
        } else if is_version_flag(t) {
            Err(ArgsError::Version)
        } else if is_verbose_flag(t) {
            if st.0 {
                Err(ArgsError::Usage)
            } else {
                parse_from(toks, i + 1, (true, st.1, st.2))
            }
        } else if is_key_flag(t) {
            if i + 1 < toks.len() && st.1 is None && is_value(toks[i + 1]@) {
                parse_from(toks, i + 2, (st.0, Some(toks[i + 1]@), st.2))
            } else {
                Err(ArgsError::Usage)
            }
        } else if attached_key(t) is Some {
            if st.1 is None && attached_key(t)->0.len() > 0 {
                parse_from(toks, i + 1, (st.0, attached_key(t), st.2))
            } else {
                Err(ArgsError::Usage)
            }
        } else if looks_like_flag(t) {
            Err(ArgsError::Usage)
        } else if st.2 is None && t.len() > 0 {
            parse_from(toks, i + 1, (st.0, st.1, Some(t)))
        } else {
            Err(ArgsError::Usage)
        }
    }
}

/// The arguments that follow the program's name, parsed.
pub open spec fn parse_args(toks: Seq<String>) -> Result<ArgsModel, ArgsError> {
    parse_from(toks, 0, (false, None, None))
}

fn looks_like_flag_exec(t: &str) -> (r: bool)
    ensures
        r == looks_like_flag(t@),
{
    t.unicode_len() > 1 && t.get_char(0) == '-'
}

fn attached_key_exec(t: &str) -> (r: Option<String>)
    ensures
        opt_view(r) == attached_key(t@),
{
    let n = t.unicode_len();
    if starts_with(t, KEY_LONG_EQ) {
        Some(t.substring_char(KEY_LONG_EQ.unicode_len(), n).to_owned())
    } else if starts_with(t, KEY_SHORT) && n > KEY_SHORT.unicode_len() {
        Some(t.substring_char(KEY_SHORT.unicode_len(), n).to_owned())
    } else {
        None
    }
}

/// Parses the arguments that follow the program's name.
pub fn get_args(argv: &Vec<String>) -> (r: Result<Args, ArgsError>)
    ensures
        match r {
            Ok(a) => parse_args(argv@) == Ok::<ArgsModel, ArgsError>(args_view(a)),
            Err(e) => parse_args(argv@) == Err::<ArgsModel, ArgsError>(e),
        },
{
    let mut verbose = false;
    let mut key: Option<String> = None;
    let mut dir: Option<String> = None;
    let mut i: usize = 0;
    while i < argv.len()
        invariant
            0 <= i <= argv@.len(),
            parse_args(argv@) == parse_from(argv@, i as int, (verbose, opt_view(key), opt_view(dir))),
        decreases argv@.len() - i,
    {
        let tok = argv[i].as_str();
        if str_eq(tok, "-h") || str_eq(tok, "--help") {
            return Err(ArgsError::Help);
        } else if str_eq(tok, "-V") || str_eq(tok, "--version") {
            return Err(ArgsError::Version);
        } else if str_eq(tok, "-a") || str_eq(tok, "--verbose") {
            if verbose {
                return Err(ArgsError::Usage);
            }
            verbose = true;
            i = i + 1;
        } else if str_eq(tok, KEY_SHORT) || str_eq(tok, "--ssh-private-key") {
            if i + 1 < argv.len() && key.is_none() && argv[i + 1].as_str().unicode_len() > 0
                && !looks_like_flag_exec(argv[i + 1].as_str()) {
                key = Some(argv[i + 1].clone());
                i = i + 2;
            } else {
                return Err(ArgsError::Usage);
            }
        } else {
            let attached = attached_key_exec(tok);
            match attached {
                Some(k) => {
                    if key.is_none() && k.as_str().unicode_len() > 0 {
                        key = Some(k);
                        i = i + 1;
                    } else {
                        return Err(ArgsError::Usage);
                    }
                },
                None => {
                    if looks_like_flag_exec(tok) {
                        return Err(ArgsError::Usage);
                    } else if dir.is_none() && tok.unicode_len() > 0 {
                        dir = Some(argv[i].clone());
                        i = i + 1;
                    } else {
                        return Err(ArgsError::Usage);
                    }
                },
            }
        }
    }
    Ok(Args { verbose, ssh_private_key: key, repos_directory: dir })
}

} // verus!
