use vstd::prelude::*;
use vstd::string::StringExecFns;
use vstd::utf8::{decode_utf8, valid_utf8};
use crate::error::Error;
use crate::run::CmdOutput;
use crate::session::OpSession;
use crate::strutil::{bytes_to_string, starts_with_prefix, trim_of, trim_str};

verus! {

/// A handle on the external password-manager tool: the path of its binary.
#[derive(Debug, Clone, PartialEq, Eq)]
pub struct Op {
    pub command: String,
}

/// What one lookup of an environment variable found: the variable is absent,
/// present but not valid text, or present with its value.
#[derive(Debug, Clone, PartialEq, Eq)]
pub enum EnvLookup {
    Missing,
    NotUnicode,
    Present(String),
}

/// Whether a variable name starts with the session prefix.
pub open spec fn is_session_var_name(name: Seq<char>) -> bool {
    name.len() >= "OP_SESSION_"@.len() && name.subrange(0, "OP_SESSION_"@.len() as int)
        == "OP_SESSION_"@
}

/// The session variables among `vars`: the entries whose name starts with
/// the session prefix, in their given order.
pub open spec fn spec_session_vars(vars: Seq<(String, String)>) -> Seq<(String, String)> {
    vars.filter(|p: (String, String)| is_session_var_name(p.0@))
}

/// Relies on `which::which`: searches the process's executable search path
/// for a binary of the given name. The result depends on the environment and
/// the file system, so nothing is promised of it.
#[verifier::external_body]
fn which_lookup(name: &str) -> Option<String> {
    match which::which(name) {
        Ok(p) => Some(p.to_string_lossy().into_owned()),
        Err(_) => None,
    }
}

impl Op {
    /// Makes a handle from a caller-supplied path to the tool binary.
    /// Nothing is checked here; a bad path surfaces at the first invocation.
    pub fn new(command: &str) -> (r: Op)
        ensures
            r.command@ == command@,
    {
        Op { command: command.to_owned() }
    }

    /// Makes a handle from what a search for the tool binary found: a handle
    /// on the found path, or the missing-tool error when nothing was found.
    pub fn from_search(found: Option<String>) -> (r: Result<Op, Error>)
        ensures
            match found {
                Some(p) => r matches Ok(op) && op.command@ == p@,
                None => r == Err::<Op, Error>(Error::MissingOpCommand),
            },
    {
        match found {
            Some(p) => Ok(Op { command: p }),
            None => Err(Error::MissingOpCommand),
        }
    }

    /// Searches the process's executable search path for the `op` binary.
    /// What the search finds depends on the environment; failing to find
    /// anything is exactly the missing-tool error.
    pub fn which() -> (r: Result<Op, Error>)
        ensures
            r matches Err(e) ==> e == Error::MissingOpCommand,
    {
        Op::from_search(which_lookup("op"))
    }

    /// Path of the tool binary this handle uses.
    pub fn command(&self) -> (r: &str)
        ensures
            r@ == self.command@,
    {
        self.command.as_str()
    }

    /// The argument list of the version query.
    pub fn version_args(&self) -> (r: Vec<String>)
        ensures
            r@.len() == 1,
            r@[0]@ == "--version"@,
    {
        let mut args: Vec<String> = Vec::new();
        args.push("--version".to_owned());
        args
    }

    /// Reads the version from the captured output of the version query: the
    /// trimmed standard output. The tool reports its version with exit code
    /// 1, so exactly that code counts as success here; any other status is
    /// the version error carrying the decoded standard error and the status.
    pub fn version_from_output(&self, output: CmdOutput) -> (r: Result<String, Error>)
        ensures
            !valid_utf8(output.stdout@) ==> r == Err::<String, Error>(Error::OutputNotUtf8),
            valid_utf8(output.stdout@) && !valid_utf8(output.stderr@) ==> r == Err::<
                String,
                Error,
            >(Error::OutputNotUtf8),
            valid_utf8(output.stdout@) && valid_utf8(output.stderr@) ==> if output.status.code
                == Some(1i32) {
                r matches Ok(v) && v@ == trim_of(decode_utf8(output.stdout@))
            } else {
                r matches Err(e) && e matches Error::VersionCommand { stderr, status }
                    && stderr@ == decode_utf8(output.stderr@) && status == output.status
            },
    {
        let CmdOutput { status, stdout, stderr } = output;
        let out_text = match bytes_to_string(stdout) {
            Some(s) => s,
            None => {
                return Err(Error::OutputNotUtf8);
            },
        };
        let err_text = match bytes_to_string(stderr) {
            Some(s) => s,
            None => {
                return Err(Error::OutputNotUtf8);
            },
        };
        let code_is_one = match status.code {
            Some(c) => c == 1,
            None => false,
        };
        if code_is_one {
            Ok(trim_str(out_text.as_str()))
        } else {
            Err(Error::VersionCommand { stderr: err_text, status })
        }
    }

    /// Makes a session that uses the given session token.
    pub fn session(&self, session: &str) -> (r: OpSession)
        ensures
            r.config == *self,
            r.session@ == session@,
    {
        OpSession { config: Op { command: self.command.clone() }, session: session.to_owned() }
    }

    /// The name of the environment variable that holds the session token of
    /// one subdomain: the fixed prefix followed by the subdomain.
    pub fn session_var_name(subdomain: &str) -> (r: String)
        ensures
            r@ == "OP_SESSION_"@ + subdomain@,
    {
        let mut name: String = "OP_SESSION_".to_owned();
        name.append(subdomain);
        name
    }

    /// Makes a session from what the lookup of one subdomain's session
    /// variable found: its value when present, the missing-variable error
    /// when absent, the decoding error when it was not valid text.
    pub fn env_account_session(&self, lookup: EnvLookup) -> (r: Result<OpSession, Error>)
        ensures
            match lookup {
                EnvLookup::Missing => r == Err::<OpSession, Error>(Error::MissingSessionVariable),
                EnvLookup::NotUnicode => r == Err::<OpSession, Error>(Error::SessionVarNotUnicode),
                EnvLookup::Present(s) => r matches Ok(se) && se.config == *self && se.session@
                    == s@,
            },
    {
        match lookup {
            EnvLookup::Missing => Err(Error::MissingSessionVariable),
            EnvLookup::NotUnicode => Err(Error::SessionVarNotUnicode),
            EnvLookup::Present(s) => Ok(
                OpSession { config: Op { command: self.command.clone() }, session: s },
            ),
        }
    }

    /// Makes the session from the process's environment variables, given as
    /// name/value pairs in the environment's order: exactly one variable
    /// with the session prefix must be set, and its value is the token. Zero
    /// such variables is the missing-variable error; several is the
    /// ambiguity error carrying exactly their names, in order.
    pub fn env_session(&self, vars: Vec<(String, String)>) -> (r: Result<OpSession, Error>)
        ensures
            ({
                let m = spec_session_vars(vars@);
                &&& m.len() == 0 ==> r == Err::<OpSession, Error>(Error::MissingSessionVariable)
                &&& m.len() == 1 ==> (r matches Ok(se) && se.config == *self && se.session@
                    == m[0].1@)
                &&& m.len() >= 2 ==> (r matches Err(e)
                    && e matches Error::MultipleSessionVariables(names)
                    && names@.map_values(|n: String| n@) == m.map_values(
                    |p: (String, String)| p.0@,
                ))
            }),
    {
        let n: usize = vars.len();
        let mut found: Vec<(String, String)> = Vec::new();
        let mut i: usize = 0;
        proof {
            assert(vars@.take(0) =~= Seq::<(String, String)>::empty());
            reveal(Seq::filter);
        }
        while i < n
            invariant
                i <= n,
                n == vars@.len(),
                found@ == vars@.take(i as int).filter(
                    |p: (String, String)| is_session_var_name(p.0@),
                ),
            decreases n - i,
        {
            let keep = starts_with_prefix(vars[i].0.as_str(), "OP_SESSION_");
            proof {
                reveal(Seq::filter);
                assert(vars@.take(i as int + 1).drop_last() =~= vars@.take(i as int));
                assert(vars@.take(i as int + 1).last() == vars@[i as int]);
            }
            if keep {
                found.push((vars[i].0.clone(), vars[i].1.clone()));
                proof {
                    assert(found@.last() == vars@[i as int]);
                }
            }
            i = i + 1;
        }
        proof {
            assert(vars@.take(n as int) =~= vars@);
        }
        if found.len() == 0 {
            Err(Error::MissingSessionVariable)
        } else if found.len() == 1 {
            let session = found[0].1.clone();
            Ok(OpSession { config: Op { command: self.command.clone() }, session })
        } else {
            let m: usize = found.len();
            let mut names: Vec<String> = Vec::new();
            let mut j: usize = 0;
            while j < m
                invariant
                    j <= m,
                    m == found@.len(),
                    names@.len() == j,
                    forall|k: int| 0 <= k < j ==> #[trigger] names@[k]@ == found@[k].0@,
                decreases m - j,
            {
                names.push(found[j].0.clone());
                j = j + 1;
            }
            proof {
                assert(names@.map_values(|nm: String| nm@) =~= found@.map_values(
                    |p: (String, String)| p.0@,
                ));
            }
            Err(Error::MultipleSessionVariables(names))
        }
    }
}

} // verus!
