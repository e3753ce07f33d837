use vstd::prelude::*;
use vstd::utf8::{decode_utf8, valid_utf8};
use crate::error::Error;
use crate::item::{parse_item, spec_item_of_json, OpItem};
use crate::json::json_of;
use crate::run::CmdOutput;
use crate::strutil::bytes_to_string;
use crate::tool::Op;

verus! {

/// A tool handle bound to one session token, able to look items up.
#[derive(Debug, Clone, PartialEq, Eq)]
pub struct OpSession {
    pub config: Op,
    pub session: String,
}

impl OpSession {
    /// The argument list of the item lookup for one identifier.
    pub fn get_item_args(&self, uuid: &str) -> (args: Vec<String>)
        ensures
            args@.len() == 5,
            args@[0]@ == "get"@,
            args@[1]@ == "item"@,
            args@[2]@ == "--session"@,
            args@[3]@ == self.session@,
            args@[4]@ == uuid@,
    {
        let mut args: Vec<String> = Vec::new();
        args.push("get".to_owned());
        args.push("item".to_owned());
        args.push("--session".to_owned());
        args.push(self.session.clone());
        args.push(uuid.to_owned());
        args
    }

    /// Reads the item lookup's result from the captured output of the
    /// subprocess: on a successful exit, the item parsed from standard
    /// output; on any other exit, the lookup error carrying the identifier,
    /// the decoded standard error and the raw exit status.
    pub fn get_item_output(&self, uuid: &str, output: CmdOutput) -> (r: Result<OpItem, Error>)
        ensures
            output.status.code == Some(0i32) ==> match json_of(output.stdout@) {
                None => r matches Err(e) && e matches Error::JsonParse(_),
                Some(j) => match spec_item_of_json(j) {
                    Some(iv) => r matches Ok(item) && item@ == iv,
                    None => r == Err::<OpItem, Error>(Error::InvalidItem),
                },
            },
            output.status.code != Some(0i32) ==> if valid_utf8(output.stderr@) {
                r matches Err(e) && e matches Error::GetCommand { uuid: u, stderr, status }
                    && u@ == uuid@ && stderr@ == decode_utf8(output.stderr@) && status
                    == output.status
            } else {
                r == Err::<OpItem, Error>(Error::OutputNotUtf8)
            },
    {
        let CmdOutput { status, stdout, stderr } = output;
        if status.success() {
            parse_item(stdout.as_slice())
        } else {
            match bytes_to_string(stderr) {
                Some(se) => Err(
                    Error::GetCommand { uuid: uuid.to_owned(), stderr: se, status },
                ),
                None => Err(Error::OutputNotUtf8),
            }
        }
    }
}

} // verus!
