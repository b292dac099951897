use vstd::prelude::*;
use vstd::utf8::{decode_utf8, valid_utf8};
use crate::error::{fails_with, SvnError};
use crate::text::views;

verus! {

/// The name of the external tool, looked up on the search path.
pub const PROGRAM: &'static str = "svn";

/// The message that every commit is made with.
pub const COMMIT_MESSAGE: &'static str = "\"Committed changes\"";

/// What a finished run of the tool left: whether its exit status was zero,
/// and the bytes it wrote to standard output and standard error.
pub struct CommandOutput {
    pub success: bool,
    pub stdout: Vec<u8>,
    pub stderr: Vec<u8>,
}

/// The text that `String::from_utf8_lossy` makes of the bytes `b`.
pub uninterp spec fn lossy_text(b: Seq<u8>) -> Seq<char>;

/// Relies on `String::from_utf8_lossy`: decodes UTF-8, putting a replacement
/// character for each invalid sequence; bytes that are valid UTF-8 decode
/// unchanged.
#[verifier::external_body]
fn decode_lossy(b: &Vec<u8>) -> (r: String)
    ensures
        r@ == lossy_text(b@),
        valid_utf8(b@) ==> r@ == decode_utf8(b@),
{
    String::from_utf8_lossy(b.as_slice()).into_owned()
}

impl CommandOutput {
    /// The run as a result: on a zero exit status its standard output as
    /// text, else a failure that carries its standard error as text.
    pub fn checked(&self) -> (r: Result<String, SvnError>)
        ensures
            self.success ==> r is Ok && r->Ok_0@ == lossy_text(self.stdout@),
            !self.success ==> r is Err && fails_with(r->Err_0, lossy_text(self.stderr@)),
    {
        if self.success {
            Ok(decode_lossy(&self.stdout))
        } else {
            Err(SvnError::CommandFailed(decode_lossy(&self.stderr)))
        }
    }
}

/// Builds the command lines of the tool's operations.
pub struct SvnWrapper {}

impl SvnWrapper {
    pub fn new() -> (r: SvnWrapper) {
        SvnWrapper {  }
    }

    /// `commit -m <message> <path>`.
    pub fn commit_args(&self, path: &str) -> (r: Vec<String>)
        ensures
            views(r@) == seq!["commit"@, "-m"@, COMMIT_MESSAGE@, path@],
    {
        let r = vec![
            String::from_str("commit"),
            String::from_str("-m"),
            String::from_str(COMMIT_MESSAGE),
            path.to_owned(),
        ];
        assert(views(r@) =~= seq!["commit"@, "-m"@, COMMIT_MESSAGE@, path@]);
        r
    }

    /// `checkout <url> <path>`.
    pub fn checkout_args(&self, url: &str, path: &str) -> (r: Vec<String>)
        ensures
            views(r@) == seq!["checkout"@, url@, path@],
    {
        let r = vec![String::from_str("checkout"), url.to_owned(), path.to_owned()];
        assert(views(r@) =~= seq!["checkout"@, url@, path@]);
        r
    }

    /// `update <path>`.
    pub fn update_args(&self, path: &str) -> (r: Vec<String>)
        ensures
            views(r@) == seq!["update"@, path@],
    {
        let r = vec![String::from_str("update"), path.to_owned()];
        assert(views(r@) =~= seq!["update"@, path@]);
        r
    }

    /// `log <path>`.
    pub fn log_args(&self, path: &str) -> (r: Vec<String>)
        ensures
            views(r@) == seq!["log"@, path@],
    {
        let r = vec![String::from_str("log"), path.to_owned()];
        assert(views(r@) =~= seq!["log"@, path@]);
        r
    }

    /// `info <path>`.
    pub fn info_args(&self, path: &str) -> (r: Vec<String>)
        ensures
            views(r@) == seq!["info"@, path@],
    {
        let r = vec![String::from_str("info"), path.to_owned()];
        assert(views(r@) =~= seq!["info"@, path@]);
        r
    }

    /// `status --show-updates <path>`.
    pub fn status_args(&self, path: &str) -> (r: Vec<String>)
        ensures
            views(r@) == seq!["status"@, "--show-updates"@, path@],
    {
        let r = vec![String::from_str("status"), String::from_str("--show-updates"), path.to_owned()];
        assert(views(r@) =~= seq!["status"@, "--show-updates"@, path@]);
        r
    }

    /// `--version`.
    pub fn version_args(&self) -> (r: Vec<String>)
        ensures
            views(r@) == seq!["--version"@],
    {
        let r = vec![String::from_str("--version")];
        assert(views(r@) =~= seq!["--version"@]);
        r
    }

    /// How a run of `commit`, `checkout` or `update` ended: success on a zero
    /// exit status, else a failure that carries the standard error.
    pub fn finish(&self, output: &CommandOutput) -> (r: Result<(), SvnError>)
        ensures
            r is Ok <==> output.success,
            !output.success ==> fails_with(r->Err_0, lossy_text(output.stderr@)),
    {
        match output.checked() {
            Ok(_) => Ok(()),
            Err(e) => Err(e),
        }
    }

    /// How a run of `log` ended: its standard output as text on a zero exit
    /// status, else a failure that carries the standard error.
    pub fn log(&self, output: &CommandOutput) -> (r: Result<String, SvnError>)
        ensures
            output.success ==> r is Ok && r->Ok_0@ == lossy_text(output.stdout@),
            !output.success ==> r is Err && fails_with(r->Err_0, lossy_text(output.stderr@)),
    {
        output.checked()
    }
}

} // verus!
