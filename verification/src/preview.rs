//! Decision logic of the renderer bridge. The renderer is an external tool:
//! the caller locates its project root, runs it, and hands the captured
//! outcome back in; this module computes the arguments and paths, and turns
//! the outcome into the result the GUI sees — the preview image encoded as
//! base64 text.

use vstd::prelude::*;

use crate::errors::WsError;
use vstd::string::StringExecFns;

verus! {

/// Where the preview image is written, inside the workspace.
pub fn preview_output_path(workspace_dir: &str) -> (r: String)
    ensures
        r@ == workspace_dir@ + "/preview.png"@,
{
    let mut p: String = workspace_dir.to_owned();
    p.append("/preview.png");
    p
}

/// The marker file whose presence identifies the renderer's project root.
pub fn renderer_root_marker() -> (r: String)
    ensures
        r@ == "pyproject.toml"@,
{
    String::from_str("pyproject.toml")
}

/// The argument list the renderer is invoked with: its subcommand, the
/// workspace directory, and the explicit output path.
pub fn preview_args(workspace_dir: &str, preview_path: &str) -> (r: Vec<String>)
    ensures
        r@.len() == 6,
        r@[0]@ == "run"@,
        r@[1]@ == "serial-stamp"@,
        r@[2]@ == "preview"@,
        r@[3]@ == workspace_dir@,
        r@[4]@ == "-o"@,
        r@[5]@ == preview_path@,
{
    let mut args: Vec<String> = Vec::new();
    args.push(String::from_str("run"));
    args.push(String::from_str("serial-stamp"));
    args.push(String::from_str("preview"));
    args.push(workspace_dir.to_owned());
    args.push(String::from_str("-o"));
    args.push(preview_path.to_owned());
    args
}

/// What the base64 encoder prints for given bytes: the standard alphabet,
/// with padding. A function of the bytes alone.
pub uninterp spec fn base64_of(bytes: Seq<u8>) -> Seq<char>;

/// Relies on `base64`'s `STANDARD` engine: encodes the bytes with the
/// standard alphabet and padding; deterministic in the bytes alone, and
/// empty input encodes to empty text.
#[verifier::external_body]
fn base64_encode(bytes: &Vec<u8>) -> (r: String)
    ensures
        r@ == base64_of(bytes@),
        bytes@.len() == 0 ==> r@.len() == 0,
{
    base64::Engine::encode(&base64::engine::general_purpose::STANDARD, bytes)
}

/// Turn a finished renderer run into the caller's result. A non-zero exit
/// fails with the captured output; an exit without the promised image file
/// fails distinctly; a produced image comes back base64-encoded.
pub fn preview_outcome(status_ok: bool, stdout: String, stderr: String, image: Option<Vec<u8>>)
    -> (r: Result<String, WsError>)
    ensures
        r is Ok <==> status_ok && image is Some,
        status_ok && image is Some ==> r->Ok_0@ == base64_of(image->0@),
        !status_ok ==> r is Err && r->Err_0 is Renderer && r->Err_0->Renderer_0@
            == "Preview generation failed.\nStdout: "@ + stdout@ + "\nStderr: "@ + stderr@,
        status_ok && image is None ==> r is Err && r->Err_0 is Renderer
            && r->Err_0->Renderer_0@ == "Preview file was not created"@,
{
    if !status_ok {
        let mut msg = String::from_str("Preview generation failed.\nStdout: ");
        msg.append(stdout.as_str());
        msg.append("\nStderr: ");
        msg.append(stderr.as_str());
        return Err(WsError::Renderer(msg));
    }
    match image {
        Some(bytes) => Ok(base64_encode(&bytes)),
        None => Err(WsError::Renderer(String::from_str("Preview file was not created"))),
    }
}

} // verus!
