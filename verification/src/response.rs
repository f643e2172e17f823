//! What the agent sends back to a client.
use vstd::prelude::*;
use crate::text;

verus! {

/// A response to a client.
#[derive(Debug)]
pub enum Response {
    Ack,
    Error { error: String },
    Decrypt { plaintext: String },
    Encrypt { cipherstring: String },
    Version { version: u32 },
}

/// What came of storing a text in the clipboard.
#[derive(Debug)]
pub enum Clipboard {
    /// The agent was built without support for it.
    Unsupported,
    /// There is no clipboard to be had.
    Absent,
    /// The text was handed over, with the message of the error where that
    /// failed.
    Stored(Result<(), String>),
}

/// The response to the request to store a text in the clipboard, or the message
/// of its failure.
pub fn clipboard_store(outcome: Clipboard) -> (r: Result<Response, String>)
    ensures
        match outcome {
            Clipboard::Unsupported => {
                &&& r matches Ok(Response::Error { error })
                &&& error@ == "clipboard not supported"@
            },
            Clipboard::Absent => r == Ok::<Response, String>(Response::Ack),
            Clipboard::Stored(Ok(_)) => r == Ok::<Response, String>(Response::Ack),
            Clipboard::Stored(Err(cause)) => {
                &&& r matches Err(message)
                &&& message@ == "couldn't store value to clipboard: "@ + cause@
            },
        },
{
    match outcome {
        Clipboard::Unsupported => Ok(
            Response::Error { error: "clipboard not supported".to_owned() },
        ),
        Clipboard::Absent => Ok(Response::Ack),
        Clipboard::Stored(Ok(_)) => Ok(Response::Ack),
        Clipboard::Stored(Err(cause)) => Err(
            text::concat("couldn't store value to clipboard: ", cause.as_str()),
        ),
    }
}

/// The response to the question which version of the protocol is spoken.
pub fn version(protocol: u32) -> (r: Response)
    ensures
        r == (Response::Version { version: protocol }),
{
    Response::Version { version: protocol }
}

} // verus!
