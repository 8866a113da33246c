//! The text of what went wrong.

use vstd::prelude::*;

verus! {

/// The number of `PermissionDenied` among the status codes of gRPC.
pub open spec fn grpc_permission_denied() -> i32 {
    7
}

/// Whether a number stands for the status code `Unknown`, as every number without a code does.
pub open spec fn is_unknown_code(code: i32) -> bool {
    code < 0 || code > 16 || code == 2
}

/// What a status code means, in words.
pub open spec fn code_text(code: i32) -> Seq<char> {
    if is_unknown_code(code) {
        "Unknown error"@
    } else {
        seq![
            "The operation completed successfully"@,
            "The operation was cancelled"@,
            "Unknown error"@,
            "Client specified an invalid argument"@,
            "Deadline expired before operation could complete"@,
            "Some requested entity was not found"@,
            "Some entity that we attempted to create already exists"@,
            "The caller does not have permission to execute the specified operation"@,
            "Some resource has been exhausted"@,
            "The system is not in a state required for the operation's execution"@,
            "The operation was aborted"@,
            "Operation was attempted past the valid range"@,
            "Operation is not implemented or not supported"@,
            "Internal error"@,
            "The service is currently unavailable"@,
            "Unrecoverable data loss or corruption"@,
            "The request does not have valid authentication credentials"@,
        ][code as int]
    }
}

/// Calls `tonic::Code::from_i32` on the number and `description` on the code that it stands for.
///
/// Claimed: each number from 0 to 16 has the text that [`code_text`] lists, and all others have
/// that of `Unknown`.
#[verifier::external_body]
fn code_description(code: i32) -> (text: &'static str)
    ensures
        text@ == code_text(code),
{
    tonic::Code::from_i32(code).description()
}

/// Reads `re_error::DETAILS_SEPARATOR`.
///
/// Claimed: it is a line break and the word `Details:`.
#[verifier::external_body]
fn details_separator() -> (text: &'static str)
    ensures
        text@ == "\nDetails:"@,
{
    re_error::DETAILS_SEPARATOR
}

/// A status of gRPC that is an error.
#[derive(Clone, Debug, PartialEq, Eq)]
pub struct TonicStatusError {
    /// The number of the status code.
    pub code: i32,
    pub message: String,
    /// The metadata as text, where there is any.
    pub metadata: Option<String>,
}

/// A nicer text for an error: its message, its code unless that is unknown, and its metadata as
/// details.
pub open spec fn status_text(code: i32, message: Seq<char>, metadata: Option<Seq<char>>) -> Seq<
    char,
> {
    let head = if message.len() == 0 {
        "gRPC error"@
    } else {
        message
    };
    let with_code = if is_unknown_code(code) {
        head
    } else {
        head + " ("@ + code_text(code) + ")"@
    };
    match metadata {
        Some(metadata) => with_code + "\nDetails:"@ + " metadata: "@ + metadata,
        None => with_code,
    }
}

impl TonicStatusError {
    /// A refusal, for the reason `message`.
    pub fn permission_denied(message: &str) -> (status: TonicStatusError)
        ensures
            status.code == grpc_permission_denied(),
            status.message@ == message@,
            status.metadata is None,
    {
        TonicStatusError { code: 7, message: message.to_owned(), metadata: None }
    }

    /// See [`status_text`].
    pub fn fmt_tonic_status(&self) -> (text: String)
        ensures
            text@ == status_text(
                self.code,
                self.message@,
                crate::static_key::text(self.metadata),
            ),
    {
        let mut text: String = if self.message.as_str().is_empty() {
            "gRPC error".to_owned()
        } else {
            self.message.clone()
        };
        if self.code >= 0 && self.code <= 16 && self.code != 2 {
            text.append(" (");
            text.append(code_description(self.code));
            text.append(")");
        }
        if let Some(metadata) = &self.metadata {
            text.append(details_separator());
            text.append(" metadata: ");
            text.append(metadata.as_str());
        }
        text
    }
}

/// The text of an error begins with its message, or with words for one that has none, and holds the rest
/// in this order: what the code means, in brackets, if the code is known, and the metadata, as
/// details, if there is any.
pub proof fn error_texts_hold_all_that_is_known(
    code: i32,
    message: Seq<char>,
    metadata: Seq<char>,
)
    ensures
        is_unknown_code(code) <==> code == 2 || code < 0 || code >= 17,
        is_unknown_code(code) && message.len() > 0 ==> status_text(code, message, None) == message,
        is_unknown_code(code) ==> status_text(code, Seq::empty(), None) == "gRPC error"@,
        !is_unknown_code(code) ==> status_text(code, message, None) == status_text(2, message, None)
            + (" ("@ + code_text(code) + ")"@),
        status_text(code, message, Some(metadata)) == status_text(code, message, None)
            + ("\nDetails: metadata: "@ + metadata),
        grpc_permission_denied() == 7,
{
    reveal_strlit("\nDetails:");
    reveal_strlit(" metadata: ");
    reveal_strlit("\nDetails: metadata: ");
    let plain = status_text(2, message, None);
    assert(plain + " ("@ + code_text(code) + ")"@ =~= plain + (" ("@ + code_text(code) + ")"@));
    assert("\nDetails:"@ + " metadata: "@ =~= "\nDetails: metadata: "@);
    let short = status_text(code, message, None);
    assert(short + "\nDetails:"@ + " metadata: "@ + metadata =~= short + ("\nDetails: metadata: "@
        + metadata));
}

} // verus!
