//! From what the environment holds under the variable to the endpoint, or
//! to the reason why there is none.

use crate::endpoint::{parse_url, parsed_has_host, parsed_url, RpcUrl};
use crate::error::{lemma_messages_differ, RpcUrlError};
use vstd::prelude::*;

verus! {

/// The name of the environment variable that holds the endpoint.
pub const ETH_RPC_URL: &'static str = "ETH_RPC_URL";

/// What the environment holds under the variable.
#[derive(Debug, Clone, Copy, PartialEq, Eq)]
pub enum EnvValue<'a> {
    /// The variable is not set.
    Unset,
    /// The variable is set, to what is no Unicode text.
    NotUnicode,
    /// The variable is set, to this text.
    Text(&'a str),
}

/// What is owed for a value that is text: the serialization of the URL that
/// the parser reads from it, where it reads one and that has a host.
pub open spec fn resolved_text(text: Seq<char>) -> Result<Seq<char>, RpcUrlError> {
    match parsed_url(text) {
        Some(url) => if parsed_has_host(text) {
            Ok(url)
        } else {
            Err(RpcUrlError::Invalid)
        },
        None => Err(RpcUrlError::Invalid),
    }
}

/// What is owed for what the environment holds, a URL given by its
/// serialization.
pub open spec fn resolved<'a>(value: EnvValue<'a>) -> Result<Seq<char>, RpcUrlError> {
    match value {
        EnvValue::Unset => Err(RpcUrlError::NotSet),
        EnvValue::NotUnicode => Err(RpcUrlError::Invalid),
        EnvValue::Text(text) => resolved_text(text@),
    }
}

/// An outcome with the URL given by its serialization.
pub open spec fn outcome_text(outcome: Result<RpcUrl, RpcUrlError>) -> Result<Seq<char>, RpcUrlError> {
    match outcome {
        Ok(url) => Ok(url@),
        Err(error) => Err(error),
    }
}

/// The outcome for a value that is text, from what the parser made of it:
/// an endpoint is a URL with a host.
pub fn accept(parsed: Option<RpcUrl>) -> (r: Result<RpcUrl, RpcUrlError>)
    ensures
        r == match parsed {
            Some(url) => if url.host_known() {
                Ok::<RpcUrl, RpcUrlError>(url)
            } else {
                Err::<RpcUrl, RpcUrlError>(RpcUrlError::Invalid)
            },
            None => Err::<RpcUrl, RpcUrlError>(RpcUrlError::Invalid),
        },
{
    match parsed {
        Some(url) => if url.has_host() {
            Ok(url)
        } else {
            Err(RpcUrlError::Invalid)
        },
        None => Err(RpcUrlError::Invalid),
    }
}

/// The endpoint for what the environment holds under the variable. No value
/// is made up: a variable that is not set is reported as such, and so is
/// nothing else; a value that is no text, no URL, or a URL without a host is
/// invalid; any other gives the URL that the parser read from it.
pub fn rpc_url<'a>(value: EnvValue<'a>) -> (r: Result<RpcUrl, RpcUrlError>)
    ensures
        outcome_text(r) == resolved(value),
        value is Unset <==> r == Err::<RpcUrl, RpcUrlError>(RpcUrlError::NotSet),
        r matches Ok(url) ==> url.host_known(),
{
    match value {
        EnvValue::Unset => Err(RpcUrlError::NotSet),
        EnvValue::NotUnicode => Err(RpcUrlError::Invalid),
        EnvValue::Text(text) => accept(parse_url(text)),
    }
}

/// A value that is set and gives no endpoint is reported as invalid, and in
/// other words than a variable that is not set.
pub proof fn lemma_invalid_is_told_apart<'a>(value: EnvValue<'a>)
    requires
        value !is Unset,
        resolved(value) is Err,
    ensures
        resolved(value) == Err::<Seq<char>, RpcUrlError>(RpcUrlError::Invalid),
        resolved(value) != resolved(EnvValue::Unset),
        RpcUrlError::Invalid.message_text() != RpcUrlError::NotSet.message_text(),
{
    lemma_messages_differ(RpcUrlError::Invalid, RpcUrlError::NotSet);
}

/// A text that is no URL, or a URL without a host, is invalid.
pub proof fn lemma_text_without_host_is_invalid(text: Seq<char>)
    requires
        parsed_url(text) is None || !parsed_has_host(text),
    ensures
        resolved_text(text) == Err::<Seq<char>, RpcUrlError>(RpcUrlError::Invalid),
{
}

/// An endpoint's serialization, set as the variable's value, gives that
/// endpoint again, wherever the parser reads the serialization as the URL
/// that it came from, host included. It does not always: from
/// `file://host//C:/geth.ipc` it reads `file://host/C:/geth.ipc`, and from
/// that `file:///C:/geth.ipc`, which has no host.
pub proof fn lemma_stable_text_resolves_to_itself(text: Seq<char>, url: Seq<char>)
    requires
        resolved_text(text) == Ok::<Seq<char>, RpcUrlError>(url),
        parsed_url(url) == Some(url),
        parsed_has_host(url),
    ensures
        resolved_text(url) == Ok::<Seq<char>, RpcUrlError>(url),
        resolved_text(url) == resolved_text(text),
{
}

} // verus!
