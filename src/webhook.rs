use crate::dispatch::{dispatch, replies_for, replies_view, ReplyInstruction};
use crate::envelope::{decode, decoded, DecodeError};
use crate::signature::{signature_valid, verify};
use vstd::prelude::*;
use vstd::string::StringSliceAdditionalSpecFns;

verus! {

/// Why a webhook call was refused.
#[derive(Debug, Clone, Copy, PartialEq, Eq)]
pub enum WebhookError {
    /// The signature header does not match the body under the channel secret.
    SignatureInvalid,
    /// The body is not a well-formed envelope.
    Malformed,
}

/// Why a channel configuration could not be made.
#[derive(Debug, Clone, Copy, PartialEq, Eq)]
pub enum ConfigError {
    MissingSecret,
    MissingAccessToken,
}

/// The channel's shared secret and access token, both present.
pub struct ChannelConfig {
    secret: String,
    access_token: String,
}

impl ChannelConfig {
    pub closed spec fn secret_view(&self) -> Seq<char> {
        self.secret@
    }

    pub closed spec fn access_token_view(&self) -> Seq<char> {
        self.access_token@
    }

    pub open spec fn wf(&self) -> bool {
        self.secret_view().len() > 0 && self.access_token_view().len() > 0
    }

    /// Takes the two configured values; an empty one is a configuration error.
    pub fn new(secret: String, access_token: String) -> (r: Result<ChannelConfig, ConfigError>)
        ensures
            secret@.len() == 0 ==> r == Err::<ChannelConfig, ConfigError>(ConfigError::MissingSecret),
            secret@.len() > 0 && access_token@.len() == 0 ==> r == Err::<ChannelConfig, ConfigError>(
                ConfigError::MissingAccessToken,
            ),
            secret@.len() > 0 && access_token@.len() > 0 ==> (r matches Ok(c) && c.wf()
                && c.secret_view() == secret@ && c.access_token_view() == access_token@),
    {
        if secret.as_str().is_empty() {
            Err(ConfigError::MissingSecret)
        } else if access_token.as_str().is_empty() {
            Err(ConfigError::MissingAccessToken)
        } else {
            Ok(ChannelConfig { secret, access_token })
        }
    }

    pub fn secret(&self) -> (r: &str)
        ensures
            r@ == self.secret_view(),
    {
        self.secret.as_str()
    }

    pub fn access_token(&self) -> (r: &str)
        ensures
            r@ == self.access_token_view(),
    {
        self.access_token.as_str()
    }
}

/// Handles one webhook call: checks the signature, then decodes the body,
/// then picks the replies to send. Nothing is decoded when the signature fails.
pub fn handle(secret: &str, signature: &str, body: &[u8]) -> (r: Result<
    Vec<ReplyInstruction>,
    WebhookError,
>)
    ensures
        !signature_valid(secret.spec_bytes(), signature@, body@) ==> r == Err::<
            Vec<ReplyInstruction>,
            WebhookError,
        >(WebhookError::SignatureInvalid),
        signature_valid(secret.spec_bytes(), signature@, body@) && decoded(body@) is None ==> r
            == Err::<Vec<ReplyInstruction>, WebhookError>(WebhookError::Malformed),
        signature_valid(secret.spec_bytes(), signature@, body@) && decoded(body@) is Some ==> (r
            matches Ok(replies) && replies_view(replies@) == replies_for(
            decoded(body@)->Some_0.events,
        )),
{
    if !verify(secret, signature, body) {
        return Err(WebhookError::SignatureInvalid);
    }
    match decode(body) {
        Ok(envelope) => Ok(dispatch(&envelope)),
        Err(DecodeError::Malformed) => Err(WebhookError::Malformed),
    }
}

/// The HTTP status for the outcome of a call: 200 when it was accepted,
/// whatever becomes of the replies, and 400 for a refused call.
pub fn status_code(outcome: &Result<Vec<ReplyInstruction>, WebhookError>) -> (r: u16)
    ensures
        outcome is Ok ==> r == 200,
        outcome is Err ==> r == 400,
{
    match outcome {
        Ok(_) => 200,
        Err(_) => 400,
    }
}

} // verus!
