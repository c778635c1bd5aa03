//! `/tokensaver <key>` in the background: verify the key with the portal, then store it.
use vstd::prelude::*;

use crate::app::{outcome, TokensaverCommandPayload};
use crate::credentials::Credentials;
use crate::json::{json_object_members, sure_members};
use crate::portal::{
    activate_endpoint, answer, answer_text, describe_post_failure, endpoint,
    interpret_activate_response, no_answer, override_text, portal_url, portal_url_from,
    ActivateRequest, PostFailure,
};
use crate::redact::{
    mask_key, mask_overlaps, masked, occurs, scrub_goes_piece_by_piece, scrub_leaves_other_text,
    scrub_removes_the_secret, scrub_secret, scrubbed,
};

verus! {

/// How far an activation has come. The texts are `String`s, and `Seq<char>`s in the view.
#[derive(Debug, PartialEq, Eq)]
pub enum ActivationProgress<T = String> {
    /// The user gave `key`; `portal_override` is what the environment says of the portal.
    Start { key: T, portal_override: Option<T> },
    /// The request was sent: the status and the body of the answer, or why there is none.
    Replied { key: T, portal_url: T, reply: Result<(u16, T), PostFailure<T>> },
    /// The verified key was to be stored in the file `path`.
    Stored { key: T, greeting: T, path: T, result: Result<(), T> },
}

impl ActivationProgress<Seq<char>> {
    /// The key that is activated.
    pub open spec fn the_key(self) -> Seq<char> {
        match self {
            ActivationProgress::Start { key, portal_override } => key,
            ActivationProgress::Replied { key, portal_url, reply } => key,
            ActivationProgress::Stored { key, greeting, path, result } => key,
        }
    }
}

/// What an activation does next.
#[derive(Debug, PartialEq, Eq)]
pub enum ActivationStep<T = String> {
    /// Send `request` to the portal at `portal_url`.
    Post { key: T, portal_url: T, request: ActivateRequest<T> },
    /// Store `credentials`.
    Store { key: T, greeting: T, credentials: Credentials<T> },
    /// Report the result.
    Finish(Result<TokensaverCommandPayload<T>, T>),
}

impl View for ActivationProgress<String> {
    type V = ActivationProgress<Seq<char>>;

    open spec fn view(&self) -> ActivationProgress<Seq<char>> {
        match *self {
            ActivationProgress::Start { key, portal_override } => ActivationProgress::Start {
                key: key@,
                portal_override: override_text(portal_override),
            },
            ActivationProgress::Replied { key, portal_url, reply } => ActivationProgress::Replied {
                key: key@,
                portal_url: portal_url@,
                reply: match reply {
                    Ok((status, body)) => Ok((status, body@)),
                    Err(failure) => Err(failure@),
                },
            },
            ActivationProgress::Stored { key, greeting, path, result } => ActivationProgress::Stored {
                key: key@,
                greeting: greeting@,
                path: path@,
                result: match result {
                    Ok(()) => Ok(()),
                    Err(error) => Err(error@),
                },
            },
        }
    }
}

impl View for ActivationStep<String> {
    type V = ActivationStep<Seq<char>>;

    open spec fn view(&self) -> ActivationStep<Seq<char>> {
        match *self {
            ActivationStep::Post { key, portal_url, request } => ActivationStep::Post {
                key: key@,
                portal_url: portal_url@,
                request: request@,
            },
            ActivationStep::Store { key, greeting, credentials } => ActivationStep::Store {
                key: key@,
                greeting: greeting@,
                credentials: credentials@,
            },
            ActivationStep::Finish(result) => ActivationStep::Finish(outcome(result)),
        }
    }
}

/// The step after the portal at `url` gave its answer on `key`: a greeting or an error message.
pub open spec fn answered(
    key: Seq<char>,
    url: Seq<char>,
    answer: Result<Seq<char>, Seq<char>>,
) -> ActivationStep<Seq<char>> {
    match answer {
        Ok(greeting) => ActivationStep::Store {
            key,
            greeting,
            credentials: Credentials { portal_url: url, device_token: key },
        },
        Err(error) => ActivationStep::Finish(
            Err(scrubbed("Token Saver activation failed: "@ + error, key)),
        ),
    }
}

/// The report on a key that was verified and then stored in the file `path`, or not.
pub open spec fn stored(
    key: Seq<char>,
    greeting: Seq<char>,
    path: Seq<char>,
    result: Result<(), Seq<char>>,
) -> Result<TokensaverCommandPayload<Seq<char>>, Seq<char>> {
    match result {
        Ok(()) => Ok(
            TokensaverCommandPayload {
                message: scrubbed(
                    greeting + "\n\nKey "@ + masked(key) + " stored in "@ + path + "."@,
                    key,
                ),
                notice: "Token Saver activated"@,
            },
        ),
        Err(error) => Err(
            scrubbed(
                "Key verified, but storing credentials in "@ + path + " failed: "@ + error,
                key,
            ),
        ),
    }
}

/// The step that an activation takes from each point of its way.
pub open spec fn activation_step(progress: ActivationProgress<Seq<char>>) -> ActivationStep<
    Seq<char>,
> {
    match progress {
        ActivationProgress::Start { key, portal_override } => ActivationStep::Post {
            key,
            portal_url: portal_url(portal_override),
            request: ActivateRequest { url: endpoint(portal_url(portal_override)), bearer: key },
        },
        ActivationProgress::Replied { key, portal_url, reply } => match reply {
            Ok((status, body)) => answered(
                key,
                portal_url,
                answer(status, body, json_object_members(body)),
            ),
            Err(failure) => ActivationStep::Finish(Err(scrubbed(no_answer(portal_url, failure), key))),
        },
        ActivationProgress::Stored { key, greeting, path, result } => ActivationStep::Finish(
            stored(key, greeting, path, result),
        ),
    }
}

/// Decides the step after the portal gave its answer on `key`.
pub fn activation_answered(key: String, portal_url: String, answer: Result<String, String>) -> (r:
    ActivationStep)
    ensures
        r@ == answered(key@, portal_url@, answer_text(answer)),
{
    match answer {
        Ok(greeting) => {
            let device_token = key.clone();
            ActivationStep::Store {
                key,
                greeting,
                credentials: Credentials { portal_url, device_token },
            }
        },
        Err(error) => {
            let mut message: String = "Token Saver activation failed: ".to_owned();
            message.append(error.as_str());
            ActivationStep::Finish(Err(scrub_secret(message.as_str(), key.as_str())))
        },
    }
}

/// Reports on a verified key that was stored in the file `path`, or not.
pub fn activation_stored(key: &str, greeting: &str, path: &str, result: Result<(), String>) -> (r:
    Result<TokensaverCommandPayload, String>)
    ensures
        outcome(r) == stored(
            key@,
            greeting@,
            path@,
            match result {
                Ok(()) => Ok(()),
                Err(error) => Err(error@),
            },
        ),
{
    match result {
        Ok(()) => {
            let mut message: String = greeting.to_owned();
            message.append("\n\nKey ");
            message.append(mask_key(key).as_str());
            message.append(" stored in ");
            message.append(path);
            message.append(".");
            Ok(
                TokensaverCommandPayload {
                    message: scrub_secret(message.as_str(), key),
                    notice: "Token Saver activated".to_owned(),
                },
            )
        },
        Err(error) => {
            let mut message: String = "Key verified, but storing credentials in ".to_owned();
            message.append(path);
            message.append(" failed: ");
            message.append(error.as_str());
            Err(scrub_secret(message.as_str(), key))
        },
    }
}

/// Decides the next step of an activation. The portal is asked first, so that a key that it rejects
/// is never stored.
pub fn run_tokensaver_activation(progress: ActivationProgress) -> (r: ActivationStep)
    ensures
        r@ == activation_step(progress@),
        progress@ matches ActivationProgress::Replied { key, portal_url, reply: Ok((status, body)) }
            ==> sure_members(body, json_object_members(body)),
{
    match progress {
        ActivationProgress::Start { key, portal_override } => {
            let portal_url = portal_url_from(portal_override);
            let request = ActivateRequest {
                url: activate_endpoint(portal_url.as_str()),
                bearer: key.clone(),
            };
            ActivationStep::Post { key, portal_url, request }
        },
        ActivationProgress::Replied { key, portal_url, reply } => match reply {
            Ok((status, body)) => {
                let answer = interpret_activate_response(status, body.as_str());
                activation_answered(key, portal_url, answer)
            },
            Err(failure) => {
                let message = describe_post_failure(portal_url.as_str(), &failure);
                ActivationStep::Finish(Err(scrub_secret(message.as_str(), key.as_str())))
            },
        },
        ActivationProgress::Stored { key, greeting, path, result } => ActivationStep::Finish(
            activation_stored(key.as_str(), greeting.as_str(), path.as_str(), result),
        ),
    }
}

/// Nothing is stored but after an answer of the portal with a status of success.
pub proof fn only_a_verified_key_is_stored(progress: ActivationProgress<Seq<char>>)
    ensures
        activation_step(progress) is Store <==> {
            progress matches ActivationProgress::Replied { key, portal_url, reply: Ok((status, body)) }
                && 200 <= status < 300
        },
{
}

/// What is stored is the key that the user gave and the portal that verified it: the request went to
/// that portal and carried that key.
pub proof fn what_was_verified_is_stored(
    key: Seq<char>,
    portal_override: Option<Seq<char>>,
    status: u16,
    body: Seq<char>,
)
    requires
        200 <= status < 300,
    ensures
        activation_step(
            ActivationProgress::Start { key, portal_override },
        ) matches ActivationStep::Post { key: k, portal_url: url, request } && {
            &&& request.url == endpoint(url)
            &&& request.bearer == key
            &&& activation_step(
                ActivationProgress::Replied { key: k, portal_url: url, reply: Ok((status, body)) },
            ) matches ActivationStep::Store { key: s, greeting, credentials } && {
                &&& s == key
                &&& credentials == (Credentials { portal_url: url, device_token: key })
            }
        },
{
}

/// No message of an activation holds the key, unless the mask of the key overlaps the key.
pub proof fn no_message_holds_the_key(progress: ActivationProgress<Seq<char>>)
    requires
        progress.the_key().len() > 0,
        !mask_overlaps(progress.the_key()),
    ensures
        match activation_step(progress) {
            ActivationStep::Finish(Ok(payload)) => !occurs(payload.message, progress.the_key()),
            ActivationStep::Finish(Err(message)) => !occurs(message, progress.the_key()),
            _ => true,
        },
{
    let key = progress.the_key();
    assert forall|text: Seq<char>| !occurs(#[trigger] scrubbed(text, key), key) by {
        scrub_removes_the_secret(text, key);
    }
}

/// The views of the way and of the steps of an activation hold just the texts.
pub proof fn views_hold_the_texts(progress: ActivationProgress, step: ActivationStep)
    ensures
        match progress {
            ActivationProgress::Start { key, portal_override } => progress@
                == (ActivationProgress::Start {
                key: key@,
                portal_override: override_text(portal_override),
            }),
            ActivationProgress::Replied { key, portal_url, reply: Ok((status, body)) } => progress@
                == (ActivationProgress::Replied {
                key: key@,
                portal_url: portal_url@,
                reply: Ok((status, body@)),
            }),
            ActivationProgress::Replied { key, portal_url, reply: Err(failure) } => progress@
                == (ActivationProgress::Replied {
                key: key@,
                portal_url: portal_url@,
                reply: Err(failure@),
            }),
            ActivationProgress::Stored { key, greeting, path, result: Ok(()) } => progress@
                == (ActivationProgress::Stored {
                key: key@,
                greeting: greeting@,
                path: path@,
                result: Ok(()),
            }),
            ActivationProgress::Stored { key, greeting, path, result: Err(error) } => progress@
                == (ActivationProgress::Stored {
                key: key@,
                greeting: greeting@,
                path: path@,
                result: Err(error@),
            }),
        },
        match step {
            ActivationStep::Post { key, portal_url, request } => step@ == (ActivationStep::Post {
                key: key@,
                portal_url: portal_url@,
                request: request@,
            }),
            ActivationStep::Store { key, greeting, credentials } => step@ == (ActivationStep::Store {
                key: key@,
                greeting: greeting@,
                credentials: credentials@,
            }),
            ActivationStep::Finish(result) => step@ == ActivationStep::Finish(outcome(result)),
        },
{
}

/// An activation starts with a request to the portal that the environment names, or to the usual one,
/// with the very key that the user gave.
pub proof fn the_portal_is_asked_first(key: Seq<char>, portal_override: Option<Seq<char>>)
    ensures
        activation_step(ActivationProgress::Start { key, portal_override })
            == (ActivationStep::Post {
            key,
            portal_url: portal_url(portal_override),
            request: ActivateRequest { url: endpoint(portal_url(portal_override)), bearer: key },
        }),
{
}

/// An answer of success is stored with its greeting, the key and the portal; a refusal, and a request
/// without an answer, end the activation with the scrubbed complaint.
pub proof fn each_reply_leads_to_its_step(
    key: Seq<char>,
    url: Seq<char>,
    status: u16,
    body: Seq<char>,
    greeting: Seq<char>,
    error: Seq<char>,
    failure: PostFailure<Seq<char>>,
)
    ensures
        answered(key, url, Ok(greeting)) == (ActivationStep::Store {
            key,
            greeting,
            credentials: Credentials { portal_url: url, device_token: key },
        }),
        answered(key, url, Err(error)) == ActivationStep::Finish(
            Err::<TokensaverCommandPayload<Seq<char>>, Seq<char>>(
                scrubbed("Token Saver activation failed: "@ + error, key),
            ),
        ),
        ({
            let replied = ActivationProgress::Replied {
                key,
                portal_url: url,
                reply: Ok((status, body)),
            };
            match answer(status, body, json_object_members(body)) {
                Ok(words) => activation_step(replied) == (ActivationStep::Store {
                    key,
                    greeting: words,
                    credentials: Credentials { portal_url: url, device_token: key },
                }),
                Err(words) => activation_step(replied) == ActivationStep::Finish(
                    Err::<TokensaverCommandPayload<Seq<char>>, Seq<char>>(
                        scrubbed("Token Saver activation failed: "@ + words, key),
                    ),
                ),
            }
        }),
        ({
            let unanswered = ActivationProgress::Replied {
                key,
                portal_url: url,
                reply: Err(failure),
            };
            activation_step(unanswered) == ActivationStep::Finish(
                Err::<TokensaverCommandPayload<Seq<char>>, Seq<char>>(
                    scrubbed(no_answer(url, failure), key),
                ),
            )
        }),
{
}

/// The report of an activation is a success exactly if the store succeeded. The success shows the
/// greeting, the mask of the key and the path, the failure shows the path and the error, and both are
/// scrubbed.
pub proof fn the_report_tells_whether_the_key_was_stored(
    key: Seq<char>,
    greeting: Seq<char>,
    path: Seq<char>,
    result: Result<(), Seq<char>>,
)
    ensures
        stored(key, greeting, path, result) is Ok <==> result is Ok,
        activation_step(ActivationProgress::Stored { key, greeting, path, result })
            == ActivationStep::Finish(stored(key, greeting, path, result)),
        stored(key, greeting, path, result) matches Ok(payload) ==> {
            &&& payload.notice == "Token Saver activated"@
            &&& payload.message == scrubbed(
                greeting + "\n\nKey "@ + masked(key) + " stored in "@ + path + "."@,
                key,
            )
        },
        result matches Err(error) ==> stored(key, greeting, path, result) == Err::<
            TokensaverCommandPayload<Seq<char>>,
            Seq<char>,
        >(
            scrubbed(
                "Key verified, but storing credentials in "@ + path + " failed: "@ + error,
                key,
            ),
        ),
{
}

/// Where the key, which holds no space, occurs neither in the path nor in the error, the report of a
/// failed store holds the path and ends with the error, each behind a space.
pub proof fn a_failed_store_names_the_path_and_the_error(
    key: Seq<char>,
    greeting: Seq<char>,
    path: Seq<char>,
    error: Seq<char>,
)
    requires
        !key.contains(' '),
        !occurs(path, key),
        !occurs(error, key),
    ensures
        activation_step(
            ActivationProgress::Stored { key, greeting, path, result: Err(error) },
        ) matches ActivationStep::Finish(Err(message)) && exists|a: Seq<char>, b: Seq<char>|
            message == #[trigger] (a + (" "@ + path + " "@) + b + (" "@ + error)),
{
    let words = "Key verified, but storing credentials in"@;
    let failed = "failed:"@;
    let space = seq![' '];
    reveal_strlit("Key verified, but storing credentials in ");
    reveal_strlit("Key verified, but storing credentials in");
    reveal_strlit(" failed: ");
    reveal_strlit("failed:");
    reveal_strlit(" ");
    assert(" "@ =~= space);
    let text = "Key verified, but storing credentials in "@ + path + " failed: "@ + error;
    let behind = failed + space + error;
    let rest = path + space + behind;
    assert(text =~= words + space + rest);
    scrub_goes_piece_by_piece(words, ' ', rest, key);
    scrub_goes_piece_by_piece(path, ' ', behind, key);
    scrub_goes_piece_by_piece(failed, ' ', error, key);
    scrub_leaves_other_text(path, key);
    scrub_leaves_other_text(error, key);
    let a = scrubbed(words, key);
    let b = scrubbed(failed, key);
    assert(scrubbed(text, key) =~= a + (" "@ + path + " "@) + b + (" "@ + error));
}

} // verus!
