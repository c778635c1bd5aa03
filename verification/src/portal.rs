//! Talking to the Token Saver portal: its address, the request to it and its answer.
use vstd::prelude::*;

use crate::json::{
    find_text, json_object_members, members_of, one_member, parse_json_object, plain, sure_members,
    text_member, JsonObject,
};
use crate::redact::{occurs, occurs_at};
use crate::text::{
    blank, characters, decimal, to_decimal, trim, trimmed, trimmed_has_no_outer_white_space,
    trimming_leaves_the_core, white_space,
};

verus! {

/// Where the portal is unless the user says otherwise.
pub const DEFAULT_PORTAL_URL: &'static str = "https://portal.tokensaver.dev";

/// The hard limit on the exchange with the portal, in seconds.
pub const PORTAL_TIMEOUT_SECS: u64 = 10;

/// How the request introduces itself.
pub const USER_AGENT: &'static str = "jcode-tokensaver";

/// The greeting of a portal that sends none.
pub const DEFAULT_GREETING: &'static str =
    "Token Saver activated — run /tokensaverstats to watch it work.";

/// The address of the portal under an override from the environment: a blank one does not count.
pub open spec fn portal_url(env_override: Option<Seq<char>>) -> Seq<char> {
    match env_override {
        Some(value) => if trimmed(value).len() == 0 {
            DEFAULT_PORTAL_URL@
        } else {
            trimmed(value)
        },
        None => DEFAULT_PORTAL_URL@,
    }
}

/// The text in an override.
pub open spec fn override_text(env_override: Option<String>) -> Option<Seq<char>> {
    match env_override {
        Some(value) => Some(value@),
        None => None,
    }
}

/// Finds the address of the portal. A blank override is ignored.
pub fn portal_url_from(env_override: Option<String>) -> (r: String)
    ensures
        r@ == portal_url(override_text(env_override)),
{
    match env_override {
        Some(value) => {
            let value = trim(value.as_str());
            if value.is_empty() {
                DEFAULT_PORTAL_URL.to_owned()
            } else {
                value.to_owned()
            }
        },
        None => DEFAULT_PORTAL_URL.to_owned(),
    }
}

/// `url` without the slashes at its end.
pub open spec fn without_slashes(url: Seq<char>) -> Seq<char>
    decreases url.len(),
{
    if url.len() > 0 && url.last() == '/' {
        without_slashes(url.drop_last())
    } else {
        url
    }
}

/// The address of the activation endpoint of the portal at `url`.
pub open spec fn endpoint(url: Seq<char>) -> Seq<char> {
    without_slashes(url) + "/api/v1/activate"@
}

/// Builds the address of the activation endpoint, tolerating slashes at the end of the portal's.
pub fn activate_endpoint(portal_url: &str) -> (r: String)
    ensures
        r@ == endpoint(portal_url@),
{
    let chars = characters(portal_url);
    let mut end: usize = chars.len();
    proof {
        assert(chars@.take(end as int) =~= chars@);
    }
    while end > 0 && chars[end - 1] == '/'
        invariant
            end <= chars.len(),
            without_slashes(chars@.take(end as int)) == without_slashes(chars@),
        decreases end,
    {
        proof {
            assert(chars@.take(end as int).drop_last() =~= chars@.take(end - 1));
        }
        end = end - 1;
    }
    let mut r: String = portal_url.substring_char(0, end).to_owned();
    r.append("/api/v1/activate");
    r
}

/// The request that activates a key: a `POST` to `url` with `bearer` as its bearer token. The texts
/// are `String`s, and `Seq<char>`s in the view.
#[derive(Debug, PartialEq, Eq)]
pub struct ActivateRequest<T = String> {
    pub url: T,
    pub bearer: T,
}

impl View for ActivateRequest<String> {
    type V = ActivateRequest<Seq<char>>;

    open spec fn view(&self) -> ActivateRequest<Seq<char>> {
        ActivateRequest { url: self.url@, bearer: self.bearer@ }
    }
}

/// Why no answer came from the portal: the client could not be built, or the request not sent.
#[derive(Debug, PartialEq, Eq)]
pub enum PostFailure<T = String> {
    Client(T),
    Unreachable(T),
}

impl View for PostFailure<String> {
    type V = PostFailure<Seq<char>>;

    open spec fn view(&self) -> PostFailure<Seq<char>> {
        match *self {
            PostFailure::Client(error) => PostFailure::Client(error@),
            PostFailure::Unreachable(error) => PostFailure::Unreachable(error@),
        }
    }
}

/// The complaint about a request to the portal at `url` that brought no answer.
pub open spec fn no_answer(url: Seq<char>, failure: PostFailure<Seq<char>>) -> Seq<char> {
    match failure {
        PostFailure::Client(error) => "Failed to build HTTP client: "@ + error,
        PostFailure::Unreachable(error) => "Could not reach the Token Saver portal at "@ + url
            + ": "@ + error,
    }
}

/// Describes why no answer came from the portal at `portal_url`.
pub fn describe_post_failure(portal_url: &str, failure: &PostFailure) -> (r: String)
    ensures
        r@ == no_answer(portal_url@, failure@),
{
    match failure {
        PostFailure::Client(error) => {
            let mut r: String = "Failed to build HTTP client: ".to_owned();
            r.append(error.as_str());
            r
        },
        PostFailure::Unreachable(error) => {
            let mut r: String = "Could not reach the Token Saver portal at ".to_owned();
            r.append(portal_url);
            r.append(": ");
            r.append(error.as_str());
            r
        },
    }
}

/// What the portal complains of: the `error` of its answer, or else the text of the answer, or else
/// the status.
pub open spec fn complaint(
    status: u16,
    body: Seq<char>,
    members: Option<Map<Seq<char>, Option<Seq<char>>>>,
) -> Seq<char> {
    match text_member(members, "error"@) {
        Some(error) => error,
        None => if trimmed(body).len() == 0 {
            "HTTP "@ + decimal(status as nat)
        } else {
            trimmed(body)
        },
    }
}

/// What an answer with this status and body means, if the body has these members: a greeting where
/// the status is a success, and otherwise an error message. The portal's own words stand alone for
/// an unknown key and for an exhausted balance, as they tell the user what to do.
pub open spec fn answer(
    status: u16,
    body: Seq<char>,
    members: Option<Map<Seq<char>, Option<Seq<char>>>>,
) -> Result<Seq<char>, Seq<char>> {
    if 200 <= status < 300 {
        Ok(
            match text_member(members, "message"@) {
                Some(message) => message,
                None => DEFAULT_GREETING@,
            },
        )
    } else if status == 401 || status == 402 {
        Err(complaint(status, body, members))
    } else {
        Err(
            "portal returned HTTP "@ + decimal(status as nat) + ": "@ + complaint(
                status,
                body,
                members,
            ),
        )
    }
}

/// The greeting or the error message in an answer.
pub open spec fn answer_text(r: Result<String, String>) -> Result<Seq<char>, Seq<char>> {
    match r {
        Ok(greeting) => Ok(greeting@),
        Err(message) => Err(message@),
    }
}

/// Interprets the portal's answer, of which the body was parsed into `object`.
pub fn interpret_parsed_response(status: u16, body: &str, object: &Option<JsonObject>) -> (r: Result<
    String,
    String,
>)
    ensures
        answer_text(r) == answer(status, body@, members_of(*object)),
{
    if 200 <= status && status < 300 {
        let greeting = match find_text(object, "message") {
            Some(message) => message,
            None => DEFAULT_GREETING,
        };
        return Ok(greeting.to_owned());
    }
    let detail: String = match find_text(object, "error") {
        Some(error) => error.to_owned(),
        None => {
            let text = trim(body);
            if text.is_empty() {
                let mut r: String = "HTTP ".to_owned();
                r.append(to_decimal(status).as_str());
                r
            } else {
                text.to_owned()
            }
        },
    };
    if status == 401 || status == 402 {
        Err(detail)
    } else {
        let mut r: String = "portal returned HTTP ".to_owned();
        r.append(to_decimal(status).as_str());
        r.append(": ");
        r.append(detail.as_str());
        Err(r)
    }
}

/// Interprets the status and the body of the portal's answer: a greeting where the activation
/// succeeded, and an error message where it did not. A body that is not a JSON object is taken as
/// plain text. What the members of the body are is known as far as `sure_members` says.
pub fn interpret_activate_response(status: u16, body: &str) -> (r: Result<String, String>)
    ensures
        answer_text(r) == answer(status, body@, json_object_members(body@)),
        sure_members(body@, json_object_members(body@)),
{
    let object = parse_json_object(body);
    interpret_parsed_response(status, body, &object)
}

/// The address of the portal is never blank and has no white space around it.
pub proof fn portal_url_is_trimmed(env_override: Option<Seq<char>>)
    ensures
        portal_url(env_override).len() > 0,
        !white_space(portal_url(env_override).first()),
        !white_space(portal_url(env_override).last()),
{
    reveal_strlit("https://portal.tokensaver.dev");
    if let Some(value) = env_override {
        trimmed_has_no_outer_white_space(value);
    }
}

/// Slashes at the end of the portal's address do not change the endpoint.
pub proof fn endpoint_ignores_slashes_at_the_end(url: Seq<char>, slashes: Seq<char>)
    requires
        forall|i: int| 0 <= i < slashes.len() ==> slashes[i] == '/',
    ensures
        endpoint(url + slashes) == endpoint(url),
    decreases slashes.len(),
{
    if slashes.len() == 0 {
        assert(url + slashes =~= url);
    } else {
        assert((url + slashes).drop_last() =~= url + slashes.drop_last());
        endpoint_ignores_slashes_at_the_end(url, slashes.drop_last());
    }
}

/// What a refused request is answered holds what the portal complains of, and is just that for an
/// unknown key and for an exhausted balance.
pub proof fn a_refusal_holds_the_complaint(
    status: u16,
    body: Seq<char>,
    members: Option<Map<Seq<char>, Option<Seq<char>>>>,
)
    requires
        !(200 <= status < 300),
    ensures
        answer(status, body, members) matches Err(message) && {
            &&& occurs(message, complaint(status, body, members))
            &&& status == 401 || status == 402 ==> message == complaint(status, body, members)
        },
{
    let part = complaint(status, body, members);
    let head = if status == 401 || status == 402 {
        Seq::empty()
    } else {
        "portal returned HTTP "@ + decimal(status as nat) + ": "@
    };
    let message = answer(status, body, members)->Err_0;
    assert(message =~= head + part);
    assert(message.subrange(head.len() as int, head.len() as int + part.len()) =~= part);
    assert(occurs_at(message, part, head.len() as int));
}

/// An error that the portal sends as the one member of a JSON object is what it complains of, and a
/// message that it sends so is the greeting.
pub proof fn the_portal_speaks_for_itself(
    status: u16,
    text: Seq<char>,
    members: Option<Map<Seq<char>, Option<Seq<char>>>>,
)
    requires
        plain(text),
    ensures
        sure_members(one_member("error"@, text), members) ==> complaint(
            status,
            one_member("error"@, text),
            members,
        ) == text,
        sure_members(one_member("message"@, text), members) && 200 <= status < 300 ==> answer(
            status,
            one_member("message"@, text),
            members,
        ) == Ok::<Seq<char>, Seq<char>>(text),
{
    reveal_strlit("error");
    reveal_strlit("message");
    assert(plain("error"@));
    assert(plain("message"@));
    if sure_members(one_member("error"@, text), members) {
        assert(members == Some(map!["error"@ => Some(text)]));
    }
    if sure_members(one_member("message"@, text), members) {
        assert(members == Some(map!["message"@ => Some(text)]));
    }
}

/// Whether an activation succeeded depends on the status alone, and not on the body.
pub proof fn the_status_decides(
    status: u16,
    body: Seq<char>,
    members: Option<Map<Seq<char>, Option<Seq<char>>>>,
)
    ensures
        answer(status, body, members) is Ok <==> 200 <= status < 300,
{
}

/// The views of a request, of a failure, of an override and of an answer hold just the texts.
pub proof fn views_hold_the_texts(request: ActivateRequest, text: String)
    ensures
        request@.url == request.url@,
        request@.bearer == request.bearer@,
        PostFailure::Client(text)@ == PostFailure::Client(text@),
        PostFailure::Unreachable(text)@ == PostFailure::Unreachable(text@),
        override_text(None) is None,
        override_text(Some(text)) == Some(text@),
        answer_text(Ok(text)) == Ok::<Seq<char>, Seq<char>>(text@),
        answer_text(Err(text)) == Err::<Seq<char>, Seq<char>>(text@),
{
}

/// The exchange takes at most ten seconds and introduces itself by one name.
pub proof fn the_exchange_is_bounded()
    ensures
        PORTAL_TIMEOUT_SECS == 10,
        USER_AGENT@ == "jcode-tokensaver"@,
{
}

/// An override that is not blank is the address, without the white space around it; without one the
/// portal is at its usual place.
pub proof fn an_override_is_the_address(front: Seq<char>, core: Seq<char>, back: Seq<char>)
    requires
        forall|i: int| 0 <= i < front.len() ==> white_space(#[trigger] front[i]),
        forall|i: int| 0 <= i < back.len() ==> white_space(#[trigger] back[i]),
    ensures
        core.len() > 0 && !white_space(core[0]) && !white_space(core[core.len() - 1]) ==> portal_url(
            Some(front + core + back),
        ) == core,
        portal_url(Some(front)) == "https://portal.tokensaver.dev"@,
        portal_url(None) == "https://portal.tokensaver.dev"@,
{
    let none = Seq::<char>::empty();
    if core.len() > 0 && !white_space(core[0]) && !white_space(core[core.len() - 1]) {
        trimming_leaves_the_core(front, core, back);
    }
    assert(front =~= front + none + none);
    trimming_leaves_the_core(front, none, none);
}

/// The endpoint is the address up to the slashes at its end, and the path of the activation behind
/// it.
pub proof fn the_endpoint_follows_the_address(url: Seq<char>, slashes: Seq<char>)
    requires
        url.len() > 0 ==> url[url.len() - 1] != '/',
        forall|i: int| 0 <= i < slashes.len() ==> slashes[i] == '/',
    ensures
        endpoint(url + slashes) == url + "/api/v1/activate"@,
{
    endpoint_ignores_slashes_at_the_end(url, slashes);
}

/// A request without an answer is reported with its error and, where it was the portal that could not
/// be reached, with the address of the portal.
pub proof fn a_missing_answer_is_reported(url: Seq<char>, error: Seq<char>)
    ensures
        no_answer(url, PostFailure::Client(error)) == "Failed to build HTTP client: "@ + error,
        no_answer(url, PostFailure::Unreachable(error))
            == "Could not reach the Token Saver portal at "@ + url + ": "@ + error,
{
}

/// The greeting is the text of the member `message`, whatever the status of success, the body and the
/// other members are, and the usual greeting where there is no such text.
pub proof fn the_message_is_the_greeting(
    status: u16,
    body: Seq<char>,
    members: Map<Seq<char>, Option<Seq<char>>>,
    message: Seq<char>,
)
    requires
        200 <= status < 300,
    ensures
        answer(status, body, Some(members.insert("message"@, Some(message)))) == Ok::<
            Seq<char>,
            Seq<char>,
        >(message),
        answer(status, body, Some(members.insert("message"@, None))) == Ok::<Seq<char>, Seq<char>>(
            "Token Saver activated — run /tokensaverstats to watch it work."@,
        ),
        answer(status, body, Some(members.remove("message"@))) == Ok::<Seq<char>, Seq<char>>(
            "Token Saver activated — run /tokensaverstats to watch it work."@,
        ),
        answer(status, body, None) == Ok::<Seq<char>, Seq<char>>(
            "Token Saver activated — run /tokensaverstats to watch it work."@,
        ),
{
}

/// A refusal says the text of the member `error`, whatever the body and the other members are. Where
/// there is no such text it says the body without the white space around it, and for a blank body the
/// status. For an unknown key and an exhausted balance it says no more; otherwise the status stands in
/// front.
pub proof fn the_error_is_the_refusal(
    status: u16,
    body: Seq<char>,
    members: Map<Seq<char>, Option<Seq<char>>>,
    error: Seq<char>,
)
    requires
        !(200 <= status < 300),
    ensures
        ({
            let r = answer(status, body, Some(members.insert("error"@, Some(error))));
            &&& status == 401 || status == 402 ==> r == Err::<Seq<char>, Seq<char>>(error)
            &&& status != 401 && status != 402 ==> r == Err::<Seq<char>, Seq<char>>(
                "portal returned HTTP "@ + decimal(status as nat) + ": "@ + error,
            )
        }),
        ({
            let r = answer(status, body, None);
            let part = if blank(body) {
                "HTTP "@ + decimal(status as nat)
            } else {
                trimmed(body)
            };
            &&& answer(status, body, Some(members.insert("error"@, None))) == r
            &&& answer(status, body, Some(members.remove("error"@))) == r
            &&& status == 401 || status == 402 ==> r == Err::<Seq<char>, Seq<char>>(part)
            &&& status != 401 && status != 402 ==> r == Err::<Seq<char>, Seq<char>>(
                "portal returned HTTP "@ + decimal(status as nat) + ": "@ + part,
            )
        }),
{
    trimmed_has_no_outer_white_space(body);
}

} // verus!
