//! How a notification was acted upon by the user: a configured action was
//! invoked, the notification was closed, or an inline text reply was sent.

use vstd::prelude::*;
use vstd::std_specs::convert::FromSpec;

verus! {

/// Reason a notification was closed without an action being invoked.
///
/// On XDG the raw reasons of the `NotificationClosed` signal map directly:
/// `1` is [`Expired`](CloseReason::Expired), `2` is
/// [`Dismissed`](CloseReason::Dismissed), `3` is
/// [`CloseAction`](CloseReason::CloseAction); every other code is carried
/// unchanged in [`Other`](CloseReason::Other).
#[derive(Copy, Clone, Debug, PartialEq, Eq, Hash, Structural)]
pub enum CloseReason {
    /// The notification expired (timed out).
    Expired,
    /// The notification was dismissed by the user.
    Dismissed,
    /// The notification was closed programmatically.
    CloseAction,
    /// Undefined or reserved reason, with the raw code reported by the platform.
    Other(u32),
}

impl CloseReason {
    /// The close reason that a raw XDG reason code stands for.
    pub open spec fn from_raw(raw: u32) -> CloseReason {
        if raw == 1 {
            CloseReason::Expired
        } else if raw == 2 {
            CloseReason::Dismissed
        } else if raw == 3 {
            CloseReason::CloseAction
        } else {
            CloseReason::Other(raw)
        }
    }
}

/// Distinct raw reason codes are never confused: converting two codes gives
/// the same close reason only when the codes are equal.
pub proof fn lemma_close_reason_from_injective(a: u32, b: u32)
    requires
        CloseReason::from_raw(a) == CloseReason::from_raw(b),
    ensures
        a == b,
{
}

/// A code is reported as [`Other`](CloseReason::Other) exactly when it is
/// none of the three assigned codes, and then the code itself is carried.
pub proof fn lemma_close_reason_other_keeps_code(raw: u32)
    ensures
        (CloseReason::from_raw(raw) is Other) <==> !(1 <= raw <= 3),
        CloseReason::from_raw(raw) is Other ==> CloseReason::from_raw(raw) == CloseReason::Other(raw),
{
}

impl vstd::std_specs::convert::FromSpecImpl<u32> for CloseReason {
    open spec fn obeys_from_spec() -> bool {
        true
    }

    open spec fn from_spec(raw_reason: u32) -> CloseReason {
        CloseReason::from_raw(raw_reason)
    }
}

impl From<u32> for CloseReason {
    fn from(raw_reason: u32) -> (reason: CloseReason)
        ensures
            reason == CloseReason::from_raw(raw_reason),
    {
        match raw_reason {
            1 => CloseReason::Expired,
            2 => CloseReason::Dismissed,
            3 => CloseReason::CloseAction,
            other => CloseReason::Other(other),
        }
    }
}

/// The meaning of a response, shared by [`UserResponse`] and
/// [`ActionResponse`]: the texts are taken by their characters.
pub ghost enum ResponseView {
    /// An action with this key was invoked.
    Action(Seq<char>),
    /// This inline reply was submitted.
    Reply(Seq<char>),
    /// The notification was closed for this reason.
    Closed(CloseReason),
}

impl ResponseView {
    /// The conventional key of a click on the notification body.
    pub open spec fn default_key() -> Seq<char> {
        seq!['d', 'e', 'f', 'a', 'u', 'l', 't']
    }

    /// Whether this response is a click on the notification body: an action
    /// whose key is `"default"`.
    pub open spec fn is_default_action(self) -> bool {
        self == ResponseView::Action(ResponseView::default_key())
    }
}

/// Only a body click is a default action: it is an action, its key is the
/// seven characters `default`, and no reply and no close, whatever its
/// reason, counts as one.
pub proof fn lemma_default_action_is_default_key_action(v: ResponseView)
    ensures
        v.is_default_action() <==> (v matches ResponseView::Action(key) && key == seq!['d', 'e', 'f', 'a', 'u', 'l', 't']),
        v.is_default_action() ==> v is Action,
        forall|reason: CloseReason| !#[trigger] ResponseView::Closed(reason).is_default_action(),
        forall|text: Seq<char>| !#[trigger] ResponseView::Reply(text).is_default_action(),
{
}

/// Whether `key` is the conventional key `"default"`.
fn is_default_key(key: &String) -> (r: bool)
    ensures
        r == (key@ == ResponseView::default_key()),
{
    let default_key = "default".to_owned();
    proof {
        reveal_strlit("default");
        assert("default"@ =~= ResponseView::default_key());
    }
    *key == default_key
}

/// The response to a notification: every possible outcome of showing one.
#[derive(Clone, Debug, PartialEq, Eq, Hash)]
pub enum UserResponse {
    /// The user clicked the notification body or a labelled action button;
    /// the key `"default"` means the body itself.
    Action(String),
    /// The user submitted an inline text reply.
    Reply(String),
    /// The notification was closed or dismissed without an action being taken.
    Closed(CloseReason),
}

impl View for UserResponse {
    type V = ResponseView;

    open spec fn view(&self) -> ResponseView {
        match self {
            UserResponse::Action(key) => ResponseView::Action(key@),
            UserResponse::Reply(text) => ResponseView::Reply(text@),
            UserResponse::Closed(reason) => ResponseView::Closed(*reason),
        }
    }
}

impl UserResponse {
    /// Returns `true` if this is an [`Action`](UserResponse::Action) with the
    /// key `"default"`, which conventionally means the notification body was
    /// clicked.
    pub fn is_default_action(&self) -> (r: bool)
        ensures
            r == self@.is_default_action(),
            r <==> (self matches UserResponse::Action(key) && key@ == seq!['d', 'e', 'f', 'a', 'u', 'l', 't']),
            self is Reply ==> !r,
            self is Closed ==> !r,
    {
        match self {
            UserResponse::Action(key) => is_default_key(key),
            _ => false,
        }
    }
}

/// The response from the user after a notification was shown.
#[derive(Clone, Debug, PartialEq, Eq, Hash)]
pub enum ActionResponse {
    /// The user clicked the notification body or a labelled action button;
    /// the key `"default"` means the body itself.
    Action(String),
    /// The user submitted an inline text reply.
    Reply(String),
    /// The notification was closed without any action being taken.
    Closed(CloseReason),
}

impl View for ActionResponse {
    type V = ResponseView;

    open spec fn view(&self) -> ResponseView {
        match self {
            ActionResponse::Action(key) => ResponseView::Action(key@),
            ActionResponse::Reply(text) => ResponseView::Reply(text@),
            ActionResponse::Closed(reason) => ResponseView::Closed(*reason),
        }
    }
}

impl ActionResponse {
    /// Returns `true` if this is an [`Action`](ActionResponse::Action) with
    /// the key `"default"`, which conventionally means the notification body
    /// was clicked.
    pub fn is_default_action(&self) -> (r: bool)
        ensures
            r == self@.is_default_action(),
            r <==> (self matches ActionResponse::Action(key) && key@ == seq!['d', 'e', 'f', 'a', 'u', 'l', 't']),
            self is Reply ==> !r,
            self is Closed ==> !r,
    {
        match self {
            ActionResponse::Action(key) => is_default_key(key),
            _ => false,
        }
    }
}

impl vstd::std_specs::convert::FromSpecImpl<String> for ActionResponse {
    open spec fn obeys_from_spec() -> bool {
        true
    }

    open spec fn from_spec(key: String) -> ActionResponse {
        ActionResponse::Action(key)
    }
}

impl From<String> for ActionResponse {
    /// An action response for the action with this key.
    fn from(key: String) -> (r: ActionResponse)
        ensures
            r == ActionResponse::Action(key),
            r@ == ResponseView::Action(key@),
    {
        ActionResponse::Action(key)
    }
}

/// A response made from an action key is a click on the notification body
/// exactly when the key is `"default"`.
pub proof fn lemma_from_key_is_default_action(key: String)
    ensures
        ActionResponse::from_spec(key)@.is_default_action() <==> key@ == ResponseView::default_key(),
{
}

/// The conversion from `&str` copies the key into a new `String`, which
/// equals no particular `String` value known beforehand: only the characters
/// of its key are fixed, and [`From::from`] states that in its own `ensures`
/// over the view. So this conversion does not claim to return `from_spec`.
impl<'a> vstd::std_specs::convert::FromSpecImpl<&'a str> for ActionResponse {
    open spec fn obeys_from_spec() -> bool {
        false
    }

    open spec fn from_spec(key: &'a str) -> ActionResponse {
        ActionResponse::Action(choose|copy: String| copy@ == key@)
    }
}

impl<'a> From<&'a str> for ActionResponse {
    /// An action response for the action with this key, which is copied.
    fn from(key: &'a str) -> (r: ActionResponse)
        ensures
            r@ == ResponseView::Action(key@),
    {
        ActionResponse::Action(key.to_owned())
    }
}

/// A handler that receives the response a notification ended with.
///
/// Any `FnOnce(&ActionResponse)` closure is one: calling the handler calls
/// the closure with the response.
pub trait ActionResponseHandler {
    /// Whether the handler may be invoked with `response`.
    spec fn accepts(&self, response: ActionResponse) -> bool;

    /// Whether an invocation with `response` may have finished this way.
    spec fn handled(&self, response: ActionResponse) -> bool;

    /// Invoke the handler with the given response.
    fn call(self, response: &ActionResponse)
        requires
            self.accepts(*response),
        ensures
            self.handled(*response),
    ;
}

impl<F: FnOnce(&ActionResponse)> ActionResponseHandler for F {
    open spec fn accepts(&self, response: ActionResponse) -> bool {
        call_requires(*self, (&response,))
    }

    open spec fn handled(&self, response: ActionResponse) -> bool {
        call_ensures(*self, (&response,), ())
    }

    fn call(self, response: &ActionResponse) {
        (self)(response);
    }
}

/// A closure taken as an [`ActionResponseHandler`] accepts what the closure
/// accepts and finishes as the closure does, called with the response.
pub proof fn lemma_closure_action_response_handler<F: FnOnce(&ActionResponse)>(
    f: F,
    response: ActionResponse,
)
    ensures
        ActionResponseHandler::accepts(&f, response) == call_requires(f, (&response,)),
        ActionResponseHandler::handled(&f, response) == call_ensures(f, (&response,), ()),
{
}

/// Callback for the close signal of a notification.
///
/// Implemented both for `Fn(CloseReason)` closures, which receive the
/// reason, and for `Fn()` closures, which are called without it.
pub trait CloseHandler<T> {
    /// Whether the handler may be called with `reason`.
    spec fn accepts(&self, reason: CloseReason) -> bool;

    /// Whether a call with `reason` may have finished this way.
    spec fn handled(&self, reason: CloseReason) -> bool;

    /// Called with the [`CloseReason`].
    fn call(&self, reason: CloseReason)
        requires
            self.accepts(reason),
        ensures
            self.handled(reason),
    ;
}

impl<F: Fn(CloseReason)> CloseHandler<CloseReason> for F {
    open spec fn accepts(&self, reason: CloseReason) -> bool {
        call_requires(*self, (reason,))
    }

    open spec fn handled(&self, reason: CloseReason) -> bool {
        call_ensures(*self, (reason,), ())
    }

    fn call(&self, reason: CloseReason) {
        self(reason);
    }
}

/// A closure that takes the reason, taken as a [`CloseHandler`], accepts
/// what the closure accepts and finishes as the closure does, called with
/// the reason.
pub proof fn lemma_closure_close_handler_with_reason<F: Fn(CloseReason)>(f: F, reason: CloseReason)
    ensures
        CloseHandler::<CloseReason>::accepts(&f, reason) == call_requires(f, (reason,)),
        CloseHandler::<CloseReason>::handled(&f, reason) == call_ensures(f, (reason,), ()),
{
}

impl<F: Fn()> CloseHandler<()> for F {
    open spec fn accepts(&self, reason: CloseReason) -> bool {
        call_requires(*self, ())
    }

    open spec fn handled(&self, reason: CloseReason) -> bool {
        call_ensures(*self, (), ())
    }

    fn call(&self, _reason: CloseReason) {
        self();
    }
}

/// A closure without arguments, taken as a [`CloseHandler`], accepts what
/// the closure accepts and finishes as the closure does, called with
/// nothing: the reason is not passed on.
pub proof fn lemma_closure_close_handler_without_reason<F: Fn()>(f: F, reason: CloseReason)
    ensures
        CloseHandler::<()>::accepts(&f, reason) == call_requires(f, ()),
        CloseHandler::<()>::handled(&f, reason) == call_ensures(f, (), ()),
{
}

} // verus!
