//! One attached session (tab): its state, and the policy its event loop
//! applies to routed events.
//!
//! The consumer thread of a session drains that session's queue and feeds
//! every event through [`Tab::handle_event`]: the navigation flag tracks
//! lifecycle milestones, a paused request is answered with exactly one
//! terminal resolution, an auth challenge is answered with the installed
//! policy, a response notification reaches the installed handler, and a
//! pending file chooser is resolved with the queued files.  Before any of
//! that, every event is broadcast to all currently-registered generic
//! listeners.

use vstd::prelude::*;
use crate::errors::NavigationFailed;
use crate::keyboard::Keyboard;
use crate::mouse::Mouse;
use crate::protocol::types::JsUInt;

verus! {

/// An identifier-keyed table of generic listeners.  Registration hands out
/// a revocable handle; the callbacks themselves stay with the caller, so
/// the table never owns or extends a listener's lifetime.
pub struct ListenerRegistry {
    /// The next handle to hand out; all live handles are below it.
    pub next_handle: u64,
    /// The live handles, in registration order.
    pub handles: Vec<u64>,
}

impl ListenerRegistry {
    /// Handles are unique and below the counter.
    pub open spec fn wf(self) -> bool {
        &&& forall|i: int, j: int|
            0 <= i < j < self.handles@.len() ==> self.handles@[i] != self.handles@[j]
        &&& forall|i: int| 0 <= i < self.handles@.len() ==> self.handles@[i] < self.next_handle
    }

    /// An empty registry.
    pub fn new() -> (r: ListenerRegistry)
        ensures
            r.wf(),
            r.handles@.len() == 0,
            r.next_handle == 0,
    {
        ListenerRegistry { next_handle: 0, handles: Vec::new() }
    }

    /// Register a listener: a fresh revocable handle.
    pub fn add(&mut self) -> (h: u64)
        requires
            old(self).wf(),
            old(self).next_handle < u64::MAX,
        ensures
            final(self).wf(),
            h == old(self).next_handle,
            final(self).handles@ == old(self).handles@.push(h),
            !old(self).handles@.contains(h),
    {
        let h = self.next_handle;
        self.next_handle = self.next_handle + 1;
        self.handles.push(h);
        h
    }

    /// Revoke a handle.  Revoking one that is gone already changes
    /// nothing; either way the handle is absent afterwards.
    pub fn remove(&mut self, h: u64) -> (was_there: bool)
        requires
            old(self).wf(),
        ensures
            final(self).wf(),
            was_there == old(self).handles@.contains(h),
            !final(self).handles@.contains(h),
            final(self).next_handle == old(self).next_handle,
            forall|x: u64|
                x != h ==> (final(self).handles@.contains(x) <==> old(self).handles@.contains(x)),
    {
        let mut k: usize = 0;
        let mut found: bool = false;
        while k < self.handles.len() && !found
            invariant
                k <= self.handles.len(),
                self == old(self),
                found ==> k < self.handles.len() && self.handles@[k as int] == h,
                forall|j: int| 0 <= j < k ==> self.handles@[j] != h,
            decreases self.handles.len() - k, (if found { 0int } else { 1int }),
        {
            if self.handles[k] == h {
                found = true;
            } else {
                k = k + 1;
            }
        }
        if !found {
            return false;
        }
        let ghost pre = self.handles@;
        self.handles.remove(k);
        proof {
            assert forall|x: u64| self.handles@.contains(x) implies pre.contains(x) by {
                let w = choose|w: int| 0 <= w < self.handles@.len() && self.handles@[w] == x;
                if w < k {
                    assert(pre[w] == x);
                } else {
                    assert(pre[w + 1] == x);
                }
            }
            assert forall|x: u64| x != h && pre.contains(x) implies self.handles@.contains(x) by {
                let w = choose|w: int| 0 <= w < pre.len() && pre[w] == x;
                if w < k {
                    assert(self.handles@[w] == x);
                } else {
                    assert(w != k);
                    assert(self.handles@[w - 1] == x);
                }
            }
            assert(!self.handles@.contains(h));
        }
        true
    }

    /// The handles to notify, in registration order.
    pub fn targets(&self) -> (r: Vec<u64>)
        ensures
            r@ == self.handles@,
    {
        let mut out: Vec<u64> = Vec::new();
        let mut k: usize = 0;
        while k < self.handles.len()
            invariant
                k <= self.handles@.len(),
                out@ == self.handles@.subrange(0, k as int),
            decreases self.handles@.len() - k,
        {
            out.push(self.handles[k]);
            k = k + 1;
        }
        proof {
            assert(self.handles@.subrange(0, self.handles@.len() as int) =~= self.handles@);
        }
        out
    }
}

/// The installed answer to authentication challenges: the response kind
/// and, when credentials are provided, the credentials.
pub struct AuthChallengeResponse {
    pub response: String,
    pub username: Option<String>,
    pub password: Option<String>,
}

fn copy_opt_string(v: &Option<String>) -> (r: Option<String>)
    ensures
        r == *v,
{
    match v {
        Some(s) => Some(s.clone()),
        None => None,
    }
}

fn copy_auth(a: &AuthChallengeResponse) -> (r: AuthChallengeResponse)
    ensures
        r == *a,
{
    AuthChallengeResponse {
        response: a.response.clone(),
        username: copy_opt_string(&a.username),
        password: copy_opt_string(&a.password),
    }
}

fn copy_strings(v: &Vec<String>) -> (r: Vec<String>)
    ensures
        r@ == v@,
{
    let mut out: Vec<String> = Vec::new();
    let mut k: usize = 0;
    while k < v.len()
        invariant
            k <= v@.len(),
            out@ == v@.subrange(0, k as int),
        decreases v@.len() - k,
    {
        out.push(v[k].clone());
        proof {
            assert(out@ =~= v@.subrange(0, k as int + 1));
        }
        k = k + 1;
    }
    proof {
        assert(v@.subrange(0, v@.len() as int) =~= v@);
    }
    out
}

/// A paused network request, as handed to the interception policy.
pub struct RequestPausedEvent {
    pub request_id: String,
    /// The rest of the event payload, as raw JSON text.
    pub params: String,
}

/// Resume a paused request unmodified or with overrides.
pub struct ContinueRequest {
    pub request_id: String,
    /// The overrides, as raw JSON text; empty for none.
    pub params: String,
}

/// Answer a paused request with a synthesized response.
pub struct FulfilRequest {
    pub request_id: String,
    /// The synthesized response, as raw JSON text.
    pub params: String,
}

/// Fail a paused request.
pub struct FailRequest {
    pub request_id: String,
    /// The failure reason, as raw JSON text.
    pub params: String,
}

/// What an interception policy decides for a paused request.  The default
/// policy continues every request unmodified.
pub enum RequestPausedDecision {
    /// Answer it with a synthesized response.
    Fulfil(FulfilRequest),
    /// Fail it.
    Fail(FailRequest),
    /// Let it continue, optionally with overrides.
    Continue(Option<ContinueRequest>),
}

/// The exactly-one terminal resolution sent back for a paused request.
pub enum FetchResolution {
    Fulfil(FulfilRequest),
    Fail(FailRequest),
    Continue(ContinueRequest),
}

/// Turn a policy decision into the one terminal resolution dispatched for
/// the request: a bare continue becomes a continue of exactly this
/// request with no overrides.
pub fn resolve_paused(decision: RequestPausedDecision, request_id: &str) -> (r: FetchResolution)
    ensures
        match decision {
            RequestPausedDecision::Fulfil(f) => r == FetchResolution::Fulfil(f),
            RequestPausedDecision::Fail(f) => r == FetchResolution::Fail(f),
            RequestPausedDecision::Continue(c) => match c {
                Some(cr) => r == FetchResolution::Continue(cr),
                None => match r {
                    FetchResolution::Continue(cr) => cr.request_id@ == request_id@
                        && cr.params@.len() == 0,
                    _ => false,
                },
            },
        },
{
    match decision {
        RequestPausedDecision::Fulfil(f) => FetchResolution::Fulfil(f),
        RequestPausedDecision::Fail(f) => FetchResolution::Fail(f),
        RequestPausedDecision::Continue(c) => match c {
            Some(cr) => FetchResolution::Continue(cr),
            None => FetchResolution::Continue(
                ContinueRequest { request_id: request_id.to_owned(), params: String::new() },
            ),
        },
    }
}

/// A generic listener over events of some shape; implemented by the
/// embedding's callbacks.
pub trait EventListener<T> {
    /// Called once per event, in arrival order.
    fn on_event(&self, event: &T);
}

/// An interception policy over paused requests; implemented by the
/// embedding.
pub trait RequestInterceptor {
    /// Decide what happens to one paused request of this session.
    fn intercept(&self, session_id: &str, event: &RequestPausedEvent) -> RequestPausedDecision;
}

/// One routed event of a session, by category.
pub enum TabEvent {
    /// A page lifecycle milestone, by name.
    Lifecycle { name: String },
    /// A network request was paused for interception.
    RequestPaused { request_id: String },
    /// A request hit an authentication challenge.
    AuthRequired { request_id: String },
    /// Response metadata arrived for a request.
    ResponseReceived { request_id: String },
    /// A file chooser dialog opened on this node.
    FileChooserOpened { backend_node_id: JsUInt },
    /// Anything else, by method name; traced and otherwise ignored.
    Other { method: String },
}

/// What the event loop must do for one event, beyond the state updates
/// already applied.
pub enum TabReaction {
    /// Nothing further.
    Ignored,
    /// Ask the installed interception policy, then dispatch exactly one
    /// terminal resolution via [`resolve_paused`].
    AskInterceptor { request_id: String },
    /// Answer the challenge with the installed policy.
    ContinueWithAuth { request_id: String, auth: AuthChallengeResponse },
    /// Hand the response metadata to the installed handler, with a lazy
    /// body fetch for this request.
    FetchResponseBody { request_id: String },
    /// Resolve the pending chooser with these files.
    SetInputFiles { files: Vec<String>, backend_node_id: JsUInt },
}

/// A handle to a single page: the state of one attached session.
pub struct Tab {
    pub target_id: String,
    pub session_id: String,
    /// Set on navigate and on lifecycle start, cleared when the network is
    /// almost idle; polled by navigation waits.
    pub navigating: bool,
    /// Applied to element waits of this tab, in milliseconds.
    pub default_timeout_ms: u64,
    /// Slow-motion delay multiplier, in hundredths: zero disables.
    pub slow_motion_multiplier_hundredths: u64,
    pub listeners: ListenerRegistry,
    /// The installed auth-challenge policy; defaults to no credentials.
    pub auth_response: AuthChallengeResponse,
    /// The files a pending chooser will be resolved with.
    pub queued_files: Vec<String>,
    /// Whether a response handler is installed.
    pub response_handling_enabled: bool,
    pub keyboard: Keyboard,
    pub mouse: Mouse,
}

impl Tab {
    /// The tab's pieces are well-formed.
    pub open spec fn wf(self) -> bool {
        &&& self.listeners.wf()
        &&& self.keyboard.wf()
    }

    /// Everything of the tab but the navigation flag is the same.
    pub open spec fn same_but_navigating(pre: Tab, post: Tab) -> bool {
        &&& post.target_id == pre.target_id
        &&& post.session_id == pre.session_id
        &&& post.default_timeout_ms == pre.default_timeout_ms
        &&& post.slow_motion_multiplier_hundredths == pre.slow_motion_multiplier_hundredths
        &&& post.listeners == pre.listeners
        &&& post.auth_response == pre.auth_response
        &&& post.queued_files == pre.queued_files
        &&& post.response_handling_enabled == pre.response_handling_enabled
        &&& post.keyboard == pre.keyboard
        &&& post.mouse == pre.mouse
    }

    /// A freshly attached tab: not navigating, three-second default
    /// timeout, slow motion off, no listeners, the default auth policy
    /// (no credentials), no queued files, no response handler.
    pub fn new(target_id: String, session_id: String) -> (r: Tab)
        ensures
            r.wf(),
            r.target_id@ == target_id@,
            r.session_id@ == session_id@,
            r.navigating == false,
            r.default_timeout_ms == 3000,
            r.slow_motion_multiplier_hundredths == 0,
            r.listeners.handles@.len() == 0,
            r.auth_response.response@ == "Default"@,
            r.auth_response.username is None,
            r.auth_response.password is None,
            r.queued_files@.len() == 0,
            r.response_handling_enabled == false,
            r.keyboard.pressed_keys@.len() == 0,
            r.keyboard.modifiers == 0,
            r.mouse.x == 0 && r.mouse.y == 0 && r.mouse.button is None,
    {
        Tab {
            target_id,
            session_id,
            navigating: false,
            default_timeout_ms: 3000,
            slow_motion_multiplier_hundredths: 0,
            listeners: ListenerRegistry::new(),
            auth_response: AuthChallengeResponse {
                response: String::from_str("Default"),
                username: None,
                password: None,
            },
            queued_files: Vec::new(),
            response_handling_enabled: false,
            keyboard: Keyboard::new(),
            mouse: Mouse::new(),
        }
    }

    /// The id of the target this tab drives.
    pub fn get_target_id(&self) -> (r: &String)
        ensures
            r@ == self.target_id@,
    {
        &self.target_id
    }

    /// Whether a navigation is in flight; polled by navigation waits.
    pub fn is_navigating(&self) -> (r: bool)
        ensures
            r == self.navigating,
    {
        self.navigating
    }

    /// A navigation call went out: the flag is set until the page settles.
    pub fn note_navigation_started(&mut self)
        ensures
            final(self).navigating == true,
            Tab::same_but_navigating(*old(self), *final(self)),
    {
        self.navigating = true;
    }

    /// Set the default timeout of this tab's waits.
    pub fn set_default_timeout(&mut self, timeout_ms: u64)
        ensures
            *final(self) == (Tab { default_timeout_ms: timeout_ms, ..*old(self) }),
    {
        self.default_timeout_ms = timeout_ms;
    }

    /// Set the slow-motion multiplier, in hundredths; zero disables.
    pub fn set_slow_motion_multiplier(&mut self, hundredths: u64)
        ensures
            *final(self) == (Tab {
                slow_motion_multiplier_hundredths: hundredths,
                ..*old(self)
            }),
    {
        self.slow_motion_multiplier_hundredths = hundredths;
    }

    /// The pause a slow-motion step of this base length takes: the base
    /// scaled by the multiplier, zero when slow motion is off.
    pub fn slow_motion_delay(&self, base_ms: u64) -> (r: u64)
        requires
            base_ms <= 1_000_000,
            self.slow_motion_multiplier_hundredths <= 1_000_000,
        ensures
            r == base_ms * self.slow_motion_multiplier_hundredths / 100,
    {
        proof {
            assert(base_ms * self.slow_motion_multiplier_hundredths <= 1_000_000_000_000)
                by (nonlinear_arith)
                requires
                    base_ms <= 1_000_000,
                    self.slow_motion_multiplier_hundredths <= 1_000_000,
            ;
        }
        base_ms * self.slow_motion_multiplier_hundredths / 100
    }

    /// Install credentials for authentication challenges.
    pub fn authenticate(&mut self, username: Option<String>, password: Option<String>)
        ensures
            final(self).auth_response.response@ == "ProvideCredentials"@,
            final(self).auth_response.username == username,
            final(self).auth_response.password == password,
            final(self).navigating == old(self).navigating,
            Tab::same_but_navigating(
                *old(self),
                (Tab { auth_response: old(self).auth_response, ..*final(self) }),
            ),
    {
        self.auth_response = AuthChallengeResponse {
            response: String::from_str("ProvideCredentials"),
            username,
            password,
        };
    }

    /// Queue the files a chooser opened later will be resolved with.
    pub fn set_files(&mut self, files: Vec<String>)
        ensures
            *final(self) == (Tab { queued_files: files, ..*old(self) }),
    {
        self.queued_files = files;
    }

    /// A response handler was installed.
    pub fn enable_response_handling(&mut self)
        ensures
            *final(self) == (Tab { response_handling_enabled: true, ..*old(self) }),
    {
        self.response_handling_enabled = true;
    }

    /// Register a generic listener; every later event is broadcast to it
    /// until the handle is revoked.
    pub fn add_event_listener(&mut self) -> (h: u64)
        requires
            old(self).wf(),
            old(self).listeners.next_handle < u64::MAX,
        ensures
            final(self).wf(),
            final(self).listeners.handles@ == old(self).listeners.handles@.push(h),
            !old(self).listeners.handles@.contains(h),
            final(self).navigating == old(self).navigating,
            Tab::same_but_navigating(
                *old(self),
                (Tab { listeners: old(self).listeners, ..*final(self) }),
            ),
    {
        self.listeners.add()
    }

    /// Revoke a listener handle.
    pub fn remove_event_listener(&mut self, h: u64) -> (was_there: bool)
        requires
            old(self).wf(),
        ensures
            final(self).wf(),
            was_there == old(self).listeners.handles@.contains(h),
            !final(self).listeners.handles@.contains(h),
            final(self).navigating == old(self).navigating,
            Tab::same_but_navigating(
                *old(self),
                (Tab { listeners: old(self).listeners, ..*final(self) }),
            ),
    {
        self.listeners.remove(h)
    }

    /// The listener handles to broadcast an event to, in registration
    /// order.  Broadcast precedes category handling for every event.
    pub fn listeners_to_notify(&self) -> (r: Vec<u64>)
        ensures
            r@ == self.listeners.handles@,
    {
        self.listeners.targets()
    }

    /// Apply one routed event to the tab and say what the loop does next.
    /// Lifecycle milestones move the navigation flag: `init` raises it,
    /// `networkAlmostIdle` clears it, anything else leaves it.  Every
    /// other category leaves the whole state untouched and asks for its
    /// reaction: interception for a paused request, the installed auth
    /// policy for a challenge, a body fetch when a handler is installed,
    /// the queued files for a chooser — which stays unresolved when
    /// nothing is queued.
    pub fn handle_event(&mut self, ev: &TabEvent) -> (r: TabReaction)
        requires
            old(self).wf(),
        ensures
            final(self).wf(),
            Tab::same_but_navigating(*old(self), *final(self)),
            match *ev {
                TabEvent::Lifecycle { ref name } => {
                    &&& r is Ignored
                    &&& final(self).navigating == (if name@ == "init"@ {
                        true
                    } else if name@ == "networkAlmostIdle"@ {
                        false
                    } else {
                        old(self).navigating
                    })
                },
                TabEvent::RequestPaused { ref request_id } => {
                    &&& final(self).navigating == old(self).navigating
                    &&& match r {
                        TabReaction::AskInterceptor { request_id: ref rid } => rid@
                            == request_id@,
                        _ => false,
                    }
                },
                TabEvent::AuthRequired { ref request_id } => {
                    &&& final(self).navigating == old(self).navigating
                    &&& match r {
                        TabReaction::ContinueWithAuth { request_id: ref rid, ref auth } => rid@
                            == request_id@ && *auth == old(self).auth_response,
                        _ => false,
                    }
                },
                TabEvent::ResponseReceived { ref request_id } => {
                    &&& final(self).navigating == old(self).navigating
                    &&& if old(self).response_handling_enabled {
                        match r {
                            TabReaction::FetchResponseBody { request_id: ref rid } => rid@
                                == request_id@,
                            _ => false,
                        }
                    } else {
                        r is Ignored
                    }
                },
                TabEvent::FileChooserOpened { backend_node_id } => {
                    &&& final(self).navigating == old(self).navigating
                    &&& if old(self).queued_files@.len() > 0 {
                        match r {
                            TabReaction::SetInputFiles { ref files, backend_node_id: node } => files@
                                == old(self).queued_files@ && node == backend_node_id,
                            _ => false,
                        }
                    } else {
                        r is Ignored
                    }
                },
                TabEvent::Other { .. } => {
                    &&& final(self).navigating == old(self).navigating
                    &&& r is Ignored
                },
            },
    {
        match ev {
            TabEvent::Lifecycle { name } => {
                proof {
                    reveal_strlit("init");
                    reveal_strlit("networkAlmostIdle");
                    assert("init"@.len() == 4);
                    assert("networkAlmostIdle"@.len() == 17);
                }
                if crate::strfind::str_eq(name.as_str(), "init") {
                    self.navigating = true;
                } else if crate::strfind::str_eq(name.as_str(), "networkAlmostIdle") {
                    self.navigating = false;
                }
                TabReaction::Ignored
            },
            TabEvent::RequestPaused { request_id } => {
                TabReaction::AskInterceptor { request_id: request_id.clone() }
            },
            TabEvent::AuthRequired { request_id } => {
                TabReaction::ContinueWithAuth {
                    request_id: request_id.clone(),
                    auth: copy_auth(&self.auth_response),
                }
            },
            TabEvent::ResponseReceived { request_id } => {
                if self.response_handling_enabled {
                    TabReaction::FetchResponseBody { request_id: request_id.clone() }
                } else {
                    TabReaction::Ignored
                }
            },
            TabEvent::FileChooserOpened { backend_node_id } => {
                if self.queued_files.len() > 0 {
                    TabReaction::SetInputFiles {
                        files: copy_strings(&self.queued_files),
                        backend_node_id: *backend_node_id,
                    }
                } else {
                    TabReaction::Ignored
                }
            },
            TabEvent::Other { .. } => TabReaction::Ignored,
        }
    }
}

/// What a navigation call came back with: the browser reports a failed
/// navigation through an error text in an otherwise successful reply.
pub fn navigation_result(error_text: Option<String>) -> (r: Result<(), NavigationFailed>)
    ensures
        match error_text {
            Some(t) => match r {
                Err(e) => e.error_text@ == t@,
                Ok(_) => false,
            },
            None => r is Ok,
        },
{
    match error_text {
        Some(t) => Err(NavigationFailed { error_text: t }),
        None => Ok(()),
    }
}

/// The decoded bytes of a captured screenshot or document, if the data is
/// well-formed transfer encoding.
pub uninterp spec fn b64_decoded(s: Seq<char>) -> Option<Seq<u8>>;

/// Relies on base64::decode: decodes standard base64, whose result depends
/// on the input text alone; undecodable input is an error.
#[verifier::external_body]
fn base64_decode(data: &str) -> (r: Option<Vec<u8>>)
    ensures
        match r {
            Some(v) => b64_decoded(data@) == Some(v@),
            None => b64_decoded(data@) is None,
        },
{
    base64::decode(data).ok()
}

/// Decode the transfer encoding the browser wraps captured screenshot and
/// document bytes in.
pub fn decode_capture_data(data: &str) -> (r: Option<Vec<u8>>)
    ensures
        match r {
            Some(v) => b64_decoded(data@) == Some(v@),
            None => b64_decoded(data@) is None,
        },
{
    base64_decode(data)
}

} // verus!
