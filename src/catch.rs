//! Failure transformers: a default status code, a custom handler that may
//! decline, and a default renderer for when it does.

use vstd::prelude::*;
use crate::response::{default_response, default_view, plain_view, transparent, Response};
use crate::status::{is_valid_code, resolve, Status};

verus! {

/// Turns one failure value into one response.
pub struct Transformer<F, D> {
    /// The status code handed to `handle` and to `default_render`.
    pub code: Status,
    /// May answer with a complete response, or decline with `None`.
    pub handle: F,
    /// Answers when `handle` declines.
    pub default_render: D,
}

/// The responses that `t` may give for `failure`: the custom handler's
/// response untouched, or, when it declines, the default renderer's.
pub open spec fn catch_outcome<E, F, D>(t: Transformer<F, D>, failure: E, r: Response) -> bool where
    F: FnOnce(Status, E) -> Option<Response>,
    D: Fn(Status) -> Response,
{
    ||| call_ensures(t.handle, (t.code, failure), Some(r))
    ||| call_ensures(t.handle, (t.code, failure), None) && call_ensures(
        t.default_render,
        (t.code,),
        r,
    )
}

impl<F, D> Transformer<F, D> {
    /// Hands the failure to the custom handler; if it declines, renders the
    /// default response for the status code.
    pub fn apply<E>(self, failure: E) -> (r: Response) where
        F: FnOnce(Status, E) -> Option<Response>,
        D: Fn(Status) -> Response,
        requires
            call_requires(self.handle, (self.code, failure)),
            call_requires(self.default_render, (self.code,)),
        ensures
            catch_outcome(self, failure, r),
    {
        let Transformer { code, handle, default_render } = self;
        match handle(code, failure) {
            Some(r) => r,
            None => default_render(code),
        }
    }
}

/// Builds a transformer. The code is resolved now, not when a failure comes.
pub fn catch<F, D>(code: u16, handle: F, default_render: D) -> (r: Transformer<F, D>)
    requires
        is_valid_code(code),
    ensures
        r.code.value() == code,
        r.handle == handle,
        r.default_render == default_render,
{
    Transformer { code: resolve(code), handle, default_render }
}

/// Hides the failure and answers with the generic status text.
pub struct Stop {
    pub code: Status,
}

impl Stop {
    /// The generic response for the status code, whatever the failure holds.
    pub fn apply<E>(self, failure: E) -> (r: Response)
        ensures
            r@ == default_view(self.code.value()),
            r.status == self.code,
    {
        let decline = |_code: Status, _failure: E| -> (o: Option<Response>)
            ensures
                o is None,
            { None };
        let t = Transformer { code: self.code, handle: decline, default_render: default_response };
        t.apply(failure)
    }
}

/// A transformer that discards the failure: `catch` with a handler that
/// always declines and the generic renderer.
pub fn stop(code: u16) -> (r: Stop)
    requires
        is_valid_code(code),
    ensures
        r.code.value() == code,
{
    Stop { code: resolve(code) }
}

/// Shows the failure's textual form as the body.
pub struct TransparentStop {
    pub code: Status,
}

impl TransparentStop {
    /// A response whose body is exactly `text`, the failure's textual form.
    pub fn apply(self, text: String) -> (r: Response)
        ensures
            r@ == plain_view(self.code.value(), text@),
            r.status == self.code,
            r.body == text,
    {
        let t = Transformer { code: self.code, handle: transparent, default_render: default_response };
        t.apply(text)
    }
}

/// A transformer that shows the failure: `catch` with the transparent
/// renderer as handler and the generic renderer as fallback.
pub fn transparent_stop(code: u16) -> (r: TransparentStop)
    requires
        is_valid_code(code),
    ensures
        r.code.value() == code,
{
    TransparentStop { code: resolve(code) }
}

/// When the custom handler answers with `custom`, the transformer returns
/// that response untouched, whatever status code it carries.
pub proof fn lemma_catch_keeps_custom<E, F, D>(
    t: Transformer<F, D>,
    failure: E,
    custom: Response,
    r: Response,
) where
    F: FnOnce(Status, E) -> Option<Response>,
    D: Fn(Status) -> Response,

    requires
        forall|o: Option<Response>| call_ensures(t.handle, (t.code, failure), o) ==> o == Some(custom),
        catch_outcome(t, failure, r),
    ensures
        r == custom,
{
}

/// When the custom handler declines, the transformer returns exactly what
/// the default renderer gives for the resolved code.
pub proof fn lemma_catch_falls_back<E, F, D>(
    t: Transformer<F, D>,
    failure: E,
    rendered: Response,
    r: Response,
) where
    F: FnOnce(Status, E) -> Option<Response>,
    D: Fn(Status) -> Response,

    requires
        forall|o: Option<Response>| call_ensures(t.handle, (t.code, failure), o) ==> o is None,
        forall|d: Response| call_ensures(t.default_render, (t.code,), d) ==> d == rendered,
        catch_outcome(t, failure, r),
    ensures
        r == rendered,
{
}

/// Stopping with a code gives, for any failure, a response with that code
/// and the same content as the generic renderer gives for it.
pub proof fn lemma_stop_renders_default<E>(
    code: u16,
    failure: E,
    s: Stop,
    r: Response,
    status: Status,
    d: Response,
)
    requires
        call_ensures(stop, (code,), s),
        call_ensures(Stop::apply::<E>, (s, failure), r),
        status.value() == code,
        call_ensures(default_response, (status,), d),
    ensures
        r.status.value() == code,
        r@ == d@,
{
}

/// A transparent stop with a code answers with that code and exactly the
/// failure's textual form.
pub proof fn lemma_transparent_stop_shows_text(code: u16, text: String, s: TransparentStop, r: Response)
    requires
        call_ensures(transparent_stop, (code,), s),
        call_ensures(TransparentStop::apply, (s, text), r),
    ensures
        r.status.value() == code,
        r.body == text,
        r@.headers.len() == 0,
{
}

} // verus!
