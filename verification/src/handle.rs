use vstd::prelude::*;
use crate::error::{Error, ErrorDisplay};

verus! {

/// The uniform, type-erased error handle: the type to use as the error arm of
/// a `Result` at module boundaries. It owns exactly one heap-allocated error
/// value together with the two texts that value rendered as when the handle
/// was made, so the handle renders exactly as the original value did.
///
/// It is `Send` because every `ErrorDisplay` implementer is, so a handle can
/// be moved to another thread. It implements [`ErrorDisplay`] itself, so it is
/// usable wherever a renderable error is expected — as the cause another
/// error reports, for instance.
///
/// A cause chain is walked on the concrete error value, through
/// [`Error::source`](crate::error::Error::source), before the value is boxed;
/// the handle itself only renders.
pub struct BoxError {
    inner: Box<dyn ErrorDisplay>,
    text: String,
    debug_text: String,
}

impl BoxError {
    #[verifier::type_invariant]
    spec fn inv(self) -> bool {
        self.text@.len() > 0 && self.debug_text@.len() > 0
    }

    /// Box an error value. The handle takes ownership of the value and
    /// renders exactly as the value did.
    pub fn new<E: Error + 'static>(e: E) -> (r: BoxError)
        ensures
            r.spec_render() == e.spec_render(),
            r.spec_debug_render() == e.spec_debug_render(),
            r.spec_render().len() > 0,
            r.spec_debug_render().len() > 0,
    {
        let text = e.render();
        let debug_text = e.debug_render();
        BoxError { inner: Box::new(e), text, debug_text }
    }
}

impl ErrorDisplay for BoxError {
    /// The human-readable text this handle renders as.
    closed spec fn spec_render(&self) -> Seq<char> {
        self.text@
    }

    /// The debug text this handle renders as.
    closed spec fn spec_debug_render(&self) -> Seq<char> {
        self.debug_text@
    }

    fn render(&self) -> (r: String) {
        proof {
            use_type_invariant(self);
        }
        self.text.clone()
    }

    fn debug_render(&self) -> (r: String) {
        proof {
            use_type_invariant(self);
        }
        self.debug_text.clone()
    }
}

impl<E: Error + 'static> From<E> for BoxError {
    /// Convert any error value into a [`BoxError`], so that `.into()` and the
    /// `?` operator can hand a concrete error back as the uniform handle.
    /// The conversion is total and keeps both renderings unchanged.
    fn from(e: E) -> (r: BoxError)
        ensures
            r.spec_render() == e.spec_render(),
            r.spec_debug_render() == e.spec_debug_render(),
    {
        BoxError::new(e)
    }
}

/// The resulting handle holds a freshly boxed value, which no spec expression
/// can name, so the conversion does not obey a `from_spec`; what `from`
/// promises stands in its own `ensures` above.
impl<E: Error + 'static> vstd::std_specs::convert::FromSpecImpl<E> for BoxError {
    open spec fn obeys_from_spec() -> bool {
        false
    }

    open spec fn from_spec(e: E) -> BoxError {
        arbitrary()
    }
}

} // verus!
