use vstd::prelude::*;

verus! {

/// The rendering half of the error capability: a human-readable text and a
/// debug text, both non-empty. Split off on its own so that a type-erased
/// handle can carry any renderable error value.
pub trait ErrorDisplay: Send {
    /// The human-readable text of this error, as a mathematical value.
    spec fn spec_render(&self) -> Seq<char>;

    /// The debug text of this error, as a mathematical value.
    spec fn spec_debug_render(&self) -> Seq<char>;

    /// The human-readable rendering, meant for end users and logs; never blank.
    fn render(&self) -> (r: String)
        ensures
            r@ == self.spec_render(),
            r@.len() > 0,
    ;

    /// The debug rendering, meant for diagnostics; never blank. It may equal
    /// the human-readable rendering.
    fn debug_render(&self) -> (r: String)
        ensures
            r@ == self.spec_debug_render(),
            r@.len() > 0,
    ;
}

/// The full error capability: rendering plus an optional underlying cause,
/// so that errors can be stacked while keeping track of the root cause.
///
/// A root-level error keeps the provided `source`, which reports no cause.
/// A wrapping error names the type of the error it wraps as `Cause` and
/// overrides `source` to hand out a reference to it.
pub trait Error: ErrorDisplay {
    /// The type of the underlying error this error wraps, if it wraps one.
    /// A root-level error names any renderable type here (itself, for
    /// instance); the choice is immaterial since its `source` reports no
    /// cause.
    type Cause: ErrorDisplay;

    /// The underlying source of this error, if any.
    fn source(&self) -> (r: Option<&Self::Cause>)
        default_ensures
            r is None,
    {
        None
    }
}

} // verus!
