use ruspiro_error::{BoxError, Error, ErrorDisplay, GenericError};

/// A consumer-defined error type that wraps a root cause.
struct Wrapper {
    inner: GenericError,
}

impl ErrorDisplay for Wrapper {
    // The two spec methods are ghost: they exist only for verification and
    // are never called at run time.
    fn spec_render(&self) -> vstd::seq::Seq<char> {
        unreachable!()
    }

    fn spec_debug_render(&self) -> vstd::seq::Seq<char> {
        unreachable!()
    }

    fn render(&self) -> String {
        String::from("wrapper failed")
    }

    fn debug_render(&self) -> String {
        String::from("Wrapper { .. }")
    }
}

impl Error for Wrapper {
    type Cause = GenericError;

    fn source(&self) -> Option<&GenericError> {
        Some(&self.inner)
    }
}

/// A consumer-defined root error that keeps the trait's provided `source`.
struct Leaf;

impl ErrorDisplay for Leaf {
    fn spec_render(&self) -> vstd::seq::Seq<char> {
        unreachable!()
    }

    fn spec_debug_render(&self) -> vstd::seq::Seq<char> {
        unreachable!()
    }

    fn render(&self) -> String {
        String::from("leaf failed")
    }

    fn debug_render(&self) -> String {
        String::from("leaf failed")
    }
}

impl Error for Leaf {
    type Cause = Leaf;
}

#[test]
fn provided_source_reports_no_cause() {
    assert!(Leaf.source().is_none());
}

#[test]
fn walking_the_chain_finds_the_root() {
    let w = Wrapper { inner: GenericError::with_message("root") };
    assert_eq!(w.render(), "wrapper failed");

    // first link: the wrapper reports its cause
    let root = w.source().expect("wrapper must report a cause");
    assert_eq!(root.render(), "Error: root");

    // second link: the root cause reports none
    assert!(root.source().is_none());
}

/// A consumer-defined error type whose cause is itself a boxed handle.
struct HandleWrapper {
    cause: BoxError,
}

impl ErrorDisplay for HandleWrapper {
    fn spec_render(&self) -> vstd::seq::Seq<char> {
        unreachable!()
    }

    fn spec_debug_render(&self) -> vstd::seq::Seq<char> {
        unreachable!()
    }

    fn render(&self) -> String {
        String::from("handle wrapper failed")
    }

    fn debug_render(&self) -> String {
        String::from("handle wrapper failed")
    }
}

impl Error for HandleWrapper {
    type Cause = BoxError;

    fn source(&self) -> Option<&BoxError> {
        Some(&self.cause)
    }
}

#[test]
fn a_handle_can_stand_as_a_cause() {
    let w = HandleWrapper { cause: GenericError::with_message("root").into() };
    let root = w.source().expect("wrapper must report a cause");
    assert_eq!(root.render(), "Error: root");
}

#[test]
fn consumer_error_converts_like_any_other() {
    let w = Wrapper { inner: GenericError::default() };
    let direct = w.render();
    let direct_debug = w.debug_render();
    let handle: BoxError = w.into();
    assert_eq!(handle.render(), direct);
    assert_eq!(handle.debug_render(), direct_debug);
}
