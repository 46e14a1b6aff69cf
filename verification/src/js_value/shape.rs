//! The typed wrapper of a guest value: a handle that is checked for its
//! shape once, when it is wrapped, and that is tied to the runtime that it
//! came from.

use crate::error::Error;
use vstd::prelude::*;
use vstd::string::StringExecFns;

verus! {

/// The shape that a typed wrapper expects of its guest value.
#[derive(Debug, Clone, Copy, PartialEq, Eq, Hash, Structural)]
pub enum Shape {
    Object,
    Promise,
    Function,
}

/// What the guest engine says of a live value: which shapes it has, and
/// the name of its type for messages.
#[derive(Debug, Clone, PartialEq, Eq)]
pub struct ValueFacts {
    pub is_object: bool,
    pub is_promise: bool,
    pub is_function: bool,
    pub type_repr: String,
}

impl Shape {
    /// Whether a value with these facts has this shape.
    pub open spec fn fits(self, found: &ValueFacts) -> bool {
        match self {
            Shape::Object => found.is_object,
            Shape::Promise => found.is_promise,
            Shape::Function => found.is_function,
        }
    }

    /// How the message of a mismatch begins.
    pub open spec fn expectation(self) -> Seq<char> {
        match self {
            Shape::Object => "Expected an object, found `"@,
            Shape::Promise => "Expected a promise, found `"@,
            Shape::Function => "Expected a function, found `"@,
        }
    }

    /// The message of a mismatch: the expectation, then the name of the
    /// type that was found, between backticks.
    pub open spec fn mismatch(self, type_repr: Seq<char>) -> Seq<char> {
        self.expectation() + type_repr + "`"@
    }
}

/// Checks that a guest value has the shape that a wrapper expects.
///
/// A value of another shape is a decode error that names the type found.
pub fn check_shape(expected: Shape, found: &ValueFacts) -> (r: Result<(), Error>)
    ensures
        r is Ok <==> expected.fits(found),
        r matches Err(e) ==> e matches Error::JsonDecode(message) && message@ == expected.mismatch(
            found.type_repr@,
        ),
{
    let (fits, opening) = match expected {
        Shape::Object => (found.is_object, "Expected an object, found `"),
        Shape::Promise => (found.is_promise, "Expected a promise, found `"),
        Shape::Function => (found.is_function, "Expected a function, found `"),
    };
    if fits {
        Ok(())
    } else {
        let mut message = String::from_str(opening);
        message.append(found.type_repr.as_str());
        message.append("`");
        Err(Error::JsonDecode(message))
    }
}

/// A handle on a guest value of a known shape.
///
/// The handle itself is the engine's and opaque here. It is wrapped only
/// after the shape check, and given out only to the runtime that it came
/// from: the wrapper alone does not reach the guest value.
#[derive(Debug, Clone, PartialEq, Eq, Hash)]
pub struct TypedHandle<H> {
    handle: H,
    shape: Shape,
    runtime: u64,
}

impl<H> TypedHandle<H> {
    /// The handle that is wrapped.
    pub closed spec fn spec_handle(&self) -> H {
        self.handle
    }

    /// The shape that the value had when it was wrapped.
    pub closed spec fn spec_shape(&self) -> Shape {
        self.shape
    }

    /// The identifier of the runtime that the value lives in.
    pub closed spec fn spec_runtime(&self) -> u64 {
        self.runtime
    }

    /// Wraps a handle of the runtime `runtime` on a value of which the
    /// guest engine says `found`, if the value has the expected shape.
    ///
    /// A value of another shape is a decode error that names the type
    /// found.
    pub fn wrap(handle: H, runtime: u64, expected: Shape, found: &ValueFacts) -> (r: Result<
        Self,
        Error,
    >)
        ensures
            r is Ok <==> expected.fits(found),
            r matches Ok(wrapped) ==> wrapped.spec_handle() == handle && wrapped.spec_shape()
                == expected && wrapped.spec_runtime() == runtime,
            r matches Err(e) ==> e matches Error::JsonDecode(message) && message@
                == expected.mismatch(found.type_repr@),
    {
        match check_shape(expected, found) {
            Ok(()) => Ok(TypedHandle { handle, shape: expected, runtime }),
            Err(e) => Err(e),
        }
    }

    /// The shape that the value had when it was wrapped.
    #[verifier::when_used_as_spec(spec_shape)]
    pub fn shape(&self) -> (shape: Shape)
        ensures
            shape == self.spec_shape(),
    {
        self.shape
    }

    /// The identifier of the runtime that the value lives in.
    #[verifier::when_used_as_spec(spec_runtime)]
    pub fn runtime(&self) -> (runtime: u64)
        ensures
            runtime == self.spec_runtime(),
    {
        self.runtime
    }

    /// The handle, for the runtime that presents itself as `runtime`.
    ///
    /// Another runtime than the one that the value came from gets an
    /// error that names both.
    pub fn access(&self, runtime: u64) -> (r: Result<&H, Error>)
        ensures
            r is Ok <==> runtime == self.spec_runtime(),
            r matches Ok(handle) ==> *handle == self.spec_handle(),
            r matches Err(e) ==> e == (Error::WrongRuntime {
                expected: self.spec_runtime(),
                found: runtime,
            }),
    {
        if runtime == self.runtime {
            Ok(&self.handle)
        } else {
            Err(Error::WrongRuntime { expected: self.runtime, found: runtime })
        }
    }
}

} // verus!
