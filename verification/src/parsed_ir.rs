//! The parsed intermediate representation and its two ownership modes.
//!
//! Parsing a word buffer through a context yields an owned representation.
//! When a compiler is created from a representation, the native layer is told
//! a capture mode: an owned value must be copied, so that it stays
//! independently valid and reusable, while a borrowed view hands its
//! ownership over, and so may be consumed by at most one compiler creation.
//! Picking the wrong mode either leaks a needless clone or frees a
//! transferred handle twice; the mode is therefore derived from the value's
//! ownership variant and from nothing else.

use core::marker::PhantomData;
use vstd::prelude::*;

use crate::context::Context;
use crate::error::Error;
use crate::error::spvc_result;

verus! {

/// How compiler creation captures the intermediate representation it is given.
#[allow(non_camel_case_types)]
#[derive(Clone, Copy, Debug, PartialEq, Eq, Structural)]
pub enum spvc_capture_mode {
    SPVC_CAPTURE_MODE_COPY,
    SPVC_CAPTURE_MODE_TAKE_OWNERSHIP,
}

impl spvc_capture_mode {
    /// The numeric code that names the capture mode to the native layer:
    /// zero to copy, one to take ownership.
    pub open spec fn spec_value(self) -> u32 {
        match self {
            spvc_capture_mode::SPVC_CAPTURE_MODE_COPY => 0,
            spvc_capture_mode::SPVC_CAPTURE_MODE_TAKE_OWNERSHIP => 1,
        }
    }

    /// The numeric code of the capture mode.
    #[verifier::when_used_as_spec(spec_value)]
    pub fn value(self) -> (r: u32)
        ensures
            r == self.spec_value(),
    {
        match self {
            spvc_capture_mode::SPVC_CAPTURE_MODE_COPY => 0,
            spvc_capture_mode::SPVC_CAPTURE_MODE_TAKE_OWNERSHIP => 1,
        }
    }
}

/// An intermediate representation parsed from a word buffer, owned by its
/// context: the context must outlive it, and holds every native resource
/// behind it.
pub struct OwnedParsedIr<'a> {
    ctx: PhantomData<&'a Context>,
}

impl<'a> OwnedParsedIr<'a> {
    /// Accepts the outcome of submitting a word buffer to the native parser
    /// through `ctx`: on success the owned representation, tied to the
    /// context's lifetime; on failure the structured error built from the
    /// status and the context's last-error slot.
    pub fn new(ctx: &'a mut Context, status: spvc_result) -> (r: Result<OwnedParsedIr<'a>, Error>)
        ensures
            status is SPVC_SUCCESS <==> r is Ok,
            r matches Err(e) ==> e.code == status && (e.err_msg matches Some(m) && m@ == old(
                ctx,
            ).fetched_error_spec()),
            *final(ctx) == *old(ctx),
    {
        ctx.get_error(status)?;
        Ok(OwnedParsedIr { ctx: PhantomData })
    }
}

/// An intermediate representation in one of its two ownership modes: owned
/// outright, or a borrowed view of an owned value.
///
/// An owned value may be viewed many times, and each borrowed view may be
/// consumed at most once by a compiler creation, which the move of the view
/// enforces.
pub enum ParsedIr<'a, 'b> {
    Owned(OwnedParsedIr<'a>),
    Borrowed(&'b OwnedParsedIr<'a>),
}

impl<'a, 'b> ParsedIr<'a, 'b> {
    /// Accepts the outcome of parsing a word buffer through `ctx`, as an
    /// owned representation.
    pub fn new(ctx: &'a mut Context, status: spvc_result) -> (r: Result<ParsedIr<'a, 'b>, Error>)
        ensures
            status is SPVC_SUCCESS <==> r is Ok,
            r matches Ok(ir) ==> ir is Owned,
            r matches Err(e) ==> e.code == status && (e.err_msg matches Some(m) && m@ == old(
                ctx,
            ).fetched_error_spec()),
            *final(ctx) == *old(ctx),
    {
        match OwnedParsedIr::new(ctx, status) {
            Ok(ir) => Ok(ParsedIr::Owned(ir)),
            Err(e) => Err(e),
        }
    }

    /// The capture mode that the variant of the representation determines.
    pub open spec fn mode_spec(&self) -> spvc_capture_mode {
        match self {
            ParsedIr::Owned(_) => spvc_capture_mode::SPVC_CAPTURE_MODE_COPY,
            ParsedIr::Borrowed(_) => spvc_capture_mode::SPVC_CAPTURE_MODE_TAKE_OWNERSHIP,
        }
    }

    /// The capture mode to communicate when a compiler is created from this
    /// representation: an owned value is copied by the native compiler and
    /// stays reusable, a borrowed view has its ownership transferred.
    pub fn mode(&self) -> (r: spvc_capture_mode)
        ensures
            r == self.mode_spec(),
    {
        match self {
            ParsedIr::Owned(_) => spvc_capture_mode::SPVC_CAPTURE_MODE_COPY,
            ParsedIr::Borrowed(_) => spvc_capture_mode::SPVC_CAPTURE_MODE_TAKE_OWNERSHIP,
        }
    }

    /// The owned representation behind either variant.
    pub fn as_owned(&self) -> (r: &OwnedParsedIr<'a>)
        ensures
            self is Owned ==> r == self->Owned_0,
            self is Borrowed ==> r == self->Borrowed_0,
    {
        match self {
            ParsedIr::Owned(x) => x,
            ParsedIr::Borrowed(x) => x,
        }
    }
}

impl<'a, 'b> From<OwnedParsedIr<'a>> for ParsedIr<'a, 'b> {
    /// Wraps an owned representation in its owned mode.
    fn from(value: OwnedParsedIr<'a>) -> (r: ParsedIr<'a, 'b>) {
        ParsedIr::Owned(value)
    }
}

impl<'a, 'b> vstd::std_specs::convert::FromSpecImpl<OwnedParsedIr<'a>> for ParsedIr<'a, 'b> {
    open spec fn obeys_from_spec() -> bool {
        true
    }

    open spec fn from_spec(value: OwnedParsedIr<'a>) -> ParsedIr<'a, 'b> {
        ParsedIr::Owned(value)
    }
}

impl<'a, 'b> From<&'b OwnedParsedIr<'a>> for ParsedIr<'a, 'b> {
    /// Takes a fresh borrowed view of an owned representation.
    fn from(value: &'b OwnedParsedIr<'a>) -> (r: ParsedIr<'a, 'b>) {
        ParsedIr::Borrowed(value)
    }
}

impl<'a, 'b> vstd::std_specs::convert::FromSpecImpl<&'b OwnedParsedIr<'a>> for ParsedIr<'a, 'b> {
    open spec fn obeys_from_spec() -> bool {
        true
    }

    open spec fn from_spec(value: &'b OwnedParsedIr<'a>) -> ParsedIr<'a, 'b> {
        ParsedIr::Borrowed(value)
    }
}

} // verus!
