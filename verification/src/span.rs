//! The primitive values that cross the boundary: a borrowed byte span and the
//! two presence-tagged wrappers.
use vstd::prelude::*;
use vstd::string::StringSliceAdditionalSpecFns;

verus! {

/// A non-owning span of bytes. `data` is absent for the canonical empty span;
/// otherwise it borrows exactly `len` bytes from whatever owns them.
#[derive(Clone, Copy, Debug)]
pub struct violet_net_string_view<'a> {
    pub len: usize,
    pub data: Option<&'a [u8]>,
}

impl<'a> View for violet_net_string_view<'a> {
    type V = Seq<u8>;

    /// The bytes that the span covers.
    open spec fn view(&self) -> Seq<u8> {
        match self.data {
            Some(bytes) => bytes@,
            None => Seq::empty(),
        }
    }
}

impl<'a> violet_net_string_view<'a> {
    /// The canonical empty span: no length and no data.
    pub fn empty() -> (span: violet_net_string_view<'a>)
        ensures
            span.wf(),
            span.is_canonical_empty(),
            span@ == Seq::<u8>::empty(),
    {
        violet_net_string_view { len: 0, data: None }
    }

    /// A span is never partially valid: its length is that of the bytes it
    /// borrows, and without data it has no length.
    pub open spec fn wf(&self) -> bool {
        match self.data {
            Some(bytes) => self.len == bytes@.len(),
            None => self.len == 0,
        }
    }

    /// Whether this is the canonical empty span.
    pub open spec fn is_canonical_empty(&self) -> bool {
        self.len == 0 && self.data is None
    }

    /// The span over the bytes of `s`, without a terminator.
    pub fn from_str(s: &'a str) -> (span: violet_net_string_view<'a>)
        ensures
            span.wf(),
            span.data is Some,
            span@ == s.spec_bytes(),
            span.len == s.spec_bytes().len(),
    {
        let bytes = s.as_bytes();
        violet_net_string_view { len: bytes.len(), data: Some(bytes) }
    }
}

/// A span that may be absent. When `something` is false, `data` is the
/// canonical empty span.
#[derive(Clone, Copy, Debug)]
pub struct violet_net_optional_string_view<'a> {
    pub something: bool,
    pub data: violet_net_string_view<'a>,
}

impl<'a> View for violet_net_optional_string_view<'a> {
    type V = Option<Seq<u8>>;

    /// The bytes, where there are any.
    open spec fn view(&self) -> Option<Seq<u8>> {
        if self.something {
            Some(self.data@)
        } else {
            None
        }
    }
}

impl<'a> violet_net_optional_string_view<'a> {
    /// The absent span.
    pub fn nothing() -> (span: violet_net_optional_string_view<'a>)
        ensures
            span.wf(),
            !span.something,
            span.data.is_canonical_empty(),
            span@ == None::<Seq<u8>>,
    {
        violet_net_optional_string_view { something: false, data: violet_net_string_view::empty() }
    }

    /// The payload is a valid span, and the canonical empty one when nothing
    /// is present.
    pub open spec fn wf(&self) -> bool {
        &&& self.data.wf()
        &&& !self.something ==> self.data.is_canonical_empty()
    }

    /// The projection of an optional text: present with its bytes, or absent.
    pub fn from_opt(s: Option<&'a str>) -> (span: violet_net_optional_string_view<'a>)
        ensures
            span.wf(),
            span.something == (s is Some),
            s is Some ==> span.data.data is Some,
            span@ == (match s {
                Some(text) => Some(text.spec_bytes()),
                None => None,
            }),
    {
        match s {
            Some(x) => Self::some(x),
            None => Self::nothing(),
        }
    }

    /// The present span over the bytes of `s`; present even where `s` is
    /// empty.
    pub fn some(s: &'a str) -> (span: violet_net_optional_string_view<'a>)
        ensures
            span.wf(),
            span.something,
            span.data.data is Some,
            span.data.len == s.spec_bytes().len(),
            span@ == Some(s.spec_bytes()),
    {
        violet_net_optional_string_view { something: true, data: violet_net_string_view::from_str(s) }
    }
}

/// A 16-bit value that may be absent. When `something` is false, `value` is
/// the largest 16-bit number.
#[derive(Clone, Copy, Debug)]
pub struct violet_net_optional_uint16 {
    pub something: bool,
    pub value: u16,
}

impl View for violet_net_optional_uint16 {
    type V = Option<u16>;

    /// The number, where there is one.
    open spec fn view(&self) -> Option<u16> {
        if self.something {
            Some(self.value)
        } else {
            None
        }
    }
}

impl violet_net_optional_uint16 {
    /// The absent number.
    pub fn nothing() -> (port: violet_net_optional_uint16)
        ensures
            port.wf(),
            !port.something,
            port.value == 0xffff,
            port@ == None::<u16>,
    {
        violet_net_optional_uint16 { something: false, value: 0xffff }
    }

    /// An absent number carries the sentinel.
    pub open spec fn wf(&self) -> bool {
        !self.something ==> self.value == 0xffff
    }

    /// The projection of an optional number: present with its value, or
    /// absent with the sentinel.
    pub fn from_opt(opt: Option<u16>) -> (port: violet_net_optional_uint16)
        ensures
            port.wf(),
            port@ == opt,
            port.something == (opt is Some),
            opt is None ==> port.value == 0xffff,
    {
        match opt {
            Some(x) => Self::from_u16(x),
            None => Self::nothing(),
        }
    }

    /// The present number `x`.
    pub fn from_u16(x: u16) -> (port: violet_net_optional_uint16)
        ensures
            port.wf(),
            port.something,
            port.value == x,
            port@ == Some(x),
    {
        violet_net_optional_uint16 { something: true, value: x }
    }
}

} // verus!
