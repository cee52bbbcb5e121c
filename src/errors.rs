use vstd::prelude::*;

verus! {

/// Why a dump could not be decoded.
#[derive(Debug)]
pub enum Error {
    /// A netlink message of this type is neither a new qdisc nor a new class.
    UnknownMessage(u16),
    /// A tc attribute (or statistics block) of this type has no decoder.
    UnknownAttribute(u16),
    /// No codec is registered for this qdisc or class kind.
    UnknownKind(String),
    /// The payload of the attribute of this type is malformed.
    MalformedAttribute(u16),
    /// A fixed-size structure needed this many bytes, and the payload held that many.
    UnmarshalStruct(usize, usize),
    /// The extended statistics of an FQ_CODEL qdisc use a layout with this tag,
    /// which is not the qdisc layout.
    UnknownXstatsFormat(u32),
    /// These blocks of segmented statistics (by block type) could not be decoded.
    Stats2(Vec<u16>),
    /// A required attribute of this type is absent.
    MissingAttribute(u16),
    /// A message in a datagram declares a length that the datagram cannot hold.
    Framing,
    /// The kernel answered with this error code.
    Kernel(i32),
    /// No link has this name.
    NoSuchLink(String),
    /// The socket could not be opened, or a request not sent or answered.
    Transport,
}

/// An `Error` as mathematical values.
pub enum ErrorView {
    UnknownMessage(u16),
    UnknownAttribute(u16),
    UnknownKind(Seq<char>),
    MalformedAttribute(u16),
    UnmarshalStruct(usize, usize),
    UnknownXstatsFormat(u32),
    Stats2(Seq<u16>),
    MissingAttribute(u16),
    Framing,
    Kernel(i32),
    NoSuchLink(Seq<char>),
    Transport,
}

impl View for Error {
    type V = ErrorView;

    open spec fn view(&self) -> ErrorView {
        match self {
            Error::UnknownMessage(t) => ErrorView::UnknownMessage(*t),
            Error::UnknownAttribute(t) => ErrorView::UnknownAttribute(*t),
            Error::UnknownKind(k) => ErrorView::UnknownKind(k@),
            Error::MalformedAttribute(t) => ErrorView::MalformedAttribute(*t),
            Error::UnmarshalStruct(n, m) => ErrorView::UnmarshalStruct(*n, *m),
            Error::UnknownXstatsFormat(t) => ErrorView::UnknownXstatsFormat(*t),
            Error::Stats2(v) => ErrorView::Stats2(v@),
            Error::MissingAttribute(t) => ErrorView::MissingAttribute(*t),
            Error::Framing => ErrorView::Framing,
            Error::Kernel(c) => ErrorView::Kernel(*c),
            Error::NoSuchLink(n) => ErrorView::NoSuchLink(n@),
            Error::Transport => ErrorView::Transport,
        }
    }
}

} // verus!
