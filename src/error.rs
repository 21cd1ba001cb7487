use vstd::prelude::*;

verus! {

/// Every failure of a discovery run or of one resolution. Nested causes are
/// kept as their text, so the type stays closed and plain.
#[derive(Debug)]
pub enum Error {
    /// The search could not be issued or its transport failed.
    SSDPError(String),
    /// The description at the location (first field) could not be read.
    NetworkError(String, String),
    /// Device resolution at the location (first field) failed otherwise.
    RupnpError(String, String),
    NoLocalInterfaceOpen,
    IO(String),
    /// The location text is not a URL.
    InvalidUrl(String),
    ParseError(String),
    /// The server answered with this status code.
    HttpErrorCode(u16),
    /// The element or attribute (second field) is missing under the first.
    XmlMissingElement(String, String),
    InvalidResponse(String),
    /// A concurrently scheduled resolution could not be joined.
    JoinErr(String),
}

pub ghost enum ErrorView {
    SSDPError(Seq<char>),
    NetworkError(Seq<char>, Seq<char>),
    RupnpError(Seq<char>, Seq<char>),
    NoLocalInterfaceOpen,
    IO(Seq<char>),
    InvalidUrl(Seq<char>),
    ParseError(Seq<char>),
    HttpErrorCode(u16),
    XmlMissingElement(Seq<char>, Seq<char>),
    InvalidResponse(Seq<char>),
    JoinErr(Seq<char>),
}

impl View for Error {
    type V = ErrorView;

    open spec fn view(&self) -> ErrorView {
        match self {
            Error::SSDPError(c) => ErrorView::SSDPError(c@),
            Error::NetworkError(l, c) => ErrorView::NetworkError(l@, c@),
            Error::RupnpError(l, c) => ErrorView::RupnpError(l@, c@),
            Error::NoLocalInterfaceOpen => ErrorView::NoLocalInterfaceOpen,
            Error::IO(c) => ErrorView::IO(c@),
            Error::InvalidUrl(l) => ErrorView::InvalidUrl(l@),
            Error::ParseError(c) => ErrorView::ParseError(c@),
            Error::HttpErrorCode(s) => ErrorView::HttpErrorCode(*s),
            Error::XmlMissingElement(p, e) => ErrorView::XmlMissingElement(p@, e@),
            Error::InvalidResponse(c) => ErrorView::InvalidResponse(c@),
            Error::JoinErr(c) => ErrorView::JoinErr(c@),
        }
    }
}

} // verus!
