use vstd::prelude::*;

verus! {

#[verifier::external_type_specification]
#[verifier::external_body]
pub struct ExUrlParseError(url::ParseError);

/// What can go wrong while building camera addresses or reading ONVIF replies.
#[derive(Debug)]
pub enum RiotingError {
    /// The text built for a URL is not an absolute URL.
    InvalidUrl(url::ParseError),
    /// A camera's reply is not well-formed XML.
    InvalidXml(roxmltree::Error),
    /// A capabilities reply announces no address for the named service.
    MissingXAddr(String),
}

/// Start of the message of a missing service address.
pub const MISSING_XADDR_PREFIX: &'static str = "No XAddr found for service: ";

/// `No XAddr found for service: <service>`.
pub open spec fn missing_xaddr_message(service: Seq<char>) -> Seq<char> {
    MISSING_XADDR_PREFIX@ + service
}

/// The `Display` text of a `url::ParseError` (its variant's description, such as
/// `empty host`), through `ToString::to_string`. Nothing is claimed of the text:
/// the error is opaque here.
#[verifier::external_body]
fn url_error_text(e: &url::ParseError) -> String {
    e.to_string()
}

/// The `Display` text of a `roxmltree::Error` (its description and position),
/// through `ToString::to_string`. Nothing is claimed of the text: the error is
/// opaque here.
#[verifier::external_body]
fn xml_error_text(e: &roxmltree::Error) -> String {
    e.to_string()
}

impl RiotingError {
    /// The human-readable message of the error: for a missing service address,
    /// `No XAddr found for service: <service>`; otherwise the outside parser's own
    /// description of what it refused.
    pub fn message(&self) -> (r: String)
        ensures
            self matches RiotingError::MissingXAddr(service) ==> r@ == missing_xaddr_message(service@),
    {
        match self {
            RiotingError::InvalidUrl(e) => url_error_text(e),
            RiotingError::InvalidXml(e) => xml_error_text(e),
            RiotingError::MissingXAddr(service) => {
                let mut s = String::new();
                s.append(MISSING_XADDR_PREFIX);
                s.append(service.as_str());
                assert(s@ =~= missing_xaddr_message(service@));
                s
            },
        }
    }
}

} // verus!
