//! The library's error type and the exact texts it surfaces.

use vstd::prelude::*;
use vstd::string::StringExecFns;

verus! {

/// Everything that can go wrong while navigating, parsing or saving.
#[derive(Debug)]
pub enum OpdsError {
    /// The selected entry offers only an unsupported acquisition kind;
    /// holds the offending link relation.
    Unsupported(String),
    /// The selected entry offers no navigation, no downloads and no
    /// acquisition kind at all.
    NoAction,
    /// Going back on the local connection with empty history.
    LocalRoot,
    /// Going back on a remote connection with empty history.
    RemoteRoot,
    /// Searching a server that advertises no search template.
    SearchDisabled,
    /// The body did not parse as an Atom feed; holds the parser's words.
    FeedParse(String),
    /// A feed link carries no mime-type.
    MissingMime,
    /// Some text did not parse or resolve as a URL.
    BadUrl,
    /// A `file://` address does not denote a filesystem path.
    BadFileUrl,
    /// The server's base URL has no domain to resolve references against.
    NoDomain,
    /// The downloaded bytes were sniffed as some other file type; holds
    /// the filename and the sniffed extension.
    WrongFileType(String, String),
    /// The downloaded bytes match no known file type; holds the filename.
    UnknownFileType(String),
    /// The fetched cover bytes are no decodable image; holds the
    /// decoder's words.
    ImageDecode(String),
    /// The credential store failed; holds a description.
    KeyringFailure(String),
}

/// The text shown for each error.
pub open spec fn message_spec(e: OpdsError) -> Seq<char> {
    match e {
        OpdsError::Unsupported(rel) => "Unsupported acquisition type: "@ + rel@,
        OpdsError::NoAction => "Cannot perform any action on this entry."@,
        OpdsError::LocalRoot => "At directory root; cannot go back."@,
        OpdsError::RemoteRoot => "At ODPS root; cannot go back."@,
        OpdsError::SearchDisabled => "Server does not have searching enabled."@,
        OpdsError::FeedParse(m) => m@,
        OpdsError::MissingMime => "malformed feed, expected mime-type"@,
        OpdsError::BadUrl => "invalid URL"@,
        OpdsError::BadFileUrl => "Somehow file path was wrong"@,
        OpdsError::NoDomain => "server base URL has no domain"@,
        OpdsError::WrongFileType(f, x) => "Could not save "@ + f@
            + ". File was not downloaded properly. File was returned from the server as a "@ + x@,
        OpdsError::UnknownFileType(f) => "Could not save "@ + f@ + ". The file type is not known."@,
        OpdsError::ImageDecode(m) => m@,
        OpdsError::KeyringFailure(m) => "Could not retrieve password: "@ + m@,
    }
}

impl OpdsError {
    /// The text shown for this error, as `message_spec` describes.
    pub fn message(&self) -> (r: String)
        ensures
            r@ == message_spec(*self),
    {
        match self {
            OpdsError::Unsupported(rel) => {
                let mut m: String = "Unsupported acquisition type: ".to_owned();
                m.append(rel.as_str());
                m
            },
            OpdsError::NoAction => "Cannot perform any action on this entry.".to_owned(),
            OpdsError::LocalRoot => "At directory root; cannot go back.".to_owned(),
            OpdsError::RemoteRoot => "At ODPS root; cannot go back.".to_owned(),
            OpdsError::SearchDisabled => "Server does not have searching enabled.".to_owned(),
            OpdsError::FeedParse(m) => m.clone(),
            OpdsError::MissingMime => "malformed feed, expected mime-type".to_owned(),
            OpdsError::BadUrl => "invalid URL".to_owned(),
            OpdsError::BadFileUrl => "Somehow file path was wrong".to_owned(),
            OpdsError::NoDomain => "server base URL has no domain".to_owned(),
            OpdsError::WrongFileType(f, x) => {
                let mut m: String = "Could not save ".to_owned();
                m.append(f.as_str());
                m.append(
                    ". File was not downloaded properly. File was returned from the server as a ",
                );
                m.append(x.as_str());
                m
            },
            OpdsError::UnknownFileType(f) => {
                let mut m: String = "Could not save ".to_owned();
                m.append(f.as_str());
                m.append(". The file type is not known.");
                m
            },
            OpdsError::ImageDecode(m) => m.clone(),
            OpdsError::KeyringFailure(m) => {
                let mut t: String = "Could not retrieve password: ".to_owned();
                t.append(m.as_str());
                t
            },
        }
    }
}

} // verus!
