//! Paths as the storage backend names them, and as the outside world does.

use crate::error::{fails_as, fails_with, ErrorKind, TableError};
use crate::table::Table;
use crate::text::{is_prefix, strip_prefix};
use crate::types::StorageInfo;
use vstd::prelude::*;
use vstd::string::*;

verus! {

/// `url::ParseError`, what `url::Url::parse` refuses an input with. It is
/// carried, never looked into.
#[verifier::external_type_specification]
#[verifier::external_body]
pub struct ExUrlParseError(url::ParseError);

/// The host and the path of a parsed URL.
#[derive(Debug, Clone, PartialEq, Eq)]
pub struct UrlParts {
    pub host: Option<String>,
    pub path: String,
}

impl UrlParts {
    /// The host, as a character sequence.
    pub open spec fn host_view(self) -> Option<Seq<char>> {
        match self.host {
            Some(host) => Some(host@),
            None => None,
        }
    }
}

/// Whether `url::Url::parse` accepts `input`.
pub uninterp spec fn url_parses(input: Seq<char>) -> bool;

/// What `Url::host_str` gives for the URL that `input` parses to.
pub uninterp spec fn url_host(input: Seq<char>) -> Option<Seq<char>>;

/// What `Url::path` gives for the URL that `input` parses to.
pub uninterp spec fn url_path(input: Seq<char>) -> Seq<char>;

/// Parses `input` with `url::Url::parse` and takes the host with
/// `Url::host_str` and the path with `Url::path`. Nothing is proved here: the
/// contract only names what the crate decides.
#[verifier::external_body]
pub(crate) fn parse_url(input: &str) -> (r: Result<UrlParts, url::ParseError>)
    ensures
        r is Ok == url_parses(input@),
        r matches Ok(parts) ==> parts.host_view() == url_host(input@) && parts.path@ == url_path(
            input@,
        ),
{
    let url = url::Url::parse(input)?;
    Ok(UrlParts { host: url.host_str().map(|h| h.to_string()), path: url.path().to_string() })
}

/// The absolute form of `relative`, a path under the storage root.
pub open spec fn spec_absolution_path(
    scheme: Seq<char>,
    name: Seq<char>,
    root: Seq<char>,
    relative: Seq<char>,
) -> Seq<char> {
    scheme + "://"@ + name + "/"@ + root + "/"@ + relative
}

/// The path under the storage root of a URL with the given host and path,
/// or the kind of failure: `Unexpected` where the host is not the storage's
/// name, `IcebergDataInvalid` where the path does not begin with the root.
pub open spec fn spec_relative_path(
    name: Seq<char>,
    root: Seq<char>,
    host: Option<Seq<char>>,
    path: Seq<char>,
) -> Result<Seq<char>, ErrorKind> {
    if host != Some(name) {
        Err(ErrorKind::Unexpected)
    } else if is_prefix(root, path) {
        Ok(path.skip(root.len() as int))
    } else {
        Err(ErrorKind::IcebergDataInvalid)
    }
}

/// `r` is the text that `expected` gives, or a failure of the kind it gives.
pub open spec fn yields(
    r: Result<String, TableError>,
    expected: Result<Seq<char>, ErrorKind>,
) -> bool {
    match expected {
        Ok(text) => r matches Ok(found) && found@ == text,
        Err(kind) => fails_as(r, kind),
    }
}

impl Table {
    /// The absolute form of `relation_location`, a path under the root of
    /// the storage that `info` describes: scheme, `://`, name, root and the
    /// path, joined by slashes.
    pub fn absolution_path(info: &StorageInfo, relation_location: &str) -> (path: String)
        ensures
            path@ == spec_absolution_path(
                info.scheme@,
                info.name@,
                info.root@,
                relation_location@,
            ),
    {
        let mut path = info.scheme.clone();
        path.append("://");
        path.append(info.name.as_str());
        path.append("/");
        path.append(info.root.as_str());
        path.append("/");
        path.append(relation_location);
        path
    }

    /// The path under the root of the storage that `info` describes, for a
    /// URL that was parsed into `parts`.
    pub fn relative_path_of(info: &StorageInfo, parts: &UrlParts) -> (r: Result<String, TableError>)
        ensures
            yields(r, spec_relative_path(info.name@, info.root@, parts.host_view(), parts.path@)),
    {
        let same_host = match &parts.host {
            Some(host) => *host == info.name,
            None => false,
        };
        if !same_host {
            return Err(
                TableError::with_cause(
                    ErrorKind::Unexpected,
                    "Host does not match with operator info",
                    info.name.as_str(),
                ),
            );
        }
        match strip_prefix(parts.path.as_str(), info.root.as_str()) {
            Some(rest) => Ok(rest),
            None => Err(
                TableError::with_cause(
                    ErrorKind::IcebergDataInvalid,
                    "path is not starts with operator root",
                    info.root.as_str(),
                ),
            ),
        }
    }

    /// The path under the root of the storage that `info` describes, for the
    /// URL `absolute_path`. Fails with `IcebergDataInvalid` where it is no
    /// URL, and as `relative_path_of` does for its host and path.
    pub fn relative_path(info: &StorageInfo, absolute_path: &str) -> (r: Result<String, TableError>)
        ensures
            !url_parses(absolute_path@) ==> fails_with(
                r,
                ErrorKind::IcebergDataInvalid,
                "Failed to parse url"@,
            ),
            url_parses(absolute_path@) ==> yields(
                r,
                spec_relative_path(
                    info.name@,
                    info.root@,
                    url_host(absolute_path@),
                    url_path(absolute_path@),
                ),
            ),
    {
        match parse_url(absolute_path) {
            Ok(parts) => Table::relative_path_of(info, &parts),
            Err(_) => Err(TableError::new(ErrorKind::IcebergDataInvalid, "Failed to parse url")),
        }
    }
}

/// A table whose location is the absolute form of the storage root finds
/// every path under that root again: the relative form of the absolute form
/// of `relative` is `relative`.
pub proof fn rel_path_inverts_absolution_path(
    table: crate::table::TableState,
    scheme: Seq<char>,
    name: Seq<char>,
    root: Seq<char>,
    relative: Seq<char>,
)
    requires
        table.current_location == Some(spec_absolution_path(scheme, name, root, Seq::empty())),
    ensures
        table.rel_path(spec_absolution_path(scheme, name, root, relative)) == Some(relative),
{
    let base = spec_absolution_path(scheme, name, root, Seq::empty());
    let full = spec_absolution_path(scheme, name, root, relative);
    assert(full =~= base + relative);
    assert(full.subrange(0, base.len() as int) =~= base);
    assert(full.skip(base.len() as int) =~= relative);
}

} // verus!
