//! What is decided when a dependency is fetched from a registry.

use vstd::prelude::*;
use crate::misc::{join_path, spec_join_path};
use crate::text::{from_char_range, is_whitespace, to_chars, unicode_whitespace};

verus! {

/// The message for a dependency that lacks a field.
pub open spec fn field_required_message(field: Seq<char>, name: Seq<char>) -> Seq<char> {
    "Field \""@ + field + "\" required for dependency \""@ + name + "\""@
}

/// Where in a registry a package is asked for.
#[derive(Clone, Debug)]
pub struct RegistryRequest {
    /// The address of the registry, ending with a slash.
    pub base: String,
    /// The path of the package, seen from there.
    pub path: String,
}

/// The address of a registry, with a slash at its end.
pub open spec fn spec_registry_base(registry: Seq<char>) -> Seq<char> {
    if registry.len() > 0 && registry.last() == '/' {
        registry
    } else {
        registry + "/"@
    }
}

/// The path under which one version of a package is asked for.
pub open spec fn spec_package_path(name: Seq<char>, version: Seq<char>, channel: Seq<char>) -> Seq<
    char,
> {
    "get"@ + "/"@ + name + "/"@ + version + "/"@ + channel
}

/// Where a dependency is asked for. Version and channel have to be
/// given.
pub fn registry_request(
    registry: String,
    name: &str,
    info_version: &Option<String>,
    info_channel: &Option<String>,
) -> (r: Result<RegistryRequest, String>)
    ensures
        match (*info_version, *info_channel) {
            (None, _) => r matches Err(m) && m@ == field_required_message("version"@, name@),
            (Some(_), None) => r matches Err(m) && m@ == field_required_message(
                "channel"@,
                name@,
            ),
            (Some(version), Some(channel)) => r matches Ok(x) && x.base@ == spec_registry_base(
                registry@,
            ) && x.path@ == spec_package_path(name@, version@, channel@),
        },
{
    let version = match info_version {
        Some(x) => x,
        None => {
            let mut msg: String = "Field \"".to_owned();
            msg.append("version");
            msg.append("\" required for dependency \"");
            msg.append(name);
            msg.append("\"");
            return Err(msg);
        },
    };
    let channel = match info_channel {
        Some(x) => x,
        None => {
            let mut msg: String = "Field \"".to_owned();
            msg.append("channel");
            msg.append("\" required for dependency \"");
            msg.append(name);
            msg.append("\"");
            return Err(msg);
        },
    };
    let chars = to_chars(registry.as_str());
    let mut base = registry;
    if !(chars.len() > 0 && chars[chars.len() - 1] == '/') {
        base.append("/");
    }
    let mut path: String = "get".to_owned();
    path.append("/");
    path.append(name);
    path.append("/");
    path.append(version.as_str());
    path.append("/");
    path.append(channel.as_str());
    Ok(RegistryRequest { base, path })
}

/// Where a package is kept once it was fetched.
pub open spec fn spec_package_cache_path(
    cache_dir: Seq<char>,
    name: Seq<char>,
    channel: Seq<char>,
) -> Seq<char> {
    spec_join_path(
        spec_join_path(spec_join_path(spec_join_path(cache_dir, "catapult"@), "cache"@), name),
        channel,
    )
}

/// Where a package is kept once it was fetched.
pub fn package_cache_path(cache_dir: &str, name: &str, channel: &str) -> (r: String)
    ensures
        r@ == spec_package_cache_path(cache_dir@, name@, channel@),
{
    let a = join_path(cache_dir, "catapult");
    let b = join_path(a.as_str(), "cache");
    let c = join_path(b.as_str(), name);
    join_path(c.as_str(), channel)
}

/// `s` without the white space at its beginning.
pub open spec fn trim_start(s: Seq<char>) -> Seq<char>
    decreases s.len(),
{
    if s.len() > 0 && unicode_whitespace(s.first()) {
        trim_start(s.drop_first())
    } else {
        s
    }
}

/// `s` without the white space at its end.
pub open spec fn trim_end(s: Seq<char>) -> Seq<char>
    decreases s.len(),
{
    if s.len() > 0 && unicode_whitespace(s.last()) {
        trim_end(s.drop_last())
    } else {
        s
    }
}

/// `s` without the white space at its beginning and at its end.
pub open spec fn trim(s: Seq<char>) -> Seq<char> {
    trim_end(trim_start(s))
}

/// `s` without the white space at its beginning and at its end.
pub fn trimmed(s: &str) -> (r: String)
    ensures
        r@ == trim(s@),
{
    let chars = to_chars(s);
    let mut start: usize = 0;
    assert(chars@.skip(0) =~= chars@);
    while start < chars.len() && is_whitespace(chars[start])
        invariant
            start <= chars@.len(),
            trim_start(chars@) == trim_start(chars@.skip(start as int)),
        decreases chars@.len() - start,
    {
        proof {
            assert(chars@.skip(start as int).drop_first() =~= chars@.skip(start + 1));
        }
        start += 1;
    }
    let ghost rest = chars@.skip(start as int);
    proof {
        if start < chars@.len() {
            assert(rest.first() == chars@[start as int]);
        }
        assert(trim_start(chars@) == rest);
    }
    let mut end: usize = chars.len();
    assert(chars@.subrange(start as int, end as int) =~= rest);
    while end > start && is_whitespace(chars[end - 1])
        invariant
            start <= end <= chars@.len(),
            trim_end(rest) == trim_end(chars@.subrange(start as int, end as int)),
        decreases end,
    {
        proof {
            let cur = chars@.subrange(start as int, end as int);
            assert(cur.last() == chars@[end - 1]);
            assert(cur.drop_last() =~= chars@.subrange(start as int, end - 1));
        }
        end -= 1;
    }
    proof {
        let cur = chars@.subrange(start as int, end as int);
        if end > start {
            assert(cur.last() == chars@[end - 1]);
        }
    }
    from_char_range(&chars, start, end)
}

/// Whether the package that is kept is the one that the registry has:
/// the two hashes are the same but for white space around them.
pub fn cache_is_current(cached_hash: &str, registry_hash: &str) -> (r: bool)
    ensures
        r == (trim(cached_hash@) == trim(registry_hash@)),
{
    let a = trimmed(cached_hash);
    let b = trimmed(registry_hash);
    a == b
}

/// The message for a manifest that does not say where the sources of its
/// package are.
pub open spec fn no_source_message(name: Seq<char>) -> Seq<char> {
    "Dependency manifest did not contain source. ("@ + name + ")"@
}

/// Where the sources of a package are, as its manifest says.
pub fn package_source(source: Option<String>, name: &str) -> (r: Result<String, String>)
    ensures
        match source {
            Some(s) => r == Ok::<String, String>(s),
            None => r matches Err(m) && m@ == no_source_message(name@),
        },
{
    match source {
        Some(x) => Ok(x),
        None => {
            let mut msg: String = "Dependency manifest did not contain source. (".to_owned();
            msg.append(name);
            msg.append(")");
            Err(msg)
        },
    }
}

/// Where a dependency comes from.
#[derive(Clone, Debug)]
pub enum DependencyOrigin {
    /// From the registry at this address.
    Registry(String),
    /// From this directory.
    Path(String),
}

/// The message for a dependency that does not say where it comes from.
pub open spec fn no_origin_message() -> Seq<char> {
    "Dependency must specify either \"registry\" or \"git\" or \"path\""@
}

/// Where a dependency comes from: from a registry where it names one,
/// else from a directory where it names one. A dependency that names
/// only a repository is not provided for.
pub fn dependency_origin(registry: Option<String>, git: bool, path: Option<String>) -> (r: Result<
    DependencyOrigin,
    String,
>)
    requires
        registry is Some || !git,
    ensures
        match (registry, path) {
            (Some(x), _) => r matches Ok(DependencyOrigin::Registry(y)) && y == x,
            (None, Some(x)) => r matches Ok(DependencyOrigin::Path(y)) && y == x,
            (None, None) => r matches Err(m) && m@ == no_origin_message(),
        },
{
    if let Some(x) = registry {
        Ok(DependencyOrigin::Registry(x))
    } else if let Some(x) = path {
        Ok(DependencyOrigin::Path(x))
    } else {
        Err("Dependency must specify either \"registry\" or \"git\" or \"path\"".to_owned())
    }
}


/// The error with which the base64 crate refuses an input.
#[verifier::external_type_specification]
#[verifier::external_body]
pub struct ExDecodeError(base64::DecodeError);

/// The bytes that a text stands for in base64 with the standard alphabet
/// and without padding; `None` where the text is no such encoding.
pub uninterp spec fn base64_no_pad_decoded(input: Seq<char>) -> Option<Seq<u8>>;

/// `Engine::decode` of the base64 crate on its engine `STANDARD_NO_PAD`.
/// What it gives depends on the input alone: the decoded bytes, or an
/// error where the input is not base64 of the standard alphabet without
/// padding.
#[verifier::external_body]
fn decode_no_pad(input: &str) -> (r: Result<Vec<u8>, base64::DecodeError>)
    ensures
        match base64_no_pad_decoded(input@) {
            Some(bytes) => r matches Ok(v) && v@ == bytes,
            None => r is Err,
        },
{
    base64::Engine::decode(&base64::engine::general_purpose::STANDARD_NO_PAD, input)
}

/// Why a file of a package could not be taken from what the registry
/// sent.
#[derive(Clone, Copy, Debug, PartialEq, Eq, Structural)]
pub enum PackageFileError {
    /// The file is not encoded as agreed.
    BadEncoding,
}

impl PackageFileError {
    /// The error in words.
    pub fn message(&self) -> (r: String)
        ensures
            r@ == "File of the package is not valid base64"@,
    {
        "File of the package is not valid base64".to_owned()
    }
}

/// The bytes of a file of a package, which the registry sends in base64
/// without padding.
pub fn decode_package_file(encoded: &str) -> (r: Result<Vec<u8>, PackageFileError>)
    ensures
        match base64_no_pad_decoded(encoded@) {
            Some(bytes) => r matches Ok(v) && v@ == bytes,
            None => r == Err::<Vec<u8>, PackageFileError>(PackageFileError::BadEncoding),
        },
{
    match decode_no_pad(encoded) {
        Ok(v) => Ok(v),
        Err(_) => Err(PackageFileError::BadEncoding),
    }
}

} // verus!
