//! Where the files of a scene are found. A source that parses as a URL is
//! remote and its files are named by URLs; any other source is a directory
//! of the local asset store.

use vstd::prelude::*;
use vstd::string::StringExecFns;

verus! {

/// The directory of the local asset store that holds the scenes, below the
/// store's root.
pub const LOCAL_STORE: &'static str = "models/external";

/// The name of the document that describes a scene, below the scene's base.
pub const SCENE_FILE: &'static str = "scene.gltf";

/// What `url::Url::parse` makes of `input`: the serialization of the URL, or
/// `None` where `input` is no absolute URL.
pub uninterp spec fn parsed_url(input: Seq<char>) -> Option<Seq<char>>;

/// What `url::Url::join` makes of `reference` on the URL with the
/// serialization `base`: the serialization of the resulting URL, or `None`
/// where `reference` cannot be resolved on it.
pub uninterp spec fn joined_url(base: Seq<char>, reference: Seq<char>) -> Option<Seq<char>>;

/// The characters of an optional string.
pub open spec fn text_of(text: Option<String>) -> Option<Seq<char>> {
    match text {
        Some(s) => Some(s@),
        None => None,
    }
}

/// Calls `url::Url::parse` on `input` and returns the serialization of the
/// URL, or `None` where parsing fails. The contract only names the result:
/// parsing depends on `input` alone.
#[verifier::external_body]
fn parse_url(input: &str) -> (parsed: Option<String>)
    ensures
        text_of(parsed) == parsed_url(input@),
{
    match url::Url::parse(input) {
        Ok(url) => Some(String::from(url)),
        Err(_) => None,
    }
}

/// Calls `url::Url::join` with `reference` on the URL that `base` is the
/// serialization of, and returns the serialization of the URL that results,
/// or `None` where the call fails. The URL is had back from `base` by
/// `url::Url::parse`; a `base` that is no serialization of a URL gives `None`.
/// The contract only names the result, which depends on the two strings
/// alone.
#[verifier::external_body]
fn join_url(base: &str, reference: &str) -> (joined: Option<String>)
    ensures
        text_of(joined) == joined_url(base@, reference@),
{
    match url::Url::parse(base) {
        Ok(url) => match url.join(reference) {
            Ok(joined) => Some(String::from(joined)),
            Err(_) => None,
        },
        Err(_) => None,
    }
}

/// The reference that names `file_name` below `path`: the two joined by a
/// slash.
pub open spec fn file_reference(path: Seq<char>, file_name: Seq<char>) -> Seq<char> {
    path + "/"@ + file_name
}

/// The URL of the file `file_name` of the scene at `path`: the file's
/// reference resolved on the URL that `path` parses to. There is none where
/// `path` is no URL or the reference cannot be resolved.
pub open spec fn file_url(path: Seq<char>, file_name: Seq<char>) -> Option<Seq<char>> {
    match parsed_url(path) {
        Some(base) => joined_url(base, file_reference(path, file_name)),
        None => None,
    }
}

/// Builds the reference that names `file_name` below `path`.
pub fn build_file_reference(path: &str, file_name: &str) -> (reference: String)
    ensures
        reference@ == file_reference(path@, file_name@),
{
    let mut reference = String::from_str(path);
    reference.append("/");
    reference.append(file_name);
    reference
}

/// Resolves `reference` on the URL that parsing gave, if it gave one.
pub fn resolve_on(parsed: Option<String>, reference: &str) -> (url: Option<String>)
    ensures
        text_of(url) == (match text_of(parsed) {
            Some(base) => joined_url(base, reference@),
            None => None,
        }),
{
    match parsed {
        Some(base) => join_url(base.as_str(), reference),
        None => None,
    }
}

/// The URL of the file `file_name` of the scene at the URL `path`, or `None`
/// where `path` is no URL or the file's reference cannot be resolved on it.
pub fn format_url(path: &str, file_name: &str) -> (url: Option<String>)
    ensures
        text_of(url) == file_url(path@, file_name@),
{
    let reference = build_file_reference(path, file_name);
    resolve_on(parse_url(path), reference.as_str())
}

/// How the files of a scene are reached.
#[derive(Debug, PartialEq, Eq)]
pub enum AssetResolver {
    /// The scene is a directory of the local asset store.
    Local { base_path: String },
    /// The scene lies at a URL.
    Remote { base_url: String },
}

/// Where one file of a scene is found.
#[derive(Debug, PartialEq, Eq)]
pub enum AssetLocation {
    /// The file `name` in the directory `base_path` of the local asset store.
    File { base_path: String, name: String },
    /// The file at this URL.
    Url { url: String },
}

/// The mathematical value of an [`AssetResolver`].
pub enum AssetResolverView {
    Local { base_path: Seq<char> },
    Remote { base_url: Seq<char> },
}

/// The mathematical value of an [`AssetLocation`].
pub enum AssetLocationView {
    File { base_path: Seq<char>, name: Seq<char> },
    Url { url: Seq<char> },
}

impl View for AssetResolver {
    type V = AssetResolverView;

    open spec fn view(&self) -> AssetResolverView {
        match self {
            AssetResolver::Local { base_path } => AssetResolverView::Local { base_path: base_path@ },
            AssetResolver::Remote { base_url } => AssetResolverView::Remote { base_url: base_url@ },
        }
    }
}

impl View for AssetLocation {
    type V = AssetLocationView;

    open spec fn view(&self) -> AssetLocationView {
        match self {
            AssetLocation::File { base_path, name } => AssetLocationView::File {
                base_path: base_path@,
                name: name@,
            },
            AssetLocation::Url { url } => AssetLocationView::Url { url: url@ },
        }
    }
}

/// The base of a resolver: a directory or a URL.
pub open spec fn base_of(resolver: AssetResolverView) -> Seq<char> {
    match resolver {
        AssetResolverView::Local { base_path } => base_path,
        AssetResolverView::Remote { base_url } => base_url,
    }
}

/// The resolver of a source, given whether the source is a URL.
pub open spec fn resolver_of(source: Seq<char>, is_url: bool) -> AssetResolverView {
    if is_url {
        AssetResolverView::Remote { base_url: source }
    } else {
        AssetResolverView::Local { base_path: source }
    }
}

/// The location of the file `name` for a resolver, given the URL of the file
/// below a remote base. A local file always has a location; a remote one
/// only where it has a URL.
pub open spec fn location_of(
    resolver: AssetResolverView,
    name: Seq<char>,
    url: Option<Seq<char>>,
) -> Option<AssetLocationView> {
    match resolver {
        AssetResolverView::Local { base_path } => Some(AssetLocationView::File { base_path, name }),
        AssetResolverView::Remote { .. } => match url {
            Some(url) => Some(AssetLocationView::Url { url }),
            None => None,
        },
    }
}

/// The view of an optional location.
pub open spec fn location_view(location: Option<AssetLocation>) -> Option<AssetLocationView> {
    match location {
        Some(l) => Some(l@),
        None => None,
    }
}

impl AssetResolver {
    /// The resolver of `source`, given whether `source` parses as a URL.
    pub fn select(source: &str, is_url: bool) -> (resolver: AssetResolver)
        ensures
            resolver@ == resolver_of(source@, is_url),
    {
        if is_url {
            AssetResolver::Remote { base_url: String::from_str(source) }
        } else {
            AssetResolver::Local { base_path: String::from_str(source) }
        }
    }

    /// The resolver of `source`: remote where `source` parses as a URL, local
    /// otherwise.
    pub fn for_source(source: &str) -> (resolver: AssetResolver)
        ensures
            resolver@ == resolver_of(source@, parsed_url(source@) is Some),
    {
        let parsed = parse_url(source);
        AssetResolver::select(source, parsed.is_some())
    }

    /// The base of the resolver: a directory or a URL.
    pub fn base(&self) -> (base: &str)
        ensures
            base@ == base_of(self@),
    {
        match self {
            AssetResolver::Local { base_path } => base_path.as_str(),
            AssetResolver::Remote { base_url } => base_url.as_str(),
        }
    }

    /// The location of the file `name`, given the URL of the file below a
    /// remote base.
    pub fn locate_at(&self, name: &str, url: Option<String>) -> (location: Option<AssetLocation>)
        ensures
            location_view(location) == location_of(self@, name@, text_of(url)),
    {
        match self {
            AssetResolver::Local { base_path } => Some(
                AssetLocation::File { base_path: base_path.clone(), name: String::from_str(name) },
            ),
            AssetResolver::Remote { .. } => match url {
                Some(url) => Some(AssetLocation::Url { url }),
                None => None,
            },
        }
    }

    /// The location of the document that describes the scene.
    pub fn scene_document(&self) -> (location: Option<AssetLocation>)
        ensures
            location_view(location) == location_of(
                self@,
                SCENE_FILE@,
                file_url(base_of(self@), SCENE_FILE@),
            ),
    {
        self.locate(SCENE_FILE)
    }

    /// The location of the file `name` of the scene.
    pub fn locate(&self, name: &str) -> (location: Option<AssetLocation>)
        ensures
            location_view(location) == location_of(
                self@,
                name@,
                file_url(base_of(self@), name@),
            ),
    {
        match self {
            AssetResolver::Local { .. } => self.locate_at(name, None),
            AssetResolver::Remote { base_url } => {
                let url = format_url(base_url.as_str(), name);
                self.locate_at(name, url)
            },
        }
    }
}

} // verus!
