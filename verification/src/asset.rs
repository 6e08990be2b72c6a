//! Serving the prebuilt single-page application.
//!
//! A request path, once its leading slashes are gone, names either a static
//! asset of the bundle or a route of the application. An asset is read from
//! the bundle under its own path and is answered with `NotFound` when it is
//! missing; a route is answered with the application shell, `index.html`.
//! This is the only chain of lookups: no page is looked up under a route's
//! own directory before the shell is served.
//!
//! Reading the bundle is left to the caller. [`AssetRequest::file`] names the
//! one file that a request needs, and [`resolve`] turns what that read gave
//! into a [`Resolution`].
//!
//! A path is cut into segments at `/`. Its file name is the last segment that
//! is neither empty nor `.`; a path that ends in `..` has none. The extension
//! is what follows the last dot of the file name, provided that dot is not the
//! file name's first character.

use vstd::prelude::*;
use vstd::string::StringSliceAdditionalSpecFns;
use crate::text::{
    decimal_string, decimal_text, last_index_of, lemma_last_index_of, lemma_last_index_of_unique,
    range_equals, starts_with, to_chars,
};

verus! {

/// Seconds for which a long-lived asset may be kept by a cache.
pub const CACHE_DURATION: u32 = 86400;

/// `path` without the slashes and the `.` segments at its end.
pub open spec fn trim_trailing(path: Seq<char>) -> Seq<char>
    decreases path.len(),
{
    if path.len() == 0 {
        path
    } else if path.last() == '/' {
        trim_trailing(path.drop_last())
    } else if path.last() == '.' && (path.len() == 1 || path[path.len() - 2] == '/') {
        trim_trailing(path.drop_last())
    } else {
        path
    }
}

/// The file name of `path`: its last segment that is neither empty nor `.`,
/// unless that segment is `..`.
pub open spec fn file_name(path: Seq<char>) -> Option<Seq<char>> {
    let trimmed = trim_trailing(path);
    let name = trimmed.subrange(last_index_of(trimmed, '/') + 1, trimmed.len() as int);
    if trimmed.len() == 0 || name == seq!['.', '.'] {
        None
    } else {
        Some(name)
    }
}

/// The extension of `path`: what follows the last dot of its file name, if
/// that dot is not the first character of the file name.
pub open spec fn extension(path: Seq<char>) -> Option<Seq<char>> {
    match file_name(path) {
        None => None,
        Some(name) => {
            let dot = last_index_of(name, '.');
            if dot > 0 {
                Some(name.subrange(dot + 1, name.len() as int))
            } else {
                None
            }
        },
    }
}

/// Whether `path` lies under one of the directories that hold assets only.
pub open spec fn has_asset_prefix(path: Seq<char>) -> bool {
    "_app/"@.is_prefix_of(path) || "assets/"@.is_prefix_of(path) || "static/"@.is_prefix_of(path)
}

/// Whether files with the extension `ext` carry a content hash in their name.
pub open spec fn is_hashed_extension(ext: Seq<char>) -> bool {
    ext == "css"@ || ext == "js"@ || ext == "mjs"@ || ext == "png"@ || ext == "jpg"@ || ext
        == "jpeg"@ || ext == "gif"@ || ext == "webp"@ || ext == "svg"@ || ext == "ico"@ || ext
        == "woff"@ || ext == "woff2"@ || ext == "ttf"@
}

/// Whether `path` names a static asset rather than a route of the application.
pub open spec fn is_static_asset(path: Seq<char>) -> bool {
    has_asset_prefix(path) || extension(path) is Some
}

/// Whether a response for `path` may be cached for a long time.
pub open spec fn is_long_lived(path: Seq<char>) -> bool {
    has_asset_prefix(path) || match extension(path) {
        Some(ext) => is_hashed_extension(ext),
        None => false,
    }
}

/// The media type that goes with an extension.
pub open spec fn media_type(ext: Option<Seq<char>>) -> Seq<char> {
    match ext {
        None => "application/octet-stream"@,
        Some(e) => if e == "html"@ || e == "htm"@ {
            "text/html; charset=utf-8"@
        } else if e == "css"@ {
            "text/css; charset=utf-8"@
        } else if e == "js"@ || e == "mjs"@ {
            "application/javascript; charset=utf-8"@
        } else if e == "json"@ {
            "application/json"@
        } else if e == "png"@ {
            "image/png"@
        } else if e == "jpg"@ || e == "jpeg"@ {
            "image/jpeg"@
        } else if e == "gif"@ {
            "image/gif"@
        } else if e == "webp"@ {
            "image/webp"@
        } else if e == "svg"@ {
            "image/svg+xml"@
        } else if e == "ico"@ {
            "image/x-icon"@
        } else if e == "woff"@ {
            "font/woff"@
        } else if e == "woff2"@ {
            "font/woff2"@
        } else if e == "ttf"@ {
            "font/ttf"@
        } else if e == "txt"@ {
            "text/plain; charset=utf-8"@
        } else {
            "application/octet-stream"@
        },
    }
}

/// The bounds of the extension inside `chars`, if the path has one.
fn extension_range(chars: &Vec<char>) -> (range: Option<(usize, usize)>)
    ensures
        match range {
            Some((from, to)) => from <= to <= chars@.len() && extension(chars@) == Some(
                chars@.subrange(from as int, to as int),
            ),
            None => extension(chars@) is None,
        },
{
    let mut end: usize = chars.len();
    assert(chars@.subrange(0, end as int) =~= chars@);
    while end > 0 && (chars[end - 1] == '/' || (chars[end - 1] == '.' && (end == 1 || chars[end
        - 2] == '/')))
        invariant
            end <= chars@.len(),
            trim_trailing(chars@) == trim_trailing(chars@.subrange(0, end as int)),
        decreases end,
    {
        assert(chars@.subrange(0, end as int).drop_last() =~= chars@.subrange(0, end - 1));
        end = end - 1;
    }
    let ghost trimmed = chars@.subrange(0, end as int);
    assert(trim_trailing(chars@) == trimmed);
    if end == 0 {
        return None;
    }
    let mut start: usize = end;
    while start > 0 && chars[start - 1] != '/'
        invariant
            start <= end <= chars@.len(),
            forall|j: int| start <= j < end ==> chars@[j] != '/',
        decreases start,
    {
        start = start - 1;
    }
    proof {
        lemma_last_index_of_unique(trimmed, '/', start - 1);
    }
    let ghost name = trimmed.subrange(start as int, end as int);
    assert(name =~= chars@.subrange(start as int, end as int));
    if end - start == 2 && chars[start] == '.' && chars[start + 1] == '.' {
        assert(name =~= seq!['.', '.']);
        return None;
    }
    assert(name != seq!['.', '.']) by {
        if name == seq!['.', '.'] {
            assert(name.len() == 2);
            assert(name[0] == '.' && name[1] == '.');
        }
    }
    assert(file_name(chars@) == Some(name));
    let mut dot: usize = end;
    while dot > start && chars[dot - 1] != '.'
        invariant
            start <= dot <= end <= chars@.len(),
            forall|j: int| dot <= j < end ==> chars@[j] != '.',
        decreases dot,
    {
        dot = dot - 1;
    }
    // `dot - 1` is where the last dot of the file name stands, if it has one
    proof {
        lemma_last_index_of_unique(name, '.', dot - 1 - start);
    }
    if dot > start + 1 {
        assert(name.subrange(dot - start, name.len() as int) =~= chars@.subrange(
            dot as int,
            end as int,
        ));
        Some((dot, end))
    } else {
        None
    }
}

/// The extension of `path`, if it has one.
pub fn file_extension(path: &str) -> (found: Option<String>)
    ensures
        match found {
            Some(ext) => extension(path@) == Some(ext@),
            None => extension(path@) is None,
        },
{
    let chars = to_chars(path);
    match extension_range(&chars) {
        Some((from, to)) => Some(path.substring_char(from, to).to_owned()),
        None => None,
    }
}

/// Whether `path` has a file extension.
pub fn has_file_extension(path: &str) -> (found: bool)
    ensures
        found == (extension(path@) is Some),
{
    let chars = to_chars(path);
    extension_range(&chars).is_some()
}

/// Whether `chars` lies under one of the asset directories.
fn under_asset_prefix(chars: &Vec<char>) -> (found: bool)
    ensures
        found == has_asset_prefix(chars@),
{
    starts_with(chars, "_app/") || starts_with(chars, "assets/") || starts_with(chars, "static/")
}

/// Whether the extension between `from` and `to` is one of the hashed ones.
fn hashed_extension_at(chars: &Vec<char>, from: usize, to: usize) -> (found: bool)
    requires
        from <= to <= chars@.len(),
    ensures
        found == is_hashed_extension(chars@.subrange(from as int, to as int)),
{
    range_equals(chars, from, to, "css") || range_equals(chars, from, to, "js") || range_equals(
        chars,
        from,
        to,
        "mjs",
    ) || range_equals(chars, from, to, "png") || range_equals(chars, from, to, "jpg")
        || range_equals(chars, from, to, "jpeg") || range_equals(chars, from, to, "gif")
        || range_equals(chars, from, to, "webp") || range_equals(chars, from, to, "svg")
        || range_equals(chars, from, to, "ico") || range_equals(chars, from, to, "woff")
        || range_equals(chars, from, to, "woff2") || range_equals(chars, from, to, "ttf")
}

/// Whether a response for `path` may carry the long-lived cache directive:
/// the path lies under an asset directory or has a hashed extension.
pub fn should_cache(path: &str) -> (cache: bool)
    ensures
        cache == is_long_lived(path@),
{
    let chars = to_chars(path);
    if under_asset_prefix(&chars) {
        return true;
    }
    match extension_range(&chars) {
        Some((from, to)) => hashed_extension_at(&chars, from, to),
        None => false,
    }
}

/// The content type under which the file at `path` is served, by its extension.
pub fn get_content_type(path: &str) -> (content_type: &'static str)
    ensures
        content_type@ == media_type(extension(path@)),
{
    let chars = to_chars(path);
    match extension_range(&chars) {
        None => "application/octet-stream",
        Some((from, to)) => {
            if range_equals(&chars, from, to, "html") || range_equals(&chars, from, to, "htm") {
                "text/html; charset=utf-8"
            } else if range_equals(&chars, from, to, "css") {
                "text/css; charset=utf-8"
            } else if range_equals(&chars, from, to, "js") || range_equals(
                &chars,
                from,
                to,
                "mjs",
            ) {
                "application/javascript; charset=utf-8"
            } else if range_equals(&chars, from, to, "json") {
                "application/json"
            } else if range_equals(&chars, from, to, "png") {
                "image/png"
            } else if range_equals(&chars, from, to, "jpg") || range_equals(
                &chars,
                from,
                to,
                "jpeg",
            ) {
                "image/jpeg"
            } else if range_equals(&chars, from, to, "gif") {
                "image/gif"
            } else if range_equals(&chars, from, to, "webp") {
                "image/webp"
            } else if range_equals(&chars, from, to, "svg") {
                "image/svg+xml"
            } else if range_equals(&chars, from, to, "ico") {
                "image/x-icon"
            } else if range_equals(&chars, from, to, "woff") {
                "font/woff"
            } else if range_equals(&chars, from, to, "woff2") {
                "font/woff2"
            } else if range_equals(&chars, from, to, "ttf") {
                "font/ttf"
            } else if range_equals(&chars, from, to, "txt") {
                "text/plain; charset=utf-8"
            } else {
                "application/octet-stream"
            }
        },
    }
}

/// `raw` without the slashes at its start.
pub open spec fn strip_leading_slashes(raw: Seq<char>) -> Seq<char>
    decreases raw.len(),
{
    if raw.len() > 0 && raw[0] == '/' {
        strip_leading_slashes(raw.drop_first())
    } else {
        raw
    }
}

/// The file of the bundle that answers a request for `path`: the asset
/// itself, or the application shell for a route.
pub open spec fn target_file(path: Seq<char>) -> Seq<char> {
    if is_static_asset(path) {
        path
    } else {
        "index.html"@
    }
}

/// A request for a file of the bundle, by its path below the bundle root.
pub struct AssetRequest {
    pub path: String,
}

impl AssetRequest {
    /// The request that a raw request path stands for: the path without its
    /// leading slashes.
    pub fn from_request_path(raw: &str) -> (request: AssetRequest)
        ensures
            request.path@ == strip_leading_slashes(raw@),
    {
        let chars = to_chars(raw);
        let mut skipped: usize = 0;
        assert(chars@.subrange(0, chars@.len() as int) =~= chars@);
        while skipped < chars.len() && chars[skipped] == '/'
            invariant
                skipped <= chars@.len(),
                strip_leading_slashes(chars@) == strip_leading_slashes(
                    chars@.subrange(skipped as int, chars@.len() as int),
                ),
            decreases chars@.len() - skipped,
        {
            assert(chars@.subrange(skipped as int, chars@.len() as int).drop_first()
                =~= chars@.subrange(skipped + 1, chars@.len() as int));
            skipped = skipped + 1;
        }
        let rest = raw.substring_char(skipped, chars.len());
        AssetRequest { path: rest.to_owned() }
    }

    /// Whether the request names a static asset: its path lies under an asset
    /// directory or has a file extension.
    pub fn is_static_asset(&self) -> (found: bool)
        ensures
            found == is_static_asset(self.path@),
    {
        let chars = to_chars(self.path.as_str());
        under_asset_prefix(&chars) || extension_range(&chars).is_some()
    }

    /// The file to read from the bundle for this request, as a path below the
    /// bundle root.
    pub fn file(&self) -> (file: String)
        ensures
            file@ == target_file(self.path@),
    {
        if self.is_static_asset() {
            self.path.clone()
        } else {
            "index.html".to_owned()
        }
    }
}

/// How long a response may be kept by a cache.
#[derive(Clone, Copy, PartialEq, Eq, Debug, Structural)]
pub enum CacheDirective {
    /// Public, kept for `CACHE_DURATION` seconds, never revalidated.
    LongLivedImmutable,
    /// Revalidated on every use.
    NoCache,
}

/// The text of the `Cache-Control` header that states a directive.
pub open spec fn cache_control_text(directive: CacheDirective) -> Seq<char> {
    match directive {
        CacheDirective::LongLivedImmutable => "public, max-age="@ + decimal_text(
            CACHE_DURATION as nat,
        ) + ", immutable"@,
        CacheDirective::NoCache => "no-cache"@,
    }
}

impl CacheDirective {
    /// The directive for a static asset at `path`.
    pub open spec fn for_path(path: Seq<char>) -> CacheDirective {
        if is_long_lived(path) {
            CacheDirective::LongLivedImmutable
        } else {
            CacheDirective::NoCache
        }
    }

    /// The value of the `Cache-Control` header for this directive.
    pub fn header_value(self) -> (value: String)
        ensures
            value@ == cache_control_text(self),
    {
        match self {
            CacheDirective::LongLivedImmutable => {
                let head = "public, max-age=".to_owned();
                head.concat(decimal_string(CACHE_DURATION).as_str()).concat(", immutable")
            },
            CacheDirective::NoCache => "no-cache".to_owned(),
        }
    }
}

/// A file of the bundle with what its response needs.
pub struct AssetResponse {
    pub bytes: Vec<u8>,
    pub content_type: &'static str,
    pub cache: CacheDirective,
}

/// The model of an [`AssetResponse`].
pub ghost struct AssetResponseView {
    pub bytes: Seq<u8>,
    pub content_type: Seq<char>,
    pub cache: CacheDirective,
}

impl View for AssetResponse {
    type V = AssetResponseView;

    open spec fn view(&self) -> AssetResponseView {
        AssetResponseView {
            bytes: self.bytes@,
            content_type: self.content_type@,
            cache: self.cache,
        }
    }
}

/// What the bundle holds for a request.
pub enum Resolution {
    /// The asset that the path names.
    StaticAsset(AssetResponse),
    /// The application shell, for a path that is a route of the application.
    SpaFallback(AssetResponse),
    /// The bundle lacks the file that the request needs.
    NotFound,
}

/// The model of a [`Resolution`].
pub ghost enum ResolutionView {
    StaticAsset(AssetResponseView),
    SpaFallback(AssetResponseView),
    NotFound,
}

impl View for Resolution {
    type V = ResolutionView;

    open spec fn view(&self) -> ResolutionView {
        match self {
            Resolution::StaticAsset(asset) => ResolutionView::StaticAsset(asset@),
            Resolution::SpaFallback(shell) => ResolutionView::SpaFallback(shell@),
            Resolution::NotFound => ResolutionView::NotFound,
        }
    }
}

/// The resolution of a request for `path`, where `content` is what reading
/// `target_file(path)` from the bundle gave: the bytes, or nothing if the
/// read failed.
pub open spec fn resolution_of(path: Seq<char>, content: Option<Seq<u8>>) -> ResolutionView {
    match content {
        None => ResolutionView::NotFound,
        Some(bytes) => if is_static_asset(path) {
            ResolutionView::StaticAsset(
                AssetResponseView {
                    bytes,
                    content_type: media_type(extension(path)),
                    cache: CacheDirective::for_path(path),
                },
            )
        } else {
            ResolutionView::SpaFallback(
                AssetResponseView {
                    bytes,
                    content_type: "text/html; charset=utf-8"@,
                    cache: CacheDirective::NoCache,
                },
            )
        },
    }
}

/// The content of a file as a sequence of bytes, if there is any.
pub open spec fn content_view(content: Option<Vec<u8>>) -> Option<Seq<u8>> {
    match content {
        Some(bytes) => Some(bytes@),
        None => None,
    }
}

/// Resolves `request`, given what reading `request.file()` from the bundle
/// gave. A missing asset is `NotFound`: the shell is served for routes only.
pub fn resolve(request: &AssetRequest, content: Option<Vec<u8>>) -> (resolution: Resolution)
    ensures
        resolution@ == resolution_of(request.path@, content_view(content)),
{
    match content {
        None => Resolution::NotFound,
        Some(bytes) => {
            if request.is_static_asset() {
                let path = request.path.as_str();
                let cache = if should_cache(path) {
                    CacheDirective::LongLivedImmutable
                } else {
                    CacheDirective::NoCache
                };
                Resolution::StaticAsset(
                    AssetResponse { bytes, content_type: get_content_type(path), cache },
                )
            } else {
                Resolution::SpaFallback(
                    AssetResponse {
                        bytes,
                        content_type: "text/html; charset=utf-8",
                        cache: CacheDirective::NoCache,
                    },
                )
            }
        },
    }
}

/// An HTTP response for a file of the bundle.
pub struct AssetReply {
    pub status: u16,
    pub content_type: &'static str,
    /// The value of the `Cache-Control` header, where the response has one.
    pub cache_control: Option<String>,
    pub body: Vec<u8>,
}

/// The model of an [`AssetReply`].
pub ghost struct AssetReplyView {
    pub status: int,
    pub content_type: Seq<char>,
    pub cache_control: Option<Seq<char>>,
    pub body: Seq<u8>,
}

impl View for AssetReply {
    type V = AssetReplyView;

    open spec fn view(&self) -> AssetReplyView {
        AssetReplyView {
            status: self.status as int,
            content_type: self.content_type@,
            cache_control: match self.cache_control {
                Some(value) => Some(value@),
                None => None,
            },
            body: self.body@,
        }
    }
}

/// The response that carries a file found in the bundle.
pub open spec fn found_reply(asset: AssetResponseView) -> AssetReplyView {
    AssetReplyView {
        status: 200,
        content_type: asset.content_type,
        cache_control: Some(cache_control_text(asset.cache)),
        body: asset.bytes,
    }
}

/// The HTTP response for a request for `path` that was resolved to
/// `resolution`. A missing asset is reported in plain text, a missing shell
/// with a small page; neither carries a cache directive.
pub open spec fn reply_of(path: Seq<char>, resolution: ResolutionView) -> AssetReplyView {
    match resolution {
        ResolutionView::StaticAsset(asset) => found_reply(asset),
        ResolutionView::SpaFallback(shell) => found_reply(shell),
        ResolutionView::NotFound => if is_static_asset(path) {
            AssetReplyView {
                status: 404,
                content_type: "text/plain"@,
                cache_control: None,
                body: "File not found".spec_bytes(),
            }
        } else {
            AssetReplyView {
                status: 404,
                content_type: "text/html; charset=utf-8"@,
                cache_control: None,
                body: "<h1>404 - Page Not Found</h1>".spec_bytes(),
            }
        },
    }
}

impl AssetRequest {
    /// The HTTP response for this request, once it is resolved.
    pub fn reply(&self, resolution: Resolution) -> (reply: AssetReply)
        ensures
            reply@ == reply_of(self.path@, resolution@),
    {
        match resolution {
            Resolution::StaticAsset(asset) => AssetReply {
                status: 200,
                content_type: asset.content_type,
                cache_control: Some(asset.cache.header_value()),
                body: asset.bytes,
            },
            Resolution::SpaFallback(shell) => AssetReply {
                status: 200,
                content_type: shell.content_type,
                cache_control: Some(shell.cache.header_value()),
                body: shell.bytes,
            },
            Resolution::NotFound => {
                if self.is_static_asset() {
                    AssetReply {
                        status: 404,
                        content_type: "text/plain",
                        cache_control: None,
                        body: "File not found".as_bytes_vec(),
                    }
                } else {
                    AssetReply {
                        status: 404,
                        content_type: "text/html; charset=utf-8",
                        cache_control: None,
                        body: "<h1>404 - Page Not Found</h1>".as_bytes_vec(),
                    }
                }
            },
        }
    }
}

/// A static asset is served from its own file or not at all: the shell is
/// never read for it and never served in its place, and where its file is
/// missing the answer is `NotFound`.
pub proof fn lemma_asset_never_falls_back(path: Seq<char>, content: Option<Seq<u8>>)
    requires
        is_static_asset(path),
    ensures
        target_file(path) == path,
        !(resolution_of(path, content) is SpaFallback),
        content is None ==> resolution_of(path, content) == ResolutionView::NotFound,
        content is None ==> reply_of(path, resolution_of(path, content)).status == 404,
{
}

/// A route of the application is served the shell, as a page that is not to
/// be cached, whatever the route is.
pub proof fn lemma_route_gets_the_shell(path: Seq<char>, shell: Seq<u8>)
    requires
        !is_static_asset(path),
    ensures
        target_file(path) == "index.html"@,
        resolution_of(path, Some(shell)) == ResolutionView::SpaFallback(
            AssetResponseView {
                bytes: shell,
                content_type: "text/html; charset=utf-8"@,
                cache: CacheDirective::NoCache,
            },
        ),
{
}

/// What is cached for a long time is a static asset: no route of the
/// application carries the long-lived directive.
pub proof fn lemma_long_lived_is_static(path: Seq<char>)
    requires
        is_long_lived(path),
    ensures
        is_static_asset(path),
{
}

/// An extension holds neither a dot nor a slash.
pub proof fn lemma_extension_is_plain(path: Seq<char>)
    ensures
        extension(path) matches Some(ext) ==> forall|i: int|
            0 <= i < ext.len() ==> #[trigger] ext[i] != '.' && ext[i] != '/',
{
    if let Some(ext) = extension(path) {
        let trimmed = trim_trailing(path);
        let slash = last_index_of(trimmed, '/');
        lemma_last_index_of(trimmed, '/');
        let name = trimmed.subrange(slash + 1, trimmed.len() as int);
        lemma_last_index_of(name, '.');
        let dot = last_index_of(name, '.');
        assert forall|i: int| 0 <= i < ext.len() implies #[trigger] ext[i] != '.' && ext[i]
            != '/' by {
            assert(ext[i] == name[dot + 1 + i]);
            assert(name[dot + 1 + i] == trimmed[slash + 1 + dot + 1 + i]);
        }
    }
}

/// Stripping takes slashes off the start of a path and nothing else, takes
/// all of them, and has nothing left to do when done once.
pub proof fn lemma_strip_leading_slashes(raw: Seq<char>)
    ensures
        strip_leading_slashes(raw).len() <= raw.len(),
        strip_leading_slashes(raw) == raw.subrange(
            raw.len() - strip_leading_slashes(raw).len(),
            raw.len() as int,
        ),
        forall|i: int|
            0 <= i < raw.len() - strip_leading_slashes(raw).len() ==> #[trigger] raw[i] == '/',
        strip_leading_slashes(raw).len() > 0 ==> strip_leading_slashes(raw)[0] != '/',
        strip_leading_slashes(strip_leading_slashes(raw)) == strip_leading_slashes(raw),
    decreases raw.len(),
{
    if raw.len() > 0 && raw[0] == '/' {
        let rest = raw.drop_first();
        lemma_strip_leading_slashes(rest);
        let stripped = strip_leading_slashes(rest);
        assert(stripped =~= raw.subrange(raw.len() - stripped.len(), raw.len() as int));
        assert forall|i: int| 0 <= i < raw.len() - stripped.len() implies #[trigger] raw[i]
            == '/' by {
            if i > 0 {
                assert(raw[i] == rest[i - 1]);
            }
        }
    } else {
        assert(raw =~= raw.subrange(0, raw.len() as int));
    }
}

} // verus!
