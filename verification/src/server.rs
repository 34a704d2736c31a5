//! The HTTP side of the server that is not I/O: the content type of a
//! static file, and the rendering of the participant page.
use vstd::prelude::*;
use crate::text::{ends_with_seq, replace_all, replaced, str_ends_with};

verus! {

/// The lower-case form of a string, as `str::to_lowercase` computes it
/// (Unicode lower-case mapping).
pub uninterp spec fn lowercase(s: Seq<char>) -> Seq<char>;

/// Calls `str::to_lowercase`. Its result is named by `lowercase`; nothing
/// more is stated of it.
#[verifier::external_body]
fn to_lowercase(s: &str) -> (r: String)
    ensures
        r@ == lowercase(s@),
{
    s.to_lowercase()
}

/// The content type of a file whose (already lower-case) path is `path`,
/// chosen by its extension.
pub open spec fn mime_type_of(path: Seq<char>) -> Seq<char> {
    if ends_with_seq(path, ".html"@) {
        "text/html"@
    } else if ends_with_seq(path, ".css"@) {
        "text/css"@
    } else if ends_with_seq(path, ".js"@) || ends_with_seq(path, ".mjs"@) {
        "application/javascript"@
    } else if ends_with_seq(path, ".png"@) {
        "image/png"@
    } else if ends_with_seq(path, ".jpg"@) || ends_with_seq(path, ".jpeg"@) {
        "image/jpeg"@
    } else if ends_with_seq(path, ".svg"@) {
        "image/svg+xml"@
    } else if ends_with_seq(path, ".gif"@) {
        "image/gif"@
    } else if ends_with_seq(path, ".ico"@) {
        "image/x-icon"@
    } else if ends_with_seq(path, ".mp3"@) {
        "audio/mpeg"@
    } else if ends_with_seq(path, ".woff2"@) {
        "font/woff2"@
    } else if ends_with_seq(path, ".woff"@) {
        "font/woff"@
    } else if ends_with_seq(path, ".ttf"@) {
        "font/ttf"@
    } else if ends_with_seq(path, ".otf"@) {
        "font/otf"@
    } else if ends_with_seq(path, ".json"@) {
        "application/json"@
    } else if ends_with_seq(path, ".wasm"@) {
        "application/wasm"@
    } else {
        "application/octet-stream"@
    }
}

/// The content type of a file whose path, already in lower case, is `path`.
pub fn mime_type_for_lowercase(path: &str) -> (r: &'static str)
    ensures
        r@ == mime_type_of(path@),
{
    if str_ends_with(path, ".html") {
        "text/html"
    } else if str_ends_with(path, ".css") {
        "text/css"
    } else if str_ends_with(path, ".js") || str_ends_with(path, ".mjs") {
        "application/javascript"
    } else if str_ends_with(path, ".png") {
        "image/png"
    } else if str_ends_with(path, ".jpg") || str_ends_with(path, ".jpeg") {
        "image/jpeg"
    } else if str_ends_with(path, ".svg") {
        "image/svg+xml"
    } else if str_ends_with(path, ".gif") {
        "image/gif"
    } else if str_ends_with(path, ".ico") {
        "image/x-icon"
    } else if str_ends_with(path, ".mp3") {
        "audio/mpeg"
    } else if str_ends_with(path, ".woff2") {
        "font/woff2"
    } else if str_ends_with(path, ".woff") {
        "font/woff"
    } else if str_ends_with(path, ".ttf") {
        "font/ttf"
    } else if str_ends_with(path, ".otf") {
        "font/otf"
    } else if str_ends_with(path, ".json") {
        "application/json"
    } else if str_ends_with(path, ".wasm") {
        "application/wasm"
    } else {
        "application/octet-stream"
    }
}

/// The content type of the static file `path`, by its extension, whatever
/// its case.
pub fn guess_mime_type(path: &str) -> (r: &'static str)
    ensures
        r@ == mime_type_of(lowercase(path@)),
{
    let lower = to_lowercase(path);
    mime_type_for_lowercase(lower.as_str())
}

/// `path` ends in the characters of `ext`, compared position by position
/// from the end.
pub open spec fn has_extension(path: Seq<char>, ext: Seq<char>) -> bool {
    ext.len() <= path.len() && forall|k: int|
        0 <= k < ext.len() ==> #[trigger] path[path.len() - ext.len() + k] == ext[k]
}

proof fn lemma_extension_iff(path: Seq<char>, ext: Seq<char>)
    ensures
        has_extension(path, ext) == ends_with_seq(path, ext),
{
    if ext.len() <= path.len() {
        let tail = path.subrange(path.len() - ext.len(), path.len() as int);
        if has_extension(path, ext) {
            assert forall|k: int| 0 <= k < ext.len() implies tail[k] == ext[k] by {
                assert(path[path.len() - ext.len() + k] == ext[k]);
            }
            assert(tail =~= ext);
        }
        if ends_with_seq(path, ext) {
            assert forall|k: int| 0 <= k < ext.len() implies #[trigger] path[path.len() - ext.len() + k] == ext[k] by {
                assert(tail[k] == ext[k]);
            }
        }
    }
}

/// A path whose `k`-th character from the end differs from that of `suffix`
/// does not end with `suffix`.
proof fn lemma_not_ends_with(path: Seq<char>, suffix: Seq<char>, k: int)
    requires
        1 <= k <= suffix.len(),
        k <= path.len(),
        path[path.len() - k] != suffix[suffix.len() - k],
    ensures
        !ends_with_seq(path, suffix),
{
    if ends_with_seq(path, suffix) {
        let tail = path.subrange(path.len() - suffix.len(), path.len() as int);
        assert(tail[suffix.len() - k] == path[path.len() - k]);
    }
}

/// The content type of each known extension: `.html` is `text/html`,
/// `.css` is `text/css`, `.js` and `.mjs` are `application/javascript`,
/// `.png` is `image/png`, `.jpg` and `.jpeg` are `image/jpeg`, and so on
/// through the fonts, `.json` and `.wasm`; a path with none of them is
/// `application/octet-stream`.
pub proof fn lemma_mime_type_by_extension(path: Seq<char>)
    ensures
        has_extension(path, seq!['.', 'h', 't', 'm', 'l']) ==> mime_type_of(path) == "text/html"@,
        has_extension(path, seq!['.', 'c', 's', 's']) ==> mime_type_of(path) == "text/css"@,
        has_extension(path, seq!['.', 'j', 's']) ==> mime_type_of(path) == "application/javascript"@,
        has_extension(path, seq!['.', 'm', 'j', 's']) ==> mime_type_of(path) == "application/javascript"@,
        has_extension(path, seq!['.', 'p', 'n', 'g']) ==> mime_type_of(path) == "image/png"@,
        has_extension(path, seq!['.', 'j', 'p', 'g']) ==> mime_type_of(path) == "image/jpeg"@,
        has_extension(path, seq!['.', 'j', 'p', 'e', 'g']) ==> mime_type_of(path) == "image/jpeg"@,
        has_extension(path, seq!['.', 's', 'v', 'g']) ==> mime_type_of(path) == "image/svg+xml"@,
        has_extension(path, seq!['.', 'g', 'i', 'f']) ==> mime_type_of(path) == "image/gif"@,
        has_extension(path, seq!['.', 'i', 'c', 'o']) ==> mime_type_of(path) == "image/x-icon"@,
        has_extension(path, seq!['.', 'm', 'p', '3']) ==> mime_type_of(path) == "audio/mpeg"@,
        has_extension(path, seq!['.', 'w', 'o', 'f', 'f', '2']) ==> mime_type_of(path) == "font/woff2"@,
        has_extension(path, seq!['.', 'w', 'o', 'f', 'f']) ==> mime_type_of(path) == "font/woff"@,
        has_extension(path, seq!['.', 't', 't', 'f']) ==> mime_type_of(path) == "font/ttf"@,
        has_extension(path, seq!['.', 'o', 't', 'f']) ==> mime_type_of(path) == "font/otf"@,
        has_extension(path, seq!['.', 'j', 's', 'o', 'n']) ==> mime_type_of(path) == "application/json"@,
        has_extension(path, seq!['.', 'w', 'a', 's', 'm']) ==> mime_type_of(path) == "application/wasm"@,
        (!has_extension(path, seq!['.', 'h', 't', 'm', 'l']) && !has_extension(path, seq!['.', 'c', 's', 's']) && !has_extension(path, seq!['.', 'j', 's']) && !has_extension(path, seq!['.', 'm', 'j', 's']) && !has_extension(path, seq!['.', 'p', 'n', 'g']) && !has_extension(path, seq!['.', 'j', 'p', 'g']) && !has_extension(path, seq!['.', 'j', 'p', 'e', 'g']) && !has_extension(path, seq!['.', 's', 'v', 'g']) && !has_extension(path, seq!['.', 'g', 'i', 'f']) && !has_extension(path, seq!['.', 'i', 'c', 'o']) && !has_extension(path, seq!['.', 'm', 'p', '3']) && !has_extension(path, seq!['.', 'w', 'o', 'f', 'f', '2']) && !has_extension(path, seq!['.', 'w', 'o', 'f', 'f']) && !has_extension(path, seq!['.', 't', 't', 'f']) && !has_extension(path, seq!['.', 'o', 't', 'f']) && !has_extension(path, seq!['.', 'j', 's', 'o', 'n']) && !has_extension(path, seq!['.', 'w', 'a', 's', 'm'])) ==> mime_type_of(path) == "application/octet-stream"@,
{
    reveal_strlit(".html");
    reveal_strlit(".css");
    reveal_strlit(".js");
    reveal_strlit(".mjs");
    reveal_strlit(".png");
    reveal_strlit(".jpg");
    reveal_strlit(".jpeg");
    reveal_strlit(".svg");
    reveal_strlit(".gif");
    reveal_strlit(".ico");
    reveal_strlit(".mp3");
    reveal_strlit(".woff2");
    reveal_strlit(".woff");
    reveal_strlit(".ttf");
    reveal_strlit(".otf");
    reveal_strlit(".json");
    reveal_strlit(".wasm");
    assert(".html"@ =~= seq!['.', 'h', 't', 'm', 'l']);
    lemma_extension_iff(path, seq!['.', 'h', 't', 'm', 'l']);
    assert(".css"@ =~= seq!['.', 'c', 's', 's']);
    lemma_extension_iff(path, seq!['.', 'c', 's', 's']);
    assert(".js"@ =~= seq!['.', 'j', 's']);
    lemma_extension_iff(path, seq!['.', 'j', 's']);
    assert(".mjs"@ =~= seq!['.', 'm', 'j', 's']);
    lemma_extension_iff(path, seq!['.', 'm', 'j', 's']);
    assert(".png"@ =~= seq!['.', 'p', 'n', 'g']);
    lemma_extension_iff(path, seq!['.', 'p', 'n', 'g']);
    assert(".jpg"@ =~= seq!['.', 'j', 'p', 'g']);
    lemma_extension_iff(path, seq!['.', 'j', 'p', 'g']);
    assert(".jpeg"@ =~= seq!['.', 'j', 'p', 'e', 'g']);
    lemma_extension_iff(path, seq!['.', 'j', 'p', 'e', 'g']);
    assert(".svg"@ =~= seq!['.', 's', 'v', 'g']);
    lemma_extension_iff(path, seq!['.', 's', 'v', 'g']);
    assert(".gif"@ =~= seq!['.', 'g', 'i', 'f']);
    lemma_extension_iff(path, seq!['.', 'g', 'i', 'f']);
    assert(".ico"@ =~= seq!['.', 'i', 'c', 'o']);
    lemma_extension_iff(path, seq!['.', 'i', 'c', 'o']);
    assert(".mp3"@ =~= seq!['.', 'm', 'p', '3']);
    lemma_extension_iff(path, seq!['.', 'm', 'p', '3']);
    assert(".woff2"@ =~= seq!['.', 'w', 'o', 'f', 'f', '2']);
    lemma_extension_iff(path, seq!['.', 'w', 'o', 'f', 'f', '2']);
    assert(".woff"@ =~= seq!['.', 'w', 'o', 'f', 'f']);
    lemma_extension_iff(path, seq!['.', 'w', 'o', 'f', 'f']);
    assert(".ttf"@ =~= seq!['.', 't', 't', 'f']);
    lemma_extension_iff(path, seq!['.', 't', 't', 'f']);
    assert(".otf"@ =~= seq!['.', 'o', 't', 'f']);
    lemma_extension_iff(path, seq!['.', 'o', 't', 'f']);
    assert(".json"@ =~= seq!['.', 'j', 's', 'o', 'n']);
    lemma_extension_iff(path, seq!['.', 'j', 's', 'o', 'n']);
    assert(".wasm"@ =~= seq!['.', 'w', 'a', 's', 'm']);
    lemma_extension_iff(path, seq!['.', 'w', 'a', 's', 'm']);
    if has_extension(path, seq!['.', 'h', 't', 'm', 'l']) {
    }
    if has_extension(path, seq!['.', 'c', 's', 's']) {
        assert(path[path.len() - 4 + 3] == 's');
        lemma_not_ends_with(path, ".html"@, 1);
    }
    if has_extension(path, seq!['.', 'j', 's']) {
        assert(path[path.len() - 3 + 2] == 's');
        assert(path[path.len() - 3 + 1] == 'j');
        lemma_not_ends_with(path, ".html"@, 1);
        lemma_not_ends_with(path, ".css"@, 2);
    }
    if has_extension(path, seq!['.', 'm', 'j', 's']) {
        assert(path[path.len() - 4 + 3] == 's');
        assert(path[path.len() - 4 + 2] == 'j');
        lemma_not_ends_with(path, ".html"@, 1);
        lemma_not_ends_with(path, ".css"@, 2);
    }
    if has_extension(path, seq!['.', 'p', 'n', 'g']) {
        assert(path[path.len() - 4 + 3] == 'g');
        lemma_not_ends_with(path, ".html"@, 1);
        lemma_not_ends_with(path, ".css"@, 1);
        lemma_not_ends_with(path, ".js"@, 1);
        lemma_not_ends_with(path, ".mjs"@, 1);
    }
    if has_extension(path, seq!['.', 'j', 'p', 'g']) {
        assert(path[path.len() - 4 + 3] == 'g');
        assert(path[path.len() - 4 + 2] == 'p');
        lemma_not_ends_with(path, ".html"@, 1);
        lemma_not_ends_with(path, ".css"@, 1);
        lemma_not_ends_with(path, ".js"@, 1);
        lemma_not_ends_with(path, ".mjs"@, 1);
        lemma_not_ends_with(path, ".png"@, 2);
    }
    if has_extension(path, seq!['.', 'j', 'p', 'e', 'g']) {
        assert(path[path.len() - 5 + 4] == 'g');
        assert(path[path.len() - 5 + 3] == 'e');
        lemma_not_ends_with(path, ".html"@, 1);
        lemma_not_ends_with(path, ".css"@, 1);
        lemma_not_ends_with(path, ".js"@, 1);
        lemma_not_ends_with(path, ".mjs"@, 1);
        lemma_not_ends_with(path, ".png"@, 2);
    }
    if has_extension(path, seq!['.', 's', 'v', 'g']) {
        assert(path[path.len() - 4 + 3] == 'g');
        assert(path[path.len() - 4 + 2] == 'v');
        lemma_not_ends_with(path, ".html"@, 1);
        lemma_not_ends_with(path, ".css"@, 1);
        lemma_not_ends_with(path, ".js"@, 1);
        lemma_not_ends_with(path, ".mjs"@, 1);
        lemma_not_ends_with(path, ".png"@, 2);
        lemma_not_ends_with(path, ".jpg"@, 2);
        lemma_not_ends_with(path, ".jpeg"@, 2);
    }
    if has_extension(path, seq!['.', 'g', 'i', 'f']) {
        assert(path[path.len() - 4 + 3] == 'f');
        lemma_not_ends_with(path, ".html"@, 1);
        lemma_not_ends_with(path, ".css"@, 1);
        lemma_not_ends_with(path, ".js"@, 1);
        lemma_not_ends_with(path, ".mjs"@, 1);
        lemma_not_ends_with(path, ".png"@, 1);
        lemma_not_ends_with(path, ".jpg"@, 1);
        lemma_not_ends_with(path, ".jpeg"@, 1);
        lemma_not_ends_with(path, ".svg"@, 1);
    }
    if has_extension(path, seq!['.', 'i', 'c', 'o']) {
        assert(path[path.len() - 4 + 3] == 'o');
        lemma_not_ends_with(path, ".html"@, 1);
        lemma_not_ends_with(path, ".css"@, 1);
        lemma_not_ends_with(path, ".js"@, 1);
        lemma_not_ends_with(path, ".mjs"@, 1);
        lemma_not_ends_with(path, ".png"@, 1);
        lemma_not_ends_with(path, ".jpg"@, 1);
        lemma_not_ends_with(path, ".jpeg"@, 1);
        lemma_not_ends_with(path, ".svg"@, 1);
        lemma_not_ends_with(path, ".gif"@, 1);
    }
    if has_extension(path, seq!['.', 'm', 'p', '3']) {
        assert(path[path.len() - 4 + 3] == '3');
        lemma_not_ends_with(path, ".html"@, 1);
        lemma_not_ends_with(path, ".css"@, 1);
        lemma_not_ends_with(path, ".js"@, 1);
        lemma_not_ends_with(path, ".mjs"@, 1);
        lemma_not_ends_with(path, ".png"@, 1);
        lemma_not_ends_with(path, ".jpg"@, 1);
        lemma_not_ends_with(path, ".jpeg"@, 1);
        lemma_not_ends_with(path, ".svg"@, 1);
        lemma_not_ends_with(path, ".gif"@, 1);
        lemma_not_ends_with(path, ".ico"@, 1);
    }
    if has_extension(path, seq!['.', 'w', 'o', 'f', 'f', '2']) {
        assert(path[path.len() - 6 + 5] == '2');
        lemma_not_ends_with(path, ".html"@, 1);
        lemma_not_ends_with(path, ".css"@, 1);
        lemma_not_ends_with(path, ".js"@, 1);
        lemma_not_ends_with(path, ".mjs"@, 1);
        lemma_not_ends_with(path, ".png"@, 1);
        lemma_not_ends_with(path, ".jpg"@, 1);
        lemma_not_ends_with(path, ".jpeg"@, 1);
        lemma_not_ends_with(path, ".svg"@, 1);
        lemma_not_ends_with(path, ".gif"@, 1);
        lemma_not_ends_with(path, ".ico"@, 1);
        lemma_not_ends_with(path, ".mp3"@, 1);
    }
    if has_extension(path, seq!['.', 'w', 'o', 'f', 'f']) {
        assert(path[path.len() - 5 + 4] == 'f');
        assert(path[path.len() - 5 + 3] == 'f');
        lemma_not_ends_with(path, ".html"@, 1);
        lemma_not_ends_with(path, ".css"@, 1);
        lemma_not_ends_with(path, ".js"@, 1);
        lemma_not_ends_with(path, ".mjs"@, 1);
        lemma_not_ends_with(path, ".png"@, 1);
        lemma_not_ends_with(path, ".jpg"@, 1);
        lemma_not_ends_with(path, ".jpeg"@, 1);
        lemma_not_ends_with(path, ".svg"@, 1);
        lemma_not_ends_with(path, ".gif"@, 2);
        lemma_not_ends_with(path, ".ico"@, 1);
        lemma_not_ends_with(path, ".mp3"@, 1);
        lemma_not_ends_with(path, ".woff2"@, 1);
    }
    if has_extension(path, seq!['.', 't', 't', 'f']) {
        assert(path[path.len() - 4 + 3] == 'f');
        assert(path[path.len() - 4 + 2] == 't');
        lemma_not_ends_with(path, ".html"@, 1);
        lemma_not_ends_with(path, ".css"@, 1);
        lemma_not_ends_with(path, ".js"@, 1);
        lemma_not_ends_with(path, ".mjs"@, 1);
        lemma_not_ends_with(path, ".png"@, 1);
        lemma_not_ends_with(path, ".jpg"@, 1);
        lemma_not_ends_with(path, ".jpeg"@, 1);
        lemma_not_ends_with(path, ".svg"@, 1);
        lemma_not_ends_with(path, ".gif"@, 2);
        lemma_not_ends_with(path, ".ico"@, 1);
        lemma_not_ends_with(path, ".mp3"@, 1);
        lemma_not_ends_with(path, ".woff2"@, 1);
        lemma_not_ends_with(path, ".woff"@, 2);
    }
    if has_extension(path, seq!['.', 'o', 't', 'f']) {
        assert(path[path.len() - 4 + 3] == 'f');
        assert(path[path.len() - 4 + 2] == 't');
        assert(path[path.len() - 4 + 1] == 'o');
        lemma_not_ends_with(path, ".html"@, 1);
        lemma_not_ends_with(path, ".css"@, 1);
        lemma_not_ends_with(path, ".js"@, 1);
        lemma_not_ends_with(path, ".mjs"@, 1);
        lemma_not_ends_with(path, ".png"@, 1);
        lemma_not_ends_with(path, ".jpg"@, 1);
        lemma_not_ends_with(path, ".jpeg"@, 1);
        lemma_not_ends_with(path, ".svg"@, 1);
        lemma_not_ends_with(path, ".gif"@, 2);
        lemma_not_ends_with(path, ".ico"@, 1);
        lemma_not_ends_with(path, ".mp3"@, 1);
        lemma_not_ends_with(path, ".woff2"@, 1);
        lemma_not_ends_with(path, ".woff"@, 2);
        lemma_not_ends_with(path, ".ttf"@, 3);
    }
    if has_extension(path, seq!['.', 'j', 's', 'o', 'n']) {
        assert(path[path.len() - 5 + 4] == 'n');
        lemma_not_ends_with(path, ".html"@, 1);
        lemma_not_ends_with(path, ".css"@, 1);
        lemma_not_ends_with(path, ".js"@, 1);
        lemma_not_ends_with(path, ".mjs"@, 1);
        lemma_not_ends_with(path, ".png"@, 1);
        lemma_not_ends_with(path, ".jpg"@, 1);
        lemma_not_ends_with(path, ".jpeg"@, 1);
        lemma_not_ends_with(path, ".svg"@, 1);
        lemma_not_ends_with(path, ".gif"@, 1);
        lemma_not_ends_with(path, ".ico"@, 1);
        lemma_not_ends_with(path, ".mp3"@, 1);
        lemma_not_ends_with(path, ".woff2"@, 1);
        lemma_not_ends_with(path, ".woff"@, 1);
        lemma_not_ends_with(path, ".ttf"@, 1);
        lemma_not_ends_with(path, ".otf"@, 1);
    }
    if has_extension(path, seq!['.', 'w', 'a', 's', 'm']) {
        assert(path[path.len() - 5 + 4] == 'm');
        lemma_not_ends_with(path, ".html"@, 1);
        lemma_not_ends_with(path, ".css"@, 1);
        lemma_not_ends_with(path, ".js"@, 1);
        lemma_not_ends_with(path, ".mjs"@, 1);
        lemma_not_ends_with(path, ".png"@, 1);
        lemma_not_ends_with(path, ".jpg"@, 1);
        lemma_not_ends_with(path, ".jpeg"@, 1);
        lemma_not_ends_with(path, ".svg"@, 1);
        lemma_not_ends_with(path, ".gif"@, 1);
        lemma_not_ends_with(path, ".ico"@, 1);
        lemma_not_ends_with(path, ".mp3"@, 1);
        lemma_not_ends_with(path, ".woff2"@, 1);
        lemma_not_ends_with(path, ".woff"@, 1);
        lemma_not_ends_with(path, ".ttf"@, 1);
        lemma_not_ends_with(path, ".otf"@, 1);
        lemma_not_ends_with(path, ".json"@, 1);
    }
}

/// The participant page: `template` with the music-data placeholder
/// replaced by `music_data_json`, and the static-file URL helper reduced to
/// a plain `/static/` path.
pub open spec fn rendered_index(template: Seq<char>, music_data_json: Seq<char>) -> Seq<char> {
    let with_data = replaced(template, "{{ music_data | tojson }}"@, music_data_json);
    let with_prefix = replaced(with_data, "{{ url_for('static', filename='"@, "/static/"@);
    replaced(with_prefix, "') }}"@, ""@)
}

/// Renders the participant page from its template and the music data
/// (the chord and scale tables as JSON).
pub fn render_index_template(template: &str, music_data_json: &str) -> (r: String)
    ensures
        r@ == rendered_index(template@, music_data_json@),
{
    proof {
        reveal_strlit("{{ music_data | tojson }}");
        reveal_strlit("{{ url_for('static', filename='");
        reveal_strlit("') }}");
    }
    let html = replace_all(template, "{{ music_data | tojson }}", music_data_json);
    let html = replace_all(html.as_str(), "{{ url_for('static', filename='", "/static/");
    replace_all(html.as_str(), "') }}", "")
}

} // verus!
