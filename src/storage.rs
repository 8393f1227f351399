//! Where uploaded media and article bodies are stored in the object store:
//! folder layout, object keys and the placeholder body of a new article.

use vstd::prelude::*;
use vstd::string::*;

use crate::identity::{subject_of, Identity};
use crate::image::{extension_of, Image};
use crate::text::joined;

verus! {

/// Lowercase hexadecimal SHA-256 digest of the UTF-8 encoding of `s`.
pub uninterp spec fn sha256_hex(s: Seq<char>) -> Seq<char>;

/// Relies on `sha256::digest` on a string: the hex encoding of the 32-byte
/// SHA-256 digest of its bytes, so 64 characters.
#[verifier::external_body]
fn digest_hex(s: &str) -> (r: String)
    ensures
        r@ == sha256_hex(s@),
        r@.len() == 64,
{
    sha256::digest(s)
}

/// Length of the digest prefix that names a stored object.
pub const DIGEST_PREFIX_LEN: usize = 32;

/// The folder holding a user's profile pictures.
pub open spec fn profile_folder_of(user: Identity) -> Seq<char> {
    subject_of(user.collection@, user.key@) + "/"@ + "user_profile_pictures"@
}

/// The folder holding an article of a user.
pub open spec fn article_folder_of(user: Identity, article: Identity) -> Seq<char> {
    subject_of(user.collection@, user.key@) + "/"@ + "articles"@ + "/"@ + subject_of(article.collection@, article.key@)
}

/// The folder holding the media of comments on an article.
pub open spec fn comment_folder_of(user: Identity, article: Identity) -> Seq<char> {
    article_folder_of(user, article) + "/"@ + "comments"@
}

/// The key under which an image is stored: the folder, the first 32 digits
/// of the digest of `"<file name>/<stamp>"`, and the type's extension.
pub open spec fn image_key_of(folder: Seq<char>, file_name: Seq<char>, file_type: crate::image::ImageType, stamp: Seq<char>) -> Seq<char> {
    folder + "/"@ + sha256_hex(file_name + "/"@ + stamp).take(32) + "."@ + extension_of(file_type)
}

/// The key under which an article body is stored: the folder, the first 32
/// digits of the digest of `"<author>/<title>/<stamp>"`, and `.html`.
pub open spec fn article_key_of(folder: Seq<char>, author: Identity, title: Seq<char>, stamp: Seq<char>) -> Seq<char> {
    folder + "/"@ + sha256_hex(
        subject_of(author.collection@, author.key@) + "/"@ + title + "/"@ + stamp,
    ).take(32) + ".html"@
}

/// The body a new article starts with.
pub open spec fn placeholder_html_of(title: Seq<char>) -> Seq<char> {
    "<!doctype html><html><head><title>"@ + title + "</title></head><body><p>Placeholder</p></body></html>"@
}

/// The folder holding `user`'s profile pictures.
pub fn profile_folder(user: &Identity) -> (r: String)
    ensures
        r@ == profile_folder_of(*user),
{
    joined(user.to_subject().as_str(), "/", "user_profile_pictures")
}

/// The folder holding `article` of `user`.
pub fn article_folder(user: &Identity, article: &Identity) -> (r: String)
    ensures
        r@ == article_folder_of(*user, *article),
{
    let head = joined(user.to_subject().as_str(), "/", "articles");
    let r = joined(head.as_str(), "/", article.to_subject().as_str());
    r
}

/// The folder holding the media of comments on `article` of `user`.
pub fn comment_folder(user: &Identity, article: &Identity) -> (r: String)
    ensures
        r@ == comment_folder_of(*user, *article),
{
    joined(article_folder(user, article).as_str(), "/", "comments")
}

/// The first 32 digits of the digest of `s`.
fn digest_prefix(s: &str) -> (r: String)
    ensures
        r@ == sha256_hex(s@).take(32),
{
    let digest = digest_hex(s);
    let prefix = digest.as_str().substring_char(0, DIGEST_PREFIX_LEN);
    assert(prefix@ =~= sha256_hex(s@).take(32));
    String::from_str(prefix)
}

/// The key under which `image`, uploaded at the instant written `stamp`, is
/// stored in `folder`.
pub fn image_object_key(folder: &str, image: &Image, stamp: &str) -> (r: String)
    ensures
        r@ == image_key_of(folder@, image.file_name@, image.file_type, stamp@),
{
    let seed = joined(image.file_name.as_str(), "/", stamp);
    let digest = digest_prefix(seed.as_str());
    let head = joined(folder, "/", digest.as_str());
    let r = joined(head.as_str(), ".", image.file_type.extension().as_str());
    r
}

/// The key under which the body of `author`'s article titled `title`,
/// created at the instant written `stamp`, is stored in `folder`.
pub fn article_object_key(folder: &str, author: &Identity, title: &str, stamp: &str) -> (r: String)
    ensures
        r@ == article_key_of(folder@, *author, title@, stamp@),
{
    let first = joined(author.to_subject().as_str(), "/", title);
    let seed = joined(first.as_str(), "/", stamp);
    let digest = digest_prefix(seed.as_str());
    let r = joined(folder, "/", digest.as_str());
    let mut r = r;
    r.append(".html");
    r
}

/// The body a new article titled `title` starts with.
pub fn placeholder_html(title: &str) -> (r: String)
    ensures
        r@ == placeholder_html_of(title@),
{
    joined(
        "<!doctype html><html><head><title>",
        title,
        "</title></head><body><p>Placeholder</p></body></html>",
    )
}

} // verus!
