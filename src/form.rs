//! Reading the fields of a multipart form into the form being built. The
//! caller walks the form's fields; each field arrives here with its name,
//! its declared file name and content type, and its bytes.

use vstd::prelude::*;
use vstd::string::*;
use vstd::utf8::{decode_utf8, valid_utf8};

use crate::error::Error;
use crate::image::{image_type_of, Image, ImageType};
use crate::models::{ArticleForCreate, CommentForCreate, UserForCreate};
use crate::text::same_text;

verus! {

/// Relies on `std::str::from_utf8`: it accepts exactly the valid UTF-8
/// byte strings, and decodes them.
#[verifier::external_body]
fn utf8_text(data: &[u8]) -> (r: Result<String, String>)
    ensures
        r is Ok <==> valid_utf8(data@),
        r is Ok ==> r->Ok_0@ == decode_utf8(data@),
{
    std::str::from_utf8(data).map(String::from).map_err(|e| e.to_string())
}

/// The text that a field's bytes hold; bytes that are not UTF-8 are a form
/// error.
pub fn parse_string_from_u8(data: &[u8]) -> (r: Result<String, Error>)
    ensures
        r is Ok <==> valid_utf8(data@),
        r is Ok ==> r->Ok_0@ == decode_utf8(data@),
        r is Err ==> r->Err_0 is ServerCouldNotParseForm,
{
    match utf8_text(data) {
        Ok(text) => Ok(text),
        Err(cause) => Err(Error::ServerCouldNotParseForm(cause)),
    }
}

/// The truth value that `"true"` or `"false"` names.
pub open spec fn bool_named(s: Seq<char>) -> Option<bool> {
    if s == "true"@ {
        Some(true)
    } else if s == "false"@ {
        Some(false)
    } else {
        None
    }
}

/// Reads `"true"` or `"false"`; any other text is a form error.
pub fn parse_bool(text: &str) -> (r: Result<bool, Error>)
    ensures
        match bool_named(text@) {
            Some(b) => r is Ok && r->Ok_0 == b,
            None => r is Err && r->Err_0 is ServerCouldNotParseForm,
        },
{
    if same_text(text, "true") {
        Ok(true)
    } else if same_text(text, "false") {
        Ok(false)
    } else {
        Err(Error::ServerCouldNotParseForm(String::from_str("provided string was not `true` or `false`")))
    }
}

/// An optional text, viewed.
pub open spec fn opt_view(o: Option<&str>) -> Option<Seq<char>> {
    match o {
        Some(s) => Some(s@),
        None => None,
    }
}

/// A declared content type that names no accepted image type.
pub open spec fn media_rejected(content_type: Option<Seq<char>>) -> bool {
    match content_type {
        Some(ct) => image_type_of(ct) == ImageType::Unsupported,
        None => false,
    }
}

/// `image` is the image a field with this file name, content type and bytes
/// carries; with no declared type it stays unsupported, with no file name it
/// stays unnamed.
pub open spec fn image_from(image: Image, file_name: Option<Seq<char>>, content_type: Option<Seq<char>>, data: Seq<u8>) -> bool {
    &&& image.file_type == match content_type {
        Some(ct) => image_type_of(ct),
        None => ImageType::Unsupported,
    }
    &&& image.file_name@ == match file_name {
        Some(n) => n,
        None => Seq::empty(),
    }
    &&& image.data@ == data
}

/// The image a form field carries. A declared content type that is not an
/// accepted image type is refused, naming that type.
pub fn image_from_field(file_name: Option<&str>, content_type: Option<&str>, data: Vec<u8>) -> (r: Result<Image, Error>)
    ensures
        r is Err <==> media_rejected(opt_view(content_type)),
        r is Err ==> r->Err_0 is ServerUnsupportedMediaType
            && r->Err_0->ServerUnsupportedMediaType_0@ == content_type->Some_0@,
        r is Ok ==> image_from(r->Ok_0, opt_view(file_name), opt_view(content_type), data@),
{
    let mut image = Image::new();
    if let Some(name) = file_name {
        image.file_name = String::from_str(name);
    }
    if let Some(file_type) = content_type {
        image.file_type = ImageType::from_str(file_type);
        if !image.is_supported_image_type() {
            return Err(Error::ServerUnsupportedMediaType(String::from_str(file_type)));
        }
    }
    image.data = data;
    assert(file_name is None ==> image.file_name@ =~= Seq::<char>::empty());
    Ok(image)
}

/// The user form `after` is `before` with only `first_name`, `last_name`,
/// `email`, `username`, `is_admin` and `avatar` possibly changed, as the
/// flags say.
pub open spec fn user_form_keeps(before: UserForCreate, after: UserForCreate, first: bool, last: bool, email: bool, username: bool, admin: bool, avatar: bool) -> bool {
    &&& first || after.first_name == before.first_name
    &&& last || after.last_name == before.last_name
    &&& email || after.email == before.email
    &&& username || after.username == before.username
    &&& admin || after.is_admin == before.is_admin
    &&& avatar || after.avatar == before.avatar
    &&& after.deleted == before.deleted
    &&& after.profile_pic_uri == before.profile_pic_uri
    &&& after.created_at == before.created_at
    &&& after.updated_at == before.updated_at
    &&& after.deleted_at == before.deleted_at
}

/// A text field that holds valid UTF-8 sets one of the text fields.
pub open spec fn text_field_set(after_text: String, data: Seq<u8>, r: Result<(), Error>) -> bool {
    &&& r is Ok <==> valid_utf8(data)
    &&& r is Ok ==> after_text@ == decode_utf8(data)
    &&& r is Err ==> r->Err_0 is ServerCouldNotParseForm
}

impl UserForCreate {
    /// Applies one form field to a user form: `avatar` sets the avatar image,
    /// `first_name`, `last_name`, `email` and `username` set those texts,
    /// `is_admin` reads `"true"` or `"false"`; other fields are ignored. A
    /// field that fails leaves the form as it was.
    pub fn apply_field(&mut self, name: &str, file_name: Option<&str>, content_type: Option<&str>, data: Vec<u8>) -> (r: Result<(), Error>)
        ensures
            r is Err ==> *final(self) == *old(self),
            name@ == "avatar"@ ==> {
                &&& r is Err <==> media_rejected(opt_view(content_type))
                &&& r is Err ==> r->Err_0 is ServerUnsupportedMediaType
                    && r->Err_0->ServerUnsupportedMediaType_0@ == content_type->Some_0@
                &&& r is Ok ==> final(self).avatar is Some
                    && image_from(final(self).avatar->Some_0, opt_view(file_name), opt_view(content_type), data@)
                &&& user_form_keeps(*old(self), *final(self), false, false, false, false, false, true)
            },
            name@ == "first_name"@ ==> text_field_set(final(self).first_name, data@, r)
                && user_form_keeps(*old(self), *final(self), true, false, false, false, false, false),
            name@ == "last_name"@ ==> text_field_set(final(self).last_name, data@, r)
                && user_form_keeps(*old(self), *final(self), false, true, false, false, false, false),
            name@ == "email"@ ==> text_field_set(final(self).email, data@, r)
                && user_form_keeps(*old(self), *final(self), false, false, true, false, false, false),
            name@ == "username"@ ==> text_field_set(final(self).username, data@, r)
                && user_form_keeps(*old(self), *final(self), false, false, false, true, false, false),
            name@ == "is_admin"@ ==> {
                &&& r is Ok <==> (valid_utf8(data@) && bool_named(decode_utf8(data@)) is Some)
                &&& r is Ok ==> final(self).is_admin == bool_named(decode_utf8(data@))->Some_0
                &&& r is Err ==> r->Err_0 is ServerCouldNotParseForm
                &&& user_form_keeps(*old(self), *final(self), false, false, false, false, true, false)
            },
            name@ != "avatar"@ && name@ != "first_name"@ && name@ != "last_name"@ && name@ != "email"@
                && name@ != "username"@ && name@ != "is_admin"@ ==> r is Ok && *final(self) == *old(self),
    {
        proof {
            reveal_strlit("avatar");
            reveal_strlit("first_name");
            reveal_strlit("last_name");
            reveal_strlit("email");
            reveal_strlit("username");
            reveal_strlit("is_admin");
            assert("avatar"@.len() == 6);
            assert("first_name"@.len() == 10);
            assert("last_name"@.len() == 9);
            assert("email"@.len() == 5);
            assert("username"@.len() == 8 && "username"@[0] == 'u');
            assert("is_admin"@.len() == 8 && "is_admin"@[0] == 'i');
        }
        if same_text(name, "avatar") {
            let image = image_from_field(file_name, content_type, data)?;
            self.avatar = Some(image);
            Ok(())
        } else if same_text(name, "first_name") {
            self.first_name = parse_string_from_u8(data.as_slice())?;
            Ok(())
        } else if same_text(name, "last_name") {
            self.last_name = parse_string_from_u8(data.as_slice())?;
            Ok(())
        } else if same_text(name, "email") {
            self.email = parse_string_from_u8(data.as_slice())?;
            Ok(())
        } else if same_text(name, "username") {
            self.username = parse_string_from_u8(data.as_slice())?;
            Ok(())
        } else if same_text(name, "is_admin") {
            let text = parse_string_from_u8(data.as_slice())?;
            self.is_admin = parse_bool(text.as_str())?;
            Ok(())
        } else {
            Ok(())
        }
    }
}

impl CommentForCreate {
    /// Applies one form field to a comment form: `content` sets the text,
    /// `media` sets the attached image; other fields are ignored. A field that
    /// fails leaves the form as it was.
    pub fn apply_field(&mut self, name: &str, file_name: Option<&str>, content_type: Option<&str>, data: Vec<u8>) -> (r: Result<(), Error>)
        ensures
            r is Err ==> *final(self) == *old(self),
            name@ == "content"@ ==> {
                &&& r is Ok <==> valid_utf8(data@)
                &&& r is Ok ==> final(self).content is Some && final(self).content->Some_0@ == decode_utf8(data@)
                &&& r is Err ==> r->Err_0 is ServerCouldNotParseForm
                &&& final(self).image == old(self).image
            },
            name@ == "media"@ ==> {
                &&& r is Err <==> media_rejected(opt_view(content_type))
                &&& r is Err ==> r->Err_0 is ServerUnsupportedMediaType
                    && r->Err_0->ServerUnsupportedMediaType_0@ == content_type->Some_0@
                &&& r is Ok ==> final(self).image is Some
                    && image_from(final(self).image->Some_0, opt_view(file_name), opt_view(content_type), data@)
                &&& final(self).content == old(self).content
            },
            final(self).user_id == old(self).user_id && final(self).article_id == old(self).article_id,
            final(self).deleted == old(self).deleted && final(self).media_uri == old(self).media_uri,
            final(self).created_at == old(self).created_at && final(self).updated_at == old(self).updated_at,
            name@ != "content"@ && name@ != "media"@ ==> r is Ok && *final(self) == *old(self),
    {
        proof {
            reveal_strlit("content");
            reveal_strlit("media");
            assert("content"@.len() == 7);
            assert("media"@.len() == 5);
        }
        if same_text(name, "content") {
            let text = parse_string_from_u8(data.as_slice())?;
            self.content = Some(text);
            Ok(())
        } else if same_text(name, "media") {
            let image = image_from_field(file_name, content_type, data)?;
            self.image = Some(image);
            Ok(())
        } else {
            Ok(())
        }
    }
}

impl ArticleForCreate {
    /// Applies one form field to an article form: `title` sets the title;
    /// other fields are ignored. A field that fails leaves the form as it was.
    pub fn apply_field(&mut self, name: &str, data: Vec<u8>) -> (r: Result<(), Error>)
        ensures
            r is Err ==> *final(self) == *old(self),
            name@ == "title"@ ==> text_field_set(final(self).title, data@, r),
            final(self).article_uri == old(self).article_uri && final(self).user_id == old(self).user_id,
            final(self).public == old(self).public && final(self).created_at == old(self).created_at,
            final(self).updated_at == old(self).updated_at,
            name@ != "title"@ ==> r is Ok && *final(self) == *old(self),
    {
        if same_text(name, "title") {
            self.title = parse_string_from_u8(data.as_slice())?;
        }
        Ok(())
    }
}

/// The content type an article body must be uploaded as.
pub open spec fn html_type() -> Seq<char> {
    "text/html"@
}

/// Decides what to do with one field of an article-body upload: `Ok(true)`
/// for the `file` field, whose bytes are the new body; `Ok(false)` for any
/// other field, which is ignored. A `file` declared as anything but
/// `text/html` is refused, naming its type.
pub fn article_body_field(name: &str, content_type: Option<&str>) -> (r: Result<bool, Error>)
    ensures
        name@ != "file"@ ==> r is Ok && !r->Ok_0,
        name@ == "file"@ ==> match content_type {
            Some(ct) => if ct@ == html_type() {
                r is Ok && r->Ok_0
            } else {
                r is Err && r->Err_0 is ServerUnsupportedMediaType
                    && r->Err_0->ServerUnsupportedMediaType_0@ == ct@
            },
            None => r is Ok && r->Ok_0,
        },
{
    if !same_text(name, "file") {
        return Ok(false);
    }
    match content_type {
        Some(ct) => {
            if same_text(ct, "text/html") {
                Ok(true)
            } else {
                Err(Error::ServerUnsupportedMediaType(String::from_str(ct)))
            }
        },
        None => Ok(true),
    }
}

} // verus!
