//! Merging a partial edit into a stored record: fields left empty in the
//! edit keep their stored value, and an edit with nothing in it is refused.

use vstd::prelude::*;
use vstd::string::*;

use crate::error::Error;
use crate::models::{Comment, CommentForCreate, Timestamp, User, UserForCreate};

verus! {

/// An optional text, viewed.
pub open spec fn opt_text(o: Option<String>) -> Option<Seq<char>> {
    match o {
        Some(s) => Some(s@),
        None => None,
    }
}

/// The edited text when it is not empty, the stored one otherwise.
pub open spec fn kept_text(edited: Seq<char>, stored: Seq<char>) -> Seq<char> {
    if edited.len() == 0 {
        stored
    } else {
        edited
    }
}

/// The stored key of newly uploaded media if there is one, the stored
/// media key otherwise.
pub open spec fn kept_media(uploaded: Option<String>, stored: Option<String>) -> Option<Seq<char>> {
    match uploaded {
        Some(u) => Some(u@),
        None => opt_text(stored),
    }
}

/// A user edit with no name and no avatar in it.
pub open spec fn user_edit_is_empty(edit: UserForCreate) -> bool {
    edit.first_name@.len() == 0 && edit.last_name@.len() == 0 && edit.avatar is None
}

/// `merged` is `stored` with the names of `edit` applied, the profile picture
/// replaced by `uploaded` when there is one, and `now` as the update instant.
pub open spec fn user_merged(edit: UserForCreate, stored: User, uploaded: Option<String>, now: Timestamp, merged: UserForCreate) -> bool {
    &&& merged.first_name@ == kept_text(edit.first_name@, stored.first_name@)
    &&& merged.last_name@ == kept_text(edit.last_name@, stored.last_name@)
    &&& merged.username@.len() == 0 && merged.email@.len() == 0
    &&& merged.is_admin == stored.is_admin && merged.deleted == stored.deleted
    &&& merged.avatar is None
    &&& opt_text(merged.profile_pic_uri) == kept_media(uploaded, stored.profile_pic_uri)
    &&& merged.created_at == stored.created_at
    &&& merged.updated_at == Some(now)
    &&& merged.deleted_at == stored.deleted_at
}

/// The edited content when present and not empty, the stored one otherwise.
pub open spec fn kept_content(edited: Option<String>, stored: Option<String>) -> Option<Seq<char>> {
    match edited {
        Some(c) => if c@.len() == 0 {
            opt_text(stored)
        } else {
            Some(c@)
        },
        None => opt_text(stored),
    }
}

/// A copy of an optional text.
fn copy_text(o: &Option<String>) -> (r: Option<String>)
    ensures
        opt_text(r) == opt_text(*o),
{
    match o {
        Some(s) => Some(s.clone()),
        None => None,
    }
}

/// The edited text when it is not empty, a copy of the stored one otherwise.
fn keep_text(edited: &String, stored: &String) -> (r: String)
    ensures
        r@ == kept_text(edited@, stored@),
{
    if edited.unicode_len() == 0 {
        stored.clone()
    } else {
        edited.clone()
    }
}

/// Merges the user edit `new_user` into the stored `old_user`. `uploaded`
/// is the key under which the edit's avatar was stored, when it was. An edit
/// with no name and no avatar is refused as an empty form.
pub fn merge_user_update(new_user: &UserForCreate, old_user: &User, uploaded: Option<String>, now: Timestamp) -> (r: Result<UserForCreate, Error>)
    ensures
        r is Err <==> user_edit_is_empty(*new_user),
        r is Err ==> r->Err_0 is ServerEmptyFormFromUser,
        r is Ok ==> user_merged(*new_user, *old_user, uploaded, now, r->Ok_0),
{
    if new_user.first_name.unicode_len() == 0 && new_user.last_name.unicode_len() == 0 && new_user.avatar.is_none() {
        return Err(Error::ServerEmptyFormFromUser);
    }
    let ghost up = uploaded;
    let profile_pic_uri = match uploaded {
        Some(u) => Some(u),
        None => copy_text(&old_user.profile_pic_uri),
    };
    assert(opt_text(profile_pic_uri) == kept_media(up, old_user.profile_pic_uri));
    Ok(UserForCreate {
        first_name: keep_text(&new_user.first_name, &old_user.first_name),
        last_name: keep_text(&new_user.last_name, &old_user.last_name),
        username: String::new(),
        email: String::new(),
        is_admin: old_user.is_admin,
        deleted: old_user.deleted,
        avatar: None,
        profile_pic_uri,
        created_at: old_user.created_at,
        updated_at: Some(now),
        deleted_at: old_user.deleted_at,
    })
}

/// Merges the stored `old_comment` into the edit `new_comment` in place:
/// missing or empty content takes the stored content, the media key becomes
/// `uploaded` (the key of the edit's newly stored image) or else the stored
/// one, and `now` becomes the update instant. An edit with neither content
/// nor image is refused as an empty form and left as it was.
pub fn merge_comment_update(old_comment: &Comment, new_comment: &mut CommentForCreate, uploaded: Option<String>, now: Timestamp) -> (r: Result<(), Error>)
    ensures
        r is Err <==> (old(new_comment).content is None && old(new_comment).image is None),
        r is Err ==> r->Err_0 is ServerEmptyFormFromUser && *final(new_comment) == *old(new_comment),
        r is Ok ==> {
            let f = *final(new_comment);
            let o = *old(new_comment);
            &&& opt_text(f.content) == kept_content(o.content, old_comment.content)
            &&& opt_text(f.media_uri) == kept_media(uploaded, old_comment.media_uri)
            &&& f.updated_at == Some(now)
            &&& f.user_id == o.user_id && f.article_id == o.article_id
            &&& f.deleted == o.deleted && f.created_at == o.created_at
            &&& f.image == o.image
        },
{
    if new_comment.content.is_none() && new_comment.image.is_none() {
        return Err(Error::ServerEmptyFormFromUser);
    }
    let keep_stored = match &new_comment.content {
        Some(c) => c.unicode_len() == 0,
        None => true,
    };
    if keep_stored {
        new_comment.content = copy_text(&old_comment.content);
    }
    let ghost up = uploaded;
    new_comment.media_uri = match uploaded {
        Some(u) => Some(u),
        None => copy_text(&old_comment.media_uri),
    };
    assert(opt_text(new_comment.media_uri) == kept_media(up, old_comment.media_uri));
    new_comment.updated_at = Some(now);
    Ok(())
}

} // verus!
