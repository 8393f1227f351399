//! The records the backend stores, and the forms that create or update them.

use vstd::prelude::*;
use vstd::string::*;

use crate::identity::Identity;
use crate::image::Image;

verus! {

/// An instant in UTC: whole seconds since the Unix epoch and the nanoseconds
/// past them.
#[derive(Clone, Copy, Debug, PartialEq, Eq, Structural)]
pub struct Timestamp {
    pub secs: i64,
    pub nanos: u32,
}

impl Timestamp {
    /// The Unix epoch, which stands for "not set" in a fresh form.
    pub fn epoch() -> (r: Timestamp)
        ensures
            r.secs == 0 && r.nanos == 0,
    {
        Timestamp { secs: 0, nanos: 0 }
    }
}

/// A stored user.
pub struct User {
    pub id: Identity,
    pub articles: Option<Vec<Identity>>,
    pub first_name: String,
    pub username: String,
    pub last_name: String,
    pub email: String,
    pub is_admin: bool,
    pub deleted: bool,
    pub profile_pic_uri: Option<String>,
    pub created_at: Timestamp,
    pub updated_at: Option<Timestamp>,
    pub deleted_at: Option<Timestamp>,
}

/// The fields of a user to create, or of an update to one.
pub struct UserForCreate {
    pub first_name: String,
    pub last_name: String,
    pub username: String,
    pub email: String,
    pub is_admin: bool,
    pub deleted: bool,
    pub avatar: Option<Image>,
    pub profile_pic_uri: Option<String>,
    pub created_at: Timestamp,
    pub updated_at: Option<Timestamp>,
    pub deleted_at: Option<Timestamp>,
}

impl UserForCreate {
    /// An empty form: empty texts, no avatar, not admin, not deleted.
    pub fn new() -> (r: UserForCreate)
        ensures
            r.first_name@.len() == 0 && r.last_name@.len() == 0,
            r.username@.len() == 0 && r.email@.len() == 0,
            !r.is_admin && !r.deleted,
            r.avatar is None && r.profile_pic_uri is None,
            r.created_at == (Timestamp { secs: 0, nanos: 0 }),
            r.updated_at is None && r.deleted_at is None,
    {
        UserForCreate {
            first_name: String::new(),
            last_name: String::new(),
            username: String::new(),
            email: String::new(),
            is_admin: false,
            deleted: false,
            avatar: None,
            profile_pic_uri: None,
            created_at: Timestamp::epoch(),
            updated_at: None,
            deleted_at: None,
        }
    }
}

/// The credentials a user logs in with.
pub struct UserForLogin {
    pub email: String,
    pub password: String,
}

/// A stored comment, or a reply to one.
pub struct Comment {
    pub id: Identity,
    pub user_id: Identity,
    pub article_id: Identity,
    pub deleted: bool,
    pub reply: Option<Vec<Identity>>,
    pub content: Option<String>,
    pub media_uri: Option<String>,
    pub liked_by: Option<Vec<Identity>>,
    pub created_at: Timestamp,
    pub updated_at: Option<Timestamp>,
}

/// The fields of a comment to create, or of an update to one.
pub struct CommentForCreate {
    pub user_id: Identity,
    pub article_id: Identity,
    pub deleted: bool,
    pub content: Option<String>,
    pub media_uri: Option<String>,
    pub created_at: Timestamp,
    pub updated_at: Option<Timestamp>,
    pub image: Option<Image>,
}

impl CommentForCreate {
    /// An empty form, with blank author and article.
    pub fn new() -> (r: CommentForCreate)
        ensures
            r.user_id.collection@.len() == 0 && r.user_id.key@.len() == 0,
            r.article_id.collection@.len() == 0 && r.article_id.key@.len() == 0,
            !r.deleted,
            r.content is None && r.media_uri is None && r.image is None,
            r.created_at == (Timestamp { secs: 0, nanos: 0 }),
            r.updated_at is None,
    {
        proof {
            reveal_strlit("");
        }
        CommentForCreate {
            user_id: Identity::new("", ""),
            article_id: Identity::new("", ""),
            deleted: false,
            content: None,
            media_uri: None,
            created_at: Timestamp::epoch(),
            updated_at: None,
            image: None,
        }
    }
}

/// A stored article.
pub struct Article {
    pub id: Identity,
    pub user_id: Identity,
    pub title: String,
    pub public: bool,
    pub article_uri: String,
    pub tags: Option<String>,
    pub comments: Option<Comment>,
    pub liked_by: Option<Vec<Identity>>,
    pub created_at: Timestamp,
    pub updated_at: Option<Timestamp>,
}

/// The fields of an article to create.
pub struct ArticleForCreate {
    pub article_uri: String,
    pub user_id: Identity,
    pub title: String,
    pub public: bool,
    pub created_at: Timestamp,
    pub updated_at: Option<Timestamp>,
}

/// The collection that users are stored in.
pub open spec fn user_collection() -> Seq<char> {
    "user"@
}

impl ArticleForCreate {
    /// An empty form, by a blank user, not public.
    pub fn new() -> (r: ArticleForCreate)
        ensures
            r.article_uri@.len() == 0 && r.title@.len() == 0,
            r.user_id.collection@ == user_collection() && r.user_id.key@.len() == 0,
            !r.public,
            r.created_at == (Timestamp { secs: 0, nanos: 0 }),
            r.updated_at is None,
    {
        proof {
            reveal_strlit("");
        }
        ArticleForCreate {
            article_uri: String::new(),
            user_id: Identity::new("user", ""),
            title: String::new(),
            public: false,
            created_at: Timestamp::epoch(),
            updated_at: None,
        }
    }
}

/// A stored page of an article body.
pub struct Page {
    pub id: Identity,
    pub user_id: Identity,
    pub file_path: String,
    pub created_at: Timestamp,
    pub updated_at: Option<Timestamp>,
}

} // verus!
