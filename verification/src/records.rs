use vstd::prelude::*;

verus! {

/// Opaque identity of an actor. The store never inspects it beyond equality;
/// it serves only as the natural key for users and as the author reference on
/// posts, comments and likes.
#[derive(Clone, Copy, PartialEq, Eq, Structural, Debug)]
pub struct ActorId {
    pub id: u64,
}

/// A registered user: an identity together with its display name.
pub struct User {
    pub user_id: ActorId,
    pub username: String,
}

/// A post. Its numeric id is assigned by the store; `user_id` names the owner.
pub struct Post {
    pub post_id: u64,
    pub user_id: ActorId,
    pub title: String,
    pub body: String,
    pub image_url: Option<String>,
    pub caption: Option<String>,
}

/// A comment on a post. Its numeric id is assigned by the store.
pub struct Comment {
    pub comment_id: u64,
    pub post_id: u64,
    pub user_id: ActorId,
    pub content: String,
}

/// A like on a post. Its numeric id is assigned by the store.
pub struct Like {
    pub like_id: u64,
    pub post_id: u64,
    pub user_id: ActorId,
}

impl Clone for User {
    fn clone(&self) -> (other: Self)
        ensures
            other == *self,
    {
        User { user_id: self.user_id, username: self.username.clone() }
    }
}

impl Clone for Post {
    fn clone(&self) -> (other: Self)
        ensures
            other == *self,
    {
        Post {
            post_id: self.post_id,
            user_id: self.user_id,
            title: self.title.clone(),
            body: self.body.clone(),
            image_url: match &self.image_url {
                Some(url) => Some(url.clone()),
                None => None,
            },
            caption: match &self.caption {
                Some(text) => Some(text.clone()),
                None => None,
            },
        }
    }
}

impl Clone for Comment {
    fn clone(&self) -> (other: Self)
        ensures
            other == *self,
    {
        Comment {
            comment_id: self.comment_id,
            post_id: self.post_id,
            user_id: self.user_id,
            content: self.content.clone(),
        }
    }
}

impl Clone for Like {
    fn clone(&self) -> (other: Self)
        ensures
            other == *self,
    {
        Like { like_id: self.like_id, post_id: self.post_id, user_id: self.user_id }
    }
}

} // verus!
