use vstd::prelude::*;
use chrono::NaiveDateTime;
use bigdecimal::BigDecimal;

verus! {

/// A row of `users`.
#[derive(Debug, PartialEq)]
pub struct User {
    pub id: i32,
    pub pioki_id: String,
    pub oauth_display_name: String,
    pub oauth_profile_picture: Option<String>,
    pub is_active: bool,
    pub created_at: NaiveDateTime,
    pub updated_at: NaiveDateTime,
    pub coin_amount: BigDecimal,
}

/// The row that creating a user inserts into `users`.
#[derive(Debug, PartialEq)]
pub struct NewUser {
    pub pioki_id: String,
    pub oauth_display_name: String,
    pub oauth_profile_picture: Option<String>,
    pub is_active: bool,
}

/// A row of `friends`: `pioki_id` asked `pioki_friend_id` to be friends.
#[derive(Debug, PartialEq)]
pub struct Friend {
    pub pioki_id: String,
    pub pioki_friend_id: String,
    pub is_blocked: bool,
    pub aka: Option<String>,
    pub created_at: Option<NaiveDateTime>,
    pub updated_at: Option<NaiveDateTime>,
}

/// A row of `posts`.
#[derive(Debug, PartialEq)]
pub struct Post {
    pub id: i32,
    pub creator_id: String,
    pub spoiler_header: Option<String>,
    pub origin_quota_limit: i32,
    pub quota_left: i32,
    pub content: String,
    pub created_at: NaiveDateTime,
    pub updated_at: NaiveDateTime,
}

/// The row that creating a post inserts into `posts`.
#[derive(Debug, PartialEq)]
pub struct NewPost {
    pub content: String,
    pub creator_id: String,
    pub origin_quota_limit: i32,
    pub quota_left: i32,
    pub spoiler_header: Option<String>,
}

/// A row of `post_keepers`: `pioki_id` holds post `post_id`.
#[derive(Debug, PartialEq)]
pub struct PostKeeper {
    pub id: i32,
    pub pioki_id: String,
    pub post_id: i32,
    pub pass_along_at: Option<NaiveDateTime>,
    pub created_at: NaiveDateTime,
    pub updated_at: NaiveDateTime,
}

/// A copy of an optional string.
pub fn clone_optional_string(s: &Option<String>) -> (r: Option<String>)
    ensures
        r == *s,
{
    match s {
        Some(v) => Some(v.clone()),
        None => None,
    }
}

impl Clone for User {
    fn clone(&self) -> (r: Self)
        ensures
            r == *self,
    {
        User {
            id: self.id,
            pioki_id: self.pioki_id.clone(),
            oauth_display_name: self.oauth_display_name.clone(),
            oauth_profile_picture: clone_optional_string(&self.oauth_profile_picture),
            is_active: self.is_active,
            created_at: self.created_at,
            updated_at: self.updated_at,
            coin_amount: self.coin_amount.clone(),
        }
    }
}

impl Clone for NewUser {
    fn clone(&self) -> (r: Self)
        ensures
            r == *self,
    {
        NewUser {
            pioki_id: self.pioki_id.clone(),
            oauth_display_name: self.oauth_display_name.clone(),
            oauth_profile_picture: clone_optional_string(&self.oauth_profile_picture),
            is_active: self.is_active,
        }
    }
}

impl Clone for Friend {
    fn clone(&self) -> (r: Self)
        ensures
            r == *self,
    {
        Friend {
            pioki_id: self.pioki_id.clone(),
            pioki_friend_id: self.pioki_friend_id.clone(),
            is_blocked: self.is_blocked,
            aka: clone_optional_string(&self.aka),
            created_at: self.created_at,
            updated_at: self.updated_at,
        }
    }
}

impl Clone for Post {
    fn clone(&self) -> (r: Self)
        ensures
            r == *self,
    {
        Post {
            id: self.id,
            creator_id: self.creator_id.clone(),
            spoiler_header: clone_optional_string(&self.spoiler_header),
            origin_quota_limit: self.origin_quota_limit,
            quota_left: self.quota_left,
            content: self.content.clone(),
            created_at: self.created_at,
            updated_at: self.updated_at,
        }
    }
}

impl Clone for NewPost {
    fn clone(&self) -> (r: Self)
        ensures
            r == *self,
    {
        NewPost {
            content: self.content.clone(),
            creator_id: self.creator_id.clone(),
            origin_quota_limit: self.origin_quota_limit,
            quota_left: self.quota_left,
            spoiler_header: clone_optional_string(&self.spoiler_header),
        }
    }
}

impl Clone for PostKeeper {
    fn clone(&self) -> (r: Self)
        ensures
            r == *self,
    {
        PostKeeper {
            id: self.id,
            pioki_id: self.pioki_id.clone(),
            post_id: self.post_id,
            pass_along_at: self.pass_along_at,
            created_at: self.created_at,
            updated_at: self.updated_at,
        }
    }
}

} // verus!
