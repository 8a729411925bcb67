//! The credentials of a site and the profile fetched with them.
use vstd::prelude::*;
use crate::imageboards::ImageBoards;
use crate::json::Json;
use crate::tags::{empty_tags, tag_contents};
use crate::text::{split_tags, words};
use vstd::string::StringExecFns;

verus! {

/// The profile of an authenticated user.
#[derive(Debug)]
pub struct UserData {
    pub id: u64,
    pub name: String,
    /// The tags that the user blacklisted on the site.
    pub blacklisted_tags: ahash::AHashSet<String>,
}

/// The credentials of one site, with the profile fetched when they were
/// checked.
#[derive(Debug)]
pub struct ImageboardConfig {
    pub imageboard: ImageBoards,
    pub username: String,
    pub api_key: String,
    pub user_data: UserData,
}

impl ImageboardConfig {
    /// Credentials of `imageboard` that were not checked yet: an empty profile.
    pub fn new(imageboard: ImageBoards, username: String, api_key: String) -> (r: ImageboardConfig)
        ensures
            r.imageboard == imageboard,
            r.username == username,
            r.api_key == api_key,
            r.user_data.id == 0,
            r.user_data.name@ == Seq::<char>::empty(),
            tag_contents(r.user_data.blacklisted_tags) == Set::<Seq<char>>::empty(),
    {
        ImageboardConfig {
            imageboard,
            username,
            api_key,
            user_data: UserData { id: 0, name: String::new(), blacklisted_tags: empty_tags() },
        }
    }
}

impl UserData {
    /// Reads the profile that a site returns for a checked login: its `id`,
    /// its `name`, and its `blacklisted_tags`, a list of tags separated by
    /// spaces or line breaks (none when absent). `None` without an id or name.
    pub fn from_profile(body: &Json) -> (r: Option<UserData>)
        ensures
            r is Some <==> (body.u64_field("id"@) is Some && body.str_field("name"@) is Some),
            r is Some ==> ({
                let u = r->Some_0;
                &&& u.id == body.u64_field("id"@)->Some_0
                &&& u.name@ == body.str_field("name"@)->Some_0
                &&& tag_contents(u.blacklisted_tags) == match body.str_field("blacklisted_tags"@) {
                    Some(t) => words(t),
                    None => Set::<Seq<char>>::empty(),
                }
            }),
    {
        let id = match body.get_u64("id") {
            Some(n) => n,
            None => return None,
        };
        let name = match body.get_str("name") {
            Some(s) => s.clone(),
            None => return None,
        };
        let blacklisted_tags = match body.get_str("blacklisted_tags") {
            Some(t) => split_tags(t.as_str()),
            None => empty_tags(),
        };
        Some(UserData { id, name, blacklisted_tags })
    }
}

} // verus!
