//! The optional profile of a user.

use crate::string_map::StringMap;
use vstd::prelude::*;

verus! {

/// A link to an account on another platform.
#[derive(Debug, PartialEq)]
pub struct SocialLink {
    pub platform: String,
    pub url: String,
    pub verified: bool,
}

/// The mathematical value of a [`SocialLink`].
#[verifier::ext_equal]
pub struct SocialLinkView {
    pub platform: Seq<char>,
    pub url: Seq<char>,
    pub verified: bool,
}

impl View for SocialLink {
    type V = SocialLinkView;

    open spec fn view(&self) -> SocialLinkView {
        SocialLinkView { platform: self.platform@, url: self.url@, verified: self.verified }
    }
}

impl Clone for SocialLink {
    fn clone(&self) -> (out: Self)
        ensures
            out@ == self@,
    {
        SocialLink {
            platform: self.platform.clone(),
            url: self.url.clone(),
            verified: self.verified,
        }
    }
}

/// What a user tells about themselves. A profile belongs to one user and
/// lives and dies with it.
#[derive(Debug, PartialEq)]
pub struct UserProfile {
    pub avatar: Option<String>,
    pub bio: String,
    pub preferences: StringMap<String>,
    pub social_links: Vec<SocialLink>,
}

/// The mathematical value of a [`UserProfile`].
#[verifier::ext_equal]
pub struct UserProfileView {
    pub avatar: Option<Seq<char>>,
    pub bio: Seq<char>,
    pub preferences: Map<Seq<char>, Seq<char>>,
    pub social_links: Seq<SocialLinkView>,
}

/// The characters of an optional string.
pub open spec fn option_chars(text: Option<String>) -> Option<Seq<char>> {
    match text {
        Some(text) => Some(text@),
        None => None,
    }
}

/// The values of a list of links, in order.
pub open spec fn link_views(links: Seq<SocialLink>) -> Seq<SocialLinkView> {
    Seq::new(links.len(), |i: int| links[i]@)
}

impl View for UserProfile {
    type V = UserProfileView;

    open spec fn view(&self) -> UserProfileView {
        UserProfileView {
            avatar: option_chars(self.avatar),
            bio: self.bio@,
            preferences: self.preferences@.map_values(|value: String| value@),
            social_links: link_views(self.social_links@),
        }
    }
}

impl Clone for UserProfile {
    fn clone(&self) -> (out: Self)
        ensures
            out@ == self@,
    {
        let avatar = match &self.avatar {
            Some(avatar) => Some(avatar.clone()),
            None => None,
        };
        let mut social_links: Vec<SocialLink> = Vec::new();
        let mut i: usize = 0;
        while i < self.social_links.len()
            invariant
                i <= self.social_links@.len(),
                social_links@.len() == i,
                forall|j: int| 0 <= j < i ==> (#[trigger] social_links@[j])@ == self.social_links@[j]@,
            decreases self.social_links@.len() - i,
        {
            social_links.push(self.social_links[i].clone());
            i += 1;
        }
        let preferences = self.preferences.clone();
        UserProfile { avatar, bio: self.bio.clone(), preferences, social_links }
    }
}

impl UserProfile {
    /// A profile that holds `bio` and nothing else.
    pub fn new(bio: String) -> (out: Self)
        ensures
            out@ == (UserProfileView {
                avatar: None,
                bio: bio@,
                preferences: Map::empty(),
                social_links: Seq::empty(),
            }),
    {
        UserProfile {
            avatar: None,
            bio,
            preferences: StringMap::new(),
            social_links: Vec::new(),
        }
    }

    /// The same profile with `avatar` as its picture.
    pub fn with_avatar(self, avatar: String) -> (out: Self)
        ensures
            out@ == (UserProfileView { avatar: Some(avatar@), ..self@ }),
    {
        let mut out = self;
        out.avatar = Some(avatar);
        out
    }

    /// Stores `value` under `key`, in place of what stood there.
    pub fn add_preference(&mut self, key: String, value: String)
        ensures
            final(self)@ == (UserProfileView {
                preferences: old(self)@.preferences.insert(key@, value@),
                ..old(self)@
            }),
    {
        self.preferences.insert(key, value);
    }

    /// Appends a link to the list of links.
    pub fn add_social_link(&mut self, platform: String, url: String, verified: bool)
        ensures
            final(self)@ == (UserProfileView {
                social_links: old(self)@.social_links.push(
                    SocialLinkView { platform: platform@, url: url@, verified },
                ),
                ..old(self)@
            }),
    {
        self.social_links.push(SocialLink { platform, url, verified });
    }
}

} // verus!
