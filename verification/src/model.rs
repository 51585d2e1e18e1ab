//! The values that one invocation of the command works on, each with the
//! mathematical view that the contracts of this crate are written over.

use vstd::prelude::*;

verus! {

/// The user who invoked the command.
#[derive(Clone, Debug, PartialEq, Eq)]
pub struct UserRef {
    pub id: u64,
    pub name: String,
    pub avatar_url: Option<String>,
}

pub struct UserRefView {
    pub id: u64,
    pub name: Seq<char>,
    pub avatar_url: Option<Seq<char>>,
}

impl View for UserRef {
    type V = UserRefView;

    open spec fn view(&self) -> UserRefView {
        UserRefView {
            id: self.id,
            name: self.name@,
            avatar_url: self.avatar_url.deep_view(),
        }
    }
}

/// What a resolved media source says about itself. Either part may be
/// missing.
#[derive(Clone, Debug, PartialEq, Eq)]
pub struct TrackMetadata {
    pub title: Option<String>,
    pub thumbnail: Option<String>,
}

pub struct TrackMetadataView {
    pub title: Option<Seq<char>>,
    pub thumbnail: Option<Seq<char>>,
}

impl View for TrackMetadata {
    type V = TrackMetadataView;

    open spec fn view(&self) -> TrackMetadataView {
        TrackMetadataView {
            title: self.title.deep_view(),
            thumbnail: self.thumbnail.deep_view(),
        }
    }
}

/// A request to play `url` in the guild `guild_id` on behalf of
/// `invoking_user`. It lives for one invocation.
#[derive(Clone, Debug, PartialEq, Eq)]
pub struct PlayRequest {
    pub url: String,
    pub invoking_user: UserRef,
    pub guild_id: u64,
}

pub struct PlayRequestView {
    pub url: Seq<char>,
    pub invoking_user: UserRefView,
    pub guild_id: u64,
}

impl View for PlayRequest {
    type V = PlayRequestView;

    open spec fn view(&self) -> PlayRequestView {
        PlayRequestView {
            url: self.url@,
            invoking_user: self.invoking_user@,
            guild_id: self.guild_id,
        }
    }
}

/// A copy of an optional text.
pub fn copy_optional_text(text: &Option<String>) -> (copy: Option<String>)
    ensures
        copy.deep_view() == text.deep_view(),
{
    match text {
        Some(t) => Some(t.clone()),
        None => None,
    }
}

} // verus!
