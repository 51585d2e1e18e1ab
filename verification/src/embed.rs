//! The status message that announces a queued track.

use crate::model::copy_optional_text;
use crate::model::PlayRequest;
use crate::model::PlayRequestView;
use crate::model::TrackMetadata;
use crate::model::TrackMetadataView;
use vstd::prelude::*;
use vstd::string::StringExecFns;

verus! {

/// The accent colour of the status message, as a 24-bit RGB value.
pub const ACCENT_COLOUR: u32 = 0xfcd34d;

/// A rich message, ready to be rendered. A part that is `None` is left out
/// of the message.
#[derive(Clone, Debug, PartialEq, Eq)]
pub struct StatusEmbed {
    pub colour: u32,
    pub thumbnail: Option<String>,
    pub title: String,
    pub url: String,
    pub field_name: String,
    pub queue_length: usize,
    pub field_inline: bool,
    pub footer_text: String,
    pub footer_icon: Option<String>,
}

pub struct StatusEmbedView {
    pub colour: u32,
    pub thumbnail: Option<Seq<char>>,
    pub title: Seq<char>,
    pub url: Seq<char>,
    pub field_name: Seq<char>,
    pub queue_length: usize,
    pub field_inline: bool,
    pub footer_text: Seq<char>,
    pub footer_icon: Option<Seq<char>>,
}

impl View for StatusEmbed {
    type V = StatusEmbedView;

    open spec fn view(&self) -> StatusEmbedView {
        StatusEmbedView {
            colour: self.colour,
            thumbnail: self.thumbnail.deep_view(),
            title: self.title@,
            url: self.url@,
            field_name: self.field_name@,
            queue_length: self.queue_length,
            field_inline: self.field_inline,
            footer_text: self.footer_text@,
            footer_icon: self.footer_icon.deep_view(),
        }
    }
}

/// The heading of the status message: `Playing: ` and then the track's
/// title, or nothing after the lead where the track has no title.
pub open spec fn playing_title(title: Option<Seq<char>>) -> Seq<char> {
    match title {
        Some(t) => "Playing: "@ + t,
        None => "Playing: "@,
    }
}

/// The name of the one field of the status message.
pub open spec fn queue_field_name() -> Seq<char> {
    "Tracks in queue:"@
}

/// The status message for `request`, once its track, described by
/// `metadata`, is queued and the queue holds `queue_length` tracks.
///
/// A missing thumbnail or avatar is left out and a missing title leaves the
/// heading bare; none of them stands in the way of the message.
pub open spec fn status_for(
    request: PlayRequestView,
    metadata: TrackMetadataView,
    queue_length: usize,
) -> StatusEmbedView {
    StatusEmbedView {
        colour: ACCENT_COLOUR,
        thumbnail: metadata.thumbnail,
        title: playing_title(metadata.title),
        url: request.url,
        field_name: queue_field_name(),
        queue_length: queue_length,
        field_inline: false,
        footer_text: request.invoking_user.name,
        footer_icon: request.invoking_user.avatar_url,
    }
}

/// Writes the heading for a track with the given title.
pub fn heading(title: &Option<String>) -> (text: String)
    ensures
        text@ == playing_title(title.deep_view()),
{
    let lead = String::from_str("Playing: ");
    match title {
        Some(t) => lead.concat(t.as_str()),
        None => lead,
    }
}

/// Composes the status message for a queued track.
pub fn status_embed(request: &PlayRequest, metadata: &TrackMetadata, queue_length: usize) -> (embed:
    StatusEmbed)
    ensures
        embed@ == status_for(request@, metadata@, queue_length),
{
    StatusEmbed {
        colour: ACCENT_COLOUR,
        thumbnail: copy_optional_text(&metadata.thumbnail),
        title: heading(&metadata.title),
        url: request.url.clone(),
        field_name: String::from_str("Tracks in queue:"),
        queue_length,
        field_inline: false,
        footer_text: request.invoking_user.name.clone(),
        footer_icon: copy_optional_text(&request.invoking_user.avatar_url),
    }
}

} // verus!
