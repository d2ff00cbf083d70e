//! Playback streams as the audio server reports them, and the two predicates
//! the controller applies to a single stream.

use vstd::prelude::*;

use crate::text::same_text;

verus! {

/// Executable that owns the primary stream.
pub const PRIMARY_BINARY: &'static str = "youtube-music-desktop-app";

/// Application name under which the primary stream is reported.
pub const PRIMARY_NAME: &'static str = "Chromium";

/// One playback stream, as captured in a snapshot.
///
/// `index` is the audio server's handle for the stream. It identifies the
/// stream within one snapshot only: the server may hand the same application
/// another index later.
#[derive(Debug, PartialEq, Eq)]
pub struct StreamRecord {
    pub index: u32,
    /// The stream is paused and produces no audio right now.
    pub corked: bool,
    /// The stream's own volume is silenced.
    pub muted: bool,
    pub application_name: String,
    pub application_binary: String,
}

/// The streams of the audio server at one instant, in the order in which the
/// server lists them. The order carries no meaning of its own, and the server
/// lists no index twice: see `distinct_indices`.
pub type Snapshot = Vec<StreamRecord>;

/// What a `StreamRecord` holds, with the strings as sequences of characters.
pub struct StreamModel {
    pub index: u32,
    pub corked: bool,
    pub muted: bool,
    pub application_name: Seq<char>,
    pub application_binary: Seq<char>,
}

impl View for StreamRecord {
    type V = StreamModel;

    open spec fn view(&self) -> StreamModel {
        StreamModel {
            index: self.index,
            corked: self.corked,
            muted: self.muted,
            application_name: self.application_name@,
            application_binary: self.application_binary@,
        }
    }
}

impl DeepView for StreamRecord {
    type V = StreamModel;

    open spec fn deep_view(&self) -> StreamModel {
        self@
    }
}

impl Clone for StreamRecord {
    fn clone(&self) -> (copy: Self)
        ensures
            copy@ == self@,
    {
        StreamRecord {
            index: self.index,
            corked: self.corked,
            muted: self.muted,
            application_name: self.application_name.clone(),
            application_binary: self.application_binary.clone(),
        }
    }
}

impl StreamModel {
    /// The stream may serve as the primary: it belongs to the primary
    /// application and is playing.
    pub open spec fn is_primary_candidate(self) -> bool {
        &&& self.application_binary == PRIMARY_BINARY@
        &&& self.application_name == PRIMARY_NAME@
        &&& !self.corked
    }

    /// The stream produces sound that can be heard: it is neither paused nor
    /// silenced.
    pub open spec fn is_audible(self) -> bool {
        !self.corked && !self.muted
    }

    /// The stream is audio that competes with the primary whose index is
    /// `primary`: an audible stream under any other index.
    pub open spec fn competes_with(self, primary: u32) -> bool {
        self.index != primary && self.is_audible()
    }
}

impl StreamRecord {
    /// Whether this stream may serve as the primary.
    pub fn is_primary_candidate(&self) -> (candidate: bool)
        ensures
            candidate == self@.is_primary_candidate(),
    {
        same_text(self.application_binary.as_str(), PRIMARY_BINARY) && same_text(
            self.application_name.as_str(),
            PRIMARY_NAME,
        ) && !self.corked
    }

    /// Whether this stream can be heard.
    pub fn is_audible(&self) -> (audible: bool)
        ensures
            audible == self@.is_audible(),
    {
        !self.corked && !self.muted
    }

    /// Whether this stream competes with the primary whose index is `primary`.
    pub fn competes_with(&self, primary: u32) -> (competes: bool)
        ensures
            competes == self@.competes_with(primary),
    {
        self.index != primary && !self.corked && !self.muted
    }
}

/// No two records of the snapshot share an index. The audio server's
/// snapshots are of this kind; the decision is defined for every snapshot.
pub open spec fn distinct_indices(snapshot: Seq<StreamModel>) -> bool {
    forall|i: int, j: int|
        0 <= i < j < snapshot.len() ==> (#[trigger] snapshot[i]).index != (
        #[trigger] snapshot[j]).index
}

} // verus!
