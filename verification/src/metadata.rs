//! What a player tells its clients about the media it plays.

use vstd::prelude::*;

use crate::cast::{to_unsigned_32, unsigned_32};
use crate::time::{ClockTime, Duration};

verus! {

/// Description of the media.
#[derive(Debug)]
pub struct Metadata {
    pub duration: Option<Duration>,
    pub width: u32,
    pub height: u32,
    pub format: String,
    pub is_seekable: bool,
    pub audio_tracks: Vec<String>,
    pub video_tracks: Vec<String>,
}

/// The model of a `Metadata`: the duration in nanoseconds, the texts as
/// sequences of characters.
#[verifier::ext_equal]
pub struct MetadataView {
    pub duration: Option<nat>,
    pub width: u32,
    pub height: u32,
    pub format: Seq<char>,
    pub is_seekable: bool,
    pub audio_tracks: Seq<Seq<char>>,
    pub video_tracks: Seq<Seq<char>>,
}

/// The characters of each text of a sequence.
pub open spec fn texts(strings: Seq<String>) -> Seq<Seq<char>> {
    strings.map_values(|s: String| s@)
}

impl View for Metadata {
    type V = MetadataView;

    open spec fn view(&self) -> MetadataView {
        MetadataView {
            duration: crate::time::duration_view(self.duration),
            width: self.width,
            height: self.height,
            format: self.format@,
            is_seekable: self.is_seekable,
            audio_tracks: texts(self.audio_tracks@),
            video_tracks: texts(self.video_tracks@),
        }
    }
}

/// Whether two lists hold the same texts in the same order.
fn same_texts(a: &Vec<String>, b: &Vec<String>) -> (res: bool)
    ensures
        res == (texts(a@) == texts(b@)),
{
    if a.len() != b.len() {
        assert(texts(a@).len() != texts(b@).len());
        return false;
    }
    let mut i: usize = 0;
    while i < a.len()
        invariant
            i <= a.len(),
            a.len() == b.len(),
            forall|j: int| 0 <= j < i ==> a@[j]@ == b@[j]@,
        decreases a.len() - i,
    {
        if !a[i].eq(&b[i]) {
            assert(texts(a@)[i as int] != texts(b@)[i as int]);
            return false;
        }
        i += 1;
    }
    assert(texts(a@) =~= texts(b@));
    true
}

/// A copy of a list of texts.
fn copy_texts(list: &Vec<String>) -> (res: Vec<String>)
    ensures
        texts(res@) == texts(list@),
{
    let mut res: Vec<String> = Vec::new();
    let mut i: usize = 0;
    while i < list.len()
        invariant
            i <= list.len(),
            res.len() == i,
            forall|j: int| 0 <= j < i ==> res@[j]@ == list@[j]@,
        decreases list.len() - i,
    {
        res.push(list[i].clone());
        i += 1;
    }
    assert(texts(res@) =~= texts(list@));
    res
}

impl Clone for Metadata {
    fn clone(&self) -> (res: Metadata)
        ensures
            res@ == self@,
    {
        Metadata {
            duration: self.duration,
            width: self.width,
            height: self.height,
            format: self.format.clone(),
            is_seekable: self.is_seekable,
            audio_tracks: copy_texts(&self.audio_tracks),
            video_tracks: copy_texts(&self.video_tracks),
        }
    }
}

impl PartialEq for Metadata {
    fn eq(&self, other: &Metadata) -> (res: bool) {
        let same_duration = match (&self.duration, &other.duration) {
            (Some(a), Some(b)) => *a == *b,
            (None, None) => true,
            _ => false,
        };
        same_duration && self.width == other.width && self.height == other.height
            && self.format.eq(&other.format) && self.is_seekable == other.is_seekable
            && same_texts(&self.audio_tracks, &other.audio_tracks) && same_texts(
            &self.video_tracks,
            &other.video_tracks,
        )
    }
}

impl vstd::std_specs::cmp::PartialEqSpecImpl for Metadata {
    open spec fn obeys_eq_spec() -> bool {
        true
    }

    open spec fn eq_spec(&self, other: &Metadata) -> bool {
        self@ == other@
    }
}

/// One stream of the media: its type (`"audio"`, `"video"` or another) and the
/// name of its codec, where it is known.
#[derive(Debug)]
pub struct StreamInfo {
    pub stream_type: String,
    pub codec: Option<String>,
}

/// The picture size of one video stream.
#[derive(Clone, Copy, Debug, PartialEq, Eq, Structural)]
pub struct VideoStream {
    pub width: i32,
    pub height: i32,
}

/// What the pipeline reports of the media.
#[derive(Debug)]
pub struct MediaInfo {
    pub duration: ClockTime,
    pub container_format: Option<String>,
    pub streams: Vec<StreamInfo>,
    pub number_of_video_streams: u32,
    pub video_streams: Vec<VideoStream>,
    pub is_seekable: bool,
}

/// The text of an optional string; empty where there is none.
pub open spec fn text_or_empty(text: Option<String>) -> Seq<char> {
    match text {
        Some(s) => s@,
        None => Seq::empty(),
    }
}

/// The codec names of the streams of type `kind`, in stream order.
pub open spec fn codecs_of(streams: Seq<StreamInfo>, kind: Seq<char>) -> Seq<Seq<char>> {
    streams.filter(|s: StreamInfo| s.stream_type@ == kind).map_values(
        |s: StreamInfo| text_or_empty(s.codec),
    )
}

impl MediaInfo {
    /// Where video streams are counted, at least one is listed.
    pub open spec fn wf(self) -> bool {
        self.number_of_video_streams > 0 ==> self.video_streams@.len() > 0
    }

    /// The description that clients get of the media: the picture size is that
    /// of the first video stream, and zero where there is none.
    pub open spec fn metadata(self) -> MetadataView {
        let has_video = self.number_of_video_streams > 0;
        MetadataView {
            duration: self.duration.length(),
            width: if has_video {
                unsigned_32(self.video_streams@[0].width)
            } else {
                0
            },
            height: if has_video {
                unsigned_32(self.video_streams@[0].height)
            } else {
                0
            },
            format: text_or_empty(self.container_format),
            is_seekable: self.is_seekable,
            audio_tracks: codecs_of(self.streams@, "audio"@),
            video_tracks: codecs_of(self.streams@, "video"@),
        }
    }
}

/// A copy of the text; empty where there is none.
fn copy_or_empty(text: &Option<String>) -> (res: String)
    ensures
        res@ == text_or_empty(*text),
{
    match text {
        Some(s) => s.clone(),
        None => String::new(),
    }
}

/// A list of texts grows at its end when one is pushed.
proof fn lemma_texts_push(list: Seq<String>, s: String)
    ensures
        texts(list.push(s)) == texts(list).push(s@),
{
    assert(texts(list.push(s)) =~= texts(list).push(s@));
}

/// How the codec names of a kind grow with one more stream.
proof fn lemma_codecs_push(streams: Seq<StreamInfo>, i: int, kind: Seq<char>)
    requires
        0 <= i < streams.len(),
    ensures
        codecs_of(streams.take(i + 1), kind) == if streams[i].stream_type@ == kind {
            codecs_of(streams.take(i), kind).push(text_or_empty(streams[i].codec))
        } else {
            codecs_of(streams.take(i), kind)
        },
{
    let pred = |s: StreamInfo| s.stream_type@ == kind;
    let longer = streams.take(i + 1);
    reveal(Seq::filter);
    assert(longer.drop_last() =~= streams.take(i));
    assert(longer.last() == streams[i]);
    assert(codecs_of(longer, kind) =~= if pred(streams[i]) {
        codecs_of(streams.take(i), kind).push(text_or_empty(streams[i].codec))
    } else {
        codecs_of(streams.take(i), kind)
    });
}

/// Describes the media that the pipeline reports.
pub fn metadata_from_media_info(media_info: &MediaInfo) -> (res: Result<Metadata, ()>)
    requires
        media_info.wf(),
    ensures
        res matches Ok(metadata) && metadata@ == media_info.metadata(),
{
    let duration = media_info.duration.to_duration();
    let mut audio_tracks: Vec<String> = Vec::new();
    let mut video_tracks: Vec<String> = Vec::new();
    let format = copy_or_empty(&media_info.container_format);
    let audio = "audio".to_owned();
    let video = "video".to_owned();
    let mut i: usize = 0;
    proof {
        reveal_strlit("audio");
        reveal_strlit("video");
        assert("audio"@[0] != "video"@[0]);
        assert(texts(audio_tracks@) =~= codecs_of(media_info.streams@.take(0), "audio"@));
        assert(texts(video_tracks@) =~= codecs_of(media_info.streams@.take(0), "video"@));
    }
    while i < media_info.streams.len()
        invariant
            i <= media_info.streams.len(),
            audio@ == "audio"@,
            video@ == "video"@,
            audio@ != video@,
            texts(audio_tracks@) == codecs_of(media_info.streams@.take(i as int), "audio"@),
            texts(video_tracks@) == codecs_of(media_info.streams@.take(i as int), "video"@),
        decreases media_info.streams.len() - i,
    {
        let stream_info = &media_info.streams[i];
        proof {
            lemma_codecs_push(media_info.streams@, i as int, "audio"@);
            lemma_codecs_push(media_info.streams@, i as int, "video"@);
        }
        if stream_info.stream_type.eq(&audio) {
            let codec = copy_or_empty(&stream_info.codec);
            proof {
                lemma_texts_push(audio_tracks@, codec);
            }
            audio_tracks.push(codec);
        } else if stream_info.stream_type.eq(&video) {
            let codec = copy_or_empty(&stream_info.codec);
            proof {
                lemma_texts_push(video_tracks@, codec);
            }
            video_tracks.push(codec);
        }
        i += 1;
    }
    assert(media_info.streams@.take(i as int) =~= media_info.streams@);
    let mut width: u32 = 0;
    let height: u32 = if media_info.number_of_video_streams > 0 {
        let first_video_stream = &media_info.video_streams[0];
        width = to_unsigned_32(first_video_stream.width);
        to_unsigned_32(first_video_stream.height)
    } else {
        0
    };
    Ok(
        Metadata {
            duration,
            width,
            height,
            format,
            is_seekable: media_info.is_seekable,
            audio_tracks,
            video_tracks,
        },
    )
}

} // verus!
