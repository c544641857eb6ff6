//! What is known about a track besides its samples.

use vstd::prelude::*;
use crate::paths::{extension, join, parent, path_extension, path_join, path_parent};
use crate::text::{
    chars_of,
    decimal,
    lowercase_of,
    push_decimal,
    push_str,
    same_text,
    string_of,
    texts,
};

verus! {

/// A number below one hundred as two decimal digits.
pub open spec fn two_digits(n: nat) -> Seq<char> {
    if n < 10 {
        seq!['0'] + decimal(n)
    } else {
        decimal(n)
    }
}

/// A length of `secs` seconds as `h:mm:ss`, or as `m:ss` below one hour.
pub open spec fn duration_text(secs: nat) -> Seq<char> {
    let hours = secs / 3600;
    let minutes = (secs % 3600) / 60;
    let seconds = secs % 60;
    if hours > 0 {
        decimal(hours) + seq![':'] + two_digits(minutes) + seq![':'] + two_digits(seconds)
    } else {
        decimal(minutes) + seq![':'] + two_digits(seconds)
    }
}

/// Appends `n` to `out` as at least two decimal digits.
fn push_two_digits(out: &mut Vec<char>, n: u64)
    ensures
        final(out)@ == old(out)@ + two_digits(n as nat),
{
    if n < 10 {
        out.push('0');
    }
    push_decimal(out, n);
    assert(final(out)@ =~= old(out)@ + two_digits(n as nat));
}

/// The whole seconds of `frames` ticks of a time base of `numer / denom`
/// seconds, as `TimeBase::calc_time` of the crate `symphonia` computes them.
pub uninterp spec fn time_base_seconds(numer: u32, denom: u32, frames: u64) -> u64;

/// Calls `TimeBase::calc_time` of the crate `symphonia` on a time base of
/// `numer / denom` seconds and on `frames` ticks, and hands back the whole
/// seconds of the time. They are a function of the three numbers alone,
/// named [`time_base_seconds`]. The crate refuses a time base with a zero
/// in it, so none is passed.
#[verifier::external_body]
pub(crate) fn whole_seconds(numer: u32, denom: u32, frames: u64) -> (r: u64)
    requires
        numer > 0,
        denom > 0,
    ensures
        r == time_base_seconds(numer, denom, frames),
{
    symphonia::core::units::TimeBase::new(numer, denom).calc_time(frames).seconds
}

/// The tags that the player reads.
#[derive(Clone, Copy, Debug, PartialEq, Eq, Structural)]
pub enum TagKey {
    TrackTitle,
    Artist,
    Album,
    AlbumArtist,
    Date,
    ReleaseDate,
    Genre,
    TrackNumber,
    DiscNumber,
    /// Any other tag: it is not read.
    Other,
}

/// Tags, length and cover art of one track. Every part is optional.
#[derive(Debug, Clone)]
pub struct TrackMetadata {
    pub title: Option<String>,
    pub artist: Option<String>,
    pub album: Option<String>,
    pub album_artist: Option<String>,
    pub year: Option<String>,
    pub genre: Option<String>,
    pub track_number: Option<String>,
    pub disc_number: Option<String>,
    /// Total length in whole seconds.
    pub duration_secs: Option<u64>,
    /// The bytes of an image file.
    pub cover_art: Option<Vec<u8>>,
}

impl TrackMetadata {
    /// Whether no part is known.
    pub open spec fn is_blank(self) -> bool {
        &&& self.title is None
        &&& self.artist is None
        &&& self.album is None
        &&& self.album_artist is None
        &&& self.year is None
        &&& self.genre is None
        &&& self.track_number is None
        &&& self.disc_number is None
        &&& self.duration_secs is None
        &&& self.cover_art is None
    }
}

impl TrackMetadata {
    /// The metadata with the tag `key` set to `value`. The date and the
    /// release date both give the year.
    pub open spec fn with_tag(self, key: TagKey, value: String) -> TrackMetadata {
        match key {
            TagKey::TrackTitle => TrackMetadata { title: Some(value), ..self },
            TagKey::Artist => TrackMetadata { artist: Some(value), ..self },
            TagKey::Album => TrackMetadata { album: Some(value), ..self },
            TagKey::AlbumArtist => TrackMetadata { album_artist: Some(value), ..self },
            TagKey::Date => TrackMetadata { year: Some(value), ..self },
            TagKey::ReleaseDate => TrackMetadata { year: Some(value), ..self },
            TagKey::Genre => TrackMetadata { genre: Some(value), ..self },
            TagKey::TrackNumber => TrackMetadata { track_number: Some(value), ..self },
            TagKey::DiscNumber => TrackMetadata { disc_number: Some(value), ..self },
            TagKey::Other => self,
        }
    }

    /// The metadata with the given tags set, one after the other, so that
    /// of two tags for one part the later one stays.
    pub open spec fn with_tags(self, tags: Seq<(TagKey, String)>) -> TrackMetadata
        decreases tags.len(),
    {
        if tags.len() == 0 {
            self
        } else {
            self.with_tags(tags.drop_last()).with_tag(tags.last().0, tags.last().1)
        }
    }

    /// Sets the length of the track from the time base of its codec, a
    /// fraction `numer / denom` of a second, and its number of frames, where
    /// both are known. The time base holds no zero.
    pub fn probe_duration(&mut self, time_base: Option<(u32, u32)>, frames: Option<u64>)
        requires
            time_base matches Some(base) ==> base.0 > 0 && base.1 > 0,
        ensures
            *final(self) == (TrackMetadata {
                duration_secs: match (time_base, frames) {
                    (Some(base), Some(count)) => Some(time_base_seconds(base.0, base.1, count)),
                    _ => old(self).duration_secs,
                },
                ..*old(self)
            }),
    {
        match time_base {
            Some(base) => match frames {
                Some(count) => {
                    self.duration_secs = Some(whole_seconds(base.0, base.1, count));
                },
                None => {},
            },
            None => {},
        }
    }

    /// Reads the given tags, in their order.
    pub fn read_tags(&mut self, tags: Vec<(TagKey, String)>)
        ensures
            *final(self) == old(self).with_tags(tags@),
    {
        let ghost given = tags@;
        assert(given.take(0) =~= Seq::<(TagKey, String)>::empty());
        for tag in it: tags
            invariant
                it.seq() == given,
                *self == old(self).with_tags(given.take(it.index() as int)),
        {
            assert(given.take(it.index() + 1).drop_last() =~= given.take(it.index() as int));
            let (key, value) = tag;
            match key {
                TagKey::TrackTitle => {
                    self.title = Some(value);
                },
                TagKey::Artist => {
                    self.artist = Some(value);
                },
                TagKey::Album => {
                    self.album = Some(value);
                },
                TagKey::AlbumArtist => {
                    self.album_artist = Some(value);
                },
                TagKey::Date => {
                    self.year = Some(value);
                },
                TagKey::ReleaseDate => {
                    self.year = Some(value);
                },
                TagKey::Genre => {
                    self.genre = Some(value);
                },
                TagKey::TrackNumber => {
                    self.track_number = Some(value);
                },
                TagKey::DiscNumber => {
                    self.disc_number = Some(value);
                },
                TagKey::Other => {},
            }
        }
        assert(given.take(given.len() as int) =~= given);
    }

    /// Takes the first of the given pictures, if there is one, as the cover
    /// art.
    pub fn read_visuals(&mut self, visuals: Vec<Vec<u8>>)
        ensures
            *final(self) == (TrackMetadata {
                cover_art: if visuals@.len() > 0 {
                    Some(visuals@[0])
                } else {
                    old(self).cover_art
                },
                ..*old(self)
            }),
    {
        if visuals.len() > 0 {
            let mut rest = visuals;
            let first = rest.remove(0);
            self.cover_art = Some(first);
        }
    }

    /// Whether a picture beside the file is looked for: only where the file
    /// itself holds none.
    pub fn needs_external_cover(&self) -> (r: bool)
        ensures
            r == (self.cover_art is None),
    {
        self.cover_art.is_none()
    }

    /// The length of the track as text: `h:mm:ss`, `m:ss` below one hour,
    /// and `Unknown` where the length is not known.
    pub fn format_duration(&self) -> (r: String)
        ensures
            r@ == match self.duration_secs {
                Some(secs) => duration_text(secs as nat),
                None => "Unknown"@,
            },
    {
        let mut out: Vec<char> = Vec::new();
        match self.duration_secs {
            Some(secs) => {
                let hours: u64 = secs / 3600;
                let minutes: u64 = (secs % 3600) / 60;
                let seconds: u64 = secs % 60;
                if hours > 0 {
                    push_decimal(&mut out, hours);
                    out.push(':');
                    push_two_digits(&mut out, minutes);
                } else {
                    push_decimal(&mut out, minutes);
                }
                out.push(':');
                push_two_digits(&mut out, seconds);
                assert(out@ =~= duration_text(secs as nat));
            },
            None => {
                push_str(&mut out, "Unknown");
                assert(out@ =~= "Unknown"@);
            },
        }
        string_of(&out)
    }
}

impl Default for TrackMetadata {
    fn default() -> (r: TrackMetadata)
        ensures
            r.is_blank(),
    {
        TrackMetadata {
            title: None,
            artist: None,
            album: None,
            album_artist: None,
            year: None,
            genre: None,
            track_number: None,
            disc_number: None,
            duration_secs: None,
            cover_art: None,
        }
    }
}

/// The file names under which cover art is looked for beside a track, in
/// the order in which they are tried.
pub open spec fn cover_names() -> Seq<Seq<char>> {
    seq![
        "cover.jpg"@,
        "cover.jpeg"@,
        "cover.png"@,
        "folder.jpg"@,
        "folder.jpeg"@,
        "folder.png"@,
        "album.jpg"@,
        "album.jpeg"@,
        "album.png"@,
        "front.jpg"@,
        "front.jpeg"@,
        "front.png"@,
        "albumart.jpg"@,
        "albumart.jpeg"@,
        "albumart.png"@,
        "Cover.jpg"@,
        "Cover.jpeg"@,
        "Cover.png"@,
        "Folder.jpg"@,
        "Folder.jpeg"@,
        "Folder.png"@,
        "Album.jpg"@,
        "Album.jpeg"@,
        "Album.png"@,
    ]
}

/// The file names under which cover art is looked for.
pub fn cover_art_names() -> (r: Vec<&'static str>)
    ensures
        r@.len() == cover_names().len(),
        forall|i: int| 0 <= i < r@.len() ==> (#[trigger] r@[i])@ == cover_names()[i],
{
    let mut r: Vec<&'static str> = Vec::new();
    r.push("cover.jpg");
    r.push("cover.jpeg");
    r.push("cover.png");
    r.push("folder.jpg");
    r.push("folder.jpeg");
    r.push("folder.png");
    r.push("album.jpg");
    r.push("album.jpeg");
    r.push("album.png");
    r.push("front.jpg");
    r.push("front.jpeg");
    r.push("front.png");
    r.push("albumart.jpg");
    r.push("albumart.jpeg");
    r.push("albumart.png");
    r.push("Cover.jpg");
    r.push("Cover.jpeg");
    r.push("Cover.png");
    r.push("Folder.jpg");
    r.push("Folder.jpeg");
    r.push("Folder.png");
    r.push("Album.jpg");
    r.push("Album.jpeg");
    r.push("Album.png");
    r
}

/// The paths at which cover art for the track at `audio_path` is looked
/// for first: each of the [`cover_names`] inside the directory of the
/// track. There are none where the path of the track names no directory.
pub open spec fn cover_paths(audio_path: Seq<char>) -> Seq<Seq<char>> {
    match path_parent(audio_path) {
        Some(dir) => Seq::new(cover_names().len(), |i: int| path_join(dir, cover_names()[i])),
        None => Seq::empty(),
    }
}

/// The paths at which cover art for the track at `audio_path` is looked
/// for first, in the order in which they are tried.
pub fn cover_art_candidates(audio_path: &str) -> (r: Vec<String>)
    ensures
        texts(r@) == cover_paths(audio_path@),
{
    let mut r: Vec<String> = Vec::new();
    match parent(audio_path) {
        Some(dir) => {
            let names = cover_art_names();
            let mut i: usize = 0;
            while i < names.len()
                invariant
                    i <= names.len(),
                    names@.len() == cover_names().len(),
                    forall|k: int|
                        0 <= k < names@.len() ==> (#[trigger] names@[k])@ == cover_names()[k],
                    r@.len() == i,
                    forall|k: int|
                        0 <= k < i ==> (#[trigger] r@[k])@ == path_join(dir@, cover_names()[k]),
                decreases names.len() - i,
            {
                r.push(join(dir.as_str(), names[i]));
                i = i + 1;
            }
            assert(texts(r@) =~= cover_paths(audio_path@));
        },
        None => {
            assert(texts(r@) =~= cover_paths(audio_path@));
        },
    }
    r
}

/// Whether the lowercase text `lowered` is the extension of a picture.
pub open spec fn image_extension(lowered: Seq<char>) -> bool {
    ||| lowered == "jpg"@
    ||| lowered == "jpeg"@
    ||| lowered == "png"@
    ||| lowered == "gif"@
    ||| lowered == "webp"@
}

/// Whether the file at `path` is a picture by its name: it has an
/// extension, and the lowercase form of that is an [`image_extension`].
pub open spec fn image_file(path: Seq<char>) -> bool {
    match path_extension(path) {
        Some(found) => image_extension(lowercase_of(found)),
        None => false,
    }
}

/// Whether the lowercase text `lowered` is the extension of a picture.
pub fn is_image_extension(lowered: &str) -> (r: bool)
    ensures
        r == image_extension(lowered@),
{
    let text = chars_of(lowered);
    same_text(&text, &chars_of("jpg")) || same_text(&text, &chars_of("jpeg")) || same_text(
        &text,
        &chars_of("png"),
    ) || same_text(&text, &chars_of("gif")) || same_text(&text, &chars_of("webp"))
}

/// Whether `found`, an extension in any case, is that of a picture.
pub fn has_image_extension(found: &str) -> (r: bool)
    ensures
        r == image_extension(lowercase_of(found@)),
{
    let lowered = found.to_lowercase();
    is_image_extension(lowered.as_str())
}

/// Whether the file at `path` is a picture by its name. Where none of the
/// usual names is found beside a track, the first picture in its directory
/// is taken as the cover art.
pub fn is_image_file(path: &str) -> (r: bool)
    ensures
        r == image_file(path@),
{
    match extension(path) {
        Some(found) => has_image_extension(found.as_str()),
        None => false,
    }
}

} // verus!
