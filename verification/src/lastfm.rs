//! Reporting plays to last.fm: what is reported and when, and the texts of
//! the authorisation.

use vstd::prelude::*;
use vstd::string::StringSliceAdditionalSpecFns;
use crate::config::LastfmConfig;
use crate::metadata::TrackMetadata;
use crate::paths::{file_stem, path_file_stem};
use crate::text::{chars_of, decimal, push_decimal, push_str, string_of, trim, trimmed};

verus! {

/// The MD5 digest of `data`, as the function `compute` of the crate `md5`
/// computes it.
pub uninterp spec fn md5_digest(data: Seq<u8>) -> Seq<u8>;

/// Calls `md5::compute` on `data` and hands back the sixteen bytes of the
/// digest. The digest is a function of the data alone, named
/// [`md5_digest`]; its length is that of the array that the crate keeps a
/// digest in.
#[verifier::external_body]
pub(crate) fn md5_of(data: &[u8]) -> (r: Vec<u8>)
    ensures
        r@ == md5_digest(data@),
        r@.len() == 16,
{
    md5::compute(data).0.to_vec()
}

/// The character of the hexadecimal digit `d`, in lowercase.
pub open spec fn hex_digit(d: nat) -> char {
    if d == 0 {
        '0'
    } else if d == 1 {
        '1'
    } else if d == 2 {
        '2'
    } else if d == 3 {
        '3'
    } else if d == 4 {
        '4'
    } else if d == 5 {
        '5'
    } else if d == 6 {
        '6'
    } else if d == 7 {
        '7'
    } else if d == 8 {
        '8'
    } else if d == 9 {
        '9'
    } else if d == 10 {
        'a'
    } else if d == 11 {
        'b'
    } else if d == 12 {
        'c'
    } else if d == 13 {
        'd'
    } else if d == 14 {
        'e'
    } else {
        'f'
    }
}

/// The bytes as text: two lowercase hexadecimal digits for each.
pub open spec fn hex_text(bytes: Seq<u8>) -> Seq<char>
    decreases bytes.len(),
{
    if bytes.len() == 0 {
        Seq::empty()
    } else {
        hex_text(bytes.drop_last()).push(hex_digit((bytes.last() / 16) as nat)).push(
            hex_digit((bytes.last() % 16) as nat),
        )
    }
}

/// The character of the hexadecimal digit `d`.
fn hex_char(d: u8) -> (c: char)
    requires
        d < 16,
    ensures
        c == hex_digit(d as nat),
{
    if d == 0 {
        '0'
    } else if d == 1 {
        '1'
    } else if d == 2 {
        '2'
    } else if d == 3 {
        '3'
    } else if d == 4 {
        '4'
    } else if d == 5 {
        '5'
    } else if d == 6 {
        '6'
    } else if d == 7 {
        '7'
    } else if d == 8 {
        '8'
    } else if d == 9 {
        '9'
    } else if d == 10 {
        'a'
    } else if d == 11 {
        'b'
    } else if d == 12 {
        'c'
    } else if d == 13 {
        'd'
    } else if d == 14 {
        'e'
    } else {
        'f'
    }
}

/// The bytes of a digest as text, two lowercase hexadecimal digits for each.
pub fn digest_text(digest: &[u8]) -> (r: String)
    ensures
        r@ == hex_text(digest@),
{
    let mut out: Vec<char> = Vec::new();
    let mut i: usize = 0;
    while i < digest.len()
        invariant
            i <= digest.len(),
            out@ == hex_text(digest@.take(i as int)),
        decreases digest.len() - i,
    {
        let byte = digest[i];
        assert(digest@.take(i + 1).drop_last() =~= digest@.take(i as int));
        out.push(hex_char(byte / 16));
        out.push(hex_char(byte % 16));
        i = i + 1;
    }
    assert(digest@.take(digest@.len() as int) =~= digest@);
    string_of(&out)
}

/// The text that is signed when a session is asked for.
pub open spec fn session_request(api_key: Seq<char>, token: Seq<char>, api_secret: Seq<char>) -> Seq<
    char,
> {
    "api_key"@ + api_key + "methodauth.getSessiontoken"@ + token + api_secret
}

/// The text that is signed when a session is asked for.
pub fn session_request_text(api_key: &str, token: &str, api_secret: &str) -> (r: String)
    ensures
        r@ == session_request(api_key@, token@, api_secret@),
{
    let mut out: Vec<char> = Vec::new();
    push_str(&mut out, "api_key");
    push_str(&mut out, api_key);
    push_str(&mut out, "methodauth.getSessiontoken");
    push_str(&mut out, token);
    push_str(&mut out, api_secret);
    assert(out@ =~= session_request(api_key@, token@, api_secret@));
    string_of(&out)
}

/// The signature of the request for a session: the MD5 digest of the
/// [`session_request`] in UTF-8, as hexadecimal text.
pub fn api_signature(api_key: &str, token: &str, api_secret: &str) -> (r: String)
    ensures
        r@ == hex_text(
            md5_digest(vstd::utf8::encode_utf8(session_request(api_key@, token@, api_secret@))),
        ),
{
    let request = session_request_text(api_key, token, api_secret);
    let digest = md5_of(request.as_str().as_bytes());
    digest_text(digest.as_slice())
}

/// The address at which the user allows the program to use the account.
pub open spec fn auth_address(api_key: Seq<char>, token: Seq<char>) -> Seq<char> {
    "https://www.last.fm/api/auth/?api_key="@ + api_key + "&token="@ + token
}

/// The address at which the user allows the program to use the account.
pub fn auth_url(api_key: &str, token: &str) -> (r: String)
    ensures
        r@ == auth_address(api_key@, token@),
{
    let mut out: Vec<char> = Vec::new();
    push_str(&mut out, "https://www.last.fm/api/auth/?api_key=");
    push_str(&mut out, api_key);
    push_str(&mut out, "&token=");
    push_str(&mut out, token);
    assert(out@ =~= auth_address(api_key@, token@));
    string_of(&out)
}

/// What has to happen before plays can be reported.
#[derive(Clone, Copy, Debug, PartialEq, Eq, Structural)]
pub enum AuthStep {
    /// Nothing: reporting is off, or a session key is there.
    Nothing,
    /// The user has to put the API key and secret into the configuration.
    MissingCredentials,
    /// A session key has to be fetched with the help of the user.
    Authorize,
}

/// What the configuration calls for.
pub open spec fn auth_need(config: Option<LastfmConfig>) -> AuthStep {
    match config {
        None => AuthStep::Nothing,
        Some(lastfm) => if !lastfm.enabled || trimmed(lastfm.session_key@).len() > 0 {
            AuthStep::Nothing
        } else if trimmed(lastfm.api_key@).len() == 0 || trimmed(lastfm.api_secret@).len() == 0 {
            AuthStep::MissingCredentials
        } else {
            AuthStep::Authorize
        },
    }
}

/// Decides what has to happen before plays can be reported.
pub fn ensure_lastfm_session_key(config: Option<&LastfmConfig>) -> (r: AuthStep)
    ensures
        r == auth_need(
            match config {
                Some(lastfm) => Some(*lastfm),
                None => None,
            },
        ),
{
    match config {
        None => AuthStep::Nothing,
        Some(lastfm) => {
            if !lastfm.enabled {
                AuthStep::Nothing
            } else if trim(&chars_of(lastfm.session_key.as_str())).len() > 0 {
                AuthStep::Nothing
            } else if trim(&chars_of(lastfm.api_key.as_str())).len() == 0 || trim(
                &chars_of(lastfm.api_secret.as_str()),
            ).len() == 0 {
                AuthStep::MissingCredentials
            } else {
                AuthStep::Authorize
            }
        },
    }
}

/// A whole number as decimal text, with a minus sign where it is negative.
pub open spec fn signed_decimal(n: int) -> Seq<char> {
    if n < 0 {
        seq!['-'] + decimal((-n) as nat)
    } else {
        decimal(n as nat)
    }
}

/// The message for an answer of the service that reports an error.
/// `code` is the error code, where it is a number; `message` is the text
/// that came with it, if any.
pub open spec fn api_error_text(code: Option<i64>, message: Option<Seq<char>>) -> Seq<char> {
    let told = match message {
        Some(text) => text,
        None => "No error message provided"@,
    };
    match code {
        Some(number) => "Last.fm API error "@ + signed_decimal(number as int) + ": "@ + told,
        None => "Last.fm API error: "@ + told,
    }
}

/// The error that an answer of the service reports, as a message, or
/// nothing where the answer holds no error. `error` is the error field of
/// the answer, if it has one, with its value where that is a whole number;
/// `message` is the message field, where it is text.
pub fn lastfm_api_error(error: Option<Option<i64>>, message: Option<&str>) -> (r: Option<String>)
    ensures
        r is Some <==> error is Some,
        r matches Some(text) ==> text@ == api_error_text(
            error->0,
            match message {
                Some(told) => Some(told@),
                None => None,
            },
        ),
{
    match error {
        None => None,
        Some(code) => {
            let mut out: Vec<char> = Vec::new();
            match code {
                Some(number) => {
                    push_str(&mut out, "Last.fm API error ");
                    if number < 0 {
                        out.push('-');
                        let size: u64 = (-(number as i128)) as u64;
                        push_decimal(&mut out, size);
                    } else {
                        push_decimal(&mut out, number as u64);
                    }
                    push_str(&mut out, ": ");
                },
                None => {
                    push_str(&mut out, "Last.fm API error: ");
                },
            }
            match message {
                Some(told) => {
                    push_str(&mut out, told);
                },
                None => {
                    push_str(&mut out, "No error message provided");
                },
            }
            assert(out@ =~= api_error_text(
                code,
                match message {
                    Some(told) => Some(told@),
                    None => None,
                },
            ));
            Some(string_of(&out))
        },
    }
}

/// Seconds after which a track of unknown length counts as played.
pub const SCROBBLE_AFTER_SECS: u64 = 240;

/// Whether a track that has been played for `elapsed_secs` seconds counts
/// as played: after half its length or after four minutes, whichever comes
/// first, and after four minutes where its length is unknown.
pub open spec fn counts_as_played(elapsed_secs: u64, duration_secs: Option<u64>) -> bool {
    match duration_secs {
        Some(total) => elapsed_secs >= total / 2 || elapsed_secs >= SCROBBLE_AFTER_SECS,
        None => elapsed_secs >= SCROBBLE_AFTER_SECS,
    }
}

/// Whether a track that has been played for `elapsed_secs` seconds is
/// reported as played.
pub fn should_scrobble(elapsed_secs: u64, duration_secs: Option<u64>) -> (r: bool)
    ensures
        r == counts_as_played(elapsed_secs, duration_secs),
{
    match duration_secs {
        Some(total) => {
            let half: u64 = total / 2;
            let needed: u64 = if half < SCROBBLE_AFTER_SECS {
                half
            } else {
                SCROBBLE_AFTER_SECS
            };
            elapsed_secs >= needed
        },
        None => elapsed_secs >= SCROBBLE_AFTER_SECS,
    }
}

/// What is reported of a track.
#[derive(Debug, Clone)]
pub struct TrackInfo {
    pub artist: String,
    pub title: String,
    pub album: String,
}

/// The artist that a track is reported with: the artist of the track, else
/// the artist of the album, else `Unknown Artist`.
pub open spec fn reported_artist(metadata: TrackMetadata) -> Seq<char> {
    match metadata.artist {
        Some(artist) => artist@,
        None => match metadata.album_artist {
            Some(artist) => artist@,
            None => "Unknown Artist"@,
        },
    }
}

/// The title that a track is reported with: the title from its tags, else
/// the name of its file without the extension, else `Unknown Track`.
pub open spec fn reported_title(path: Seq<char>, metadata: TrackMetadata) -> Seq<char> {
    match metadata.title {
        Some(title) => title@,
        None => match path_file_stem(path) {
            Some(stem) => stem,
            None => "Unknown Track"@,
        },
    }
}

/// The album that a track is reported with: none where the tags name none.
pub open spec fn reported_album(metadata: TrackMetadata) -> Seq<char> {
    match metadata.album {
        Some(album) => album@,
        None => Seq::empty(),
    }
}

/// What is reported of the track at `path` with the given metadata.
pub fn extract_track_info(path: &str, metadata: &TrackMetadata) -> (r: TrackInfo)
    ensures
        r.artist@ == reported_artist(*metadata),
        r.title@ == reported_title(path@, *metadata),
        r.album@ == reported_album(*metadata),
{
    let artist = match &metadata.artist {
        Some(artist) => artist.clone(),
        None => match &metadata.album_artist {
            Some(artist) => artist.clone(),
            None => string_of(&chars_of("Unknown Artist")),
        },
    };
    let title = match &metadata.title {
        Some(title) => title.clone(),
        None => match file_stem(path) {
            Some(stem) => stem,
            None => string_of(&chars_of("Unknown Track")),
        },
    };
    let album = match &metadata.album {
        Some(album) => album.clone(),
        None => String::new(),
    };
    TrackInfo { artist, title, album }
}

/// What the reporting of plays keeps between calls.
#[derive(Clone, Copy, Debug, PartialEq, Eq, Structural)]
pub struct LastfmScrobbler {
    /// Whether plays are reported at all.
    pub enabled: bool,
    /// When the current track was announced, in seconds since the epoch.
    pub current_track_start: Option<u64>,
}

impl LastfmScrobbler {
    /// The state for the given configuration: plays are reported where
    /// there is a configuration that says so.
    pub fn new(config: Option<&LastfmConfig>) -> (r: LastfmScrobbler)
        ensures
            r.enabled == (config matches Some(lastfm) && lastfm.enabled),
            r.current_track_start is None,
    {
        match config {
            Some(lastfm) => LastfmScrobbler {
                enabled: lastfm.enabled,
                current_track_start: None,
            },
            None => LastfmScrobbler { enabled: false, current_track_start: None },
        }
    }

    /// Whether plays are reported at all.
    pub fn is_enabled(&self) -> (r: bool)
        ensures
            r == self.enabled,
    {
        self.enabled
    }

    /// What to announce as now playing for the track at `path`, or nothing
    /// where plays are not reported.
    pub fn now_playing(&self, path: &str, metadata: &TrackMetadata) -> (r: Option<TrackInfo>)
        ensures
            r is Some <==> self.enabled,
            r matches Some(info) ==> info.artist@ == reported_artist(*metadata) && info.title@
                == reported_title(path@, *metadata) && info.album@ == reported_album(*metadata),
    {
        if self.enabled {
            Some(extract_track_info(path, metadata))
        } else {
            None
        }
    }

    /// Records that the current track was announced at `timestamp`.
    pub fn announced(&mut self, timestamp: u64)
        ensures
            final(self).enabled == old(self).enabled,
            final(self).current_track_start == Some(timestamp),
    {
        self.current_track_start = Some(timestamp);
    }

    /// What to report as played for the track at `path`, with the time at
    /// which it was announced; nothing where plays are not reported or the
    /// track was never announced.
    pub fn scrobble(&self, path: &str, metadata: &TrackMetadata) -> (r: Option<(TrackInfo, u64)>)
        ensures
            r is Some <==> self.enabled && self.current_track_start is Some,
            r matches Some(report) ==> report.0.artist@ == reported_artist(*metadata)
                && report.0.title@ == reported_title(path@, *metadata) && report.0.album@
                == reported_album(*metadata) && Some(report.1) == self.current_track_start,
    {
        if self.enabled {
            match self.current_track_start {
                Some(timestamp) => Some((extract_track_info(path, metadata), timestamp)),
                None => None,
            }
        } else {
            None
        }
    }

    /// Forgets when the current track was announced.
    pub fn clear_current_track(&mut self)
        ensures
            final(self).enabled == old(self).enabled,
            final(self).current_track_start is None,
    {
        self.current_track_start = None;
    }
}

} // verus!
