//! Playlists: named lists of tracks that are kept as `.m3u` files.

use vstd::prelude::*;
use crate::order::{arranged, into_payloads, keyed, payloads, sort_by_key, KeyModel, SortKey};
use crate::paths::{extension, file_stem, join, path_extension, path_file_stem, path_join};
use crate::text::{
    chars_of,
    contents,
    ends_with,
    has_suffix,
    lemma_rewritten_step,
    lines,
    lines_of,
    push_str,
    rewritten,
    same_text,
    string_of,
    texts,
    trim,
    trimmed,
};

verus! {

/// One playlist.
#[derive(Debug, Clone)]
pub struct Playlist {
    /// The name that is shown.
    pub name: String,
    /// The file that holds the playlist.
    pub path: String,
    /// The paths of the tracks, in order.
    pub tracks: Vec<String>,
}

/// The track that a line of a playlist file names: the line without the
/// whitespace around it, unless nothing is left of it or it is a comment,
/// which begins with `#`.
pub open spec fn track_of_line(line: Seq<char>) -> Option<Seq<char>> {
    let plain = trimmed(line);
    if plain.len() > 0 && plain[0] != '#' {
        Some(plain)
    } else {
        None
    }
}

/// The tracks that the given lines name, in order.
pub open spec fn tracks_of_lines(lines: Seq<Seq<char>>) -> Seq<Seq<char>>
    decreases lines.len(),
{
    if lines.len() == 0 {
        Seq::empty()
    } else {
        match track_of_line(lines.last()) {
            Some(track) => tracks_of_lines(lines.drop_last()).push(track),
            None => tracks_of_lines(lines.drop_last()),
        }
    }
}

/// The tracks that the text of a playlist file names.
pub open spec fn playlist_tracks(content: Seq<char>) -> Seq<Seq<char>> {
    tracks_of_lines(lines_of(content))
}

/// The given tracks, each on a line of its own.
pub open spec fn track_lines(tracks: Seq<Seq<char>>) -> Seq<char>
    decreases tracks.len(),
{
    if tracks.len() == 0 {
        Seq::empty()
    } else {
        track_lines(tracks.drop_last()) + tracks.last() + seq!['\n']
    }
}

/// The text of a playlist file with the given tracks: the header line, then
/// the tracks.
pub open spec fn playlist_text(tracks: Seq<Seq<char>>) -> Seq<char> {
    "#EXTM3U\n"@ + track_lines(tracks)
}

impl Playlist {
    /// The playlist that the file at `path` holds, given the text `content`
    /// of the file. It is named after the file without its extension, or
    /// `Unnamed` where the path has no such part. Empty lines and comments
    /// name no track.
    pub fn load(path: &str, content: &str) -> (r: Playlist)
        ensures
            r.name@ == match path_file_stem(path@) {
                Some(stem) => stem,
                None => "Unnamed"@,
            },
            r.path@ == path@,
            texts(r.tracks@) == playlist_tracks(content@),
    {
        let name = match file_stem(path) {
            Some(stem) => stem,
            None => string_of(&chars_of("Unnamed")),
        };
        let found = lines(&chars_of(content));
        assert forall|k: int| 0 <= k < found@.len() implies (#[trigger] found@[k])@ == lines_of(
            content@,
        )[k] by {
            assert(contents(found@)[k] == found@[k]@);
        }
        let mut tracks: Vec<String> = Vec::new();
        let ghost all = lines_of(content@);
        let mut i: usize = 0;
        assert(texts(tracks@) =~= tracks_of_lines(all.take(0)));
        while i < found.len()
            invariant
                i <= found.len(),
                found@.len() == all.len(),
                forall|k: int| 0 <= k < found@.len() ==> (#[trigger] found@[k])@ == all[k],
                texts(tracks@) == tracks_of_lines(all.take(i as int)),
            decreases found.len() - i,
        {
            let plain = trim(&found[i]);
            assert(all.take(i + 1).drop_last() =~= all.take(i as int));
            if plain.len() > 0 && plain[0] != '#' {
                let ghost before = texts(tracks@);
                tracks.push(string_of(&plain));
                assert(texts(tracks@) =~= before.push(plain@));
            }
            i = i + 1;
        }
        assert(all.take(all.len() as int) =~= all);
        Playlist { name, path: string_of(&chars_of(path)), tracks }
    }

    /// The text of the file that holds this playlist.
    pub fn save(&self) -> (r: String)
        ensures
            r@ == playlist_text(texts(self.tracks@)),
    {
        let mut out: Vec<char> = chars_of("#EXTM3U\n");
        let ghost all = texts(self.tracks@);
        let mut i: usize = 0;
        assert(out@ =~= "#EXTM3U\n"@ + track_lines(all.take(0)));
        while i < self.tracks.len()
            invariant
                i <= self.tracks.len(),
                all == texts(self.tracks@),
                out@ == "#EXTM3U\n"@ + track_lines(all.take(i as int)),
            decreases self.tracks.len() - i,
        {
            assert(all.take(i + 1).drop_last() =~= all.take(i as int));
            push_str(&mut out, self.tracks[i].as_str());
            out.push('\n');
            assert(out@ =~= "#EXTM3U\n"@ + track_lines(all.take(i + 1)));
            i = i + 1;
        }
        assert(all.take(all.len() as int) =~= all);
        string_of(&out)
    }

    /// A playlist without tracks.
    pub fn new(name: String, path: String) -> (r: Playlist)
        ensures
            r.name == name,
            r.path == path,
            r.tracks@ == Seq::<String>::empty(),
    {
        Playlist { name, path, tracks: Vec::new() }
    }

    /// Puts `track` at the end of the playlist.
    pub fn add_track(&mut self, track: String)
        ensures
            final(self).tracks@ == old(self).tracks@.push(track),
            final(self).name == old(self).name,
            final(self).path == old(self).path,
    {
        self.tracks.push(track);
    }

    /// Takes the track at `index` out of the playlist. Nothing happens where
    /// no track stands there.
    pub fn remove_track(&mut self, index: usize)
        ensures
            final(self).tracks@ == if index < old(self).tracks@.len() {
                old(self).tracks@.remove(index as int)
            } else {
                old(self).tracks@
            },
            final(self).name == old(self).name,
            final(self).path == old(self).path,
    {
        if index < self.tracks.len() {
            self.tracks.remove(index);
        }
    }
}

/// A character of a playlist name as it stands in a file name: both kinds
/// of path separator become an underscore.
pub open spec fn file_name_piece(c: char) -> Seq<char> {
    if c == '/' || c == '\\' {
        seq!['_']
    } else {
        seq![c]
    }
}

/// The file name for a playlist called `name`: the name without the
/// whitespace around it, `playlist` where nothing is left, with path
/// separators replaced, and with `.m3u` behind it unless it ends in `.m3u`
/// or `.m3u8` already.
pub open spec fn playlist_file_name(name: Seq<char>) -> Seq<char> {
    let plain = trimmed(name);
    let base = if plain.len() == 0 {
        "playlist"@
    } else {
        rewritten(plain, |c: char| file_name_piece(c))
    };
    if ends_with(base, ".m3u"@) || ends_with(base, ".m3u8"@) {
        base
    } else {
        base + ".m3u"@
    }
}

/// `text` with both kinds of path separator replaced by an underscore.
fn replace_separators(text: &Vec<char>) -> (r: Vec<char>)
    ensures
        r@ == rewritten(text@, |c: char| file_name_piece(c)),
{
    let ghost piece = |c: char| file_name_piece(c);
    let mut r: Vec<char> = Vec::new();
    let mut i: usize = 0;
    while i < text.len()
        invariant
            i <= text.len(),
            piece == (|c: char| file_name_piece(c)),
            r@ == rewritten(text@.take(i as int), piece),
        decreases text.len() - i,
    {
        let c = text[i];
        proof {
            lemma_rewritten_step(text@, piece, i as int);
        }
        if c == '/' || c == '\\' {
            r.push('_');
        } else {
            r.push(c);
        }
        assert(r@ =~= rewritten(text@.take(i as int), piece) + piece(c));
        i = i + 1;
    }
    assert(text@.take(text.len() as int) =~= text@);
    r
}

/// The file name for a playlist called `name`.
pub fn playlist_filename(name: &str) -> (r: String)
    ensures
        r@ == playlist_file_name(name@),
{
    let plain = trim(&chars_of(name));
    let mut base: Vec<char> = if plain.len() == 0 {
        chars_of("playlist")
    } else {
        replace_separators(&plain)
    };
    let short = chars_of(".m3u");
    let long = chars_of(".m3u8");
    if !(has_suffix(&base, &short) || has_suffix(&base, &long)) {
        push_str(&mut base, ".m3u");
    }
    string_of(&base)
}

/// Whether the file at `path` is a playlist by its name: its extension is
/// `m3u` or `m3u8`, in lowercase.
pub open spec fn playlist_file(path: Seq<char>) -> bool {
    match path_extension(path) {
        Some(found) => found == "m3u"@ || found == "m3u8"@,
        None => false,
    }
}

/// Whether `found`, the extension of a file, is that of a playlist.
pub fn is_playlist_extension(found: &str) -> (r: bool)
    ensures
        r == (found@ == "m3u"@ || found@ == "m3u8"@),
{
    let text = chars_of(found);
    same_text(&text, &chars_of("m3u")) || same_text(&text, &chars_of("m3u8"))
}

/// Whether the file at `path` is a playlist by its name.
pub fn is_playlist_file(path: &str) -> (r: bool)
    ensures
        r == playlist_file(path@),
{
    match extension(path) {
        Some(found) => is_playlist_extension(found.as_str()),
        None => false,
    }
}

/// Why a playlist is not saved.
#[derive(Clone, Copy, Debug, PartialEq, Eq, Structural)]
pub enum PlaylistError {
    /// There are no tracks to save.
    Empty,
}

/// The playlists with the names that they are sorted by.
pub open spec fn by_name(playlists: Seq<Playlist>) -> Seq<(KeyModel, Playlist)> {
    Seq::new(
        playlists.len(),
        |i: int| (KeyModel { rank: 0, name: Some(playlists[i].name@) }, playlists[i]),
    )
}

/// The file name of a new, empty playlist called `name`: the name with path
/// separators replaced, and `.m3u` behind it.
pub open spec fn new_playlist_file_name(name: Seq<char>) -> Seq<char> {
    rewritten(name, |c: char| file_name_piece(c)) + ".m3u"@
}

/// The name that a saved playlist is shown with: `name` without the
/// whitespace around it, or `playlist` where nothing is left.
pub open spec fn display_name(name: Seq<char>) -> Seq<char> {
    if trimmed(name).len() == 0 {
        "playlist"@
    } else {
        trimmed(name)
    }
}

/// The mathematical state of a playlist manager.
pub struct ManagerModel {
    /// The directory that holds the playlist files.
    pub dir: Seq<char>,
    /// The playlists that are known.
    pub playlists: Seq<Playlist>,
}

/// The playlists of one directory.
#[derive(Debug)]
pub struct PlaylistManager {
    playlist_dir: String,
    playlists: Vec<Playlist>,
}

impl View for PlaylistManager {
    type V = ManagerModel;

    closed spec fn view(&self) -> ManagerModel {
        ManagerModel { dir: self.playlist_dir@, playlists: self.playlists@ }
    }
}

impl PlaylistManager {
    /// A manager for the directory `playlist_dir` that knows no playlist
    /// yet. The playlists found in the directory are handed to
    /// [`PlaylistManager::load_playlists`].
    pub fn new(playlist_dir: String) -> (r: PlaylistManager)
        ensures
            r@.dir == playlist_dir@,
            r@.playlists == Seq::<Playlist>::empty(),
    {
        PlaylistManager { playlist_dir, playlists: Vec::new() }
    }

    /// The directory that holds the playlist files.
    pub fn playlist_dir(&self) -> (r: &str)
        ensures
            r@ == self@.dir,
    {
        self.playlist_dir.as_str()
    }

    /// Replaces the known playlists by `found`, the playlists that were read
    /// from the directory, sorted by name.
    pub fn load_playlists(&mut self, found: Vec<Playlist>)
        ensures
            final(self)@.dir == old(self)@.dir,
            final(self)@.playlists == payloads(arranged(by_name(found@))),
    {
        let mut named: Vec<(SortKey, Playlist)> = Vec::new();
        assert(keyed(named@) =~= by_name(found@.take(0)));
        for playlist in it: found
            invariant
                it.seq() == found@,
                keyed(named@) == by_name(found@.take(it.index() as int)),
        {
            let ghost done = it.index() as int;
            let ghost before = named@;
            let ghost item = playlist;
            let name = chars_of(playlist.name.as_str());
            named.push((SortKey { rank: 0, name: Some(name) }, playlist));
            assert(item == found@[done]);
            assert(keyed(named@) =~= keyed(before).push(
                (KeyModel { rank: 0, name: Some(item.name@) }, item),
            ));
            assert(by_name(found@.take(done + 1)) =~= by_name(found@.take(done)).push(
                (KeyModel { rank: 0, name: Some(item.name@) }, item),
            ));
        }
        assert(found@.take(found@.len() as int) =~= found@);
        self.playlists = into_payloads(sort_by_key(named));
    }

    /// A new playlist without tracks that is called `name`, with its file
    /// in the directory of the manager. The manager does not know it yet:
    /// once its file has been written it is handed to
    /// [`PlaylistManager::create_playlist`].
    pub fn new_playlist(&self, name: String) -> (r: Playlist)
        ensures
            r.name == name,
            r.path@ == path_join(self@.dir, new_playlist_file_name(name@)),
            r.tracks@ == Seq::<String>::empty(),
    {
        let mut file = replace_separators(&chars_of(name.as_str()));
        push_str(&mut file, ".m3u");
        let path = join(self.playlist_dir.as_str(), string_of(&file).as_str());
        Playlist::new(name, path)
    }

    /// Takes `playlist`, whose file has been written, as the last of the
    /// known playlists.
    pub fn create_playlist(&mut self, playlist: Playlist)
        ensures
            final(self)@.dir == old(self)@.dir,
            final(self)@.playlists == old(self)@.playlists.push(playlist),
    {
        self.playlists.push(playlist);
    }

    /// Forgets the playlist at `index`, whose file has been removed. Nothing
    /// happens where no playlist stands there.
    pub fn delete_playlist(&mut self, index: usize)
        ensures
            final(self)@.dir == old(self)@.dir,
            final(self)@.playlists == if index < old(self)@.playlists.len() {
                old(self)@.playlists.remove(index as int)
            } else {
                old(self)@.playlists
            },
    {
        if index < self.playlists.len() {
            self.playlists.remove(index);
        }
    }

    /// The playlist to write when `tracks` are saved under `name`: shown
    /// with the name without the whitespace around it, kept in the file that
    /// [`playlist_filename`] names, inside the directory of the manager.
    /// Without tracks nothing is saved.
    pub fn save_playlist(&self, name: &str, tracks: &[String]) -> (r: Result<
        Playlist,
        PlaylistError,
    >)
        ensures
            r is Err <==> tracks@.len() == 0,
            r matches Ok(playlist) ==> playlist.name@ == display_name(name@) && playlist.path@
                == path_join(self@.dir, playlist_file_name(name@)) && texts(playlist.tracks@)
                == texts(tracks@),
    {
        if tracks.len() == 0 {
            return Err(PlaylistError::Empty);
        }
        let file = playlist_filename(name);
        let path = join(self.playlist_dir.as_str(), file.as_str());
        let plain = trim(&chars_of(name));
        let shown = if plain.len() == 0 {
            string_of(&chars_of("playlist"))
        } else {
            string_of(&plain)
        };
        let mut copied: Vec<String> = Vec::new();
        let mut i: usize = 0;
        while i < tracks.len()
            invariant
                i <= tracks.len(),
                texts(copied@) == texts(tracks@.take(i as int)),
            decreases tracks.len() - i,
        {
            let ghost before = texts(copied@);
            copied.push(tracks[i].clone());
            assert(texts(copied@) =~= before.push(tracks@[i as int]@));
            assert(texts(tracks@.take(i + 1)) =~= texts(tracks@.take(i as int)).push(
                tracks@[i as int]@,
            ));
            i = i + 1;
        }
        assert(tracks@.take(tracks@.len() as int) =~= tracks@);
        Ok(Playlist { name: shown, path, tracks: copied })
    }

    /// The known playlists.
    pub fn playlists(&self) -> (r: &[Playlist])
        ensures
            r@ == self@.playlists,
    {
        self.playlists.as_slice()
    }

    /// The known playlists, for changing them in place.
    pub fn playlists_mut(&mut self) -> (r: &mut [Playlist])
        ensures
            r@ == old(self)@.playlists,
            final(self)@.playlists == final(r)@,
            final(self)@.dir == old(self)@.dir,
    {
        self.playlists.as_mut_slice()
    }

    /// The playlist at `index`.
    pub fn get_playlist(&self, index: usize) -> (r: Option<&Playlist>)
        ensures
            r is Some <==> index < self@.playlists.len(),
            r matches Some(playlist) ==> *playlist == self@.playlists[index as int],
    {
        if index < self.playlists.len() {
            Some(&self.playlists[index])
        } else {
            None
        }
    }

    /// The playlist at `index`, for changing it in place.
    pub fn get_playlist_mut(&mut self, index: usize) -> (r: Option<&mut Playlist>)
        ensures
            r is Some <==> index < old(self)@.playlists.len(),
            r is None ==> final(self)@ == old(self)@,
            r matches Some(playlist) ==> *playlist == old(self)@.playlists[index as int]
                && final(self)@.playlists == old(self)@.playlists.update(
                index as int,
                *final(playlist),
            ) && final(self)@.dir == old(self)@.dir,
    {
        if index < self.playlists.len() {
            Some(&mut self.playlists[index])
        } else {
            None
        }
    }
}

} // verus!
