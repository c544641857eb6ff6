//! The directory browser: the entries of one directory, a selection among
//! them, and the selection that each visited directory is remembered with.
//!
//! Directories are read by the caller. After the browser has moved to
//! another directory it waits for the listing of that directory, which is
//! handed to [`Browser::load_entries`].

use vstd::prelude::*;
use crate::order::{
    arranged,
    into_payloads,
    keyed,
    lemma_arranged_relabelled,
    payloads,
    relabelled,
    sort_by_key,
    KeyModel,
    SortKey,
};
use crate::paths::{extension, file_name, parent, path_extension, path_file_name, path_parent};
use crate::text::{chars_of, lowercase_of, same_text, string_of};

verus! {

/// One line of the browser.
#[derive(Debug, Clone, PartialEq, Eq)]
pub enum FileEntry {
    /// A directory inside the current one.
    Directory(String),
    /// The directory above the current one.
    ParentDirectory(String),
    /// An audio file inside the current directory.
    AudioFile(String),
}

/// An entry as a mathematical value: its kind and the text of its path.
pub enum EntryModel {
    Directory(Seq<char>),
    ParentDirectory(Seq<char>),
    AudioFile(Seq<char>),
}

impl EntryModel {
    /// The path of the entry.
    pub open spec fn path(self) -> Seq<char> {
        match self {
            EntryModel::Directory(path) => path,
            EntryModel::ParentDirectory(path) => path,
            EntryModel::AudioFile(path) => path,
        }
    }

    /// The name that is shown for the entry: two dots for the directory
    /// above, else the final component of the path, and nothing where the
    /// path has none.
    pub open spec fn name(self) -> Seq<char> {
        match self {
            EntryModel::ParentDirectory(_) => ".."@,
            _ => match path_file_name(self.path()) {
                Some(name) => name,
                None => Seq::empty(),
            },
        }
    }

    /// Whether the entry is a directory.
    pub open spec fn is_dir(self) -> bool {
        self is Directory || self is ParentDirectory
    }
}

impl View for FileEntry {
    type V = EntryModel;

    open spec fn view(&self) -> EntryModel {
        match self {
            FileEntry::Directory(path) => EntryModel::Directory(path@),
            FileEntry::ParentDirectory(path) => EntryModel::ParentDirectory(path@),
            FileEntry::AudioFile(path) => EntryModel::AudioFile(path@),
        }
    }
}

impl FileEntry {
    /// The path of the entry.
    pub fn path(&self) -> (r: &str)
        ensures
            r@ == self@.path(),
    {
        match self {
            FileEntry::Directory(path) => path.as_str(),
            FileEntry::ParentDirectory(path) => path.as_str(),
            FileEntry::AudioFile(path) => path.as_str(),
        }
    }

    /// The name that is shown for the entry.
    pub fn name(&self) -> (r: String)
        ensures
            r@ == self@.name(),
    {
        match self {
            FileEntry::ParentDirectory(_) => string_of(&chars_of("..")),
            _ => match file_name(self.path()) {
                Some(name) => name,
                None => String::new(),
            },
        }
    }

    /// Whether the entry is a directory.
    pub fn is_dir(&self) -> (r: bool)
        ensures
            r == self@.is_dir(),
    {
        match self {
            FileEntry::Directory(_) => true,
            FileEntry::ParentDirectory(_) => true,
            FileEntry::AudioFile(_) => false,
        }
    }
}

/// Whether the lowercase text `lowered` is the extension of a kind of audio
/// file that the player takes.
pub open spec fn audio_extension(lowered: Seq<char>) -> bool {
    ||| lowered == "mp3"@
    ||| lowered == "flac"@
    ||| lowered == "ogg"@
    ||| lowered == "wav"@
    ||| lowered == "m4a"@
    ||| lowered == "aac"@
    ||| lowered == "alac"@
    ||| lowered == "opus"@
}

/// Whether the file at `path` is an audio file by its name: it has an
/// extension, and the lowercase form of that is an [`audio_extension`].
pub open spec fn audio_file(path: Seq<char>) -> bool {
    match path_extension(path) {
        Some(found) => audio_extension(lowercase_of(found)),
        None => false,
    }
}

/// Whether the lowercase text `lowered` is the extension of an audio file.
pub fn is_audio_extension(lowered: &str) -> (r: bool)
    ensures
        r == audio_extension(lowered@),
{
    let text = chars_of(lowered);
    same_text(&text, &chars_of("mp3")) || same_text(&text, &chars_of("flac")) || same_text(
        &text,
        &chars_of("ogg"),
    ) || same_text(&text, &chars_of("wav")) || same_text(&text, &chars_of("m4a")) || same_text(
        &text,
        &chars_of("aac"),
    ) || same_text(&text, &chars_of("alac")) || same_text(&text, &chars_of("opus"))
}

/// Whether `found`, an extension in any case, is that of an audio file.
pub fn has_audio_extension(found: &str) -> (r: bool)
    ensures
        r == audio_extension(lowercase_of(found@)),
{
    let lowered = found.to_lowercase();
    is_audio_extension(lowered.as_str())
}

/// Whether the file at `path` is an audio file by its name.
pub fn is_audio_file(path: &str) -> (r: bool)
    ensures
        r == audio_file(path@),
{
    match extension(path) {
        Some(found) => has_audio_extension(found.as_str()),
        None => false,
    }
}

/// What reading a directory gives for one of its entries.
#[derive(Debug, Clone)]
pub struct Listed {
    /// The path of the entry.
    pub path: String,
    /// Whether the entry is a directory.
    pub is_dir: bool,
}

/// A listed entry as a mathematical value.
pub struct ListedModel {
    pub path: Seq<char>,
    pub is_dir: bool,
}

impl View for Listed {
    type V = ListedModel;

    open spec fn view(&self) -> ListedModel {
        ListedModel { path: self.path@, is_dir: self.is_dir }
    }
}

/// The listed entries as mathematical values.
pub open spec fn listing_of(listing: Seq<Listed>) -> Seq<ListedModel> {
    Seq::new(listing.len(), |i: int| listing[i]@)
}

/// The entries as mathematical values.
pub open spec fn entries_of(entries: Seq<FileEntry>) -> Seq<EntryModel> {
    Seq::new(entries.len(), |i: int| entries[i]@)
}

/// The line that a listed entry gets in the browser, with the key that it
/// is sorted by: directories come first, audio files second, each kind by
/// the final component of the path. Other files get no line.
pub open spec fn listed_entry(item: ListedModel) -> Option<(KeyModel, EntryModel)> {
    if item.is_dir {
        Some(
            (
                KeyModel { rank: 0, name: path_file_name(item.path) },
                EntryModel::Directory(item.path),
            ),
        )
    } else if audio_file(item.path) {
        Some(
            (
                KeyModel { rank: 1, name: path_file_name(item.path) },
                EntryModel::AudioFile(item.path),
            ),
        )
    } else {
        None
    }
}

/// The lines of a listing with their keys, in the order of the listing.
pub open spec fn candidates(listing: Seq<ListedModel>) -> Seq<(KeyModel, EntryModel)>
    decreases listing.len(),
{
    if listing.len() == 0 {
        Seq::empty()
    } else {
        match listed_entry(listing.last()) {
            Some(line) => candidates(listing.drop_last()).push(line),
            None => candidates(listing.drop_last()),
        }
    }
}

/// The entries that are shown for a directory with the given listing and
/// parent: the parent first, where there is one, then the directories in
/// alphabetical order, then the audio files in alphabetical order.
pub open spec fn shown_entries(listing: Seq<ListedModel>, parent: Option<Seq<char>>) -> Seq<
    EntryModel,
> {
    let sorted = payloads(arranged(candidates(listing)));
    match parent {
        Some(path) => seq![EntryModel::ParentDirectory(path)] + sorted,
        None => sorted,
    }
}

/// The selection for a directory that shows `shown` entries and was left
/// with the selection `preferred`: that selection, or the last entry where
/// it points past the end, or zero where nothing is shown.
pub open spec fn restored_selection(shown: nat, preferred: usize) -> usize {
    if shown == 0 {
        0
    } else if preferred >= shown {
        (shown - 1) as usize
    } else {
        preferred
    }
}

/// The selections that a list of remembered pairs stands for: for each
/// directory the one that was remembered last.
pub open spec fn remembered_of(pairs: Seq<(String, usize)>) -> Map<Seq<char>, usize>
    decreases pairs.len(),
{
    if pairs.len() == 0 {
        Map::empty()
    } else {
        remembered_of(pairs.drop_last()).insert(pairs.last().0@, pairs.last().1)
    }
}

/// The mathematical state of a browser.
pub struct BrowserModel {
    /// The directory that is shown.
    pub current_dir: Seq<char>,
    /// The entries that are shown.
    pub entries: Seq<EntryModel>,
    /// The index of the selected entry.
    pub selected: usize,
    /// The selection that each directory was left with.
    pub remembered: Map<Seq<char>, usize>,
    /// The browser has moved and waits for the listing of its directory.
    pub stale: bool,
}

impl BrowserModel {
    /// The selection points at an entry, or is zero where there is none.
    pub open spec fn wf(self) -> bool {
        self.selected == restored_selection(self.entries.len(), self.selected)
    }

    /// The selected entry.
    pub open spec fn selected_entry(self) -> Option<EntryModel> {
        if self.selected < self.entries.len() {
            Some(self.entries[self.selected as int])
        } else {
            None
        }
    }

    /// The selection that the current directory was left with, or zero.
    pub open spec fn preferred(self) -> usize {
        if self.remembered.dom().contains(self.current_dir) {
            self.remembered[self.current_dir]
        } else {
            0
        }
    }

    /// The state with the selection of the current directory remembered.
    pub open spec fn remembering(self) -> BrowserModel {
        BrowserModel { remembered: self.remembered.insert(self.current_dir, self.selected), ..self }
    }

    /// The state after the browser has moved to `path`: the selection of the
    /// directory that it leaves is remembered, and nothing is shown until
    /// the listing of `path` arrives.
    pub open spec fn moved_to(self, path: Seq<char>) -> BrowserModel {
        BrowserModel {
            current_dir: path,
            entries: Seq::empty(),
            selected: 0,
            remembered: self.remembered.insert(self.current_dir, self.selected),
            stale: true,
        }
    }

    /// The state after the listing of the current directory has arrived.
    pub open spec fn loaded(self, listing: Seq<ListedModel>) -> BrowserModel {
        let entries = shown_entries(listing, path_parent(self.current_dir));
        BrowserModel {
            entries,
            selected: restored_selection(entries.len(), self.preferred()),
            stale: false,
            ..self
        }
    }

    /// The state after the selected entry has been entered: a directory is
    /// moved to, an audio file is only remembered as the selection.
    pub open spec fn entered(self) -> BrowserModel {
        match self.selected_entry() {
            Some(EntryModel::Directory(path)) => self.moved_to(path),
            Some(EntryModel::ParentDirectory(path)) => self.moved_to(path),
            Some(EntryModel::AudioFile(_)) => self.remembering(),
            None => self,
        }
    }

    /// The index of the first entry with the path `target`.
    pub open spec fn position_of(self, target: Seq<char>) -> Option<int> {
        if exists|i: int| 0 <= i < self.entries.len() && self.entries[i].path() == target {
            Some(
                choose|i: int|
                    0 <= i < self.entries.len() && self.entries[i].path() == target && (forall|
                        j: int,
                    |
                        0 <= j < i ==> self.entries[j].path() != target),
            )
        } else {
            None
        }
    }
}

/// The directory browser.
#[derive(Debug)]
pub struct Browser {
    current_dir: String,
    entries: Vec<FileEntry>,
    selected: usize,
    last_selected: Vec<(String, usize)>,
    stale: bool,
}

impl View for Browser {
    type V = BrowserModel;

    closed spec fn view(&self) -> BrowserModel {
        BrowserModel {
            current_dir: self.current_dir@,
            entries: entries_of(self.entries@),
            selected: self.selected,
            remembered: remembered_of(self.last_selected@),
            stale: self.stale,
        }
    }
}

/// Dropping a remembered pair makes no difference once a selection for the
/// same directory is remembered after it.
proof fn lemma_forgetting_is_overridden(
    pairs: Seq<(String, usize)>,
    at: int,
    dir: Seq<char>,
    selected: usize,
)
    requires
        0 <= at < pairs.len(),
        pairs[at].0@ == dir,
    ensures
        remembered_of(pairs.remove(at)).insert(dir, selected) == remembered_of(pairs).insert(
            dir,
            selected,
        ),
    decreases pairs.len(),
{
    if at == pairs.len() - 1 {
        assert(pairs.remove(at) =~= pairs.drop_last());
        assert(remembered_of(pairs.drop_last()).insert(dir, selected) =~= remembered_of(
            pairs,
        ).insert(dir, selected));
    } else {
        lemma_forgetting_is_overridden(pairs.drop_last(), at, dir, selected);
        assert(pairs.remove(at).drop_last() =~= pairs.drop_last().remove(at));
        assert(pairs.remove(at).last() == pairs.last());
        let less = remembered_of(pairs.drop_last().remove(at));
        let more = remembered_of(pairs.drop_last());
        let key = pairs.last().0@;
        let value = pairs.last().1;
        assert(less.insert(dir, selected) == more.insert(dir, selected));
        let left = less.insert(key, value).insert(dir, selected);
        let right = more.insert(key, value).insert(dir, selected);
        assert forall|k: Seq<char>| #[trigger]
            left.dom().contains(k) == right.dom().contains(k) by {
            if k != dir && k != key {
                assert(less.insert(dir, selected).dom().contains(k) == less.dom().contains(k));
                assert(more.insert(dir, selected).dom().contains(k) == more.dom().contains(k));
            }
        }
        assert(left.dom() =~= right.dom());
        assert forall|k: Seq<char>| left.dom().contains(k) implies #[trigger] left[k]
            == right[k] by {
            if k != dir && k != key {
                assert(less.insert(dir, selected).dom().contains(k) == less.dom().contains(k));
                assert(more.insert(dir, selected).dom().contains(k) == more.dom().contains(k));
                assert(less.insert(dir, selected)[k] == less[k]);
                assert(more.insert(dir, selected)[k] == more[k]);
            }
        }
        assert(left =~= right);
    }
}

/// Looks up the selection that `dir` was left with.
fn recall(pairs: &Vec<(String, usize)>, dir: &String) -> (r: Option<usize>)
    ensures
        r is Some <==> remembered_of(pairs@).dom().contains(dir@),
        r matches Some(found) ==> remembered_of(pairs@)[dir@] == found,
{
    let mut i: usize = pairs.len();
    assert(pairs@.take(i as int) =~= pairs@);
    while i > 0
        invariant
            i <= pairs.len(),
            remembered_of(pairs@).dom().contains(dir@) == remembered_of(
                pairs@.take(i as int),
            ).dom().contains(dir@),
            remembered_of(pairs@).dom().contains(dir@) ==> remembered_of(pairs@)[dir@]
                == remembered_of(pairs@.take(i as int))[dir@],
        decreases i,
    {
        assert(pairs@.take(i as int).drop_last() =~= pairs@.take(i - 1));
        if pairs[i - 1].0 == *dir {
            return Some(pairs[i - 1].1);
        }
        i = i - 1;
    }
    None
}

impl Browser {
    /// A browser on the directory `path`. It shows nothing until the listing
    /// of the directory has been handed to [`Browser::load_entries`].
    pub fn new(path: String) -> (r: Browser)
        ensures
            r@.current_dir == path@,
            r@.entries == Seq::<EntryModel>::empty(),
            r@.selected == 0,
            r@.remembered == Map::<Seq<char>, usize>::empty(),
            r@.stale,
    {
        let browser = Browser {
            current_dir: path,
            entries: Vec::new(),
            selected: 0,
            last_selected: Vec::new(),
            stale: true,
        };
        assert(browser@.entries =~= Seq::empty());
        browser
    }

    /// Whether the browser waits for the listing of its directory.
    pub fn needs_listing(&self) -> (r: bool)
        ensures
            r == self@.stale,
    {
        self.stale
    }

    /// Takes the listing of the current directory. Directories and audio
    /// files are kept and sorted, the parent directory is put first, and the
    /// selection that the directory was left with is restored.
    pub fn load_entries(&mut self, listing: Vec<Listed>)
        ensures
            final(self)@ == old(self)@.loaded(listing_of(listing@)),
    {
        let ghost given = listing_of(listing@);
        let ghost as_model = |entry: FileEntry| entry@;
        let mut lines: Vec<(SortKey, FileEntry)> = Vec::new();
        assert(relabelled(keyed(lines@), as_model) =~= candidates(given.take(0)));
        for item in it: listing
            invariant
                it.seq() == listing@,
                given == listing_of(listing@),
                as_model == (|entry: FileEntry| entry@),
                relabelled(keyed(lines@), as_model) == candidates(given.take(it.index() as int)),
        {
            let ghost done = it.index() as int;
            let ghost before = lines@;
            assert(given.take(done + 1).drop_last() =~= given.take(done));
            assert(given.take(done + 1).last() == item@);
            if item.is_dir {
                let name = match file_name(item.path.as_str()) {
                    Some(text) => Some(chars_of(text.as_str())),
                    None => None,
                };
                lines.push((SortKey { rank: 0, name }, FileEntry::Directory(item.path)));
                assert(relabelled(keyed(lines@), as_model) =~= relabelled(
                    keyed(before),
                    as_model,
                ).push(listed_entry(item@)->0));
            } else if is_audio_file(item.path.as_str()) {
                let name = match file_name(item.path.as_str()) {
                    Some(text) => Some(chars_of(text.as_str())),
                    None => None,
                };
                lines.push((SortKey { rank: 1, name }, FileEntry::AudioFile(item.path)));
                assert(relabelled(keyed(lines@), as_model) =~= relabelled(
                    keyed(before),
                    as_model,
                ).push(listed_entry(item@)->0));
            }
        }
        assert(given.take(given.len() as int) =~= given);
        let sorted = sort_by_key(lines);
        proof {
            lemma_arranged_relabelled(keyed(lines@), as_model);
        }
        let mut entries = into_payloads(sorted);
        assert(entries_of(entries@) =~= payloads(arranged(candidates(given)))) by {
            assert(entries_of(entries@) =~= payloads(relabelled(keyed(sorted@), as_model)));
        }
        match parent(self.current_dir.as_str()) {
            Some(above) => {
                let ghost sorted_entries = entries_of(entries@);
                entries.insert(0, FileEntry::ParentDirectory(above));
                assert(entries_of(entries@) =~= seq![EntryModel::ParentDirectory(above@)]
                    + sorted_entries);
            },
            None => {},
        }
        let preferred = match recall(&self.last_selected, &self.current_dir) {
            Some(found) => found,
            None => 0,
        };
        self.selected = if entries.len() == 0 {
            0
        } else if preferred >= entries.len() {
            entries.len() - 1
        } else {
            preferred
        };
        self.entries = entries;
        self.stale = false;
    }

    /// Remembers the selection of the current directory, in place of what
    /// was remembered for it before.
    pub fn remember_selection(&mut self)
        ensures
            final(self)@ == old(self)@.remembering(),
    {
        let dir = self.current_dir.clone();
        let mut i: usize = 0;
        while i < self.last_selected.len()
            invariant
                i <= self.last_selected.len(),
                dir@ == self.current_dir@,
                self.current_dir == old(self).current_dir,
                self.entries == old(self).entries,
                self.selected == old(self).selected,
                self.stale == old(self).stale,
                remembered_of(self.last_selected@).insert(dir@, self.selected) == remembered_of(
                    old(self).last_selected@,
                ).insert(dir@, self.selected),
            decreases self.last_selected.len() - i,
        {
            if self.last_selected[i].0 == dir {
                proof {
                    lemma_forgetting_is_overridden(
                        self.last_selected@,
                        i as int,
                        dir@,
                        self.selected,
                    );
                }
                self.last_selected.remove(i);
            } else {
                i = i + 1;
            }
        }
        let ghost before = self.last_selected@;
        self.last_selected.push((dir, self.selected));
        assert(self.last_selected@.drop_last() =~= before);
    }

    /// Moves to `path`, remembering the selection of the directory left.
    fn move_to(&mut self, path: String)
        ensures
            final(self)@ == old(self)@.moved_to(path@),
    {
        self.remember_selection();
        self.current_dir = path;
        self.entries = Vec::new();
        self.selected = 0;
        self.stale = true;
        assert(self@.entries =~= Seq::empty());
    }

    /// Enters the selected entry. For an audio file its path is handed out.
    /// For a directory the browser moves there and nothing is handed out;
    /// the caller then reads that directory.
    pub fn enter_selected(&mut self) -> (r: Option<String>)
        ensures
            final(self)@ == old(self)@.entered(),
            r is Some <==> old(self)@.selected_entry() matches Some(EntryModel::AudioFile(_)),
            r matches Some(path) ==> old(self)@.selected_entry() == Some(
                EntryModel::AudioFile(path@),
            ),
    {
        if self.selected < self.entries.len() {
            match &self.entries[self.selected] {
                FileEntry::Directory(path) => {
                    let target = path.clone();
                    self.move_to(target);
                    None
                },
                FileEntry::ParentDirectory(path) => {
                    let target = path.clone();
                    self.move_to(target);
                    None
                },
                FileEntry::AudioFile(path) => {
                    let track = path.clone();
                    self.remember_selection();
                    Some(track)
                },
            }
        } else {
            None
        }
    }

    /// The selected entry.
    pub fn selected_entry(&self) -> (r: Option<&FileEntry>)
        ensures
            r is Some <==> self@.selected_entry() is Some,
            r matches Some(entry) ==> self@.selected_entry() == Some(entry@),
    {
        if self.selected < self.entries.len() {
            Some(&self.entries[self.selected])
        } else {
            None
        }
    }

    /// The directory that is shown.
    pub fn current_dir(&self) -> (r: &str)
        ensures
            r@ == self@.current_dir,
    {
        self.current_dir.as_str()
    }

    /// Moves to `path` where the caller has found it to be a directory, and
    /// does nothing otherwise.
    pub fn navigate_to(&mut self, path: String, is_dir: bool)
        ensures
            final(self)@ == if is_dir {
                old(self)@.moved_to(path@)
            } else {
                old(self)@
            },
    {
        if is_dir {
            self.move_to(path);
        }
    }

    /// Moves to the directory above the current one, where there is one.
    pub fn go_parent(&mut self)
        ensures
            final(self)@ == match path_parent(old(self)@.current_dir) {
                Some(above) => old(self)@.moved_to(above),
                None => old(self)@,
            },
    {
        match parent(self.current_dir.as_str()) {
            Some(above) => {
                self.move_to(above);
            },
            None => {},
        }
    }

    /// The entries that are shown.
    pub fn entries(&self) -> (r: &[FileEntry])
        ensures
            entries_of(r@) == self@.entries,
    {
        self.entries.as_slice()
    }

    /// The index of the selected entry.
    pub fn selected(&self) -> (r: usize)
        ensures
            r == self@.selected,
    {
        self.selected
    }

    /// Selects the entry below the selected one, if there is one.
    pub fn select_next(&mut self)
        ensures
            final(self)@ == (BrowserModel {
                selected: if old(self)@.entries.len() == 0 {
                    old(self)@.selected
                } else if old(self)@.selected + 1 <= old(self)@.entries.len() - 1 {
                    (old(self)@.selected + 1) as usize
                } else {
                    (old(self)@.entries.len() - 1) as usize
                },
                ..old(self)@
            }),
    {
        if self.entries.len() > 0 {
            if self.selected < self.entries.len() - 1 {
                self.selected = self.selected + 1;
            } else {
                self.selected = self.entries.len() - 1;
            }
        }
    }

    /// Selects the entry above the selected one, if there is one.
    pub fn select_prev(&mut self)
        ensures
            final(self)@ == (BrowserModel {
                selected: if old(self)@.selected > 0 {
                    (old(self)@.selected - 1) as usize
                } else {
                    0
                },
                ..old(self)@
            }),
    {
        if self.selected > 0 {
            self.selected = self.selected - 1;
        }
    }

    /// Selects the first entry.
    pub fn select_first(&mut self)
        ensures
            final(self)@ == (BrowserModel { selected: 0, ..old(self)@ }),
    {
        self.selected = 0;
    }

    /// Selects the last entry, if there is one.
    pub fn select_last(&mut self)
        ensures
            final(self)@ == (BrowserModel {
                selected: if old(self)@.entries.len() == 0 {
                    old(self)@.selected
                } else {
                    (old(self)@.entries.len() - 1) as usize
                },
                ..old(self)@
            }),
    {
        if self.entries.len() > 0 {
            self.selected = self.entries.len() - 1;
        }
    }

    /// Selects the first entry whose path is `target`, if there is one.
    pub fn select_entry_by_path(&mut self, target: &str)
        ensures
            final(self)@ == (BrowserModel {
                selected: match old(self)@.position_of(target@) {
                    Some(index) => index as usize,
                    None => old(self)@.selected,
                },
                ..old(self)@
            }),
    {
        let wanted = chars_of(target);
        let mut i: usize = 0;
        while i < self.entries.len()
            invariant
                i <= self.entries.len(),
                wanted@ == target@,
                *self == *old(self),
                forall|j: int| 0 <= j < i ==> self@.entries[j].path() != target@,
            decreases self.entries.len() - i,
        {
            let here = chars_of(self.entries[i].path());
            if same_text(&here, &wanted) {
                assert(self@.entries[i as int].path() == target@);
                self.selected = i;
                return ;
            }
            i = i + 1;
        }
    }
}

/// A freshly loaded listing and a browser that has just moved have a valid
/// selection, and moving the selection keeps it valid.
pub proof fn law_selection_stays_valid(
    browser: BrowserModel,
    listing: Seq<ListedModel>,
    path: Seq<char>,
)
    requires
        browser.wf(),
    ensures
        browser.loaded(listing).wf(),
        browser.moved_to(path).wf(),
        browser.remembering().wf(),
        browser.entered().wf(),
{
}

/// A directory that is left and entered again comes back with the selection
/// that it was left with, as long as its listing is long enough.
pub proof fn law_selection_is_restored(
    browser: BrowserModel,
    away: Seq<char>,
    listing: Seq<ListedModel>,
)
    requires
        away != browser.current_dir,
    ensures
        ({
            let back = browser.moved_to(away).moved_to(browser.current_dir).loaded(listing);
            &&& back.current_dir == browser.current_dir
            &&& !back.stale
            &&& back.selected == restored_selection(back.entries.len(), browser.selected)
            &&& browser.selected < back.entries.len() ==> back.selected == browser.selected
        }),
{
}

/// The listing that is shown holds the parent first, then the directories
/// and audio files of the listing in the order of their keys, each of them
/// once.
pub proof fn law_shown_entries_are_sorted(listing: Seq<ListedModel>, parent: Option<Seq<char>>)
    ensures
        crate::order::in_order(arranged(candidates(listing))),
        arranged(candidates(listing)).to_multiset() == candidates(listing).to_multiset(),
        shown_entries(listing, parent).len() == candidates(listing).len() + if parent is Some {
            1nat
        } else {
            0nat
        },
        parent matches Some(path) ==> shown_entries(listing, parent)[0]
            == EntryModel::ParentDirectory(path),
{
    crate::order::law_arranged_is_sorted(candidates(listing));
}

} // verus!
