//! What the screen shows and how keys move through it, as far as it can be
//! said without a terminal.

use vstd::prelude::*;
use crate::browser::{entries_of, EntryModel, FileEntry};
use crate::metadata::two_digits;
use crate::player::Player;
use crate::queue::Queue;
use crate::order::{
    arranged,
    into_payloads,
    keyed,
    lemma_arranged_relabelled,
    payloads,
    relabelled,
    sort_by_key,
    KeyModel,
    SortKey,
};
use crate::text::{
    chars_of,
    decimal,
    is_whitespace_char,
    push_all,
    push_decimal,
    push_str,
    same_text,
    string_of,
    trim,
    trimmed,
};

verus! {

/// The three views of the program.
#[derive(Debug, Clone, Copy, PartialEq, Eq, Structural)]
pub enum Tab {
    Browser,
    NowPlaying,
    Playlists,
}

impl Tab {
    /// The tab to the right, going round from the last to the first.
    pub open spec fn following(self) -> Tab {
        match self {
            Tab::Browser => Tab::NowPlaying,
            Tab::NowPlaying => Tab::Playlists,
            Tab::Playlists => Tab::Browser,
        }
    }

    /// The tab to the left, going round from the first to the last.
    pub open spec fn preceding(self) -> Tab {
        match self {
            Tab::Browser => Tab::Playlists,
            Tab::NowPlaying => Tab::Browser,
            Tab::Playlists => Tab::NowPlaying,
        }
    }

    /// The title of the tab, with its number key.
    pub open spec fn title(self) -> Seq<char> {
        match self {
            Tab::Browser => "1. Browser"@,
            Tab::NowPlaying => "2. Now Playing"@,
            Tab::Playlists => "3. Playlists"@,
        }
    }

    /// The line of key bindings that is shown for the tab.
    pub open spec fn help(self) -> Seq<char> {
        match self {
            Tab::Browser => "Keys: j/k/↑/↓=nav, l/→/Enter=select, h/←=back, a=add, A=add-all, Space/p=play/pause, >=next, <=prev, r=random, Tab/1-3=switch-tab, /=search, q=quit"@,
            Tab::NowPlaying => "Keys: j/k/↑/↓=nav, Enter=jump, ←/→=seek, d=delete, K/J=move, c=clear, S=save-queue, Space/p=play/pause, >=next, <=prev, r=random, Tab/1-3=switch-tab, /=search, q=quit"@,
            Tab::Playlists => "Keys: j/k/↑/↓=nav, l/Enter=add-to-queue, Space/p=play/pause, >=next, <=prev, Tab/1-3=switch-tab, /=search, q=quit"@,
        }
    }

    /// The tab to the right.
    pub fn next(&self) -> (r: Tab)
        ensures
            r == self.following(),
    {
        match self {
            Tab::Browser => Tab::NowPlaying,
            Tab::NowPlaying => Tab::Playlists,
            Tab::Playlists => Tab::Browser,
        }
    }

    /// The tab to the left.
    pub fn prev(&self) -> (r: Tab)
        ensures
            r == self.preceding(),
    {
        match self {
            Tab::Browser => Tab::Playlists,
            Tab::NowPlaying => Tab::Browser,
            Tab::Playlists => Tab::NowPlaying,
        }
    }

    /// The title of the tab.
    pub fn name(&self) -> (r: &'static str)
        ensures
            r@ == self.title(),
    {
        match self {
            Tab::Browser => "1. Browser",
            Tab::NowPlaying => "2. Now Playing",
            Tab::Playlists => "3. Playlists",
        }
    }

    /// The line of key bindings for the tab.
    pub fn help_text(&self) -> (r: &'static str)
        ensures
            r@ == self.help(),
    {
        match self {
            Tab::Browser => "Keys: j/k/↑/↓=nav, l/→/Enter=select, h/←=back, a=add, A=add-all, Space/p=play/pause, >=next, <=prev, r=random, Tab/1-3=switch-tab, /=search, q=quit",
            Tab::NowPlaying => "Keys: j/k/↑/↓=nav, Enter=jump, ←/→=seek, d=delete, K/J=move, c=clear, S=save-queue, Space/p=play/pause, >=next, <=prev, r=random, Tab/1-3=switch-tab, /=search, q=quit",
            Tab::Playlists => "Keys: j/k/↑/↓=nav, l/Enter=add-to-queue, Space/p=play/pause, >=next, <=prev, Tab/1-3=switch-tab, /=search, q=quit",
        }
    }
}

/// Going right and then left, or left and then right, leads back to the
/// same tab, and three steps in one direction go once round.
pub proof fn law_tabs_form_a_ring(tab: Tab)
    ensures
        tab.following().preceding() == tab,
        tab.preceding().following() == tab,
        tab.following().following().following() == tab,
        tab.following() != tab,
{
}

/// What the keyboard is typing into.
#[derive(Debug, Clone, Copy, PartialEq, Eq, Structural)]
pub enum InputMode {
    /// Keys are commands.
    Normal,
    /// Keys go into the search query.
    Search,
    /// Keys go into the command line.
    Command,
}

/// How well the text `choice` fits the pattern `pattern`, as the matcher
/// `SkimMatcherV2` of the crate `fuzzy_matcher` scores it with its default
/// settings; nothing where it does not fit.
pub uninterp spec fn skim_score(choice: Seq<char>, pattern: Seq<char>) -> Option<i64>;

/// Calls `fuzzy_match` of a `SkimMatcherV2` with default settings, from the
/// crate `fuzzy_matcher`, on `choice` and `pattern`. The score is a function
/// of the two texts alone, named [`skim_score`]. Nothing else is claimed of
/// it.
#[verifier::external_body]
pub(crate) fn fuzzy_score(choice: &str, pattern: &str) -> (r: Option<i64>)
    ensures
        r == skim_score(choice@, pattern@),
{
    fuzzy_matcher::FuzzyMatcher::fuzzy_match(
        &fuzzy_matcher::skim::SkimMatcherV2::default(),
        choice,
        pattern,
    )
}

/// The most search results that are kept.
pub const MAX_RESULTS: usize = 50;

/// An entry that fits the search query.
#[derive(Debug, Clone, PartialEq, Eq)]
pub struct SearchResult {
    /// The path of the entry.
    pub path: String,
    /// The name that is shown for it.
    pub name: String,
    /// How well the name fits the query.
    pub score: i64,
}

/// A search result as a mathematical value.
pub struct ResultModel {
    pub path: Seq<char>,
    pub name: Seq<char>,
    pub score: i64,
}

impl View for SearchResult {
    type V = ResultModel;

    open spec fn view(&self) -> ResultModel {
        ResultModel { path: self.path@, name: self.name@, score: self.score }
    }
}

/// The search results as mathematical values.
pub open spec fn results_of(results: Seq<SearchResult>) -> Seq<ResultModel> {
    Seq::new(results.len(), |i: int| results[i]@)
}

/// The key that a result with the given score and name is sorted by: the
/// higher score first, and of two results with the same score the one whose
/// name stands first in the alphabet.
pub open spec fn result_key(score: i64, name: Seq<char>) -> KeyModel {
    KeyModel { rank: (-1 - score) as i64, name: Some(name) }
}

/// The result that an entry gives for the search pattern `pattern`, with
/// its key, where the entry can be found at all and its name fits. The
/// entry for the directory above is never found. `score` is the score of
/// the name of the entry for the pattern.
pub open spec fn hit(entry: EntryModel, score: Option<i64>) -> Option<(KeyModel, ResultModel)> {
    if entry is ParentDirectory {
        None
    } else {
        match score {
            Some(points) => Some(
                (
                    result_key(points, entry.name()),
                    ResultModel { path: entry.path(), name: entry.name(), score: points },
                ),
            ),
            None => None,
        }
    }
}

/// The results that the given entries give for `pattern`, in the order of
/// the entries.
pub open spec fn hits(entries: Seq<EntryModel>, pattern: Seq<char>) -> Seq<
    (KeyModel, ResultModel),
>
    decreases entries.len(),
{
    if entries.len() == 0 {
        Seq::empty()
    } else {
        match hit(entries.last(), skim_score(entries.last().name(), pattern)) {
            Some(found) => hits(entries.drop_last(), pattern).push(found),
            None => hits(entries.drop_last(), pattern),
        }
    }
}

/// The first `count` of `items`, or all of them where there are fewer.
pub open spec fn first_of<T>(items: Seq<T>, count: nat) -> Seq<T> {
    if items.len() > count {
        items.take(count as int)
    } else {
        items
    }
}

/// What a search for `query` among `entries` shows: nothing for a query
/// that is empty but for whitespace; else the entries whose names fit the
/// query without the whitespace around it, best first, fifty at most.
pub open spec fn search_results(entries: Seq<EntryModel>, query: Seq<char>) -> Seq<ResultModel> {
    let pattern = trimmed(query);
    if pattern.len() == 0 {
        Seq::empty()
    } else {
        first_of(payloads(arranged(hits(entries, pattern))), MAX_RESULTS as nat)
    }
}

/// The result for `entry`, whose name has the score `score` for the search
/// pattern, with the key that it is sorted by.
pub fn result_for(entry: &FileEntry, score: Option<i64>) -> (r: Option<(SortKey, SearchResult)>)
    ensures
        r is Some <==> hit(entry@, score) is Some,
        r matches Some(found) ==> hit(entry@, score) == Some((found.0@, found.1@)),
{
    match entry {
        FileEntry::ParentDirectory(_) => None,
        _ => match score {
            Some(points) => {
                let name = entry.name();
                let key = SortKey { rank: -1 - points, name: Some(chars_of(name.as_str())) };
                let path = string_of(&chars_of(entry.path()));
                Some((key, SearchResult { path, name, score: points }))
            },
            None => None,
        },
    }
}

/// Searches `entries` for `query`.
pub fn search_entries(entries: &[FileEntry], query: &str) -> (r: Vec<SearchResult>)
    ensures
        results_of(r@) == search_results(entries_of(entries@), query@),
{
    let pattern = string_of(&trim(&chars_of(query)));
    if pattern.as_str().unicode_len() == 0 {
        let none: Vec<SearchResult> = Vec::new();
        assert(results_of(none@) =~= Seq::empty());
        return none;
    }
    let ghost all = entries_of(entries@);
    let ghost as_model = |result: SearchResult| result@;
    let mut found: Vec<(SortKey, SearchResult)> = Vec::new();
    let mut i: usize = 0;
    assert(relabelled(keyed(found@), as_model) =~= hits(all.take(0), pattern@));
    while i < entries.len()
        invariant
            i <= entries.len(),
            all == entries_of(entries@),
            as_model == (|result: SearchResult| result@),
            relabelled(keyed(found@), as_model) == hits(all.take(i as int), pattern@),
        decreases entries.len() - i,
    {
        let ghost before = found@;
        assert(all.take(i + 1).drop_last() =~= all.take(i as int));
        let entry = &entries[i];
        let score = match entry {
            FileEntry::ParentDirectory(_) => None,
            _ => fuzzy_score(entry.name().as_str(), pattern.as_str()),
        };
        match result_for(entry, score) {
            Some(result) => {
                let ghost model = (result.0@, result.1@);
                found.push(result);
                assert(relabelled(keyed(found@), as_model) =~= relabelled(
                    keyed(before),
                    as_model,
                ).push(model));
            },
            None => {},
        }
        i = i + 1;
    }
    assert(all.take(all.len() as int) =~= all);
    let sorted = sort_by_key(found);
    proof {
        lemma_arranged_relabelled(keyed(found@), as_model);
    }
    let mut results = into_payloads(sorted);
    assert(results_of(results@) =~= payloads(arranged(hits(all, pattern@)))) by {
        assert(results_of(results@) =~= payloads(relabelled(keyed(sorted@), as_model)));
    }
    if results.len() > MAX_RESULTS {
        let ghost full = results_of(results@);
        results.truncate(MAX_RESULTS);
        assert(results_of(results@) =~= full.take(MAX_RESULTS as int));
    }
    results
}

/// A key of the keyboard, as far as the program tells keys apart.
#[derive(Debug, Clone, Copy, PartialEq, Eq, Structural)]
pub enum Key {
    Char(char),
    Enter,
    Esc,
    Tab,
    BackTab,
    Backspace,
    Delete,
    Up,
    Down,
    Left,
    Right,
    PageUp,
    PageDown,
    /// Any other key: it does nothing.
    Other,
}

/// Seconds that one press of a seek key moves the position.
pub const SEEK_STEP_SECS: u64 = 5;

/// Lines that a page key moves a selection.
pub const PAGE_STEP: usize = 10;

/// What a key asks for.
#[derive(Debug, Clone, Copy, PartialEq, Eq, Structural)]
pub enum Action {
    Nothing,
    Quit,
    ShowHelp,
    ShowTab(Tab),
    StartSearch,
    StartCommand,
    TogglePlayback,
    PlayNext,
    PlayPrev,
    ToggleRandom,
    Stop,
    SeekBackward(u64),
    SeekForward(u64),
    VolumeUp,
    VolumeDown,
    BrowserDown(usize),
    BrowserUp(usize),
    BrowserFirst,
    BrowserLast,
    BrowserEnter,
    BrowserParent,
    AddSelected,
    AddAll,
    QueueDown(usize),
    QueueUp(usize),
    QueueFirst,
    QueueLast,
    QueueJump,
    QueueRemove,
    QueueMoveUp,
    QueueMoveDown,
    QueueClear,
    QueueSave,
    PlaylistDown(usize),
    PlaylistUp(usize),
    PlaylistFirst,
    PlaylistLast,
    PlaylistEnqueue,
    SearchAccept,
    SearchCancel,
    SearchType(char),
    SearchErase,
    SearchDown,
    SearchUp,
    CommandRun,
    CommandCancel,
    CommandType(char),
    CommandErase,
}

/// What a key asks for in every tab, if it is one of the keys that mean the
/// same everywhere.
pub open spec fn global_binding(tab: Tab, key: Key) -> Option<Action> {
    match key {
        Key::Char(c) => if c == 'q' {
            Some(Action::Quit)
        } else if c == '?' {
            Some(Action::ShowHelp)
        } else if c == '1' {
            Some(Action::ShowTab(Tab::Browser))
        } else if c == '2' {
            Some(Action::ShowTab(Tab::NowPlaying))
        } else if c == '3' {
            Some(Action::ShowTab(Tab::Playlists))
        } else if c == '/' {
            Some(Action::StartSearch)
        } else if c == ':' {
            Some(Action::StartCommand)
        } else if c == ' ' || c == 'p' {
            Some(Action::TogglePlayback)
        } else if c == '>' {
            Some(Action::PlayNext)
        } else if c == '<' {
            Some(Action::PlayPrev)
        } else if c == 'r' {
            Some(Action::ToggleRandom)
        } else if c == 's' {
            Some(Action::Stop)
        } else {
            None
        },
        Key::Tab => Some(Action::ShowTab(tab.following())),
        Key::BackTab => Some(Action::ShowTab(tab.preceding())),
        _ => None,
    }
}

/// What a key asks for in the browser tab.
pub open spec fn browser_binding(key: Key) -> Action {
    match key {
        Key::Char(c) => if c == 'j' {
            Action::BrowserDown(1)
        } else if c == 'k' {
            Action::BrowserUp(1)
        } else if c == 'g' {
            Action::BrowserFirst
        } else if c == 'G' {
            Action::BrowserLast
        } else if c == 'l' {
            Action::BrowserEnter
        } else if c == 'h' {
            Action::BrowserParent
        } else if c == 'a' {
            Action::AddSelected
        } else if c == 'A' {
            Action::AddAll
        } else {
            Action::Nothing
        },
        Key::Down => Action::BrowserDown(1),
        Key::Up => Action::BrowserUp(1),
        Key::PageDown => Action::BrowserDown(PAGE_STEP),
        Key::PageUp => Action::BrowserUp(PAGE_STEP),
        Key::Enter => Action::BrowserEnter,
        Key::Right => Action::BrowserEnter,
        Key::Left => Action::BrowserParent,
        _ => Action::Nothing,
    }
}

/// What a key asks for in the tab that shows the queue and the player.
pub open spec fn now_playing_binding(key: Key) -> Action {
    match key {
        Key::Left => Action::SeekBackward(SEEK_STEP_SECS),
        Key::Right => Action::SeekForward(SEEK_STEP_SECS),
        Key::Char(c) => if c == 'j' {
            Action::QueueDown(1)
        } else if c == 'k' {
            Action::QueueUp(1)
        } else if c == 'g' {
            Action::QueueFirst
        } else if c == 'G' {
            Action::QueueLast
        } else if c == 'd' {
            Action::QueueRemove
        } else if c == 'K' {
            Action::QueueMoveUp
        } else if c == 'J' {
            Action::QueueMoveDown
        } else if c == 'c' {
            Action::QueueClear
        } else if c == 'S' {
            Action::QueueSave
        } else if c == '+' || c == '=' {
            Action::VolumeUp
        } else if c == '-' {
            Action::VolumeDown
        } else {
            Action::Nothing
        },
        Key::Down => Action::QueueDown(1),
        Key::Up => Action::QueueUp(1),
        Key::PageDown => Action::QueueDown(PAGE_STEP),
        Key::PageUp => Action::QueueUp(PAGE_STEP),
        Key::Enter => Action::QueueJump,
        Key::Delete => Action::QueueRemove,
        Key::Backspace => Action::QueueRemove,
        _ => Action::Nothing,
    }
}

/// What a key asks for in the playlists tab.
pub open spec fn playlists_binding(key: Key) -> Action {
    match key {
        Key::Char(c) => if c == 'j' {
            Action::PlaylistDown(1)
        } else if c == 'k' {
            Action::PlaylistUp(1)
        } else if c == 'g' {
            Action::PlaylistFirst
        } else if c == 'G' {
            Action::PlaylistLast
        } else if c == 'l' {
            Action::PlaylistEnqueue
        } else {
            Action::Nothing
        },
        Key::Down => Action::PlaylistDown(1),
        Key::Up => Action::PlaylistUp(1),
        Key::PageDown => Action::PlaylistDown(PAGE_STEP),
        Key::PageUp => Action::PlaylistUp(PAGE_STEP),
        Key::Enter => Action::PlaylistEnqueue,
        _ => Action::Nothing,
    }
}

/// What a key asks for while keys are commands: the keys that mean the same
/// everywhere come first, the others go by the tab.
pub open spec fn normal_binding(tab: Tab, key: Key) -> Action {
    match global_binding(tab, key) {
        Some(action) => action,
        None => match tab {
            Tab::Browser => browser_binding(key),
            Tab::NowPlaying => now_playing_binding(key),
            Tab::Playlists => playlists_binding(key),
        },
    }
}

/// What a key asks for while a search query is typed.
pub open spec fn search_binding(key: Key) -> Action {
    match key {
        Key::Enter => Action::SearchAccept,
        Key::Esc => Action::SearchCancel,
        Key::Char(c) => Action::SearchType(c),
        Key::Backspace => Action::SearchErase,
        Key::Down => Action::SearchDown,
        Key::Up => Action::SearchUp,
        _ => Action::Nothing,
    }
}

/// What a key asks for while a command is typed.
pub open spec fn command_binding(key: Key) -> Action {
    match key {
        Key::Enter => Action::CommandRun,
        Key::Esc => Action::CommandCancel,
        Key::Char(c) => Action::CommandType(c),
        Key::Backspace => Action::CommandErase,
        _ => Action::Nothing,
    }
}

/// What a key asks for, by what the keyboard is typing into and the tab.
pub open spec fn binding(mode: InputMode, tab: Tab, key: Key) -> Action {
    match mode {
        InputMode::Normal => normal_binding(tab, key),
        InputMode::Search => search_binding(key),
        InputMode::Command => command_binding(key),
    }
}

/// What a key asks for in the browser tab.
pub fn handle_browser_keys(key: Key) -> (r: Action)
    ensures
        r == browser_binding(key),
{
    match key {
        Key::Char(c) => if c == 'j' {
            Action::BrowserDown(1)
        } else if c == 'k' {
            Action::BrowserUp(1)
        } else if c == 'g' {
            Action::BrowserFirst
        } else if c == 'G' {
            Action::BrowserLast
        } else if c == 'l' {
            Action::BrowserEnter
        } else if c == 'h' {
            Action::BrowserParent
        } else if c == 'a' {
            Action::AddSelected
        } else if c == 'A' {
            Action::AddAll
        } else {
            Action::Nothing
        },
        Key::Down => Action::BrowserDown(1),
        Key::Up => Action::BrowserUp(1),
        Key::PageDown => Action::BrowserDown(PAGE_STEP),
        Key::PageUp => Action::BrowserUp(PAGE_STEP),
        Key::Enter => Action::BrowserEnter,
        Key::Right => Action::BrowserEnter,
        Key::Left => Action::BrowserParent,
        _ => Action::Nothing,
    }
}

/// What a key asks of the queue, if anything.
pub fn handle_queue_keys(key: Key) -> (r: Action)
    ensures
        r == match now_playing_binding(key) {
            Action::SeekBackward(_) => Action::Nothing,
            Action::SeekForward(_) => Action::Nothing,
            Action::VolumeUp => Action::Nothing,
            Action::VolumeDown => Action::Nothing,
            action => action,
        },
{
    match key {
        Key::Char(c) => if c == 'j' {
            Action::QueueDown(1)
        } else if c == 'k' {
            Action::QueueUp(1)
        } else if c == 'g' {
            Action::QueueFirst
        } else if c == 'G' {
            Action::QueueLast
        } else if c == 'd' {
            Action::QueueRemove
        } else if c == 'K' {
            Action::QueueMoveUp
        } else if c == 'J' {
            Action::QueueMoveDown
        } else if c == 'c' {
            Action::QueueClear
        } else if c == 'S' {
            Action::QueueSave
        } else {
            Action::Nothing
        },
        Key::Down => Action::QueueDown(1),
        Key::Up => Action::QueueUp(1),
        Key::PageDown => Action::QueueDown(PAGE_STEP),
        Key::PageUp => Action::QueueUp(PAGE_STEP),
        Key::Enter => Action::QueueJump,
        Key::Delete => Action::QueueRemove,
        Key::Backspace => Action::QueueRemove,
        _ => Action::Nothing,
    }
}

/// What a key asks of the player, if anything: louder or softer.
pub fn handle_player_keys(key: Key) -> (r: Action)
    ensures
        r == match now_playing_binding(key) {
            Action::VolumeUp => Action::VolumeUp,
            Action::VolumeDown => Action::VolumeDown,
            _ => Action::Nothing,
        },
{
    match key {
        Key::Char(c) => if c == '+' || c == '=' {
            Action::VolumeUp
        } else if c == '-' {
            Action::VolumeDown
        } else {
            Action::Nothing
        },
        _ => Action::Nothing,
    }
}

/// What a key asks for in the tab that shows the queue and the player: the
/// seek keys first, then the keys of the queue, then those of the player.
pub fn handle_now_playing_keys(key: Key) -> (r: Action)
    ensures
        r == now_playing_binding(key),
{
    match key {
        Key::Left => Action::SeekBackward(SEEK_STEP_SECS),
        Key::Right => Action::SeekForward(SEEK_STEP_SECS),
        _ => {
            let queue_action = handle_queue_keys(key);
            match queue_action {
                Action::Nothing => handle_player_keys(key),
                _ => queue_action,
            }
        },
    }
}

/// What a key asks for in the playlists tab.
pub fn handle_playlist_keys(key: Key) -> (r: Action)
    ensures
        r == playlists_binding(key),
{
    match key {
        Key::Char(c) => if c == 'j' {
            Action::PlaylistDown(1)
        } else if c == 'k' {
            Action::PlaylistUp(1)
        } else if c == 'g' {
            Action::PlaylistFirst
        } else if c == 'G' {
            Action::PlaylistLast
        } else if c == 'l' {
            Action::PlaylistEnqueue
        } else {
            Action::Nothing
        },
        Key::Down => Action::PlaylistDown(1),
        Key::Up => Action::PlaylistUp(1),
        Key::PageDown => Action::PlaylistDown(PAGE_STEP),
        Key::PageUp => Action::PlaylistUp(PAGE_STEP),
        Key::Enter => Action::PlaylistEnqueue,
        _ => Action::Nothing,
    }
}

/// What a key asks for in the given tab, if it is not one of the keys that
/// mean the same everywhere.
pub fn handle_tab_keys(tab: Tab, key: Key) -> (r: Action)
    ensures
        r == match tab {
            Tab::Browser => browser_binding(key),
            Tab::NowPlaying => now_playing_binding(key),
            Tab::Playlists => playlists_binding(key),
        },
{
    match tab {
        Tab::Browser => handle_browser_keys(key),
        Tab::NowPlaying => handle_now_playing_keys(key),
        Tab::Playlists => handle_playlist_keys(key),
    }
}

/// What a key asks for while keys are commands.
pub fn handle_normal_mode(tab: Tab, key: Key) -> (r: Action)
    ensures
        r == normal_binding(tab, key),
{
    match key {
        Key::Char(c) => if c == 'q' {
            Action::Quit
        } else if c == '?' {
            Action::ShowHelp
        } else if c == '1' {
            Action::ShowTab(Tab::Browser)
        } else if c == '2' {
            Action::ShowTab(Tab::NowPlaying)
        } else if c == '3' {
            Action::ShowTab(Tab::Playlists)
        } else if c == '/' {
            Action::StartSearch
        } else if c == ':' {
            Action::StartCommand
        } else if c == ' ' || c == 'p' {
            Action::TogglePlayback
        } else if c == '>' {
            Action::PlayNext
        } else if c == '<' {
            Action::PlayPrev
        } else if c == 'r' {
            Action::ToggleRandom
        } else if c == 's' {
            Action::Stop
        } else {
            handle_tab_keys(tab, key)
        },
        Key::Tab => Action::ShowTab(tab.next()),
        Key::BackTab => Action::ShowTab(tab.prev()),
        _ => handle_tab_keys(tab, key),
    }
}

/// What a key asks for while a search query is typed.
pub fn handle_search_mode(key: Key) -> (r: Action)
    ensures
        r == search_binding(key),
{
    match key {
        Key::Enter => Action::SearchAccept,
        Key::Esc => Action::SearchCancel,
        Key::Char(c) => Action::SearchType(c),
        Key::Backspace => Action::SearchErase,
        Key::Down => Action::SearchDown,
        Key::Up => Action::SearchUp,
        _ => Action::Nothing,
    }
}

/// What a key asks for while a command is typed.
pub fn handle_command_mode(key: Key) -> (r: Action)
    ensures
        r == command_binding(key),
{
    match key {
        Key::Enter => Action::CommandRun,
        Key::Esc => Action::CommandCancel,
        Key::Char(c) => Action::CommandType(c),
        Key::Backspace => Action::CommandErase,
        _ => Action::Nothing,
    }
}

/// What a key asks for.
pub fn handle_key(mode: InputMode, tab: Tab, key: Key) -> (r: Action)
    ensures
        r == binding(mode, tab, key),
{
    match mode {
        InputMode::Normal => handle_normal_mode(tab, key),
        InputMode::Search => handle_search_mode(key),
        InputMode::Command => handle_command_mode(key),
    }
}

/// The keys that mean the same everywhere are not shadowed by any tab, and
/// a key that no table names does nothing.
pub proof fn law_global_keys_come_first(tab: Tab, key: Key)
    ensures
        global_binding(tab, key) matches Some(action) ==> normal_binding(tab, key) == action,
        key == Key::Other ==> binding(InputMode::Normal, tab, key) == Action::Nothing && binding(
            InputMode::Search,
            tab,
            key,
        ) == Action::Nothing && binding(InputMode::Command, tab, key) == Action::Nothing,
{
}

/// The selection `by` lines further down a list of `len` lines, held at the
/// last line; a list without lines leaves the selection as it is.
pub open spec fn lowered(selected: usize, len: usize, by: usize) -> usize {
    if len == 0 {
        selected
    } else if selected + by <= len - 1 {
        (selected + by) as usize
    } else {
        (len - 1) as usize
    }
}

/// The selection `by` lines further up, held at the first line.
pub open spec fn raised(selected: usize, by: usize) -> usize {
    if selected >= by {
        (selected - by) as usize
    } else {
        0
    }
}

/// Moves a selection `by` lines down a list of `len` lines.
pub fn cursor_down(selected: usize, len: usize, by: usize) -> (r: usize)
    ensures
        r == lowered(selected, len, by),
{
    if len == 0 {
        selected
    } else {
        match selected.checked_add(by) {
            Some(target) => if target <= len - 1 {
                target
            } else {
                len - 1
            },
            None => len - 1,
        }
    }
}

/// Moves a selection `by` lines up.
pub fn cursor_up(selected: usize, by: usize) -> (r: usize)
    ensures
        r == raised(selected, by),
{
    if selected >= by {
        selected - by
    } else {
        0
    }
}

/// Moves a selection to the last of `len` lines, if there is a line.
pub fn cursor_last(selected: usize, len: usize) -> (r: usize)
    ensures
        r == if len == 0 {
            selected
        } else {
            (len - 1) as usize
        },
{
    if len == 0 {
        selected
    } else {
        len - 1
    }
}

/// Takes the selected track out of the queue and hands back the selection
/// that follows: the same line, or the last line where the selection would
/// point past the end. Nothing happens to an empty queue.
pub fn remove_selected(queue: &mut Queue, selected: usize) -> (r: usize)
    ensures
        final(queue)@ == old(queue)@.without(selected),
        r == if old(queue)@.tracks.len() > 0 && selected >= final(queue)@.tracks.len()
            && final(queue)@.tracks.len() > 0 {
            (final(queue)@.tracks.len() - 1) as usize
        } else {
            selected
        },
{
    if queue.is_empty() {
        selected
    } else {
        queue.remove(selected);
        if selected >= queue.len() && !queue.is_empty() {
            queue.len() - 1
        } else {
            selected
        }
    }
}

/// Moves the selected track one line up, and the selection with it.
/// Nothing happens on the first line.
pub fn move_selected_up(queue: &mut Queue, selected: usize) -> (r: usize)
    ensures
        final(queue)@ == if selected > 0 {
            old(queue)@.moved_up(selected)
        } else {
            old(queue)@
        },
        r == raised(selected, 1),
{
    if selected > 0 {
        queue.move_up(selected);
        selected - 1
    } else {
        selected
    }
}

/// Moves the selected track one line down, and the selection with it.
/// Nothing happens on the last line or below it.
pub fn move_selected_down(queue: &mut Queue, selected: usize) -> (r: usize)
    ensures
        final(queue)@ == old(queue)@.moved_down(selected),
        r == if selected + 1 < old(queue)@.tracks.len() {
            (selected + 1) as usize
        } else {
            selected
        },
{
    if selected < queue.len() && selected + 1 < queue.len() {
        queue.move_down(selected);
        selected + 1
    } else {
        selected
    }
}

/// What the key for play and pause does.
#[derive(Debug, Clone, Copy, PartialEq, Eq, Structural)]
pub enum Toggle {
    /// Playback is paused.
    Pause,
    /// Playback is resumed.
    Resume,
    /// The current track of the queue is started.
    PlayCurrent,
    /// Nothing: nothing plays and the queue has no current track.
    Nothing,
}

/// What the key for play and pause does: it pauses what plays, resumes what
/// is paused, and otherwise starts the current track of the queue.
pub fn toggle_playback(player: &Player, queue: &Queue) -> (r: Toggle)
    ensures
        r == if player@.is_playing() {
            Toggle::Pause
        } else if player@.is_paused() {
            Toggle::Resume
        } else if queue@.current_track() is Some {
            Toggle::PlayCurrent
        } else {
            Toggle::Nothing
        },
{
    if player.is_playing() {
        Toggle::Pause
    } else if player.is_paused() {
        Toggle::Resume
    } else if queue.current().is_some() {
        Toggle::PlayCurrent
    } else {
        Toggle::Nothing
    }
}

/// What is done between two keys.
#[derive(Debug, Clone, Copy, PartialEq, Eq, Structural)]
pub enum Tick {
    /// The track has ended: go on with the next track of the queue.
    PlayNext,
    /// The track has ended and the queue is empty: stop the player.
    Stop,
    /// Nothing.
    Nothing,
}

/// What is done between two keys: once the player has finished, the queue
/// goes on if it holds tracks, and the player is stopped if it still has a
/// current track.
pub fn on_tick(player: &Player, queue: &Queue) -> (r: Tick)
    ensures
        r == if player@.is_finished() && queue@.tracks.len() > 0 {
            Tick::PlayNext
        } else if player@.is_finished() && player@.track is Some {
            Tick::Stop
        } else {
            Tick::Nothing
        },
{
    if player.is_finished() && !queue.is_empty() {
        Tick::PlayNext
    } else if player.is_finished() && player.current_track().is_some() {
        Tick::Stop
    } else {
        Tick::Nothing
    }
}

/// Seconds for which a status message is shown.
pub const STATUS_SECS: u64 = 3;

/// Whether a status message that has been shown for `shown_secs` seconds
/// is taken down.
pub fn status_expired(shown_secs: u64) -> (r: bool)
    ensures
        r == (shown_secs >= STATUS_SECS),
{
    shown_secs >= STATUS_SECS
}

/// A playback position of `secs` seconds as text: minutes, a colon, and the
/// seconds with two digits.
pub open spec fn position_text(secs: nat) -> Seq<char> {
    decimal(secs / 60) + seq![':'] + two_digits(secs % 60)
}

/// A playback position of `secs` seconds as text.
pub fn format_position(secs: u64) -> (r: String)
    ensures
        r@ == position_text(secs as nat),
{
    let mut out: Vec<char> = Vec::new();
    push_decimal(&mut out, secs / 60);
    out.push(':');
    let seconds: u64 = secs % 60;
    if seconds < 10 {
        out.push('0');
    }
    push_decimal(&mut out, seconds);
    assert(out@ =~= position_text(secs as nat));
    string_of(&out)
}

/// The name under which the queue is saved where the user gives none: the
/// word `queue`, a dash, and the time in seconds since the epoch.
pub open spec fn default_queue_name(timestamp: u64) -> Seq<char> {
    "queue-"@ + decimal(timestamp as nat)
}

/// The name under which the queue is saved where the user gives none.
pub fn default_queue_playlist_name(timestamp: u64) -> (r: String)
    ensures
        r@ == default_queue_name(timestamp),
{
    let mut out: Vec<char> = Vec::new();
    push_str(&mut out, "queue-");
    push_decimal(&mut out, timestamp);
    string_of(&out)
}

/// The name under which the queue is saved as a playlist: the given name
/// without the whitespace around it, or the default name where no name is
/// given or nothing is left of it.
pub fn save_queue_as_playlist(name: Option<&str>, timestamp: u64) -> (r: String)
    ensures
        r@ == match name {
            Some(given) => if trimmed(given@).len() > 0 {
                trimmed(given@)
            } else {
                default_queue_name(timestamp)
            },
            None => default_queue_name(timestamp),
        },
{
    match name {
        Some(given) => {
            let plain = trim(&chars_of(given));
            if plain.len() > 0 {
                string_of(&plain)
            } else {
                default_queue_playlist_name(timestamp)
            }
        },
        None => default_queue_playlist_name(timestamp),
    }
}

/// The words of `text`: its pieces between whitespace, none of them empty.
pub open spec fn words_of(text: Seq<char>) -> Seq<Seq<char>>
    decreases text.len(),
{
    if text.len() == 0 {
        Seq::empty()
    } else {
        let before = words_of(text.drop_last());
        let c = text.last();
        if is_whitespace_char(c) {
            before
        } else if text.len() >= 2 && !is_whitespace_char(text[text.len() - 2]) && before.len()
            > 0 {
            before.drop_last().push(before.last().push(c))
        } else {
            before.push(seq![c])
        }
    }
}

/// The words of `text`.
pub fn words(text: &Vec<char>) -> (r: Vec<Vec<char>>)
    ensures
        crate::text::contents(r@) == words_of(text@),
{
    let mut r: Vec<Vec<char>> = Vec::new();
    let mut i: usize = 0;
    assert(crate::text::contents(r@) =~= words_of(text@.take(0)));
    while i < text.len()
        invariant
            i <= text.len(),
            crate::text::contents(r@) == words_of(text@.take(i as int)),
        decreases text.len() - i,
    {
        let c = text[i];
        let ghost before = crate::text::contents(r@);
        assert(text@.take(i + 1).drop_last() =~= text@.take(i as int));
        if !c.is_whitespace() {
            if i > 0 && !text[i - 1].is_whitespace() && r.len() > 0 {
                let mut word = r.pop().unwrap();
                word.push(c);
                r.push(word);
                assert(crate::text::contents(r@) =~= before.drop_last().push(
                    before.last().push(c),
                ));
            } else {
                let mut word: Vec<char> = Vec::new();
                word.push(c);
                r.push(word);
                assert(crate::text::contents(r@) =~= before.push(seq![c]));
            }
        }
        i = i + 1;
    }
    assert(text@.take(text@.len() as int) =~= text@);
    r
}

/// What a command line asks for.
#[derive(Debug, Clone, PartialEq, Eq)]
pub enum Command {
    /// Nothing: the line holds no word.
    Nothing,
    /// Leave the program.
    Quit,
    /// Write the configuration.
    SaveConfig,
    /// Save the queue as a playlist, under the given name if there is one.
    SaveQueue(Option<String>),
    /// Set the volume to the given number of percent, if there is one.
    Volume(Option<String>),
    /// A command that is not known.
    Unknown(String),
}

/// A command as a mathematical value.
pub enum CommandModel {
    Nothing,
    Quit,
    SaveConfig,
    SaveQueue(Option<Seq<char>>),
    Volume(Option<Seq<char>>),
    Unknown(Seq<char>),
}

impl View for Command {
    type V = CommandModel;

    open spec fn view(&self) -> CommandModel {
        match self {
            Command::Nothing => CommandModel::Nothing,
            Command::Quit => CommandModel::Quit,
            Command::SaveConfig => CommandModel::SaveConfig,
            Command::SaveQueue(name) => CommandModel::SaveQueue(
                match name {
                    Some(text) => Some(text@),
                    None => None,
                },
            ),
            Command::Volume(argument) => CommandModel::Volume(
                match argument {
                    Some(text) => Some(text@),
                    None => None,
                },
            ),
            Command::Unknown(word) => CommandModel::Unknown(word@),
        }
    }
}

/// What the words of a command line ask for. The first word names the
/// command. For saving the queue the other words, with single spaces
/// between them, are the name; for the volume the second word is the
/// number.
pub open spec fn command_of(words: Seq<Seq<char>>) -> CommandModel {
    if words.len() == 0 {
        CommandModel::Nothing
    } else if words[0] == "quit"@ || words[0] == "q"@ {
        CommandModel::Quit
    } else if words[0] == "save"@ {
        CommandModel::SaveConfig
    } else if words[0] == "save-queue"@ || words[0] == "savequeue"@ {
        CommandModel::SaveQueue(
            if words.len() > 1 {
                Some(crate::text::joined(words.skip(1), seq![' ']))
            } else {
                None
            },
        )
    } else if words[0] == "vol"@ || words[0] == "volume"@ {
        CommandModel::Volume(
            if words.len() > 1 {
                Some(words[1])
            } else {
                None
            },
        )
    } else {
        CommandModel::Unknown(words[0])
    }
}

/// The words after the first, with single spaces between them.
fn rest_joined(words: &Vec<Vec<char>>) -> (r: Vec<char>)
    requires
        words@.len() > 1,
    ensures
        r@ == crate::text::joined(crate::text::contents(words@).skip(1), seq![' ']),
{
    let ghost rest = crate::text::contents(words@).skip(1);
    let mut out: Vec<char> = Vec::new();
    push_all(&mut out, &words[1]);
    assert(rest.take(1) =~= seq![rest[0]]);
    assert(out@ =~= crate::text::joined(rest.take(1), seq![' ']));
    let mut i: usize = 2;
    while i < words.len()
        invariant
            2 <= i <= words.len(),
            rest == crate::text::contents(words@).skip(1),
            out@ == crate::text::joined(rest.take(i - 1), seq![' ']),
        decreases words.len() - i,
    {
        assert(rest.take(i as int).drop_last() =~= rest.take(i - 1));
        out.push(' ');
        push_all(&mut out, &words[i]);
        assert(out@ =~= crate::text::joined(rest.take(i - 1), seq![' ']) + seq![' '] + rest[i
            - 1]);
        i = i + 1;
    }
    assert(rest.take(rest.len() as int) =~= rest);
    out
}

/// What the command line `input` asks for.
pub fn execute_command(input: &str) -> (r: Command)
    ensures
        r@ == command_of(words_of(input@)),
{
    let parts = words(&chars_of(input));
    if parts.len() == 0 {
        return Command::Nothing;
    }
    assert(crate::text::contents(parts@)[0] == parts@[0]@);
    let first = &parts[0];
    if same_text(first, &chars_of("quit")) || same_text(first, &chars_of("q")) {
        Command::Quit
    } else if same_text(first, &chars_of("save")) {
        Command::SaveConfig
    } else if same_text(first, &chars_of("save-queue")) || same_text(
        first,
        &chars_of("savequeue"),
    ) {
        if parts.len() > 1 {
            Command::SaveQueue(Some(string_of(&rest_joined(&parts))))
        } else {
            Command::SaveQueue(None)
        }
    } else if same_text(first, &chars_of("vol")) || same_text(first, &chars_of("volume")) {
        if parts.len() > 1 {
            assert(crate::text::contents(parts@)[1] == parts@[1]@);
            Command::Volume(Some(string_of(&parts[1])))
        } else {
            Command::Volume(None)
        }
    } else {
        Command::Unknown(string_of(first))
    }
}

} // verus!
