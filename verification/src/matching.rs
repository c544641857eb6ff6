//! Finding the file that a line such as `Artist - Song` speaks of.

use vstd::prelude::*;
use crate::text::{
    chars_of,
    contains,
    contains_text,
    contents,
    is_numeric_char,
    is_whitespace_char,
    joined,
    lemma_rewritten_step,
    lines,
    lines_of,
    lowercase_of,
    pieces_of,
    push_all,
    rewritten,
    same_text,
    split_on,
    string_of,
    texts,
    trim,
    trimmed,
};

verus! {

/// Whether `c` is one of the letters `a` to `z` and `A` to `Z` or one of the
/// digits `0` to `9`.
pub open spec fn is_plain_char(c: char) -> bool {
    ('a' as u32 <= c as u32 <= 'z' as u32) || ('A' as u32 <= c as u32 <= 'Z' as u32) || ('0' as u32
        <= c as u32 <= '9' as u32)
}

/// Whether `c` is a plain letter or digit.
pub fn is_plain(c: char) -> (r: bool)
    ensures
        r == is_plain_char(c),
{
    let code: u32 = c as u32;
    (code >= 'a' as u32 && code <= 'z' as u32) || (code >= 'A' as u32 && code <= 'Z' as u32) || (
    code >= '0' as u32 && code <= '9' as u32)
}

/// What is kept of one character when a text is made comparable: `and` for
/// an ampersand, the character itself for a plain letter, a digit or
/// whitespace, and nothing for anything else, quotation marks and other
/// punctuation included.
pub open spec fn match_piece(c: char) -> Seq<char> {
    if c == '&' {
        seq!['a', 'n', 'd']
    } else if is_plain_char(c) || is_whitespace_char(c) {
        seq![c]
    } else {
        Seq::empty()
    }
}

/// `text` with the whitespace at both ends dropped and every run of
/// whitespace between two words turned into one space.
pub open spec fn squeezed(text: Seq<char>) -> Seq<char>
    decreases text.len(),
{
    if text.len() == 0 {
        Seq::empty()
    } else {
        let before = squeezed(text.drop_last());
        let c = text.last();
        if is_whitespace_char(c) {
            before
        } else if text.len() >= 2 && is_whitespace_char(text[text.len() - 2]) && before.len() > 0 {
            before.push(' ').push(c)
        } else {
            before.push(c)
        }
    }
}

/// The comparable form of the lowercase text `lowered`: every character
/// replaced by its [`match_piece`], then the whitespace [`squeezed`].
pub open spec fn normalized_lower(lowered: Seq<char>) -> Seq<char> {
    squeezed(rewritten(lowered, |c: char| match_piece(c)))
}

/// The comparable form of `text`: that of its lowercase form.
pub open spec fn normalized(text: Seq<char>) -> Seq<char> {
    normalized_lower(lowercase_of(text))
}

/// `text` with every character replaced by its [`match_piece`].
fn keep_matchable(text: &Vec<char>) -> (r: Vec<char>)
    ensures
        r@ == rewritten(text@, |c: char| match_piece(c)),
{
    let ghost piece = |c: char| match_piece(c);
    let mut r: Vec<char> = Vec::new();
    let mut i: usize = 0;
    while i < text.len()
        invariant
            i <= text.len(),
            piece == (|c: char| match_piece(c)),
            r@ == rewritten(text@.take(i as int), piece),
        decreases text.len() - i,
    {
        let c = text[i];
        proof {
            lemma_rewritten_step(text@, piece, i as int);
        }
        if c == '&' {
            r.push('a');
            r.push('n');
            r.push('d');
        } else if is_plain(c) || c.is_whitespace() {
            r.push(c);
        }
        assert(r@ =~= rewritten(text@.take(i as int), piece) + piece(c));
        i = i + 1;
    }
    assert(text@.take(text.len() as int) =~= text@);
    r
}

/// `text` with its whitespace [`squeezed`].
fn squeeze(text: &Vec<char>) -> (r: Vec<char>)
    ensures
        r@ == squeezed(text@),
{
    let mut r: Vec<char> = Vec::new();
    let mut i: usize = 0;
    while i < text.len()
        invariant
            i <= text.len(),
            r@ == squeezed(text@.take(i as int)),
        decreases text.len() - i,
    {
        let c = text[i];
        assert(text@.take(i + 1).drop_last() =~= text@.take(i as int));
        if !c.is_whitespace() {
            if i > 0 && text[i - 1].is_whitespace() && r.len() > 0 {
                r.push(' ');
            }
            r.push(c);
        }
        i = i + 1;
    }
    assert(text@.take(text.len() as int) =~= text@);
    r
}

/// The comparable form of a text that is in lowercase already.
pub fn normalize_lowercase(lowered: &str) -> (r: String)
    ensures
        r@ == normalized_lower(lowered@),
{
    let kept = keep_matchable(&chars_of(lowered));
    string_of(&squeeze(&kept))
}

/// The comparable form of `s`: in lowercase, `and` for each ampersand,
/// nothing but plain letters, digits and single spaces between the words.
pub fn normalize_for_matching(s: &str) -> (r: String)
    ensures
        r@ == normalized(s@),
{
    let lowered = s.to_lowercase();
    normalize_lowercase(lowered.as_str())
}

/// The given pieces, each without the whitespace around it.
pub open spec fn each_trimmed(pieces: Seq<Seq<char>>) -> Seq<Seq<char>> {
    Seq::new(pieces.len(), |i: int| trimmed(pieces[i]))
}

/// The artist and the song that the line `query` names, both before they
/// are made comparable. The artist is what stands before the first dash.
/// The song is the rest, cut at its dashes, each piece without the
/// whitespace around it, and the pieces joined by dashes again. A line
/// without a dash names nothing.
pub open spec fn query_parts(query: Seq<char>) -> Option<(Seq<char>, Seq<char>)> {
    let pieces = pieces_of(query, '-');
    if pieces.len() > 1 {
        Some((trimmed(pieces[0]), joined(each_trimmed(pieces.skip(1)), seq!['-'])))
    } else {
        None
    }
}

/// The artist and the song that the line `query` names, before they are
/// made comparable; nothing for a line without a dash.
pub fn split_query(query: &str) -> (r: Option<(String, String)>)
    ensures
        r is Some <==> query_parts(query@) is Some,
        r matches Some(parts) ==> query_parts(query@) == Some((parts.0@, parts.1@)),
{
    let pieces = split_on(&chars_of(query), '-');
    let ghost all = pieces_of(query@, '-');
    if pieces.len() > 1 {
        let artist = trim(&pieces[0]);
        assert(contents(pieces@)[0] == pieces@[0]@);
        let ghost rest = each_trimmed(all.skip(1));
        let mut song: Vec<char> = trim(&pieces[1]);
        assert(contents(pieces@)[1] == pieces@[1]@);
        assert(rest.take(1) =~= seq![rest[0]]);
        let mut i: usize = 2;
        while i < pieces.len()
            invariant
                2 <= i <= pieces.len(),
                contents(pieces@) == all,
                rest == each_trimmed(all.skip(1)),
                song@ == joined(rest.take(i - 1), seq!['-']),
            decreases pieces.len() - i,
        {
            let piece = trim(&pieces[i]);
            assert(contents(pieces@)[i as int] == pieces@[i as int]@);
            assert(rest.take(i as int).drop_last() =~= rest.take(i - 1));
            song.push('-');
            push_all(&mut song, &piece);
            assert(song@ =~= joined(rest.take(i - 1), seq!['-']) + seq!['-'] + rest[i - 1]);
            i = i + 1;
        }
        assert(rest.take(rest.len() as int) =~= rest);
        Some((string_of(&artist), string_of(&song)))
    } else {
        None
    }
}

/// The artist and the song that the line `query` names, in their
/// comparable forms; nothing for a line without a dash.
pub fn parse_query(query: &str) -> (r: Option<(String, String)>)
    ensures
        r is Some <==> query_parts(query@) is Some,
        r matches Some(parts) ==> (query_parts(query@) matches Some(named) && parts.0@
            == normalized(named.0) && parts.1@ == normalized(named.1)),
{
    match split_query(query) {
        Some(parts) => Some(
            (normalize_for_matching(parts.0.as_str()), normalize_for_matching(parts.1.as_str())),
        ),
        None => None,
    }
}

/// Whether the directory with the comparable name `dir_name` may hold the
/// tracks of `artist`: the name of the artist stands somewhere in it.
pub fn is_artist_dir(dir_name: &str, artist: &str) -> (r: bool)
    ensures
        r == contains_text(dir_name@, artist@),
{
    contains(&chars_of(dir_name), &chars_of(artist))
}

/// Whether the directory called `dir_name` may hold the tracks of the
/// artist with the comparable name `artist`.
pub fn artist_dir_matches(dir_name: &str, artist: &str) -> (r: bool)
    ensures
        r == contains_text(normalized(dir_name@), artist@),
{
    let comparable = normalize_for_matching(dir_name);
    is_artist_dir(comparable.as_str(), artist)
}

/// What an exact match scores more than a partial one.
pub const EXACT_MATCH_BONUS: u128 = 10000;

/// How well the file with the comparable name `name` fits the comparable
/// song title `song`: not at all where the title does not stand in the
/// name, else by the length of the title, and by ten thousand more where
/// the name is the title.
pub open spec fn score_of(name: Seq<char>, song: Seq<char>) -> Option<u128> {
    if contains_text(name, song) {
        if name == song {
            Some((10000 + song.len()) as u128)
        } else {
            Some(song.len() as u128)
        }
    } else {
        None
    }
}

/// How well the file with the comparable name `name` fits the comparable
/// song title `song`.
pub fn score_comparable(name: &str, song: &str) -> (r: Option<u128>)
    ensures
        r == score_of(name@, song@),
{
    let hay = chars_of(name);
    let needle = chars_of(song);
    if contains(&hay, &needle) {
        let length: u128 = needle.len() as u128;
        if same_text(&hay, &needle) {
            Some(EXACT_MATCH_BONUS + length)
        } else {
            Some(length)
        }
    } else {
        None
    }
}

/// How well the file whose name without extension is `stem` fits the
/// comparable song title `song`.
pub fn match_score(stem: &str, song: &str) -> (r: Option<u128>)
    ensures
        r == score_of(normalized(stem@), song@),
{
    let comparable = normalize_for_matching(stem);
    score_comparable(comparable.as_str(), song)
}

/// Whether `index` is the best of the given scores: it is a score, no score
/// is higher, and no earlier score is as high.
pub open spec fn is_best(scores: Seq<Option<u128>>, index: int) -> bool {
    &&& 0 <= index < scores.len()
    &&& scores[index] is Some
    &&& forall|k: int|
        0 <= k < scores.len() && scores[k] is Some ==> (#[trigger] scores[k])->0
            <= scores[index]->0
    &&& forall|k: int|
        0 <= k < index && scores[k] is Some ==> (#[trigger] scores[k])->0 < scores[index]->0
}

/// The index of the best of the given scores, or nothing where none of the
/// files fits.
pub fn best_score(scores: &[Option<u128>]) -> (r: Option<usize>)
    ensures
        r is None <==> (forall|k: int| 0 <= k < scores@.len() ==> scores@[k] is None),
        r matches Some(index) ==> is_best(scores@, index as int),
{
    let mut best: Option<usize> = None;
    let mut i: usize = 0;
    while i < scores.len()
        invariant
            i <= scores.len(),
            best is None <==> (forall|k: int| 0 <= k < i ==> scores@[k] is None),
            best matches Some(index) ==> is_best(scores@.take(i as int), index as int),
        decreases scores.len() - i,
    {
        match scores[i] {
            Some(score) => {
                let better = match best {
                    Some(index) => match scores[index] {
                        Some(leading) => score > leading,
                        None => true,
                    },
                    None => true,
                };
                if better {
                    best = Some(i);
                }
            },
            None => {},
        }
        i = i + 1;
        assert(best matches Some(index) ==> is_best(scores@.take(i as int), index as int));
    }
    assert(scores@.take(scores@.len() as int) =~= scores@);
    best
}

/// The scores of the given file names for the comparable title `song`.
pub open spec fn scores_of(stems: Seq<Seq<char>>, song: Seq<char>) -> Seq<Option<u128>> {
    Seq::new(stems.len(), |i: int| score_of(normalized(stems[i]), song))
}

/// The index of the file that fits the comparable song title `song` best,
/// among the files whose names without extension are `stems`: the first of
/// those with the highest score. Nothing where no file fits.
pub fn best_match(stems: &[String], song: &str) -> (r: Option<usize>)
    ensures
        r is None <==> (forall|k: int|
            0 <= k < stems@.len() ==> (#[trigger] scores_of(texts(stems@), song@)[k]) is None),
        r matches Some(index) ==> is_best(scores_of(texts(stems@), song@), index as int),
{
    let mut scores: Vec<Option<u128>> = Vec::new();
    let mut i: usize = 0;
    while i < stems.len()
        invariant
            i <= stems.len(),
            scores@ == scores_of(texts(stems@), song@).take(i as int),
        decreases stems.len() - i,
    {
        scores.push(match_score(stems[i].as_str(), song));
        assert(scores@ =~= scores_of(texts(stems@), song@).take(i + 1));
        i = i + 1;
    }
    assert(scores@ =~= scores_of(texts(stems@), song@));
    best_score(scores.as_slice())
}

/// `text` without the numbering at its start: without its leading digits,
/// dots and whitespace.
pub open spec fn without_numbering(text: Seq<char>) -> Seq<char>
    decreases text.len(),
{
    if text.len() > 0 && (is_numeric_char(text[0]) || text[0] == '.' || is_whitespace_char(
        text[0],
    )) {
        without_numbering(text.skip(1))
    } else {
        text
    }
}

/// The query that a line of a list of songs holds: the line without the
/// whitespace around it and without numbering, unless nothing is left.
pub open spec fn query_of_line(line: Seq<char>) -> Option<Seq<char>> {
    let query = without_numbering(trimmed(line));
    if query.len() > 0 {
        Some(query)
    } else {
        None
    }
}

/// The queries that the given lines hold, in order.
pub open spec fn queries_of_lines(lines: Seq<Seq<char>>) -> Seq<Seq<char>>
    decreases lines.len(),
{
    if lines.len() == 0 {
        Seq::empty()
    } else {
        match query_of_line(lines.last()) {
            Some(query) => queries_of_lines(lines.drop_last()).push(query),
            None => queries_of_lines(lines.drop_last()),
        }
    }
}

/// `text` without the numbering at its start.
fn strip_numbering(text: &Vec<char>) -> (r: Vec<char>)
    ensures
        r@ == without_numbering(text@),
{
    let mut start: usize = 0;
    assert(text@.skip(0) =~= text@);
    while start < text.len() && (text[start].is_numeric() || text[start] == '.'
        || text[start].is_whitespace())
        invariant
            start <= text.len(),
            without_numbering(text@) == without_numbering(text@.skip(start as int)),
        decreases text.len() - start,
    {
        assert(text@.skip(start as int).skip(1) =~= text@.skip(start + 1));
        start = start + 1;
    }
    let mut r: Vec<char> = Vec::new();
    let mut i: usize = start;
    while i < text.len()
        invariant
            start <= i <= text.len(),
            r@ == text@.subrange(start as int, i as int),
        decreases text.len() - i,
    {
        r.push(text[i]);
        assert(r@ =~= text@.subrange(start as int, i + 1));
        i = i + 1;
    }
    assert(text@.subrange(start as int, text@.len() as int) =~= text@.skip(start as int));
    r
}

/// The queries that a list of songs holds, one for each line such as
/// `1. Artist - Song` that is not empty.
pub fn load_songs_from_file(content: &str) -> (r: Vec<String>)
    ensures
        texts(r@) == queries_of_lines(lines_of(content@)),
{
    let found = lines(&chars_of(content));
    let ghost all = lines_of(content@);
    let mut queries: Vec<String> = Vec::new();
    let mut i: usize = 0;
    assert(texts(queries@) =~= queries_of_lines(all.take(0)));
    while i < found.len()
        invariant
            i <= found.len(),
            contents(found@) == all,
            texts(queries@) == queries_of_lines(all.take(i as int)),
        decreases found.len() - i,
    {
        assert(contents(found@)[i as int] == found@[i as int]@);
        assert(all.take(i + 1).drop_last() =~= all.take(i as int));
        let query = strip_numbering(&trim(&found[i]));
        if query.len() > 0 {
            let ghost before = texts(queries@);
            queries.push(string_of(&query));
            assert(texts(queries@) =~= before.push(query@));
        }
        i = i + 1;
    }
    assert(all.take(all.len() as int) =~= all);
    queries
}

} // verus!
