//! Text as sequences of characters: moving between strings and character
//! vectors, trimming, and rewriting character by character.

use vstd::prelude::*;

verus! {

/// Whether `c` has the Unicode property White_Space, as
/// `char::is_whitespace` reports it.
pub uninterp spec fn is_whitespace_char(c: char) -> bool;

/// `char::is_whitespace` of the standard library: its answer is a function
/// of the character alone, named [`is_whitespace_char`]. Nothing else is
/// claimed of it.
pub assume_specification[ char::is_whitespace ](c: char) -> (r: bool)
    ensures
        r == is_whitespace_char(c),
;

/// The lowercase form of a text, as `str::to_lowercase` computes it from the
/// Unicode case mappings.
pub uninterp spec fn lowercase_of(text: Seq<char>) -> Seq<char>;

/// `str::to_lowercase` of the standard library: its result is a function of
/// the text alone, named [`lowercase_of`]. Nothing else is claimed of it.
pub assume_specification[ str::to_lowercase ](s: &str) -> (r: String)
    ensures
        r@ == lowercase_of(s@),
;

/// `String::push` of the standard library appends the character to the end
/// of the string.
pub assume_specification[ String::push ](s: &mut String, ch: char)
    ensures
        final(s)@ == old(s)@.push(ch),
;

/// The texts of a sequence of strings, element by element.
pub open spec fn texts(strings: Seq<String>) -> Seq<Seq<char>> {
    Seq::new(strings.len(), |i: int| strings[i]@)
}

/// The characters of `s`, in order.
pub fn chars_of(s: &str) -> (v: Vec<char>)
    ensures
        v@ == s@,
{
    let mut v: Vec<char> = Vec::new();
    for c in it: s.chars()
        invariant
            it.seq() == s@,
            v@ == s@.take(it.index() as int),
    {
        v.push(c);
    }
    v
}

/// The string made of `chars`, in order.
pub fn string_of(chars: &Vec<char>) -> (s: String)
    ensures
        s@ == chars@,
{
    let mut s = String::new();
    let mut i: usize = 0;
    while i < chars.len()
        invariant
            i <= chars.len(),
            s@ == chars@.take(i as int),
        decreases chars.len() - i,
    {
        s.push(chars[i]);
        i = i + 1;
    }
    s
}

/// Whether two character vectors hold the same text.
pub fn same_text(a: &Vec<char>, b: &Vec<char>) -> (r: bool)
    ensures
        r == (a@ == b@),
{
    if a.len() != b.len() {
        return false;
    }
    let mut i: usize = 0;
    while i < a.len()
        invariant
            i <= a.len(),
            a.len() == b.len(),
            a@.take(i as int) == b@.take(i as int),
        decreases a.len() - i,
    {
        if a[i] != b[i] {
            return false;
        }
        assert(a@.take(i + 1) =~= a@.take(i as int).push(a@[i as int]));
        assert(b@.take(i + 1) =~= b@.take(i as int).push(b@[i as int]));
        i = i + 1;
    }
    assert(a@ =~= a@.take(a.len() as int));
    assert(b@ =~= b@.take(b.len() as int));
    true
}

/// Whether `text` ends with `suffix`.
pub open spec fn ends_with(text: Seq<char>, suffix: Seq<char>) -> bool {
    suffix.len() <= text.len() && text.skip(text.len() - suffix.len()) == suffix
}

/// Whether `text` ends with `suffix`.
pub fn has_suffix(text: &Vec<char>, suffix: &Vec<char>) -> (r: bool)
    ensures
        r == ends_with(text@, suffix@),
{
    if suffix.len() > text.len() {
        return false;
    }
    let offset: usize = text.len() - suffix.len();
    let mut i: usize = 0;
    while i < suffix.len()
        invariant
            i <= suffix.len(),
            offset + suffix.len() == text.len(),
            forall|k: int| 0 <= k < i ==> text@[offset + k] == suffix@[k],
        decreases suffix.len() - i,
    {
        if text[offset + i] != suffix[i] {
            assert(text@.skip(offset as int)[i as int] != suffix@[i as int]);
            return false;
        }
        i = i + 1;
    }
    assert(text@.skip(offset as int) =~= suffix@);
    true
}

/// `text` without the whitespace at its start.
pub open spec fn trim_start(text: Seq<char>) -> Seq<char>
    decreases text.len(),
{
    if text.len() > 0 && is_whitespace_char(text[0]) {
        trim_start(text.skip(1))
    } else {
        text
    }
}

/// `text` without the whitespace at its end.
pub open spec fn trim_end(text: Seq<char>) -> Seq<char>
    decreases text.len(),
{
    if text.len() > 0 && is_whitespace_char(text.last()) {
        trim_end(text.drop_last())
    } else {
        text
    }
}

/// `text` without the whitespace at its start and at its end.
pub open spec fn trimmed(text: Seq<char>) -> Seq<char> {
    trim_end(trim_start(text))
}

/// `text` without the whitespace at its start and at its end.
pub fn trim(text: &Vec<char>) -> (r: Vec<char>)
    ensures
        r@ == trimmed(text@),
{
    let mut start: usize = 0;
    assert(text@.skip(0) =~= text@);
    while start < text.len() && text[start].is_whitespace()
        invariant
            start <= text.len(),
            trim_start(text@) == trim_start(text@.skip(start as int)),
        decreases text.len() - start,
    {
        assert(text@.skip(start as int).skip(1) =~= text@.skip(start + 1));
        start = start + 1;
    }
    assert(trim_start(text@) == text@.skip(start as int));
    let mut end: usize = text.len();
    while end > start && text[end - 1].is_whitespace()
        invariant
            start <= end <= text.len(),
            trimmed(text@) == trim_end(text@.subrange(start as int, end as int)),
        decreases end,
    {
        assert(text@.subrange(start as int, end as int).drop_last() =~= text@.subrange(
            start as int,
            end - 1,
        ));
        end = end - 1;
    }
    let mut r: Vec<char> = Vec::new();
    let mut i: usize = start;
    while i < end
        invariant
            start <= i <= end <= text.len(),
            r@ == text@.subrange(start as int, i as int),
        decreases end - i,
    {
        r.push(text[i]);
        assert(text@.subrange(start as int, i + 1) =~= text@.subrange(
            start as int,
            i as int,
        ).push(text@[i as int]));
        i = i + 1;
    }
    r
}

/// `text` rewritten character by character: each character is replaced by
/// the piece that `piece` gives for it, and the pieces are joined in order.
pub open spec fn rewritten(text: Seq<char>, piece: spec_fn(char) -> Seq<char>) -> Seq<char>
    decreases text.len(),
{
    if text.len() == 0 {
        Seq::empty()
    } else {
        rewritten(text.drop_last(), piece) + piece(text.last())
    }
}

/// Rewriting one character more appends its piece.
pub proof fn lemma_rewritten_step(text: Seq<char>, piece: spec_fn(char) -> Seq<char>, i: int)
    requires
        0 <= i < text.len(),
    ensures
        rewritten(text.take(i + 1), piece) == rewritten(text.take(i), piece) + piece(text[i]),
{
    assert(text.take(i + 1).drop_last() =~= text.take(i));
}

/// The decimal digits of `n`, most significant first, without leading zeros
/// but for zero itself.
pub open spec fn decimal(n: nat) -> Seq<char>
    decreases n,
{
    if n < 10 {
        seq![digit(n)]
    } else {
        decimal(n / 10).push(digit(n % 10))
    }
}

/// The character of the decimal digit `d`.
pub open spec fn digit(d: nat) -> char {
    if d == 0 {
        '0'
    } else if d == 1 {
        '1'
    } else if d == 2 {
        '2'
    } else if d == 3 {
        '3'
    } else if d == 4 {
        '4'
    } else if d == 5 {
        '5'
    } else if d == 6 {
        '6'
    } else if d == 7 {
        '7'
    } else if d == 8 {
        '8'
    } else {
        '9'
    }
}

/// The character of the decimal digit `d`.
pub fn digit_char(d: u64) -> (c: char)
    requires
        d < 10,
    ensures
        c == digit(d as nat),
{
    if d == 0 {
        '0'
    } else if d == 1 {
        '1'
    } else if d == 2 {
        '2'
    } else if d == 3 {
        '3'
    } else if d == 4 {
        '4'
    } else if d == 5 {
        '5'
    } else if d == 6 {
        '6'
    } else if d == 7 {
        '7'
    } else if d == 8 {
        '8'
    } else {
        '9'
    }
}

/// Appends the decimal digits of `n` to `out`.
pub fn push_decimal(out: &mut Vec<char>, n: u64)
    ensures
        final(out)@ == old(out)@ + decimal(n as nat),
    decreases n,
{
    if n < 10 {
        out.push(digit_char(n));
        assert(final(out)@ =~= old(out)@ + decimal(n as nat));
    } else {
        push_decimal(out, n / 10);
        out.push(digit_char(n % 10));
        assert(final(out)@ =~= old(out)@ + decimal(n as nat));
    }
}

/// Appends the characters of `more` to `out`.
pub fn push_all(out: &mut Vec<char>, more: &Vec<char>)
    ensures
        final(out)@ == old(out)@ + more@,
{
    let mut i: usize = 0;
    while i < more.len()
        invariant
            i <= more.len(),
            out@ == old(out)@ + more@.take(i as int),
        decreases more.len() - i,
    {
        out.push(more[i]);
        assert(more@.take(i + 1) =~= more@.take(i as int).push(more@[i as int]));
        i = i + 1;
    }
    assert(more@.take(more.len() as int) =~= more@);
}

/// Appends the characters of `more` to `out`.
pub fn push_str(out: &mut Vec<char>, more: &str)
    ensures
        final(out)@ == old(out)@ + more@,
{
    let chars = chars_of(more);
    push_all(out, &chars);
}

/// Whether `c` has one of the Unicode general categories for numbers, as
/// `char::is_numeric` reports it.
pub uninterp spec fn is_numeric_char(c: char) -> bool;

/// `char::is_numeric` of the standard library: its answer is a function of
/// the character alone, named [`is_numeric_char`]. Nothing else is claimed
/// of it.
pub assume_specification[ char::is_numeric ](c: char) -> (r: bool)
    ensures
        r == is_numeric_char(c),
;

/// The number of characters before the first `mark` in `text`, or the
/// length of `text` where it holds none.
pub open spec fn index_of(text: Seq<char>, mark: char) -> int
    decreases text.len(),
{
    if text.len() == 0 || text[0] == mark {
        0
    } else {
        1 + index_of(text.skip(1), mark)
    }
}

/// Where the first `mark` of `text` stands: at `end`, before which there is
/// none, or nowhere, and then `end` is the length of the text.
pub proof fn lemma_index_of(text: Seq<char>, mark: char, end: int)
    requires
        0 <= end <= text.len(),
        forall|k: int| 0 <= k < end ==> text[k] != mark,
        end < text.len() ==> text[end] == mark,
    ensures
        index_of(text, mark) == end,
    decreases text.len(),
{
    if end > 0 {
        lemma_index_of(text.skip(1), mark, end - 1);
    }
}

/// The pieces that `text` falls into when it is cut at every `mark`. The
/// marks belong to no piece, and there is always one piece more than there
/// are marks.
pub open spec fn pieces_of(text: Seq<char>, mark: char) -> Seq<Seq<char>>
    decreases text.len(),
{
    let end = index_of(text, mark);
    if 0 <= end < text.len() {
        seq![text.take(end)] + pieces_of(text.skip(end + 1), mark)
    } else {
        seq![text]
    }
}

/// A text falls into one piece at least.
pub proof fn lemma_pieces_not_empty(text: Seq<char>, mark: char)
    ensures
        pieces_of(text, mark).len() >= 1,
{
}

/// The texts of a sequence of character vectors, element by element.
pub open spec fn contents(vectors: Seq<Vec<char>>) -> Seq<Seq<char>> {
    Seq::new(vectors.len(), |i: int| vectors[i]@)
}

/// Cuts `text` at every `mark`.
pub fn split_on(text: &Vec<char>, mark: char) -> (r: Vec<Vec<char>>)
    ensures
        contents(r@) == pieces_of(text@, mark),
{
    let mut r: Vec<Vec<char>> = Vec::new();
    let mut piece: Vec<char> = Vec::new();
    let mut start: usize = 0;
    let mut i: usize = 0;
    assert(text@.skip(0) =~= text@);
    assert(contents(r@) + pieces_of(text@.skip(0), mark) =~= pieces_of(text@, mark));
    while i < text.len()
        invariant
            start <= i <= text.len(),
            pieces_of(text@, mark) == contents(r@) + pieces_of(text@.skip(start as int), mark),
            piece@ == text@.subrange(start as int, i as int),
            forall|k: int| start <= k < i ==> text@[k] != mark,
        decreases text.len() - i,
    {
        let c = text[i];
        if c == mark {
            let ghost tail = text@.skip(start as int);
            let ghost before = contents(r@);
            proof {
                lemma_index_of(tail, mark, i - start);
                assert(tail.take(i - start) =~= piece@);
                assert(tail.skip(i - start + 1) =~= text@.skip(i + 1));
            }
            r.push(piece);
            assert(contents(r@) =~= before.push(tail.take(i - start)));
            assert(pieces_of(text@, mark) =~= contents(r@) + pieces_of(text@.skip(i + 1), mark));
            piece = Vec::new();
            start = i + 1;
            assert(piece@ =~= text@.subrange(start as int, start as int));
        } else {
            piece.push(c);
            assert(piece@ =~= text@.subrange(start as int, i + 1));
        }
        i = i + 1;
    }
    let ghost tail = text@.skip(start as int);
    let ghost before = contents(r@);
    proof {
        lemma_index_of(tail, mark, tail.len() as int);
        assert(piece@ =~= tail);
    }
    r.push(piece);
    assert(contents(r@) =~= before.push(tail));
    r
}

/// `line` without the carriage return at its end, if it has one.
pub open spec fn without_return(line: Seq<char>) -> Seq<char> {
    if line.len() > 0 && line.last() == '\r' {
        line.drop_last()
    } else {
        line
    }
}

/// The lines that the pieces between the line feeds of a text make: each
/// piece that a line feed ends, without the carriage return before the line
/// feed, and the last piece as it is, unless it is empty.
pub open spec fn lines_of_pieces(pieces: Seq<Seq<char>>) -> Seq<Seq<char>> {
    if pieces.len() == 0 {
        Seq::empty()
    } else {
        let ended = Seq::new((pieces.len() - 1) as nat, |i: int| without_return(pieces[i]));
        if pieces.last().len() == 0 {
            ended
        } else {
            ended.push(pieces.last())
        }
    }
}

/// The lines of `text`. A line ends with a line feed, or with a carriage
/// return and a line feed, neither of which belongs to the line; what
/// follows the last line feed is a line too, unless nothing follows it.
pub open spec fn lines_of(text: Seq<char>) -> Seq<Seq<char>> {
    lines_of_pieces(pieces_of(text, '\n'))
}

/// The lines of `text`.
pub fn lines(text: &Vec<char>) -> (r: Vec<Vec<char>>)
    ensures
        contents(r@) == lines_of(text@),
{
    let pieces = split_on(text, '\n');
    let ghost all = contents(pieces@);
    let count = pieces.len();
    proof {
        lemma_pieces_not_empty(text@, '\n');
    }
    let mut r: Vec<Vec<char>> = Vec::new();
    for piece in it: pieces
        invariant
            it.seq() == pieces@,
            all == contents(pieces@),
            count == pieces@.len(),
            count >= 1,
            it.index() < count ==> contents(r@) =~= Seq::new(
                it.index() as nat,
                |k: int| without_return(all[k]),
            ),
            it.index() == count ==> contents(r@) == lines_of_pieces(all),
    {
        let ghost done = it.index() as int;
        let ghost before = contents(r@);
        assert(piece@ == all[done]);
        let mut line = piece;
        if r.len() + 1 < count {
            let n = line.len();
            if n > 0 && line[n - 1] == '\r' {
                line.pop();
            }
            assert(line@ =~= without_return(all[done]));
            r.push(line);
            assert(contents(r@) =~= before.push(without_return(all[done])));
        } else if line.len() > 0 {
            r.push(line);
            assert(contents(r@) =~= before.push(all[done]));
        }
    }
    r
}

/// The pieces joined into one text, with `between` between each two.
pub open spec fn joined(pieces: Seq<Seq<char>>, between: Seq<char>) -> Seq<char>
    decreases pieces.len(),
{
    if pieces.len() == 0 {
        Seq::empty()
    } else if pieces.len() == 1 {
        pieces[0]
    } else {
        joined(pieces.drop_last(), between) + between + pieces.last()
    }
}

/// Whether `needle` stands somewhere in `hay`.
pub open spec fn contains_text(hay: Seq<char>, needle: Seq<char>) -> bool {
    exists|at: int| stands_at(hay, needle, at)
}

/// Whether `needle` stands in `hay` from the index `at` on.
pub open spec fn stands_at(hay: Seq<char>, needle: Seq<char>, at: int) -> bool {
    0 <= at && at + needle.len() <= hay.len() && hay.subrange(at, at + needle.len()) == needle
}

/// Whether `needle` stands in `hay` from the index `at` on.
fn found_at(hay: &Vec<char>, needle: &Vec<char>, at: usize) -> (r: bool)
    requires
        at + needle.len() <= hay.len(),
    ensures
        r == stands_at(hay@, needle@, at as int),
{
    let mut i: usize = 0;
    while i < needle.len()
        invariant
            i <= needle.len(),
            at + needle.len() <= hay.len(),
            forall|k: int| 0 <= k < i ==> hay@[at + k] == needle@[k],
        decreases needle.len() - i,
    {
        if hay[at + i] != needle[i] {
            assert(hay@.subrange(at as int, at + needle.len())[i as int] != needle@[i as int]);
            return false;
        }
        i = i + 1;
    }
    assert(hay@.subrange(at as int, at + needle.len()) =~= needle@);
    true
}

/// Whether `needle` stands somewhere in `hay`.
pub fn contains(hay: &Vec<char>, needle: &Vec<char>) -> (r: bool)
    ensures
        r == contains_text(hay@, needle@),
{
    if needle.len() > hay.len() {
        return false;
    }
    let last: usize = hay.len() - needle.len();
    let mut at: usize = 0;
    while at < last
        invariant
            at <= last,
            last + needle.len() == hay.len(),
            forall|k: int| 0 <= k < at ==> !stands_at(hay@, needle@, k),
        decreases last - at,
    {
        if found_at(hay, needle, at) {
            return true;
        }
        at = at + 1;
    }
    found_at(hay, needle, last)
}

} // verus!
