//! Text as sequences of characters: the model every contract in this crate
//! speaks in, and the verified routines that compute on it. Three things
//! are taken from std on trust and marked so: the equality of string slices,
//! what counts as white space, and the parsing of a byte-sized number.

use vstd::prelude::*;

verus! {

/// Trusted: `str`'s `==` holds exactly when the two slices hold the same
/// characters.
pub assume_specification[ <str as PartialEq>::eq ](a: &str, b: &str) -> (r: bool)
    ensures
        r == (a@ == b@),
;

/// Whether `c` is white space as `char::is_whitespace` judges it. The set is
/// Unicode's and is not spelled out here.
pub uninterp spec fn is_white_space(c: char) -> bool;

/// Trusted: `char::is_whitespace` is a function of the character alone.
pub assume_specification[ char::is_whitespace ](c: char) -> (b: bool)
    ensures
        b == is_white_space(c),
;

/// The characters of each string of a list.
pub open spec fn views(items: Seq<&str>) -> Seq<Seq<char>> {
    items.map_values(|s: &str| s@)
}

/// The characters of each owned string of a list.
pub open spec fn owned_views(items: Seq<String>) -> Seq<Seq<char>> {
    items.map_values(|s: String| s@)
}

/// The characters of a string, for indexed access.
pub fn chars_of(s: &str) -> (v: Vec<char>)
    ensures
        v@ == s@,
{
    let mut v: Vec<char> = Vec::new();
    for c in it: s.chars()
        invariant
            v@ == s@.take(it.index() as int),
            it.seq() == s@,
    {
        v.push(c);
    }
    v
}

/// `a` followed by `b`.
pub fn join2(a: &str, b: &str) -> (s: String)
    ensures
        s@ == a@ + b@,
{
    let mut s = String::from_str(a);
    s.append(b);
    s
}

/// `a`, `b` and `c` in a row.
pub fn join3(a: &str, b: &str, c: &str) -> (s: String)
    ensures
        s@ == a@ + b@ + c@,
{
    let mut s = String::from_str(a);
    s.append(b);
    s.append(c);
    s
}

/// The pieces of `s` that its occurrences of `sep` part: reading from the left,
/// a separator closes the piece at hand and opens an empty one, and any other
/// character joins the piece at hand. There is always one piece more than
/// there are separators, so the empty text has the one empty piece.
pub open spec fn split(s: Seq<char>, sep: char) -> Seq<Seq<char>>
    decreases s.len(),
{
    if s.len() == 0 {
        seq![Seq::<char>::empty()]
    } else {
        let before = split(s.drop_last(), sep);
        if s.last() == sep {
            before.push(Seq::<char>::empty())
        } else {
            before.drop_last().push(before.last().push(s.last()))
        }
    }
}

/// The pieces written out in a row, with `sep` between neighbours.
pub open spec fn joined(pieces: Seq<Seq<char>>, sep: char) -> Seq<char>
    decreases pieces.len(),
{
    if pieces.len() == 0 {
        Seq::<char>::empty()
    } else if pieces.len() == 1 {
        pieces[0]
    } else {
        joined(pieces.drop_last(), sep).push(sep) + pieces.last()
    }
}

/// Splitting loses nothing: there is at least one piece, no piece holds the
/// separator, and the pieces joined by the separator are the text again.
pub proof fn lemma_split_joined(s: Seq<char>, sep: char)
    ensures
        split(s, sep).len() >= 1,
        forall|i: int, j: int|
            0 <= i < split(s, sep).len() && 0 <= j < split(s, sep)[i].len() ==> #[trigger] split(
                s,
                sep,
            )[i][j] != sep,
        joined(split(s, sep), sep) == s,
    decreases s.len(),
{
    if s.len() == 0 {
        assert(joined(split(s, sep), sep) =~= s);
    } else {
        let rest = s.drop_last();
        let before = split(rest, sep);
        lemma_split_joined(rest, sep);
        let after = split(s, sep);
        if s.last() == sep {
            assert(after.drop_last() =~= before);
            assert(joined(after, sep) =~= s);
        } else {
            let grown = before.last().push(s.last());
            assert(after.last() == grown);
            if before.len() == 1 {
                assert(after.len() == 1);
                assert(joined(before, sep) == before[0]);
                assert(grown =~= s);
            } else {
                assert(after.drop_last() =~= before.drop_last());
                let front = joined(before.drop_last(), sep).push(sep);
                assert(joined(before, sep) == front + before.last());
                assert(joined(after, sep) == front + grown);
                assert(front + grown =~= (front + before.last()).push(s.last()));
                assert(rest.push(s.last()) =~= s);
            }
        }
    }
}

/// The pieces of `s` as slices of it.
pub fn split_on<'a>(s: &'a str, sep: char) -> (pieces: Vec<&'a str>)
    ensures
        views(pieces@) == split(s@, sep),
{
    let chars = chars_of(s);
    let mut pieces: Vec<&'a str> = Vec::new();
    let mut start: usize = 0;
    let mut i: usize = 0;
    proof {
        assert(s@.take(0) =~= Seq::<char>::empty());
        assert(views(pieces@) =~= split(s@.take(0), sep).drop_last());
        assert(s@.subrange(0, 0) =~= Seq::<char>::empty());
    }
    while i < chars.len()
        invariant
            chars@ == s@,
            start <= i <= chars.len(),
            split(s@.take(i as int), sep).len() >= 1,
            views(pieces@) == split(s@.take(i as int), sep).drop_last(),
            split(s@.take(i as int), sep).last() == s@.subrange(start as int, i as int),
        decreases chars.len() - i,
    {
        let ghost before = split(s@.take(i as int), sep);
        proof {
            assert(s@.take(i as int + 1).drop_last() =~= s@.take(i as int));
            lemma_split_joined(s@.take(i as int + 1), sep);
        }
        if chars[i] == sep {
            let piece = s.substring_char(start, i);
            let ghost earlier = pieces@;
            pieces.push(piece);
            start = i + 1;
            proof {
                assert(views(pieces@) =~= views(earlier).push(piece@));
                assert(before.drop_last().push(before.last()) =~= before);
                assert(split(s@.take(i as int + 1), sep).drop_last() =~= before);
                assert(s@.subrange(i as int + 1, i as int + 1) =~= Seq::<char>::empty());
            }
        } else {
            proof {
                assert(split(s@.take(i as int + 1), sep).drop_last() =~= before.drop_last());
                assert(s@.subrange(start as int, i as int).push(s@[i as int]) =~= s@.subrange(
                    start as int,
                    i as int + 1,
                ));
            }
        }
        i += 1;
    }
    let piece = s.substring_char(start, i);
    let ghost earlier = pieces@;
    pieces.push(piece);
    proof {
        let all = split(s@.take(i as int), sep);
        assert(s@.take(i as int) =~= s@);
        assert(views(pieces@) =~= views(earlier).push(piece@));
        assert(all.drop_last().push(all.last()) =~= all);
    }
    pieces
}

/// `s` without the white space it begins with.
pub open spec fn trim_start(s: Seq<char>) -> Seq<char>
    decreases s.len(),
{
    if s.len() > 0 && is_white_space(s[0]) {
        trim_start(s.drop_first())
    } else {
        s
    }
}

/// `s` without the white space it ends with.
pub open spec fn trim_end(s: Seq<char>) -> Seq<char>
    decreases s.len(),
{
    if s.len() > 0 && is_white_space(s.last()) {
        trim_end(s.drop_last())
    } else {
        s
    }
}

/// `s` without the white space at either end.
pub open spec fn trim(s: Seq<char>) -> Seq<char> {
    trim_end(trim_start(s))
}

/// Skipping a run of white space at the front of `s` is what `trim_start` does.
proof fn lemma_trim_start_skips(s: Seq<char>, k: int)
    requires
        0 <= k <= s.len(),
        forall|i: int| 0 <= i < k ==> is_white_space(#[trigger] s[i]),
        k == s.len() || !is_white_space(s[k]),
    ensures
        trim_start(s) == s.skip(k),
    decreases k,
{
    if k == 0 {
        assert(s.skip(0) =~= s);
    } else {
        let rest = s.drop_first();
        assert forall|i: int| 0 <= i < k - 1 implies is_white_space(#[trigger] rest[i]) by {
            assert(rest[i] == s[i + 1]);
        }
        lemma_trim_start_skips(rest, k - 1);
        assert(rest.skip(k - 1) =~= s.skip(k));
    }
}

/// Dropping a run of white space at the back of `s` is what `trim_end` does.
proof fn lemma_trim_end_takes(s: Seq<char>, k: int)
    requires
        0 <= k <= s.len(),
        forall|i: int| k <= i < s.len() ==> is_white_space(#[trigger] s[i]),
        k == 0 || !is_white_space(s[k - 1]),
    ensures
        trim_end(s) == s.take(k),
    decreases s.len() - k,
{
    if k == s.len() {
        assert(s.take(k) =~= s);
    } else {
        let rest = s.drop_last();
        lemma_trim_end_takes(rest, k);
        assert(rest.take(k) =~= s.take(k));
    }
}

/// Whether `span` is what is left of a text once the blanks at both of its
/// ends are dropped, where `blank` says of each place whether it holds a
/// blank: all before the span and all behind it are blanks, and the span
/// neither begins nor ends with one. A text of blanks alone leaves the empty
/// span at its end.
pub open spec fn is_kept_span(blank: Seq<bool>, span: (int, int)) -> bool {
    &&& 0 <= span.0 <= span.1 <= blank.len()
    &&& forall|i: int| 0 <= i < span.0 ==> #[trigger] blank[i]
    &&& forall|i: int| span.1 <= i < blank.len() ==> #[trigger] blank[i]
    &&& span.0 == blank.len() || !blank[span.0]
    &&& span.1 == span.0 || !blank[span.1 - 1]
}

/// Finds what is left of a text once the blanks at both of its ends are
/// dropped, from what is known of each place.
pub fn kept_span(blank: &Vec<bool>) -> (span: (usize, usize))
    ensures
        is_kept_span(blank@, (span.0 as int, span.1 as int)),
{
    let mut from: usize = 0;
    while from < blank.len() && blank[from]
        invariant
            from <= blank.len(),
            forall|i: int| 0 <= i < from ==> #[trigger] blank@[i],
        decreases blank.len() - from,
    {
        from += 1;
    }
    let mut to: usize = blank.len();
    while to > from && blank[to - 1]
        invariant
            from <= to <= blank.len(),
            forall|i: int| to <= i < blank.len() ==> #[trigger] blank@[i],
        decreases to,
    {
        to -= 1;
    }
    (from, to)
}

/// `s` without the white space at either end, as a slice of it.
pub fn trimmed<'a>(s: &'a str) -> (t: &'a str)
    ensures
        t@ == trim(s@),
{
    let chars = chars_of(s);
    let mut blank: Vec<bool> = Vec::new();
    let mut i: usize = 0;
    while i < chars.len()
        invariant
            i <= chars.len(),
            blank@.len() == i,
            forall|k: int| 0 <= k < i ==> #[trigger] blank@[k] == is_white_space(chars@[k]),
        decreases chars.len() - i,
    {
        blank.push(chars[i].is_whitespace());
        i += 1;
    }
    let (from, to) = kept_span(&blank);
    proof {
        let kept = s@.skip(from as int);
        assert forall|k: int| 0 <= k < from implies is_white_space(#[trigger] s@[k]) by {
            assert(blank@[k]);
        }
        lemma_trim_start_skips(s@, from as int);
        assert forall|k: int| to - from <= k < kept.len() implies is_white_space(
            #[trigger] kept[k],
        ) by {
            assert(blank@[k + from]);
        }
        if to > from {
            assert(!blank@[to - 1]);
            assert(kept[to - from - 1] == s@[to - 1]);
        }
        lemma_trim_end_takes(kept, to - from);
        assert(kept.take(to - from) =~= s@.subrange(from as int, to as int));
    }
    s.substring_char(from, to)
}

/// The words of a line: its pieces between single spaces, each trimmed.
pub open spec fn words(line: Seq<char>) -> Seq<Seq<char>> {
    split(line, ' ').map_values(|piece: Seq<char>| trim(piece))
}

/// The words of `line`, as slices of it.
pub fn words_of<'a>(line: &'a str) -> (found: Vec<&'a str>)
    ensures
        views(found@) == words(line@),
{
    let pieces = split_on(line, ' ');
    let mut found: Vec<&'a str> = Vec::new();
    let mut i: usize = 0;
    while i < pieces.len()
        invariant
            i <= pieces.len(),
            views(pieces@) == split(line@, ' '),
            views(found@) == words(line@).take(i as int),
        decreases pieces.len() - i,
    {
        let word = trimmed(pieces[i]);
        let ghost earlier = found@;
        found.push(word);
        proof {
            assert(views(pieces@)[i as int] == pieces@[i as int]@);
            assert(views(found@) =~= views(earlier).push(word@));
            assert(words(line@).take(i as int + 1) =~= words(line@).take(i as int).push(
                word@,
            ));
        }
        i += 1;
    }
    proof {
        assert(views(pieces@).len() == pieces@.len());
        assert(words(line@).take(i as int) =~= words(line@));
    }
    found
}

/// The decimal digit that stands for `d`, for `d` below ten.
pub open spec fn digit(d: nat) -> char {
    if d == 0 {
        '0'
    } else if d == 1 {
        '1'
    } else if d == 2 {
        '2'
    } else if d == 3 {
        '3'
    } else if d == 4 {
        '4'
    } else if d == 5 {
        '5'
    } else if d == 6 {
        '6'
    } else if d == 7 {
        '7'
    } else if d == 8 {
        '8'
    } else {
        '9'
    }
}

/// `n` in decimal, without leading zeros.
pub open spec fn decimal(n: nat) -> Seq<char>
    decreases n,
{
    if n < 10 {
        seq![digit(n)]
    } else {
        decimal(n / 10).push(digit(n % 10))
    }
}

/// `n` in decimal, with a minus sign where it is negative.
pub open spec fn signed_decimal(n: int) -> Seq<char> {
    if n < 0 {
        seq!['-'] + decimal((-n) as nat)
    } else {
        decimal(n as nat)
    }
}

/// The one-character text of a digit.
fn digit_text(d: u64) -> (t: &'static str)
    requires
        d < 10,
    ensures
        t@ == seq![digit(d as nat)],
{
    proof {
        reveal_strlit("0");
        reveal_strlit("1");
        reveal_strlit("2");
        reveal_strlit("3");
        reveal_strlit("4");
        reveal_strlit("5");
        reveal_strlit("6");
        reveal_strlit("7");
        reveal_strlit("8");
        reveal_strlit("9");
    }
    let t = if d == 0 {
        "0"
    } else if d == 1 {
        "1"
    } else if d == 2 {
        "2"
    } else if d == 3 {
        "3"
    } else if d == 4 {
        "4"
    } else if d == 5 {
        "5"
    } else if d == 6 {
        "6"
    } else if d == 7 {
        "7"
    } else if d == 8 {
        "8"
    } else {
        "9"
    };
    assert(t@ =~= seq![digit(d as nat)]);
    t
}

/// Writes `n` in decimal.
pub fn render_decimal(n: u64) -> (s: String)
    ensures
        s@ == decimal(n as nat),
    decreases n,
{
    if n < 10 {
        String::from_str(digit_text(n))
    } else {
        let mut s = render_decimal(n / 10);
        s.append(digit_text(n % 10));
        assert(s@ =~= decimal(n as nat));
        s
    }
}

/// Writes `n` in decimal, with a minus sign where it is negative.
pub fn render_signed(n: i32) -> (s: String)
    ensures
        s@ == signed_decimal(n as int),
{
    let wide: i64 = n as i64;
    if wide < 0 {
        let digits = render_decimal((-wide) as u64);
        proof {
            reveal_strlit("-");
            assert("-"@ =~= seq!['-']);
        }
        join2("-", digits.as_str())
    } else {
        render_decimal(wide as u64)
    }
}

/// What `str::parse::<u8>` makes of a text: the number, or the words of its refusal.
pub uninterp spec fn parsed_u8(text: Seq<char>) -> Result<u8, Seq<char>>;

/// The characters of an optional owned string.
pub open spec fn owned_option_view(o: Option<String>) -> Option<Seq<char>> {
    match o {
        Some(s) => Some(s@),
        None => None,
    }
}

/// The characters of an optional string slice.
pub open spec fn option_view(o: Option<&str>) -> Option<Seq<char>> {
    match o {
        Some(s) => Some(s@),
        None => None,
    }
}

/// Trusted: calls `str::parse::<u8>`, whose result depends on the text alone;
/// a refusal is handed on as the words std renders it with.
#[verifier::external_body]
pub(crate) fn parse_u8(text: &str) -> (r: Result<u8, String>)
    ensures
        match r {
            Ok(v) => parsed_u8(text@) == Ok::<u8, Seq<char>>(v),
            Err(e) => parsed_u8(text@) == Err::<u8, Seq<char>>(e@),
        },
{
    match text.parse::<u8>() {
        Ok(v) => Ok(v),
        Err(e) => Err(e.to_string()),
    }
}

} // verus!
