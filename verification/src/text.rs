//! Character-level text operations, each with an exact model over `Seq<char>`.
//!
//! Strings are viewed as sequences of Unicode scalar values. The executable
//! functions work on `Vec<char>` internally and convert at their edges.

use vstd::prelude::*;

verus! {

/// `String::push` appends one character to the string.
pub assume_specification[ String::push ](s: &mut String, c: char)
    ensures
        final(s)@ == old(s)@.push(c),
;

/// The lowercase form of a text as `str::to_lowercase` computes it (the
/// Unicode `Lowercase` mapping, which can change the length of the text).
pub uninterp spec fn lowercase(text: Seq<char>) -> Seq<char>;

/// `str::to_lowercase` returns the lowercase form of the whole string; it
/// depends on the characters alone.
pub assume_specification[ str::to_lowercase ](s: &str) -> (out: String)
    ensures
        out@ == lowercase(s@),
;

/// The views of the elements of a sequence, in order.
pub open spec fn views<T: View>(items: Seq<T>) -> Seq<T::V> {
    items.map_values(|t: T| t@)
}

/// `views` distributes over `push`.
pub proof fn lemma_views_push<T: View>(items: Seq<T>, last: T)
    ensures
        views(items.push(last)) == views(items).push(last@),
{
    assert(views(items.push(last)) =~= views(items).push(last@));
}

/// The view of an optional string.
pub open spec fn opt_text(o: Option<String>) -> Option<Seq<char>> {
    match o {
        Some(s) => Some(s@),
        None => None,
    }
}

/// The text `a` followed by the text `b`.
pub fn concat(a: &str, b: &str) -> (out: String)
    ensures
        out@ == a@ + b@,
{
    let mut out = String::from_str(a);
    out.append(b);
    out
}

/// Whether two string slices hold the same characters.
pub fn str_eq(a: &str, b: &str) -> (same: bool)
    ensures
        same == (a@ == b@),
{
    a.to_owned() == b.to_owned()
}

/// The characters of `s`, in order.
pub fn chars_of(s: &str) -> (out: Vec<char>)
    ensures
        out@ == s@,
{
    let mut out: Vec<char> = Vec::new();
    for c in it: s.chars()
        invariant
            out@ == it.seq().take(it.index() as int),
            it.seq() == s@,
    {
        out.push(c);
    }
    out
}

/// The string whose characters are `v`, in order.
pub fn string_of(v: &Vec<char>) -> (out: String)
    ensures
        out@ == v@,
{
    let mut out = String::new();
    let mut i: usize = 0;
    while i < v.len()
        invariant
            i <= v.len(),
            out@ == v@.take(i as int),
        decreases v.len() - i,
    {
        out.push(v[i]);
        i += 1;
    }
    out
}

/// The characters `v[from..to]` as a new vector.
pub fn slice_of(v: &Vec<char>, from: usize, to: usize) -> (out: Vec<char>)
    requires
        from <= to <= v.len(),
    ensures
        out@ == v@.subrange(from as int, to as int),
{
    let mut out: Vec<char> = Vec::new();
    let mut i: usize = from;
    while i < to
        invariant
            from <= i <= to <= v.len(),
            out@ == v@.subrange(from as int, i as int),
        decreases to - i,
    {
        out.push(v[i]);
        i += 1;
    }
    out
}

/// The characters with the Unicode property `White_Space`.
pub open spec fn is_space(c: char) -> bool {
    let u = c as u32;
    ||| 0x09 <= u <= 0x0D
    ||| u == 0x20
    ||| u == 0x85
    ||| u == 0xA0
    ||| u == 0x1680
    ||| 0x2000 <= u <= 0x200A
    ||| u == 0x2028
    ||| u == 0x2029
    ||| u == 0x202F
    ||| u == 0x205F
    ||| u == 0x3000
}

/// Whether `c` is white space.
pub fn is_whitespace(c: char) -> (space: bool)
    ensures
        space == is_space(c),
{
    let u: u32 = c as u32;
    (0x09 <= u && u <= 0x0D) || u == 0x20 || u == 0x85 || u == 0xA0 || u == 0x1680 || (0x2000 <= u
        && u <= 0x200A) || u == 0x2028 || u == 0x2029 || u == 0x202F || u == 0x205F || u == 0x3000
}

/// `s` without its leading white space.
pub open spec fn trim_start(s: Seq<char>) -> Seq<char>
    decreases s.len(),
{
    if s.len() > 0 && is_space(s[0]) {
        trim_start(s.drop_first())
    } else {
        s
    }
}

/// `s` without its trailing white space.
pub open spec fn trim_end(s: Seq<char>) -> Seq<char>
    decreases s.len(),
{
    if s.len() > 0 && is_space(s.last()) {
        trim_end(s.drop_last())
    } else {
        s
    }
}

/// `s` without leading and trailing white space.
pub open spec fn trimmed(s: Seq<char>) -> Seq<char> {
    trim_end(trim_start(s))
}

/// A trimmed text neither starts nor ends with white space.
pub proof fn lemma_trimmed_edges(s: Seq<char>)
    ensures
        trimmed(s).len() > 0 ==> !is_space(trimmed(s)[0]) && !is_space(trimmed(s).last()),
        trimmed(s).len() <= s.len(),
{
    lemma_trim_start_shape(s);
    lemma_trim_end_shape(trim_start(s));
}

/// `trim_start` returns a suffix of its argument that does not start with
/// white space.
pub proof fn lemma_trim_start_shape(s: Seq<char>)
    ensures
        trim_start(s).len() <= s.len(),
        trim_start(s) == s.subrange(s.len() - trim_start(s).len(), s.len() as int),
        trim_start(s).len() > 0 ==> !is_space(trim_start(s)[0]),
    decreases s.len(),
{
    if s.len() > 0 && is_space(s[0]) {
        lemma_trim_start_shape(s.drop_first());
        let t = trim_start(s);
        assert(t =~= s.subrange(s.len() - t.len(), s.len() as int));
    } else {
        assert(s =~= s.subrange(0, s.len() as int));
    }
}

/// `trim_end` returns a prefix of its argument that does not end with white
/// space, and keeps the first character when anything is left.
pub proof fn lemma_trim_end_shape(s: Seq<char>)
    ensures
        trim_end(s).len() <= s.len(),
        trim_end(s) == s.subrange(0, trim_end(s).len() as int),
        trim_end(s).len() > 0 ==> !is_space(trim_end(s).last()) && trim_end(s)[0] == s[0],
    decreases s.len(),
{
    if s.len() > 0 && is_space(s.last()) {
        lemma_trim_end_shape(s.drop_last());
        let t = trim_end(s);
        assert(t =~= s.subrange(0, t.len() as int));
    } else {
        assert(s =~= s.subrange(0, s.len() as int));
    }
}

/// Removes leading and trailing white space.
pub fn trim(v: &Vec<char>) -> (out: Vec<char>)
    ensures
        out@ == trimmed(v@),
{
    let n = v.len();
    let mut start: usize = 0;
    proof {
        assert(v@.subrange(0, n as int) =~= v@);
    }
    while start < n && is_whitespace(v[start])
        invariant
            start <= n,
            n == v.len(),
            trim_start(v@) == trim_start(v@.subrange(start as int, n as int)),
        decreases n - start,
    {
        proof {
            let cur = v@.subrange(start as int, n as int);
            assert(cur.drop_first() =~= v@.subrange(start as int + 1, n as int));
        }
        start += 1;
    }
    let mut end: usize = n;
    while end > start && is_whitespace(v[end - 1])
        invariant
            start <= end <= n,
            n == v.len(),
            trimmed(v@) == trim_end(v@.subrange(start as int, end as int)),
        decreases end,
    {
        proof {
            let cur = v@.subrange(start as int, end as int);
            assert(cur.drop_last() =~= v@.subrange(start as int, end as int - 1));
        }
        end -= 1;
    }
    slice_of(v, start, end)
}

/// The pieces of `s` between occurrences of `sep`. A text without `sep` is
/// one piece; `n` separators give `n + 1` pieces, some of which may be empty.
pub open spec fn split_on(s: Seq<char>, sep: char) -> Seq<Seq<char>>
    decreases s.len(),
{
    if s.len() == 0 {
        seq![Seq::<char>::empty()]
    } else {
        let before = split_on(s.drop_last(), sep);
        if s.last() == sep {
            before.push(Seq::<char>::empty())
        } else {
            before.drop_last().push(before.last().push(s.last()))
        }
    }
}

/// Splitting always yields at least one piece.
pub proof fn lemma_split_on_nonempty(s: Seq<char>, sep: char)
    ensures
        split_on(s, sep).len() >= 1,
    decreases s.len(),
{
    if s.len() > 0 {
        lemma_split_on_nonempty(s.drop_last(), sep);
    }
}

/// Splits `v` at every occurrence of `sep`.
pub fn split(v: &Vec<char>, sep: char) -> (out: Vec<Vec<char>>)
    ensures
        views(out@) == split_on(v@, sep),
{
    let mut pieces: Vec<Vec<char>> = Vec::new();
    let mut current: Vec<char> = Vec::new();
    let mut i: usize = 0;
    while i < v.len()
        invariant
            i <= v.len(),
            split_on(v@.take(i as int), sep) == views(pieces@).push(current@),
        decreases v.len() - i,
    {
        let c = v[i];
        proof {
            let next = v@.take(i as int + 1);
            assert(next.drop_last() =~= v@.take(i as int));
            assert(next.last() == c);
            let before = views(pieces@).push(current@);
            assert(before.drop_last() =~= views(pieces@));
            assert(before.last() == current@);
        }
        if c == sep {
            proof {
                lemma_views_push(pieces@, current);
            }
            pieces.push(current);
            current = Vec::new();
        } else {
            current.push(c);
        }
        i += 1;
    }
    proof {
        assert(v@.take(v.len() as int) =~= v@);
        lemma_views_push(pieces@, current);
    }
    pieces.push(current);
    pieces
}

/// Whether `needle` stands in `hay` at offset `at`.
pub open spec fn occurs_at(hay: Seq<char>, needle: Seq<char>, at: int) -> bool {
    &&& 0 <= at
    &&& at + needle.len() <= hay.len()
    &&& hay.subrange(at, at + needle.len()) == needle
}

/// Whether `needle` occurs somewhere in `hay`. The empty text occurs in
/// every text.
pub open spec fn contains_text(hay: Seq<char>, needle: Seq<char>) -> bool {
    exists|at: int| occurs_at(hay, needle, at)
}

/// Whether `hay` begins with `prefix`.
pub open spec fn has_prefix(hay: Seq<char>, prefix: Seq<char>) -> bool {
    occurs_at(hay, prefix, 0)
}

/// Whether `hay` ends with `suffix`.
pub open spec fn has_suffix(hay: Seq<char>, suffix: Seq<char>) -> bool {
    occurs_at(hay, suffix, hay.len() - suffix.len())
}

/// Whether `needle` stands in `hay` at offset `at`.
pub fn matches_at(hay: &Vec<char>, needle: &Vec<char>, at: usize) -> (found: bool)
    ensures
        found == occurs_at(hay@, needle@, at as int),
{
    if needle.len() > hay.len() || at > hay.len() - needle.len() {
        return false;
    }
    let mut k: usize = 0;
    while k < needle.len()
        invariant
            k <= needle.len(),
            at + needle.len() <= hay.len(),
            forall|j: int| 0 <= j < k ==> hay@[at + j] == needle@[j],
        decreases needle.len() - k,
    {
        if hay[at + k] != needle[k] {
            proof {
                let window = hay@.subrange(at as int, at + needle.len());
                assert(window[k as int] == hay@[at + k]);
            }
            return false;
        }
        k += 1;
    }
    proof {
        assert(hay@.subrange(at as int, at + needle.len()) =~= needle@);
    }
    true
}

/// Whether `needle` occurs somewhere in `hay`.
pub fn contains(hay: &Vec<char>, needle: &Vec<char>) -> (found: bool)
    ensures
        found == contains_text(hay@, needle@),
{
    if needle.len() > hay.len() {
        return false;
    }
    if needle.len() == 0 {
        proof {
            assert(hay@.subrange(0, 0) =~= needle@);
            assert(occurs_at(hay@, needle@, 0));
        }
        return true;
    }
    let last = hay.len() - needle.len();
    let mut at: usize = 0;
    while at <= last
        invariant
            last == hay.len() - needle.len(),
            last < usize::MAX,
            at <= last + 1,
            forall|k: int| 0 <= k < at ==> !occurs_at(hay@, needle@, k),
        decreases last + 1 - at,
    {
        if matches_at(hay, needle, at) {
            return true;
        }
        at += 1;
    }
    false
}

/// Whether the string `hay` contains the string `needle`.
pub fn str_contains(hay: &str, needle: &str) -> (found: bool)
    ensures
        found == contains_text(hay@, needle@),
{
    let h = chars_of(hay);
    let n = chars_of(needle);
    contains(&h, &n)
}

/// Whether the string `hay` begins with `prefix`.
pub fn str_starts_with(hay: &str, prefix: &str) -> (found: bool)
    ensures
        found == has_prefix(hay@, prefix@),
{
    let h = chars_of(hay);
    let p = chars_of(prefix);
    matches_at(&h, &p, 0)
}

/// The decimal digit for `d`, which is below ten.
pub open spec fn digit_char(d: nat) -> char {
    ((48 + d) as u8) as char
}

/// The decimal numeral of `n`, without sign or leading zeros.
pub open spec fn decimal(n: nat) -> Seq<char>
    decreases n,
{
    if n < 10 {
        seq![digit_char(n)]
    } else {
        decimal(n / 10).push(digit_char(n % 10))
    }
}

/// Appends the decimal numeral of `n` to `out`.
pub fn push_decimal(out: &mut String, n: u64)
    ensures
        final(out)@ == old(out)@ + decimal(n as nat),
    decreases n,
{
    if n >= 10 {
        push_decimal(out, n / 10);
    }
    let d: u8 = (n % 10) as u8;
    out.push((48u8 + d) as char);
    proof {
        if n >= 10 {
            assert(final(out)@ =~= old(out)@ + decimal(n as nat));
        } else {
            assert(final(out)@ =~= old(out)@ + decimal(n as nat));
        }
    }
}

/// The parts joined with `sep` between neighbours.
pub open spec fn join_with(parts: Seq<Seq<char>>, sep: Seq<char>) -> Seq<char>
    decreases parts.len(),
{
    if parts.len() == 0 {
        Seq::<char>::empty()
    } else if parts.len() == 1 {
        parts[0]
    } else {
        join_with(parts.drop_last(), sep) + sep + parts.last()
    }
}

/// Joins the strings with `sep` between neighbours.
pub fn join(parts: &Vec<String>, sep: &str) -> (out: String)
    ensures
        out@ == join_with(views(parts@), sep@),
{
    let mut out = String::new();
    let mut i: usize = 0;
    while i < parts.len()
        invariant
            i <= parts.len(),
            out@ == join_with(views(parts@.take(i as int)), sep@),
        decreases parts.len() - i,
    {
        proof {
            let next = views(parts@.take(i as int + 1));
            assert(next.drop_last() =~= views(parts@.take(i as int)));
            assert(next.last() == parts@[i as int]@);
            if i == 0 {
                assert(Seq::<char>::empty() + parts@[0]@ =~= parts@[0]@);
            }
        }
        if i > 0 {
            out.append(sep);
        }
        out.append(parts[i].as_str());
        i += 1;
    }
    proof {
        assert(parts@.take(parts.len() as int) =~= parts@);
    }
    out
}

/// A list of distinct texts after `item` is noted in it: `item` is appended
/// unless the list holds it.
pub open spec fn noted(items: Seq<Seq<char>>, item: Seq<char>) -> Seq<Seq<char>> {
    if items.contains(item) {
        items
    } else {
        items.push(item)
    }
}

/// The texts of a list, each once, in order of first occurrence.
pub open spec fn distinct(items: Seq<Seq<char>>) -> Seq<Seq<char>>
    decreases items.len(),
{
    if items.len() == 0 {
        Seq::<Seq<char>>::empty()
    } else {
        noted(distinct(items.drop_last()), items.last())
    }
}

/// How often `key` occurs in a list.
pub open spec fn occurrences(items: Seq<Seq<char>>, key: Seq<char>) -> nat
    decreases items.len(),
{
    if items.len() == 0 {
        0
    } else {
        occurrences(items.drop_last(), key) + if items.last() == key {
            1nat
        } else {
            0nat
        }
    }
}

/// Noting a text keeps a list free of duplicates, and keeps what it held.
pub proof fn lemma_noted_distinct(items: Seq<Seq<char>>, item: Seq<char>)
    requires
        items.no_duplicates(),
    ensures
        noted(items, item).no_duplicates(),
        noted(items, item).contains(item),
        forall|p: Seq<char>| items.contains(p) ==> noted(items, item).contains(p),
        forall|p: Seq<char>| noted(items, item).contains(p) ==> p == item || items.contains(p),
{
    let out = noted(items, item);
    if items.contains(item) {
    } else {
        assert forall|i: int, j: int| 0 <= i < out.len() && 0 <= j < out.len() && i != j implies out[i]
            != out[j] by {
            if i == items.len() {
                assert(items.contains(out[j]));
            } else if j == items.len() {
                assert(items.contains(out[i]));
            }
        }
        assert(out[items.len() as int] == item);
        assert forall|p: Seq<char>| items.contains(p) implies out.contains(p) by {
            let k = choose|k: int| 0 <= k < items.len() && items[k] == p;
            assert(out[k] == p);
        }
        assert forall|p: Seq<char>| out.contains(p) implies p == item || items.contains(p) by {
            let k = choose|k: int| 0 <= k < out.len() && out[k] == p;
            if k < items.len() {
                assert(items[k] == p);
            }
        }
    }
}

/// `distinct` holds every text of the list exactly once.
pub proof fn lemma_distinct(items: Seq<Seq<char>>)
    ensures
        distinct(items).no_duplicates(),
        distinct(items).len() <= items.len(),
        forall|p: Seq<char>| items.contains(p) <==> distinct(items).contains(p),
    decreases items.len(),
{
    if items.len() > 0 {
        let front = items.drop_last();
        lemma_distinct(front);
        lemma_noted_distinct(distinct(front), items.last());
        assert forall|p: Seq<char>| items.contains(p) implies distinct(items).contains(p) by {
            let k = choose|k: int| 0 <= k < items.len() && items[k] == p;
            if k < front.len() {
                assert(front[k] == p);
                assert(front.contains(p));
            }
        }
        assert forall|p: Seq<char>| distinct(items).contains(p) implies items.contains(p) by {
            if p == items.last() {
                assert(items[items.len() - 1] == p);
            } else {
                assert(front.contains(p));
                let k = choose|k: int| 0 <= k < front.len() && front[k] == p;
                assert(items[k] == p);
            }
        }
    }
}

/// No text occurs more often than the list is long, and a text of the list
/// occurs at least once.
pub proof fn lemma_occurrences(items: Seq<Seq<char>>, key: Seq<char>)
    ensures
        occurrences(items, key) <= items.len(),
        items.contains(key) <==> occurrences(items, key) > 0,
    decreases items.len(),
{
    if items.len() > 0 {
        let front = items.drop_last();
        lemma_occurrences(front, key);
        if items.last() == key {
            assert(items[items.len() - 1] == key);
        } else if front.contains(key) {
            let k = choose|k: int| 0 <= k < front.len() && front[k] == key;
            assert(items[k] == key);
        } else if items.contains(key) {
            let k = choose|k: int| 0 <= k < items.len() && items[k] == key;
            assert(front[k] == key);
        }
    }
}

/// Appends a copy of `s` to `list`.
pub fn push_text(list: &mut Vec<String>, s: &str)
    ensures
        views(final(list)@) == views(old(list)@).push(s@),
{
    let owned = s.to_owned();
    proof {
        lemma_views_push(list@, owned);
    }
    list.push(owned);
}

/// Whether `list` holds a string equal to `name`.
pub fn list_contains(list: &Vec<String>, name: &str) -> (found: bool)
    ensures
        found == views(list@).contains(name@),
{
    let mut i: usize = 0;
    while i < list.len()
        invariant
            i <= list.len(),
            forall|k: int| 0 <= k < i ==> views(list@)[k] != name@,
        decreases list.len() - i,
    {
        if str_eq(list[i].as_str(), name) {
            assert(views(list@)[i as int] == name@);
            return true;
        }
        i += 1;
    }
    false
}

/// Appends a copy of `item` to `list` unless the list holds it.
pub fn note(list: &mut Vec<String>, item: &str)
    ensures
        views(final(list)@) == noted(views(old(list)@), item@),
{
    if !list_contains(list, item) {
        push_text(list, item);
    }
}

/// The strings of a list, each once, in order of first occurrence.
pub fn distinct_texts(list: &Vec<String>) -> (out: Vec<String>)
    ensures
        views(out@) == distinct(views(list@)),
{
    let mut out: Vec<String> = Vec::new();
    let mut i: usize = 0;
    assert(views(out@) =~= Seq::<Seq<char>>::empty());
    assert(views(list@).take(0) =~= Seq::<Seq<char>>::empty());
    while i < list.len()
        invariant
            i <= list.len(),
            views(out@) == distinct(views(list@).take(i as int)),
        decreases list.len() - i,
    {
        proof {
            let next = views(list@).take(i as int + 1);
            assert(next.drop_last() =~= views(list@).take(i as int));
            assert(next.last() == list@[i as int]@);
        }
        note(&mut out, list[i].as_str());
        i += 1;
    }
    assert(views(list@).take(i as int) =~= views(list@));
    out
}

/// How often a string equal to `key` occurs in `list`.
pub fn count_text(list: &Vec<String>, key: &str) -> (count: usize)
    ensures
        count == occurrences(views(list@), key@),
{
    let mut count: usize = 0;
    let mut i: usize = 0;
    assert(views(list@).take(0) =~= Seq::<Seq<char>>::empty());
    while i < list.len()
        invariant
            i <= list.len(),
            count == occurrences(views(list@).take(i as int), key@),
            count <= i,
        decreases list.len() - i,
    {
        proof {
            let next = views(list@).take(i as int + 1);
            assert(next.drop_last() =~= views(list@).take(i as int));
            assert(next.last() == list@[i as int]@);
        }
        if str_eq(list[i].as_str(), key) {
            count += 1;
        }
        i += 1;
    }
    assert(views(list@).take(i as int) =~= views(list@));
    count
}


/// A line without the carriage return at its end, if it has one.
pub open spec fn without_cr(line: Seq<char>) -> Seq<char> {
    if line.len() > 0 && line.last() == '\r' {
        line.drop_last()
    } else {
        line
    }
}

/// The lines of a text. A line ends with a line feed, or with a carriage
/// return and a line feed; neither belongs to the line. What follows the
/// last line feed is a line of its own unless it is empty.
pub open spec fn text_lines(s: Seq<char>) -> Seq<Seq<char>> {
    let parts = split_on(s, '\n');
    let ended = parts.drop_last().map_values(|part: Seq<char>| without_cr(part));
    if parts.last().len() > 0 {
        ended.push(parts.last())
    } else {
        ended
    }
}

/// The lines of a text.
pub fn lines(text: &str) -> (out: Vec<Vec<char>>)
    ensures
        views(out@) == text_lines(text@),
{
    let chars = chars_of(text);
    let mut parts = split(&chars, '\n');
    proof {
        lemma_split_on_nonempty(chars@, '\n');
    }
    let ghost model = views(parts@);
    let last = parts.pop();
    let ghost ended = model.drop_last().map_values(|part: Seq<char>| without_cr(part));
    assert(views(parts@) =~= model.drop_last());
    let mut out: Vec<Vec<char>> = Vec::new();
    let mut i: usize = 0;
    assert(views(out@) =~= ended.take(0));
    while i < parts.len()
        invariant
            i <= parts.len(),
            views(parts@) == model.drop_last(),
            ended == model.drop_last().map_values(|part: Seq<char>| without_cr(part)),
            views(out@) == ended.take(i as int),
        decreases parts.len() - i,
    {
        let part = &parts[i];
        let n = part.len();
        let line = if n > 0 && part[n - 1] == '\r' {
            slice_of(part, 0, n - 1)
        } else {
            slice_of(part, 0, n)
        };
        proof {
            assert(views(parts@)[i as int] == part@);
            assert(part@.subrange(0, n as int) =~= part@);
            assert(line@ == without_cr(part@));
            lemma_views_push(out@, line);
            assert(ended.take(i as int + 1) =~= ended.take(i as int).push(ended[i as int]));
        }
        out.push(line);
        i += 1;
    }
    assert(ended.take(i as int) =~= ended);
    match last {
        Some(tail) => {
            assert(tail@ == model.last());
            if tail.len() > 0 {
                proof {
                    lemma_views_push(out@, tail);
                }
                out.push(tail);
            }
        },
        None => {},
    }
    out
}

/// Whether text `a` stands before text `b` in the order of dictionaries,
/// with characters in the order of their code points.
pub open spec fn text_before(a: Seq<char>, b: Seq<char>) -> bool
    decreases a.len(),
{
    if b.len() == 0 {
        false
    } else if a.len() == 0 {
        true
    } else if a[0] != b[0] {
        (a[0] as u32) < (b[0] as u32)
    } else {
        text_before(a.drop_first(), b.drop_first())
    }
}

/// Whether `a` stands before `b` in the order of dictionaries.
pub fn comes_before(a: &Vec<char>, b: &Vec<char>) -> (before: bool)
    ensures
        before == text_before(a@, b@),
{
    let mut i: usize = 0;
    assert(a@.skip(0) =~= a@);
    assert(b@.skip(0) =~= b@);
    while i < a.len() && i < b.len() && a[i] == b[i]
        invariant
            i <= a.len(),
            i <= b.len(),
            text_before(a@, b@) == text_before(a@.skip(i as int), b@.skip(i as int)),
        decreases a.len() - i,
    {
        proof {
            assert(a@.skip(i as int).drop_first() =~= a@.skip(i as int + 1));
            assert(b@.skip(i as int).drop_first() =~= b@.skip(i as int + 1));
        }
        i += 1;
    }
    if i >= b.len() {
        false
    } else if i >= a.len() {
        true
    } else {
        (a[i] as u32) < (b[i] as u32)
    }
}

/// A sorted list of texts with one more put in: behind every text that
/// does not stand behind it.
pub open spec fn with_text(sorted: Seq<Seq<char>>, item: Seq<char>) -> Seq<Seq<char>>
    decreases sorted.len(),
{
    if sorted.len() == 0 {
        seq![item]
    } else if text_before(item, sorted.last()) {
        with_text(sorted.drop_last(), item).push(sorted.last())
    } else {
        sorted.push(item)
    }
}

/// The texts of a list in the order of dictionaries.
pub open spec fn sorted_texts(items: Seq<Seq<char>>) -> Seq<Seq<char>>
    decreases items.len(),
{
    if items.len() == 0 {
        Seq::<Seq<char>>::empty()
    } else {
        with_text(sorted_texts(items.drop_last()), items.last())
    }
}

/// Putting a text in is inserting it at the place that a scan from the end
/// finds.
pub proof fn lemma_with_text_at(sorted: Seq<Seq<char>>, item: Seq<char>, place: int)
    requires
        0 <= place <= sorted.len(),
        forall|j: int| place <= j < sorted.len() ==> text_before(item, #[trigger] sorted[j]),
        place > 0 ==> !text_before(item, sorted[place - 1]),
    ensures
        with_text(sorted, item) == sorted.insert(place, item),
    decreases sorted.len(),
{
    if sorted.len() == 0 {
        assert(sorted.insert(place, item) =~= seq![item]);
    } else if place == sorted.len() {
        assert(sorted.insert(place, item) =~= sorted.push(item));
    } else {
        let front = sorted.drop_last();
        assert(text_before(item, sorted[sorted.len() - 1]));
        assert forall|j: int| place <= j < front.len() implies text_before(
            item,
            #[trigger] front[j],
        ) by {
            assert(front[j] == sorted[j]);
        }
        if place > 0 {
            assert(front[place - 1] == sorted[place - 1]);
        }
        lemma_with_text_at(front, item, place);
        assert(front.insert(place, item).push(sorted.last()) =~= sorted.insert(place, item));
    }
}

/// Sorts texts in the order of dictionaries.
pub fn sort_texts(items: Vec<String>) -> (sorted: Vec<String>)
    ensures
        views(sorted@) == sorted_texts(views(items@)),
{
    let mut sorted: Vec<String> = Vec::new();
    let mut keys: Vec<Vec<char>> = Vec::new();
    let mut rest = items;
    let ghost model = views(items@);
    assert(rest@ =~= items@.skip(0));
    assert(model.take(0) =~= Seq::<Seq<char>>::empty());
    assert(views(sorted@) =~= sorted_texts(model.take(0)));
    assert(views(keys@) =~= views(sorted@));
    while rest.len() > 0
        invariant
            rest@.len() <= items@.len(),
            model == views(items@),
            rest@ == items@.skip(items@.len() - rest@.len()),
            views(sorted@) == sorted_texts(model.take(items@.len() - rest@.len())),
            views(keys@) == views(sorted@),
        decreases rest.len(),
    {
        let ghost done = items@.len() - rest@.len();
        let item = rest.remove(0);
        proof {
            assert(item == items@[done]);
            assert(rest@ =~= items@.skip(done + 1));
            assert(model.take(done + 1).drop_last() =~= model.take(done));
            assert(model.take(done + 1).last() == item@);
        }
        let key = chars_of(item.as_str());
        let mut place: usize = keys.len();
        while place > 0 && comes_before(&key, &keys[place - 1])
            invariant
                place <= keys@.len(),
                key@ == item@,
                forall|j: int|
                    place <= j < keys@.len() ==> text_before(item@, #[trigger] views(keys@)[j]),
            decreases place,
        {
            place -= 1;
        }
        proof {
            assert(place > 0 ==> views(keys@)[place - 1] == keys@[place - 1]@);
            lemma_with_text_at(views(sorted@), item@, place as int);
        }
        let ghost before = views(sorted@);
        sorted.insert(place, item);
        keys.insert(place, key);
        proof {
            assert(views(sorted@) =~= before.insert(place as int, item@));
            assert(views(keys@) =~= before.insert(place as int, item@));
        }
    }
    assert(model.take(items@.len() as int) =~= model);
    sorted
}

} // verus!
