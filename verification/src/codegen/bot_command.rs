use vstd::prelude::*;
use crate::patterns::{
    regex_compiles, regex_find_all, regex_find_texts, regex_is_match, regex_match, regex_valid,
};
use crate::text::{concat, is_white_space, is_whitespace_char, push_str, str_eq, string_from_chars};

verus! {

/// One piece of a command item written without spaces: a fixed word, a
/// parameter, or a parameter restricted to a list of words.
#[derive(Debug)]
pub enum BotCommandRawTuple {
    Command(String),
    Param(String),
    Enum(String, Vec<String>),
}

/// One item of a bot command, as split at white space.
#[derive(Debug)]
pub enum BotCommandRaw {
    Command(String),
    Param(String),
    Enum(String, Vec<String>),
    Multiple(Vec<BotCommandRawTuple>),
}

/// The mathematical value of a [`BotCommandRawTuple`].
pub enum PieceView {
    Command(Seq<char>),
    Param(Seq<char>),
    Enum(Seq<char>, Seq<Seq<char>>),
}

/// The mathematical value of a [`BotCommandRaw`].
pub enum RawView {
    Command(Seq<char>),
    Param(Seq<char>),
    Enum(Seq<char>, Seq<Seq<char>>),
    Multiple(Seq<PieceView>),
}

/// The texts of the strings, in order.
pub open spec fn strings_view(v: Seq<String>) -> Seq<Seq<char>> {
    v.map_values(|s: String| s@)
}

impl View for BotCommandRawTuple {
    type V = PieceView;

    open spec fn view(&self) -> PieceView {
        match self {
            BotCommandRawTuple::Command(s) => PieceView::Command(s@),
            BotCommandRawTuple::Param(s) => PieceView::Param(s@),
            BotCommandRawTuple::Enum(s, v) => PieceView::Enum(s@, strings_view(v@)),
        }
    }
}

impl View for BotCommandRaw {
    type V = RawView;

    open spec fn view(&self) -> RawView {
        match self {
            BotCommandRaw::Command(s) => RawView::Command(s@),
            BotCommandRaw::Param(s) => RawView::Param(s@),
            BotCommandRaw::Enum(s, v) => RawView::Enum(s@, strings_view(v@)),
            BotCommandRaw::Multiple(v) => RawView::Multiple(v@.map_values(|t: BotCommandRawTuple| t@)),
        }
    }
}

/// The pattern of an item that is a fixed word.
pub open spec fn command_pattern() -> Seq<char> {
    "^[A-Za-z0-9_/\\p{Han}\\p{Hiragana}\\p{Katakana}]+$"@
}

/// The pattern of an item that is a parameter token: `{name}`, or
/// `{name:|word|word...}`.
pub open spec fn params_pattern() -> Seq<char> {
    "^\\{[A-Za-z_]([A-Za-z0-9_]+)?(:(\\|[A-Za-z0-9_/\\p{Han}\\p{Hiragana}\\p{Katakana}]+)+)?\\}$"@
}

/// The pattern of an item made of fixed words and parameter tokens written
/// together.
pub open spec fn tuple_pattern() -> Seq<char> {
    "^(([A-Za-z0-9_/\\p{Han}\\p{Hiragana}\\p{Katakana}]+)|(\\{[A-Za-z_]([A-Za-z0-9_]+)?(:(\\|[A-Za-z0-9_/\\p{Han}\\p{Hiragana}\\p{Katakana}]+)+)?\\}))+$"@
}

/// The pattern of one piece of an item written together.
pub open spec fn piece_pattern() -> Seq<char> {
    "(([A-Za-z0-9_/\\p{Han}\\p{Hiragana}\\p{Katakana}]+)|(\\{[A-Za-z_]([A-Za-z0-9_]+)?(:(\\|[A-Za-z0-9_/\\p{Han}\\p{Hiragana}\\p{Katakana}]+)+)?\\}))"@
}

/// Whether the pattern compiles and matches `text`.
pub open spec fn matches_pattern(pattern: Seq<char>, text: Seq<char>) -> bool {
    regex_compiles(pattern) && regex_is_match(pattern, text)
}

/// `s` split at each `sep` (`str::split`).
pub open spec fn split_on(s: Seq<char>, sep: char) -> Seq<Seq<char>>
    decreases s.len(),
{
    if s.len() == 0 {
        seq![Seq::empty()]
    } else {
        let t = split_on(s.drop_last(), sep);
        if s.last() == sep {
            t.push(Seq::empty())
        } else {
            t.update(t.len() - 1, t.last().push(s.last()))
        }
    }
}

/// The index of the first `:|` in `s` at or after `i`.
pub open spec fn find_colon_bar(s: Seq<char>, i: int) -> Option<int>
    decreases s.len() - i,
{
    if i < 0 || i + 1 >= s.len() {
        None
    } else if s[i] == ':' && s[i + 1] == '|' {
        Some(i)
    } else {
        find_colon_bar(s, i + 1)
    }
}

/// A parameter token read as a piece: the text between its braces is the
/// parameter's name, or, where it holds `:|`, the name before the first
/// `:|` and the words after it, split at each `|`.
pub open spec fn param_parts(t: Seq<char>) -> PieceView {
    let body = if t.len() >= 2 {
        t.subrange(1, t.len() - 1)
    } else {
        Seq::empty()
    };
    match find_colon_bar(body, 0) {
        Some(k) => PieceView::Enum(body.take(k), split_on(body.skip(k + 2), '|')),
        None => PieceView::Param(body),
    }
}

/// A piece found in an item written together: a parameter token when it
/// starts with `{`, else a fixed word.
pub open spec fn found_piece(t: Seq<char>) -> PieceView {
    if t.len() > 0 && t[0] == '{' {
        param_parts(t)
    } else {
        PieceView::Command(t)
    }
}

/// A single piece read as a whole item.
pub open spec fn piece_to_raw(p: PieceView) -> RawView {
    match p {
        PieceView::Command(s) => RawView::Command(s),
        PieceView::Param(s) => RawView::Param(s),
        PieceView::Enum(s, v) => RawView::Enum(s, v),
    }
}

/// How one white-space separated item of a bot command is read: a fixed
/// word, a parameter token, or a run of both written together, each as its
/// pattern says; none when it is none of these.
pub open spec fn classify_item(item: Seq<char>) -> Option<RawView> {
    if matches_pattern(command_pattern(), item) {
        Some(RawView::Command(item))
    } else if matches_pattern(params_pattern(), item) {
        Some(piece_to_raw(param_parts(item)))
    } else if matches_pattern(tuple_pattern(), item) && regex_compiles(piece_pattern()) {
        Some(
            RawView::Multiple(
                regex_find_all(piece_pattern(), item).map_values(|t: Seq<char>| found_piece(t)),
            ),
        )
    } else {
        None
    }
}

/// The items of `s`: its longest runs of characters that are not white
/// space, in order (`str::split_whitespace`).
pub open spec fn split_ws(s: Seq<char>) -> Seq<Seq<char>>
    decreases s.len(),
{
    if s.len() == 0 {
        Seq::empty()
    } else {
        let t = split_ws(s.drop_last());
        let c = s.last();
        if is_white_space(c) {
            t
        } else if s.len() >= 2 && !is_white_space(s[s.len() - 2]) {
            t.update(t.len() - 1, t.last().push(c))
        } else {
            t.push(seq![c])
        }
    }
}

/// The explanation shown with a command item that cannot be read.
pub open spec fn command_notice() -> Seq<char> {
    "bot_command中的元素必须是由固定字符串和参数组合而成, 例如 \"/删除 {idx}\" \"请{min}{time:|小时|分钟|秒钟}后提醒我{event}\" \"{option:|开启|关闭} 天气预报\" "@
}

/// The items of a bot command read one by one; the first item that cannot
/// be read is the error.
pub open spec fn classify_all(items: Seq<Seq<char>>) -> Result<Seq<RawView>, Seq<char>>
    decreases items.len(),
{
    if items.len() == 0 {
        Ok(Seq::empty())
    } else {
        match classify_all(items.drop_last()) {
            Err(e) => Err(e),
            Ok(r) => match classify_item(items.last()) {
                Some(v) => Ok(r.push(v)),
                None => Err(items.last()),
            },
        }
    }
}


/// A bot command is read token by token: its white-space separated items
/// read to `Ok(v)` exactly when each item reads on its own, and then `v`
/// holds one entry per item, the `i`-th being what the `i`-th item reads
/// to; otherwise the error names the first item that cannot be read.
pub proof fn law_classify_per_item(items: Seq<Seq<char>>)
    ensures
        classify_all(items) is Ok <==> forall|i: int| 0 <= i < items.len() ==> #[trigger] classify_item(items[i]) is Some,
        classify_all(items) matches Ok(v) ==> v.len() == items.len() && forall|i: int|
            0 <= i < items.len() ==> #[trigger] classify_item(items[i]) == Some(v[i]),
        classify_all(items) matches Err(e) ==> exists|i: int|
            0 <= i < items.len() && items[i] == e && #[trigger] classify_item(items[i]) is None
                && forall|j: int| 0 <= j < i ==> classify_item(#[trigger] items[j]) is Some,
    decreases items.len(),
{
    if items.len() > 0 {
        let t = items.drop_last();
        law_classify_per_item(t);
        assert forall|i: int| 0 <= i < t.len() implies t[i] == items[i] by {}
        match classify_all(t) {
            Ok(v) => {
                match classify_item(items.last()) {
                    Some(x) => {
                        assert forall|i: int| 0 <= i < items.len() implies #[trigger] classify_item(
                            items[i],
                        ) == Some(v.push(x)[i]) by {
                            if i < t.len() {
                                assert(t[i] == items[i]);
                            }
                        }
                    },
                    None => {
                        let i = items.len() - 1;
                        assert(classify_item(items[i]) is None);
                        assert forall|j: int| 0 <= j < i implies classify_item(#[trigger] items[j]) is Some by {
                            assert(t[j] == items[j]);
                        }
                    },
                }
            },
            Err(e) => {
                let i = choose|i: int|
                    0 <= i < t.len() && t[i] == e && #[trigger] classify_item(t[i]) is None && forall|j: int|
                        0 <= j < i ==> classify_item(#[trigger] t[j]) is Some;
                assert(t[i] == items[i]);
                assert forall|j: int| 0 <= j < i implies classify_item(#[trigger] items[j]) is Some by {
                    assert(t[j] == items[j]);
                }
            },
        }
    }
}

/// The string made of `v[lo..hi]`.
pub fn range_string(v: &Vec<char>, lo: usize, hi: usize) -> (s: String)
    requires
        lo <= hi <= v@.len(),
    ensures
        s@ == v@.subrange(lo as int, hi as int),
{
    let mut w: Vec<char> = Vec::new();
    let mut i = lo;
    while i < hi
        invariant
            lo <= i <= hi <= v@.len(),
            w@ == v@.subrange(lo as int, i as int),
        decreases hi - i,
    {
        w.push(v[i]);
        i = i + 1;
        assert(w@ == v@.subrange(lo as int, i as int));
    }
    string_from_chars(&w)
}

/// `v[lo..hi]` split at each `|`.
fn split_bars(v: &Vec<char>, lo: usize, hi: usize) -> (r: Vec<String>)
    requires
        lo <= hi <= v@.len(),
    ensures
        strings_view(r@) == split_on(v@.subrange(lo as int, hi as int), '|'),
{
    let mut parts: Vec<Vec<char>> = Vec::new();
    parts.push(Vec::new());
    let mut i = lo;
    assert(v@.subrange(lo as int, lo as int) =~= Seq::<char>::empty());
    assert(parts@.map_values(|w: Vec<char>| w@) =~= split_on(v@.subrange(lo as int, lo as int), '|'));
    while i < hi
        invariant
            lo <= i <= hi <= v@.len(),
            parts@.map_values(|w: Vec<char>| w@) == split_on(v@.subrange(lo as int, i as int), '|'),
            parts@.len() > 0,
        decreases hi - i,
    {
        let c = v[i];
        let ghost old_parts = parts@.map_values(|w: Vec<char>| w@);
        assert(v@.subrange(lo as int, i + 1).drop_last() =~= v@.subrange(lo as int, i as int));
        if c == '|' {
            parts.push(Vec::new());
            assert(parts@.map_values(|w: Vec<char>| w@) =~= old_parts.push(Seq::empty()));
        } else {
            let mut last = parts.pop().unwrap();
            last.push(c);
            parts.push(last);
            assert(parts@.map_values(|w: Vec<char>| w@) =~= old_parts.update(
                old_parts.len() - 1,
                old_parts.last().push(c),
            ));
        }
        i = i + 1;
    }
    let mut out: Vec<String> = Vec::new();
    let mut j: usize = 0;
    let ghost target = split_on(v@.subrange(lo as int, hi as int), '|');
    while j < parts.len()
        invariant
            0 <= j <= parts@.len(),
            parts@.map_values(|w: Vec<char>| w@) == target,
            strings_view(out@) == target.take(j as int),
        decreases parts@.len() - j,
    {
        let n = parts[j].len();
        assert(parts[j as int]@.subrange(0, n as int) =~= parts[j as int]@);
        let s = range_string(&parts[j], 0, n);
        let ghost old_out = out@;
        assert(target[j as int] == parts@[j as int]@);
        out.push(s);
        assert(out@ =~= old_out.push(s));
        assert(strings_view(out@) =~= strings_view(old_out).push(s@));
        j = j + 1;
        assert(target.take(j as int) =~= target.take(j - 1).push(target[j - 1]));
        assert(strings_view(out@) =~= target.take(j as int));
    }
    assert(target.take(j as int) =~= target);
    out
}

/// The first `:|` from `i` on, if any, has none before it.
pub proof fn lemma_find_colon_bar(s: Seq<char>, i: int)
    requires
        0 <= i,
    ensures
        find_colon_bar(s, i) matches Some(k) ==> i <= k && k + 1 < s.len() && s[k] == ':' && s[k
            + 1] == '|',
    decreases s.len() - i,
{
    if i + 1 < s.len() && !(s[i] == ':' && s[i + 1] == '|') {
        lemma_find_colon_bar(s, i + 1);
    }
}

/// The index, relative to `lo`, of the first `:|` in `v[lo..hi]`.
fn find_colon_bar_range(v: &Vec<char>, lo: usize, hi: usize) -> (r: Option<usize>)
    requires
        lo <= hi <= v@.len(),
    ensures
        match find_colon_bar(v@.subrange(lo as int, hi as int), 0) {
            Some(k) => r == Some(k as usize),
            None => r is None,
        },
        r matches Some(k) ==> k + 1 < hi - lo && find_colon_bar(v@.subrange(lo as int, hi as int), 0)
            == Some(k as int),
{
    proof {
        lemma_find_colon_bar(v@.subrange(lo as int, hi as int), 0);
    }
    let ghost t = v@.subrange(lo as int, hi as int);
    let mut i: usize = 0;
    while hi - lo - i > 1
        invariant
            lo <= hi <= v@.len(),
            t == v@.subrange(lo as int, hi as int),
            find_colon_bar(t, 0) == find_colon_bar(t, i as int),
            i <= hi - lo,
        decreases hi - lo - i,
    {
        if v[lo + i] == ':' && v[lo + i + 1] == '|' {
            return Some(i);
        }
        i = i + 1;
    }
    None
}

/// Reads `v[lo..hi]` as a parameter token.
fn param_piece(v: &Vec<char>, lo: usize, hi: usize) -> (r: BotCommandRawTuple)
    requires
        lo <= hi <= v@.len(),
    ensures
        r@ == param_parts(v@.subrange(lo as int, hi as int)),
{
    let ghost t = v@.subrange(lo as int, hi as int);
    let (blo, bhi) = if hi - lo >= 2 {
        (lo + 1, hi - 1)
    } else {
        (lo, lo)
    };
    let ghost body = if t.len() >= 2 {
        t.subrange(1, t.len() - 1)
    } else {
        Seq::<char>::empty()
    };
    assert(body =~= v@.subrange(blo as int, bhi as int));
    match find_colon_bar_range(v, blo, bhi) {
        Some(k) => {
            assert(body.take(k as int) =~= v@.subrange(blo as int, (blo + k) as int));
            assert(body.skip(k + 2) =~= v@.subrange((blo + k + 2) as int, bhi as int));
            let values = split_bars(v, blo + k + 2, bhi);
            BotCommandRawTuple::Enum(range_string(v, blo, blo + k), values)
        },
        None => BotCommandRawTuple::Param(range_string(v, blo, bhi)),
    }
}

/// The mathematical values of the pieces, in order.
pub open spec fn pieces_view(v: Seq<BotCommandRawTuple>) -> Seq<PieceView> {
    v.map_values(|t: BotCommandRawTuple| t@)
}

/// Reads a piece found in an item written together.
fn found_piece_exec(t: &String) -> (r: BotCommandRawTuple)
    ensures
        r@ == found_piece(t@),
{
    let v = crate::text::chars_of(t.as_str());
    let n = v.len();
    assert(v@.subrange(0, n as int) =~= v@);
    if n > 0 && v[0] == '{' {
        param_piece(&v, 0, n)
    } else {
        BotCommandRawTuple::Command(t.clone())
    }
}

/// The mathematical value of an item, if any.
pub open spec fn opt_raw_view(r: Option<BotCommandRaw>) -> Option<RawView> {
    match r {
        Some(p) => Some(p@),
        None => None,
    }
}

/// Whether the pattern compiles and matches `text`.
fn pattern_matches(pattern: &str, text: &str) -> (r: bool)
    ensures
        r == matches_pattern(pattern@, text@),
{
    regex_valid(pattern) && regex_match(pattern, text)
}

/// Reads one white-space separated item of a bot command.
pub fn classify(v: &Vec<char>) -> (r: Option<BotCommandRaw>)
    ensures
        opt_raw_view(r) == classify_item(v@),
{
    let n = v.len();
    assert(v@.subrange(0, n as int) =~= v@);
    let item = range_string(v, 0, n);
    let command_reg = "^[A-Za-z0-9_/\\p{Han}\\p{Hiragana}\\p{Katakana}]+$";
    let params_reg = "^\\{[A-Za-z_]([A-Za-z0-9_]+)?(:(\\|[A-Za-z0-9_/\\p{Han}\\p{Hiragana}\\p{Katakana}]+)+)?\\}$";
    let tuple_reg = "^(([A-Za-z0-9_/\\p{Han}\\p{Hiragana}\\p{Katakana}]+)|(\\{[A-Za-z_]([A-Za-z0-9_]+)?(:(\\|[A-Za-z0-9_/\\p{Han}\\p{Hiragana}\\p{Katakana}]+)+)?\\}))+$";
    let find_reg = "(([A-Za-z0-9_/\\p{Han}\\p{Hiragana}\\p{Katakana}]+)|(\\{[A-Za-z_]([A-Za-z0-9_]+)?(:(\\|[A-Za-z0-9_/\\p{Han}\\p{Hiragana}\\p{Katakana}]+)+)?\\}))";
    if pattern_matches(command_reg, item.as_str()) {
        return Some(BotCommandRaw::Command(item));
    }
    if pattern_matches(params_reg, item.as_str()) {
        return Some(
            match param_piece(v, 0, n) {
                BotCommandRawTuple::Command(s) => BotCommandRaw::Command(s),
                BotCommandRawTuple::Param(s) => BotCommandRaw::Param(s),
                BotCommandRawTuple::Enum(s, e) => BotCommandRaw::Enum(s, e),
            },
        );
    }
    if !(pattern_matches(tuple_reg, item.as_str()) && regex_valid(find_reg)) {
        return None;
    }
    let found = regex_find_texts(find_reg, item.as_str());
    let ghost texts = found@.map_values(|s: String| s@);
    let mut pieces: Vec<BotCommandRawTuple> = Vec::new();
    let mut i: usize = 0;
    while i < found.len()
        invariant
            texts == found@.map_values(|s: String| s@),
            i <= found@.len(),
            pieces_view(pieces@) == texts.take(i as int).map_values(|t: Seq<char>| found_piece(t)),
        decreases found@.len() - i,
    {
        let p = found_piece_exec(&found[i]);
        let ghost before = pieces@;
        assert(texts[i as int] == found@[i as int]@);
        pieces.push(p);
        assert(pieces@ =~= before.push(p));
        assert(pieces_view(pieces@) =~= pieces_view(before).push(p@));
        assert(texts.take(i + 1) =~= texts.take(i as int).push(texts[i as int]));
        assert(pieces_view(pieces@) =~= texts.take(i + 1).map_values(|t: Seq<char>| found_piece(t)));
        i = i + 1;
    }
    assert(texts.take(found@.len() as int) =~= texts);
    Some(BotCommandRaw::Multiple(pieces))
}

/// A text that ends in a character other than white space has an item.
pub proof fn lemma_split_ws_nonempty(s: Seq<char>)
    requires
        s.len() > 0,
        !is_white_space(s.last()),
    ensures
        split_ws(s).len() > 0,
    decreases s.len(),
{
    if s.len() >= 2 && !is_white_space(s[s.len() - 2]) {
        assert(s.drop_last().last() == s[s.len() - 2]);
        lemma_split_ws_nonempty(s.drop_last());
    }
}

/// The items of `v`, split at white space (`str::split_whitespace`).
pub fn split_whitespace(v: &Vec<char>) -> (r: Vec<Vec<char>>)
    ensures
        r@.map_values(|w: Vec<char>| w@) == split_ws(v@),
{
    let mut words: Vec<Vec<char>> = Vec::new();
    let mut i: usize = 0;
    assert(v@.take(0) =~= Seq::<char>::empty());
    while i < v.len()
        invariant
            i <= v@.len(),
            words@.map_values(|w: Vec<char>| w@) == split_ws(v@.take(i as int)),
        decreases v@.len() - i,
    {
        let c = v[i];
        let ghost old_words = words@.map_values(|w: Vec<char>| w@);
        assert(v@.take(i + 1).drop_last() =~= v@.take(i as int));
        assert(v@.take(i + 1).last() == c);
        if is_whitespace_char(c) {
        } else if i >= 1 && !is_whitespace_char(v[i - 1]) {
            proof {
                assert(v@.take(i as int).last() == v@[i - 1]);
                lemma_split_ws_nonempty(v@.take(i as int));
                assert(v@.take(i + 1)[i + 1 - 2] == v@[i - 1]);
            }
            let mut last = words.pop().unwrap();
            last.push(c);
            words.push(last);
            assert(words@.map_values(|w: Vec<char>| w@) =~= old_words.update(
                old_words.len() - 1,
                old_words.last().push(c),
            ));
        } else {
            let mut w = Vec::new();
            w.push(c);
            words.push(w);
            proof {
                if i >= 1 {
                    assert(v@.take(i + 1)[i + 1 - 2] == v@[i - 1]);
                }
            }
            assert(words@.map_values(|w: Vec<char>| w@) =~= old_words.push(seq![c]));
        }
        i = i + 1;
    }
    assert(v@.take(v@.len() as int) =~= v@);
    words
}

proof fn lemma_err_extends(items: Seq<Seq<char>>, e: Seq<char>, k: int)
    requires
        0 < k <= items.len(),
        classify_all(items.take(k)) == Err::<Seq<RawView>, Seq<char>>(e),
    ensures
        classify_all(items) == Err::<Seq<RawView>, Seq<char>>(e),
    decreases items.len() - k,
{
    if k < items.len() {
        assert(items.take(k + 1).drop_last() =~= items.take(k));
        lemma_err_extends(items, e, k + 1);
    } else {
        assert(items.take(k) =~= items);
    }
}

proof fn lemma_classify_all_err(items: Seq<Seq<char>>, j: int)
    requires
        0 <= j < items.len(),
        classify_all(items.take(j)) is Ok,
        classify_item(items[j]) is None,
    ensures
        classify_all(items) == Err::<Seq<RawView>, Seq<char>>(items[j]),
{
    assert(items.take(j + 1).drop_last() =~= items.take(j));
    assert(items.take(j + 1).last() == items[j]);
    lemma_err_extends(items, items[j], j + 1);
}

/// The mathematical values of the items, in order.
pub open spec fn raws_view(v: Seq<BotCommandRaw>) -> Seq<RawView> {
    v.map_values(|t: BotCommandRaw| t@)
}

/// The message given for a command item that cannot be read.
pub open spec fn bad_item_message(item: Seq<char>) -> Seq<char> {
    command_notice() + " => "@ + item
}

/// Reads the `bot_command` of an event handler: its white-space separated
/// items, each a fixed word, a parameter token such as `{idx}` or
/// `{time:|小时|分钟}`, or several of these written together. No command
/// gives `None`; an item that cannot be read is an error naming it.
pub fn parse_bot_command(bot_command: Option<String>) -> (r: Result<Option<Vec<BotCommandRaw>>, String>)
    ensures
        bot_command is None ==> r == Ok::<Option<Vec<BotCommandRaw>>, String>(None),
        bot_command matches Some(c) ==> match classify_all(split_ws(c@)) {
            Ok(items) => r matches Ok(Some(v)) && raws_view(v@) == items,
            Err(item) => r matches Err(msg) && msg@ == bad_item_message(item),
        },
{
    if bot_command.is_none() {
        return Ok(None);
    }
    let command = bot_command.unwrap();
    assert(bot_command == Some(command));
    let chars = crate::text::chars_of(command.as_str());
    let words = split_whitespace(&chars);
    let ghost items = words@.map_values(|w: Vec<char>| w@);
    let mut out: Vec<BotCommandRaw> = Vec::new();
    let mut j: usize = 0;
    assert(items.take(0) =~= Seq::<Seq<char>>::empty());
    assert(raws_view(out@) =~= Seq::<RawView>::empty());
    while j < words.len()
        invariant
            items == words@.map_values(|w: Vec<char>| w@),
            items == split_ws(command@),
            bot_command == Some(command),
            j <= words@.len(),
            classify_all(items.take(j as int)) == Ok::<Seq<RawView>, Seq<char>>(raws_view(out@)),
        decreases words@.len() - j,
    {
        assert(items.take(j + 1).drop_last() =~= items.take(j as int));
        assert(items.take(j + 1).last() == words@[j as int]@);
        match classify(&words[j]) {
            Some(raw) => {
                let ghost rv = raw@;
                let ghost old_out = out@;
                out.push(raw);
                assert(raws_view(out@) =~= raws_view(old_out).push(rv));
            },
            None => {
                proof {
                    lemma_classify_all_err(items, j as int);
                }
                let notice = "bot_command中的元素必须是由固定字符串和参数组合而成, 例如 \"/删除 {idx}\" \"请{min}{time:|小时|分钟|秒钟}后提醒我{event}\" \"{option:|开启|关闭} 天气预报\" ";
                let mut msg = crate::text::concat(notice, " => ");
                let n = words[j].len();
                assert(words@[j as int]@.subrange(0, n as int) =~= words@[j as int]@);
                let item = range_string(&words[j], 0, n);
                crate::text::push_str(&mut msg, item.as_str());
                assert(items == split_ws(command@));
                assert(classify_all(items) == Err::<Seq<RawView>, Seq<char>>(item@));
                assert(msg@ == bad_item_message(item@));
                return Err(msg);
            },
        }
        j = j + 1;
    }
    assert(items.take(words@.len() as int) =~= items);
    Ok(Some(out))
}


/// The pattern of a handler parameter: a plain name, or any other pattern,
/// as written.
pub enum PatShape {
    Ident(String),
    Other(String),
}

/// A parameter of a handler function: `self`, or a typed parameter with
/// its pattern and its type as written.
pub enum FnArgShape {
    Receiver,
    Typed(PatShape, String),
}

/// A piece of a command item bound to the handler's parameters: a fixed
/// word, or the index of the parameter that receives a value (with the
/// allowed words for a restricted parameter).
#[derive(Debug)]
pub enum BotParamsMatherTuple {
    Command(String),
    Params(usize),
    Enum(usize, Vec<String>),
}

/// An item of a bot command bound to the handler's parameters.
#[derive(Debug)]
pub enum BotParamsMather {
    Command(String),
    Params(usize),
    Enum(usize, Vec<String>),
    Multiple(Vec<BotParamsMatherTuple>),
}

/// The mathematical value of a [`BotParamsMatherTuple`].
pub enum MatherPieceView {
    Command(Seq<char>),
    Params(int),
    Enum(int, Seq<Seq<char>>),
}

/// The mathematical value of a [`BotParamsMather`].
pub enum MatherView {
    Command(Seq<char>),
    Params(int),
    Enum(int, Seq<Seq<char>>),
    Multiple(Seq<MatherPieceView>),
}

impl View for BotParamsMatherTuple {
    type V = MatherPieceView;

    open spec fn view(&self) -> MatherPieceView {
        match self {
            BotParamsMatherTuple::Command(s) => MatherPieceView::Command(s@),
            BotParamsMatherTuple::Params(i) => MatherPieceView::Params(*i as int),
            BotParamsMatherTuple::Enum(i, v) => MatherPieceView::Enum(*i as int, strings_view(v@)),
        }
    }
}

impl View for BotParamsMather {
    type V = MatherView;

    open spec fn view(&self) -> MatherView {
        match self {
            BotParamsMather::Command(s) => MatherView::Command(s@),
            BotParamsMather::Params(i) => MatherView::Params(*i as int),
            BotParamsMather::Enum(i, v) => MatherView::Enum(*i as int, strings_view(v@)),
            BotParamsMather::Multiple(v) => MatherView::Multiple(
                v@.map_values(|t: BotParamsMatherTuple| t@),
            ),
        }
    }
}

/// The parameter at index `k` that receives the command parameter `name`:
/// it must exist, be a typed parameter, and be named `name`.
pub open spec fn take_param_spec(args: Seq<FnArgShape>, k: int, name: Seq<char>) -> Result<int, Seq<char>> {
    if k < 0 || k >= args.len() {
        Err("参数个数与bot_command不匹配，您的方法中缺少参数 : "@ + name)
    } else {
        match args[k] {
            FnArgShape::Receiver => Err("bot_command的参数不支持Self"@),
            FnArgShape::Typed(PatShape::Ident(id), _) => if id@ == name {
                Ok(k)
            } else {
                Err("bot_command中的参数名必须与参数名一致 "@ + name + " != "@ + id@)
            },
            FnArgShape::Typed(PatShape::Other(_), _) => Err("bot_command中的参数必须是标识符 "@ + name),
        }
    }
}

/// Takes the parameter at index `k` for the command parameter `name`.
pub fn take_param(args: &Vec<FnArgShape>, k: usize, name: &String) -> (r: Result<usize, String>)
    ensures
        match r {
            Ok(i) => take_param_spec(args@, k as int, name@) == Ok::<int, Seq<char>>(i as int),
            Err(e) => take_param_spec(args@, k as int, name@) == Err::<int, Seq<char>>(e@),
        },
        r matches Ok(i) ==> i == k && i < args.len(),
{
    if k >= args.len() {
        return Err(concat("参数个数与bot_command不匹配，您的方法中缺少参数 : ", name.as_str()));
    }
    match &args[k] {
        FnArgShape::Receiver => Err("bot_command的参数不支持Self".to_owned()),
        FnArgShape::Typed(PatShape::Ident(id), _) => {
            if str_eq(id.as_str(), name.as_str()) {
                Ok(k)
            } else {
                let mut m = concat("bot_command中的参数名必须与参数名一致 ", name.as_str());
                push_str(&mut m, " != ");
                push_str(&mut m, id.as_str());
                Err(m)
            }
        },
        FnArgShape::Typed(PatShape::Other(_), _) => Err(concat("bot_command中的参数必须是标识符 ", name.as_str())),
    }
}

/// How many handler parameters a piece takes: one for a parameter, none for a word.
pub open spec fn piece_params(p: PieceView) -> int {
    match p {
        PieceView::Command(_) => 0,
        _ => 1,
    }
}

/// How many handler parameters the pieces take.
pub open spec fn pieces_params(s: Seq<PieceView>) -> int
    decreases s.len(),
{
    if s.len() == 0 {
        0
    } else {
        pieces_params(s.drop_last()) + piece_params(s.last())
    }
}

/// How many handler parameters an item takes.
pub open spec fn item_params(r: RawView) -> int {
    match r {
        RawView::Command(_) => 0,
        RawView::Multiple(ps) => pieces_params(ps),
        _ => 1,
    }
}

/// How many handler parameters the items take.
pub open spec fn items_params(s: Seq<RawView>) -> int
    decreases s.len(),
{
    if s.len() == 0 {
        0
    } else {
        items_params(s.drop_last()) + item_params(s.last())
    }
}

/// A piece bound to the parameters, the parameter for it being the one at index `k`.
pub open spec fn bind_piece(p: PieceView, args: Seq<FnArgShape>, k: int) -> Result<MatherPieceView, Seq<char>> {
    match p {
        PieceView::Command(s) => Ok(MatherPieceView::Command(s)),
        PieceView::Param(n) => match take_param_spec(args, k, n) {
            Ok(i) => Ok(MatherPieceView::Params(i)),
            Err(e) => Err(e),
        },
        PieceView::Enum(n, vals) => match take_param_spec(args, k, n) {
            Ok(i) => Ok(MatherPieceView::Enum(i, vals)),
            Err(e) => Err(e),
        },
    }
}

/// The pieces of an item bound in order, from the parameter at index `k0` on.
pub open spec fn bind_pieces(s: Seq<PieceView>, args: Seq<FnArgShape>, k0: int) -> Result<Seq<MatherPieceView>, Seq<char>>
    decreases s.len(),
{
    if s.len() == 0 {
        Ok(Seq::empty())
    } else {
        match bind_pieces(s.drop_last(), args, k0) {
            Err(e) => Err(e),
            Ok(v) => match bind_piece(s.last(), args, k0 + pieces_params(s.drop_last())) {
                Ok(x) => Ok(v.push(x)),
                Err(e) => Err(e),
            },
        }
    }
}

/// An item bound to the parameters, from the parameter at index `k` on.
pub open spec fn bind_item(r: RawView, args: Seq<FnArgShape>, k: int) -> Result<MatherView, Seq<char>> {
    match r {
        RawView::Command(s) => Ok(MatherView::Command(s)),
        RawView::Param(n) => match take_param_spec(args, k, n) {
            Ok(i) => Ok(MatherView::Params(i)),
            Err(e) => Err(e),
        },
        RawView::Enum(n, vals) => match take_param_spec(args, k, n) {
            Ok(i) => Ok(MatherView::Enum(i, vals)),
            Err(e) => Err(e),
        },
        RawView::Multiple(ps) => match bind_pieces(ps, args, k) {
            Ok(v) => Ok(MatherView::Multiple(v)),
            Err(e) => Err(e),
        },
    }
}

/// The items of a bot command bound in order to the handler's parameters:
/// each parameter of the command takes the next handler parameter, which
/// must carry its name; the first that does not is the error.
pub open spec fn bind_items(s: Seq<RawView>, args: Seq<FnArgShape>) -> Result<Seq<MatherView>, Seq<char>>
    decreases s.len(),
{
    if s.len() == 0 {
        Ok(Seq::empty())
    } else {
        match bind_items(s.drop_last(), args) {
            Err(e) => Err(e),
            Ok(v) => match bind_item(s.last(), args, items_params(s.drop_last())) {
                Ok(x) => Ok(v.push(x)),
                Err(e) => Err(e),
            },
        }
    }
}

fn clone_strings(v: &Vec<String>) -> (r: Vec<String>)
    ensures
        r@ == v@,
{
    let mut out: Vec<String> = Vec::new();
    let mut i: usize = 0;
    while i < v.len()
        invariant
            i <= v@.len(),
            out@ == v@.take(i as int),
        decreases v@.len() - i,
    {
        out.push(v[i].clone());
        i = i + 1;
        assert(out@ =~= v@.take(i as int));
    }
    assert(v@.take(v@.len() as int) =~= v@);
    out
}

/// The mathematical values of bound pieces, in order.
pub open spec fn mather_pieces_view(v: Seq<BotParamsMatherTuple>) -> Seq<MatherPieceView> {
    v.map_values(|t: BotParamsMatherTuple| t@)
}

proof fn lemma_bind_pieces_err(s: Seq<PieceView>, args: Seq<FnArgShape>, k0: int, e: Seq<char>, k: int)
    requires
        0 < k <= s.len(),
        bind_pieces(s.take(k), args, k0) == Err::<Seq<MatherPieceView>, Seq<char>>(e),
    ensures
        bind_pieces(s, args, k0) == Err::<Seq<MatherPieceView>, Seq<char>>(e),
    decreases s.len() - k,
{
    if k < s.len() {
        assert(s.take(k + 1).drop_last() =~= s.take(k));
        lemma_bind_pieces_err(s, args, k0, e, k + 1);
    } else {
        assert(s.take(k) =~= s);
    }
}

/// Binds the pieces of an item, from the parameter at index `k0` on.
fn bind_tuple(pieces: &Vec<BotCommandRawTuple>, args: &Vec<FnArgShape>, k0: usize) -> (r: Result<(Vec<BotParamsMatherTuple>, usize), String>)
    requires
        k0 <= args@.len(),
    ensures
        r matches Ok((_, k)) ==> k <= args.len(),
        match r {
            Ok((v, k)) => bind_pieces(pieces_view(pieces@), args@, k0 as int) == Ok::<Seq<MatherPieceView>, Seq<char>>(
                mather_pieces_view(v@),
            ) && k == k0 + pieces_params(pieces_view(pieces@)),
            Err(e) => bind_pieces(pieces_view(pieces@), args@, k0 as int) == Err::<Seq<MatherPieceView>, Seq<char>>(e@),
        },
{
    let ghost ps = pieces_view(pieces@);
    let mut out: Vec<BotParamsMatherTuple> = Vec::new();
    let mut k = k0;
    let mut i: usize = 0;
    assert(ps.take(0) =~= Seq::<PieceView>::empty());
    assert(mather_pieces_view(out@) =~= Seq::<MatherPieceView>::empty());
    while i < pieces.len()
        invariant
            ps == pieces_view(pieces@),
            i <= pieces@.len(),
            k == k0 + pieces_params(ps.take(i as int)),
            k <= args.len(),
            bind_pieces(ps.take(i as int), args@, k0 as int) == Ok::<Seq<MatherPieceView>, Seq<char>>(
                mather_pieces_view(out@),
            ),
        decreases pieces@.len() - i,
    {
        assert(ps.take(i + 1).drop_last() =~= ps.take(i as int));
        assert(ps.take(i + 1).last() == pieces@[i as int]@);
        let ghost old_out = out@;
        let x = match &pieces[i] {
            BotCommandRawTuple::Command(s) => BotParamsMatherTuple::Command(s.clone()),
            BotCommandRawTuple::Param(n) => match take_param(args, k, n) {
                Ok(j) => BotParamsMatherTuple::Params(j),
                Err(e) => {
                    proof {
                        lemma_bind_pieces_err(ps, args@, k0 as int, e@, i + 1);
                    }
                    return Err(e);
                },
            },
            BotCommandRawTuple::Enum(n, vals) => match take_param(args, k, n) {
                Ok(j) => BotParamsMatherTuple::Enum(j, clone_strings(vals)),
                Err(e) => {
                    proof {
                        lemma_bind_pieces_err(ps, args@, k0 as int, e@, i + 1);
                    }
                    return Err(e);
                },
            },
        };
        let is_param = match &pieces[i] {
            BotCommandRawTuple::Command(_) => false,
            _ => true,
        };
        out.push(x);
        assert(mather_pieces_view(out@) =~= mather_pieces_view(old_out).push(out@.last()@));
        if is_param {
            k = k + 1;
        }
        i = i + 1;
    }
    assert(ps.take(pieces@.len() as int) =~= ps);
    Ok((out, k))
}

/// The mathematical values of bound items, in order.
pub open spec fn mathers_view(v: Seq<BotParamsMather>) -> Seq<MatherView> {
    v.map_values(|t: BotParamsMather| t@)
}

proof fn lemma_bind_items_err(s: Seq<RawView>, args: Seq<FnArgShape>, e: Seq<char>, k: int)
    requires
        0 < k <= s.len(),
        bind_items(s.take(k), args) == Err::<Seq<MatherView>, Seq<char>>(e),
    ensures
        bind_items(s, args) == Err::<Seq<MatherView>, Seq<char>>(e),
    decreases s.len() - k,
{
    if k < s.len() {
        assert(s.take(k + 1).drop_last() =~= s.take(k));
        lemma_bind_items_err(s, args, e, k + 1);
    } else {
        assert(s.take(k) =~= s);
    }
}

/// Binds the items of a bot command to the handler's parameters (those
/// after the event): no command gives `None`.
pub fn parse_bot_args(args: &Vec<FnArgShape>, items: Option<Vec<BotCommandRaw>>) -> (r: Result<Option<Vec<BotParamsMather>>, String>)
    ensures
        items is None ==> r == Ok::<Option<Vec<BotParamsMather>>, String>(None),
        items matches Some(its) ==> match bind_items(raws_view(its@), args@) {
            Ok(v) => r matches Ok(Some(m)) && mathers_view(m@) == v,
            Err(e) => r matches Err(m) && m@ == e,
        },
{
    if items.is_none() {
        return Ok(None);
    }
    let its = items.unwrap();
    let ghost rs = raws_view(its@);
    let mut out: Vec<BotParamsMather> = Vec::new();
    let mut k: usize = 0;
    let mut i: usize = 0;
    assert(rs.take(0) =~= Seq::<RawView>::empty());
    assert(mathers_view(out@) =~= Seq::<MatherView>::empty());
    while i < its.len()
        invariant
            rs == raws_view(its@),
            items == Some(its),
            i <= its@.len(),
            k <= args.len(),
            k == items_params(rs.take(i as int)),
            bind_items(rs.take(i as int), args@) == Ok::<Seq<MatherView>, Seq<char>>(mathers_view(out@)),
        decreases its@.len() - i,
    {
        assert(rs.take(i + 1).drop_last() =~= rs.take(i as int));
        assert(rs.take(i + 1).last() == its@[i as int]@);
        let ghost old_out = out@;
        let x = match &its[i] {
            BotCommandRaw::Command(s) => BotParamsMather::Command(s.clone()),
            BotCommandRaw::Param(n) => match take_param(args, k, n) {
                Ok(j) => {
                    k = j + 1;
                    BotParamsMather::Params(j)
                },
                Err(e) => {
                    proof {
                        lemma_bind_items_err(rs, args@, e@, i + 1);
                    }
                    return Err(e);
                },
            },
            BotCommandRaw::Enum(n, vals) => match take_param(args, k, n) {
                Ok(j) => {
                    k = j + 1;
                    BotParamsMather::Enum(j, clone_strings(vals))
                },
                Err(e) => {
                    proof {
                        lemma_bind_items_err(rs, args@, e@, i + 1);
                    }
                    return Err(e);
                },
            },
            BotCommandRaw::Multiple(ps) => match bind_tuple(ps, args, k) {
                Ok((v, k2)) => {
                    k = k2;
                    BotParamsMather::Multiple(v)
                },
                Err(e) => {
                    proof {
                        lemma_bind_items_err(rs, args@, e@, i + 1);
                    }
                    return Err(e);
                },
            },
        };
        out.push(x);
        assert(mathers_view(out@) =~= mathers_view(old_out).push(out@.last()@));
        i = i + 1;
    }
    assert(rs.take(its@.len() as int) =~= rs);
    Ok(Some(out))
}

} // verus!
