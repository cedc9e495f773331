//! Plain-text excerpts of markdown bodies: the text of a body's events, its
//! words joined by single spaces, cut to a number of characters.

use vstd::prelude::*;

verus! {

/// What the excerpt reads of one markdown parse event.
#[derive(Debug, Clone, PartialEq, Eq)]
pub enum MarkdownEvent {
    /// A text node.
    Text(String),
    /// An inline code node.
    Code(String),
    /// A soft line break.
    SoftBreak,
    /// A hard line break.
    HardBreak,
    /// Any other event (tags, HTML, rules, math, ...).
    Other,
}

/// The mathematical content of a `MarkdownEvent`.
pub enum MarkdownEventView {
    Text(Seq<char>),
    Code(Seq<char>),
    SoftBreak,
    HardBreak,
    Other,
}

impl View for MarkdownEvent {
    type V = MarkdownEventView;

    open spec fn view(&self) -> MarkdownEventView {
        match self {
            MarkdownEvent::Text(t) => MarkdownEventView::Text(t@),
            MarkdownEvent::Code(t) => MarkdownEventView::Code(t@),
            MarkdownEvent::SoftBreak => MarkdownEventView::SoftBreak,
            MarkdownEvent::HardBreak => MarkdownEventView::HardBreak,
            MarkdownEvent::Other => MarkdownEventView::Other,
        }
    }
}

/// The events of a sequence, each by its view.
pub open spec fn events_view(events: Seq<MarkdownEvent>) -> Seq<MarkdownEventView> {
    events.map_values(|e: MarkdownEvent| e@)
}

/// The events that `pulldown_cmark::Parser::new` yields for a text, read
/// through `MarkdownEvent`.
pub uninterp spec fn markdown_events(markdown: Seq<char>) -> Seq<MarkdownEventView>;

/// Calls `pulldown_cmark::Parser::new` (no extension options) and collects
/// its events, each converted to a `MarkdownEvent` by its variant: text and
/// code keep their text, soft and hard breaks stay themselves, every other
/// variant becomes `Other`. The contract claims only that the result is the
/// parser's output for this text (a function of the text alone).
#[verifier::external_body]
fn parse_markdown(markdown: &str) -> (res: Vec<MarkdownEvent>)
    ensures
        events_view(res@) == markdown_events(markdown@),
{
    let mut out: Vec<MarkdownEvent> = Vec::new();
    for event in pulldown_cmark::Parser::new(markdown) {
        out.push(match event {
            pulldown_cmark::Event::Text(body) => MarkdownEvent::Text(body.to_string()),
            pulldown_cmark::Event::Code(body) => MarkdownEvent::Code(body.to_string()),
            pulldown_cmark::Event::SoftBreak => MarkdownEvent::SoftBreak,
            pulldown_cmark::Event::HardBreak => MarkdownEvent::HardBreak,
            _ => MarkdownEvent::Other,
        });
    }
    out
}

/// Calls `String::push`: the character is appended.
#[verifier::external_body]
pub(crate) fn push_char(s: &mut String, c: char)
    ensures
        final(s)@ == old(s)@.push(c),
{
    s.push(c)
}

/// The characters of a text, in order.
pub(crate) fn chars_of(s: &str) -> (res: Vec<char>)
    ensures
        res@ == s@,
{
    let mut out: Vec<char> = Vec::new();
    for c in it: s.chars()
        invariant
            it.seq() == s@,
            out@ == s@.take(it.index()),
    {
        assert(s@.take(it.index() + 1) =~= out@.push(c));
        out.push(c);
    }
    assert(s@.take(s@.len() as int) =~= s@);
    out
}

/// The text that one event contributes: text and code bodies as they are, a
/// line break as one space, nothing otherwise.
pub open spec fn event_text(e: MarkdownEventView) -> Seq<char> {
    match e {
        MarkdownEventView::Text(t) => t,
        MarkdownEventView::Code(t) => t,
        MarkdownEventView::SoftBreak => seq![' '],
        MarkdownEventView::HardBreak => seq![' '],
        MarkdownEventView::Other => Seq::empty(),
    }
}

/// The text of a sequence of events: their contributions in order.
pub open spec fn events_text(events: Seq<MarkdownEventView>) -> Seq<char>
    decreases events.len(),
{
    if events.len() == 0 {
        Seq::empty()
    } else {
        events_text(events.drop_last()) + event_text(events.last())
    }
}

/// Unicode's White_Space property, the one `char::is_whitespace` tests.
pub open spec fn is_whitespace(c: char) -> bool {
    ||| ('\u{9}' <= c && c <= '\u{d}')
    ||| c == ' '
    ||| c == '\u{85}'
    ||| c == '\u{a0}'
    ||| c == '\u{1680}'
    ||| ('\u{2000}' <= c && c <= '\u{200a}')
    ||| c == '\u{2028}'
    ||| c == '\u{2029}'
    ||| c == '\u{202f}'
    ||| c == '\u{205f}'
    ||| c == '\u{3000}'
}

/// The words of a text: its maximal runs of non-whitespace characters, in
/// order. A character that is not whitespace extends the last word when the
/// character before it is not whitespace either, and starts a new word
/// otherwise.
pub open spec fn words(s: Seq<char>) -> Seq<Seq<char>>
    decreases s.len(),
{
    if s.len() == 0 {
        Seq::empty()
    } else {
        let w = words(s.drop_last());
        let c = s.last();
        if is_whitespace(c) {
            w
        } else if s.len() >= 2 && !is_whitespace(s[s.len() - 2]) {
            w.drop_last().push(w.last().push(c))
        } else {
            w.push(seq![c])
        }
    }
}

/// Words joined by single spaces.
pub open spec fn join_words(ws: Seq<Seq<char>>) -> Seq<char>
    decreases ws.len(),
{
    if ws.len() == 0 {
        Seq::empty()
    } else if ws.len() == 1 {
        ws[0]
    } else {
        join_words(ws.drop_last()) + seq![' '] + ws.last()
    }
}

/// A text with every run of whitespace made one space and none at either
/// end.
pub open spec fn collapse_whitespace(s: Seq<char>) -> Seq<char> {
    join_words(words(s))
}

/// A text cut to `max_len` characters with `...` after it, when it is longer
/// than that; the text itself otherwise.
pub open spec fn truncate_chars(s: Seq<char>, max_len: nat) -> Seq<char> {
    if s.len() > max_len {
        s.take(max_len as int) + "..."@
    } else {
        s
    }
}

/// The excerpt of parse events: their text, whitespace collapsed, cut to
/// `max_len` characters.
pub open spec fn excerpt_from(events: Seq<MarkdownEventView>, max_len: nat) -> Seq<char> {
    truncate_chars(collapse_whitespace(events_text(events)), max_len)
}

/// The excerpt of a markdown body.
pub open spec fn excerpt_of(markdown: Seq<char>, max_len: nat) -> Seq<char> {
    excerpt_from(markdown_events(markdown), max_len)
}

/// Whether a character is whitespace in Unicode's sense.
pub fn is_whitespace_char(c: char) -> (res: bool)
    ensures
        res == is_whitespace(c),
{
    ('\u{9}' <= c && c <= '\u{d}') || c == ' ' || c == '\u{85}' || c == '\u{a0}' || c == '\u{1680}'
        || ('\u{2000}' <= c && c <= '\u{200a}') || c == '\u{2028}' || c == '\u{2029}' || c
        == '\u{202f}' || c == '\u{205f}' || c == '\u{3000}'
}

/// A text whose last character is not whitespace has a word.
proof fn lemma_words_nonempty(s: Seq<char>)
    requires
        s.len() > 0,
        !is_whitespace(s.last()),
    ensures
        words(s).len() > 0,
    decreases s.len(),
{
    if s.len() >= 2 && !is_whitespace(s[s.len() - 2]) {
        lemma_words_nonempty(s.drop_last());
    }
}

/// Adding a character to the last word adds it to the joined text.
proof fn lemma_join_extend_last(ws: Seq<Seq<char>>, c: char)
    requires
        ws.len() > 0,
    ensures
        join_words(ws.drop_last().push(ws.last().push(c))) == join_words(ws).push(c),
{
    let ws2 = ws.drop_last().push(ws.last().push(c));
    if ws.len() == 1 {
        assert(ws2.len() == 1);
    } else {
        assert(ws2.drop_last() =~= ws.drop_last());
        assert(join_words(ws2) =~= join_words(ws).push(c));
    }
}

/// Adding a word adds a space (unless it is the first) and the word.
proof fn lemma_join_push(ws: Seq<Seq<char>>, w: Seq<char>)
    ensures
        join_words(ws.push(w)) == if ws.len() == 0 {
            w
        } else {
            join_words(ws) + seq![' '] + w
        },
{
    assert(ws.push(w).drop_last() =~= ws);
}

/// Feeds one character into a whitespace-collapsing buffer: `out` holds the
/// collapsed form of the text fed so far and `in_word` tells whether that
/// text ends in a non-whitespace character.
fn feed_char(out: &mut Vec<char>, in_word: &mut bool, c: char, Ghost(text): Ghost<Seq<char>>)
    requires
        old(out)@ == collapse_whitespace(text),
        *old(in_word) == (text.len() > 0 && !is_whitespace(text.last())),
    ensures
        final(out)@ == collapse_whitespace(text.push(c)),
        *final(in_word) == !is_whitespace(c),
{
    let t2 = Ghost(text.push(c));
    assert(t2@.drop_last() =~= text);
    assert(t2@.last() == c);
    if is_whitespace_char(c) {
        *in_word = false;
    } else if *in_word {
        proof {
            lemma_words_nonempty(text);
            lemma_join_extend_last(words(text), c);
            assert(t2@[t2@.len() - 2] == text.last());
        }
        out.push(c);
    } else {
        proof {
            lemma_join_push(words(text), seq![c]);
            if words(text).len() > 0 {
                lemma_words_each_nonempty(text);
                lemma_join_nonempty(words(text));
            } else {
                assert(join_words(words(text)).len() == 0);
            }
        }
        if out.len() > 0 {
            out.push(' ');
        }
        out.push(c);
        proof {
            assert(out@ =~= collapse_whitespace(t2@));
        }
        *in_word = true;
    }
}

/// Joined words are nonempty when there is a word and the first is nonempty.
proof fn lemma_join_nonempty(ws: Seq<Seq<char>>)
    requires
        ws.len() > 0,
        ws[0].len() > 0,
    ensures
        join_words(ws).len() > 0,
    decreases ws.len(),
{
    if ws.len() > 1 {
        lemma_join_nonempty(ws.drop_last());
    }
}

/// Every word has a character.
proof fn lemma_words_each_nonempty(s: Seq<char>)
    ensures
        forall|i: int| 0 <= i < words(s).len() ==> (#[trigger] words(s)[i]).len() > 0,
    decreases s.len(),
{
    if s.len() > 0 {
        lemma_words_each_nonempty(s.drop_last());
        let w = words(s.drop_last());
        let c = s.last();
        if !is_whitespace(c) {
            if s.len() >= 2 && !is_whitespace(s[s.len() - 2]) {
                lemma_words_nonempty(s.drop_last());
                let w2 = w.drop_last().push(w.last().push(c));
                assert forall|i: int| 0 <= i < w2.len() implies (#[trigger] w2[i]).len() > 0 by {
                    if i < w.len() - 1 {
                        assert(w2[i] == w[i]);
                    }
                }
            } else {
                let w2 = w.push(seq![c]);
                assert forall|i: int| 0 <= i < w2.len() implies (#[trigger] w2[i]).len() > 0 by {
                    if i < w.len() {
                        assert(w2[i] == w[i]);
                    }
                }
            }
        }
    }
}

/// The text of the first `k + 1` events is that of the first `k` and the
/// contribution of event `k`.
proof fn lemma_events_text_step(events: Seq<MarkdownEventView>, k: int)
    requires
        0 <= k < events.len(),
    ensures
        events_text(events.take(k + 1)) == events_text(events.take(k)) + event_text(events[k]),
{
    assert(events.take(k + 1).drop_last() =~= events.take(k));
}

/// The collapsed text of parse events, as characters.
fn collapse_events(events: &Vec<MarkdownEvent>) -> (res: Vec<char>)
    ensures
        res@ == collapse_whitespace(events_text(events_view(events@))),
{
    let ghost evs = events_view(events@);
    let mut out: Vec<char> = Vec::new();
    let mut in_word: bool = false;
    let mut k: usize = 0;
    assert(evs.take(0) =~= Seq::<MarkdownEventView>::empty());
    while k < events.len()
        invariant
            0 <= k <= events.len(),
            evs == events_view(events@),
            out@ == collapse_whitespace(events_text(evs.take(k as int))),
            in_word == (events_text(evs.take(k as int)).len() > 0 && !is_whitespace(events_text(evs.take(k as int)).last())),
        decreases events.len() - k,
    {
        let ghost before = events_text(evs.take(k as int));
        proof {
            lemma_events_text_step(evs, k as int);
        }
        match &events[k] {
            MarkdownEvent::Text(t) | MarkdownEvent::Code(t) => {
                let ghost fed = before;
                for c in it: t.chars()
                    invariant
                        it.seq() == t@,
                        fed == before + t@.take(it.index()),
                        out@ == collapse_whitespace(fed),
                        in_word == (fed.len() > 0 && !is_whitespace(fed.last())),
                {
                    feed_char(&mut out, &mut in_word, c, Ghost(fed));
                    proof {
                        assert(before + t@.take(it.index() + 1) =~= fed.push(c));
                        fed = fed.push(c);
                    }
                }
                assert(t@.take(t@.len() as int) =~= t@);
            },
            MarkdownEvent::SoftBreak | MarkdownEvent::HardBreak => {
                feed_char(&mut out, &mut in_word, ' ', Ghost(before));
                assert(before.push(' ') =~= before + seq![' ']);
            },
            MarkdownEvent::Other => {
                assert(before + Seq::<char>::empty() =~= before);
            },
        }
        k = k + 1;
    }
    assert(evs.take(events.len() as int) =~= evs);
    out
}

/// Characters as text, cut to `max_len` of them with `...` after them when
/// there are more.
fn truncate_to_string(chars: &Vec<char>, max_len: usize) -> (res: String)
    ensures
        res@ == truncate_chars(chars@, max_len as nat),
{
    let mut res = String::new();
    let n: usize = if chars.len() > max_len { max_len } else { chars.len() };
    let mut i: usize = 0;
    while i < n
        invariant
            n <= chars.len(),
            0 <= i <= n,
            res@ == chars@.take(i as int),
        decreases n - i,
    {
        push_char(&mut res, chars[i]);
        assert(chars@.take(i + 1) =~= chars@.take(i as int).push(chars@[i as int]));
        i = i + 1;
    }
    if chars.len() > max_len {
        res.append("...");
    } else {
        assert(chars@.take(n as int) =~= chars@);
    }
    res
}

/// The excerpt of parse events: their text, whitespace collapsed, cut to
/// `max_len` characters.
pub fn excerpt_from_events(events: &Vec<MarkdownEvent>, max_len: usize) -> (res: String)
    ensures
        res@ == excerpt_from(events_view(events@), max_len as nat),
{
    let collapsed = collapse_events(events);
    truncate_to_string(&collapsed, max_len)
}

/// The excerpt of a markdown body: the text of its parse events, whitespace
/// collapsed, cut to `max_len` characters (with `...` when cut).
pub fn create_excerpt(markdown: &str, max_len: usize) -> (res: String)
    ensures
        res@ == excerpt_of(markdown@, max_len as nat),
{
    let events = parse_markdown(markdown);
    excerpt_from_events(&events, max_len)
}

/// Whether a text is clean: every whitespace character in it is a single
/// space between two characters that are not whitespace.
pub open spec fn is_clean(c: Seq<char>) -> bool {
    forall|i: int|
        0 <= i < c.len() && is_whitespace(#[trigger] c[i]) ==> {
            &&& c[i] == ' '
            &&& 0 < i < c.len() - 1
            &&& !is_whitespace(c[i - 1])
            &&& !is_whitespace(c[i + 1])
        }
}

/// No word holds whitespace.
proof fn lemma_words_no_whitespace(s: Seq<char>)
    ensures
        forall|i: int, j: int|
            0 <= i < words(s).len() && 0 <= j < words(s)[i].len() ==> !is_whitespace(
                #[trigger] words(s)[i][j],
            ),
    decreases s.len(),
{
    if s.len() > 0 {
        lemma_words_no_whitespace(s.drop_last());
        let w = words(s.drop_last());
        let c = s.last();
        if !is_whitespace(c) {
            if s.len() >= 2 && !is_whitespace(s[s.len() - 2]) {
                lemma_words_nonempty(s.drop_last());
                let w2 = w.drop_last().push(w.last().push(c));
                assert forall|i: int, j: int| 0 <= i < w2.len() && 0 <= j < w2[i].len() implies !is_whitespace(
                    #[trigger] w2[i][j],
                ) by {
                    if i < w.len() - 1 {
                        assert(w2[i] == w[i]);
                    } else if j < w.last().len() {
                        assert(w2[i][j] == w[w.len() - 1][j]);
                    }
                }
            } else {
                let w2 = w.push(seq![c]);
                assert forall|i: int, j: int| 0 <= i < w2.len() && 0 <= j < w2[i].len() implies !is_whitespace(
                    #[trigger] w2[i][j],
                ) by {
                    if i < w.len() {
                        assert(w2[i] == w[i]);
                    }
                }
            }
        }
    }
}

/// Nonempty words without whitespace, joined by single spaces, make a clean
/// text.
proof fn lemma_join_clean(ws: Seq<Seq<char>>)
    requires
        forall|i: int| 0 <= i < ws.len() ==> (#[trigger] ws[i]).len() > 0,
        forall|i: int, j: int| 0 <= i < ws.len() && 0 <= j < ws[i].len() ==> !is_whitespace(#[trigger] ws[i][j]),
    ensures
        is_clean(join_words(ws)),
    decreases ws.len(),
{
    if ws.len() == 1 {
        let c = join_words(ws);
        assert forall|i: int| 0 <= i < c.len() implies !is_whitespace(#[trigger] c[i]) by {
            assert(c[i] == ws[0][i]);
        }
    } else if ws.len() > 1 {
        let rest = ws.drop_last();
        let w = ws.last();
        assert forall|i: int, j: int| 0 <= i < rest.len() && 0 <= j < rest[i].len() implies !is_whitespace(
            #[trigger] rest[i][j],
        ) by {
            assert(rest[i] == ws[i]);
        }
        lemma_join_clean(rest);
        lemma_join_nonempty(rest);
        let a = join_words(rest);
        let c = join_words(ws);
        assert(c == a + seq![' '] + w);
        assert(!is_whitespace(a[a.len() - 1]));
        assert(w.len() > 0);
        assert(!is_whitespace(w[0])) by {
            assert(w == ws[ws.len() - 1]);
        }
        assert forall|i: int| 0 <= i < c.len() && is_whitespace(#[trigger] c[i]) implies {
            &&& c[i] == ' '
            &&& 0 < i < c.len() - 1
            &&& !is_whitespace(c[i - 1])
            &&& !is_whitespace(c[i + 1])
        } by {
            if i < a.len() {
                assert(c[i] == a[i]);
                assert(c[i - 1] == a[i - 1]);
                assert(c[i + 1] == a[i + 1]);
            } else if i == a.len() {
                assert(c[i - 1] == a[a.len() - 1]);
                assert(c[i + 1] == w[0]);
            } else {
                assert(c[i] == w[i - a.len() - 1]);
                assert(w[i - a.len() - 1] == ws[ws.len() - 1][i - a.len() - 1]);
            }
        }
    }
}

/// Collapsing whitespace leaves a clean text: no whitespace at either end,
/// and inside only single spaces.
pub proof fn lemma_collapse_is_clean(s: Seq<char>)
    ensures
        is_clean(collapse_whitespace(s)),
{
    lemma_words_each_nonempty(s);
    lemma_words_no_whitespace(s);
    lemma_join_clean(words(s));
}

/// An excerpt has at most `max_len` characters of the collapsed text and
/// three for `...`; a collapsed text that fits is the excerpt itself.
pub proof fn lemma_excerpt_bounds(events: Seq<MarkdownEventView>, max_len: nat)
    ensures
        excerpt_from(events, max_len).len() <= max_len + 3,
        collapse_whitespace(events_text(events)).len() <= max_len ==> excerpt_from(events, max_len)
            == collapse_whitespace(events_text(events)),
        collapse_whitespace(events_text(events)).len() > max_len ==> excerpt_from(events, max_len)
            == collapse_whitespace(events_text(events)).take(max_len as int) + "..."@,
{
    reveal_strlit("...");
}
/// The text of two runs of events is the text of each, in order.
proof fn lemma_events_text_concat(a: Seq<MarkdownEventView>, b: Seq<MarkdownEventView>)
    ensures
        events_text(a + b) == events_text(a) + events_text(b),
    decreases b.len(),
{
    if b.len() == 0 {
        assert(a + b =~= a);
        assert(events_text(a) + events_text(b) =~= events_text(a));
    } else {
        lemma_events_text_concat(a, b.drop_last());
        assert((a + b).drop_last() =~= a + b.drop_last());
        assert((a + b).last() == b.last());
        assert(events_text(a) + events_text(b.drop_last()) + event_text(b.last()) =~= events_text(a) + (
        events_text(b.drop_last()) + event_text(b.last())));
    }
}

/// The text of a single event is its contribution.
proof fn lemma_events_text_single(e: MarkdownEventView)
    ensures
        events_text(seq![e]) == event_text(e),
{
    let one = seq![e];
    assert(one.drop_last() =~= Seq::<MarkdownEventView>::empty());
    assert(one.last() == e);
    assert(events_text(one.drop_last()) == Seq::<char>::empty());
    assert(Seq::<char>::empty() + event_text(e) =~= event_text(e));
}

/// A hard line break stands for one space in the text of the events around
/// it, as a soft line break does: whatever comes before and after, the two
/// kinds of break give the same text and the same excerpt.
pub proof fn lemma_hard_break_is_a_space(e: Seq<MarkdownEventView>, f: Seq<MarkdownEventView>, max_len: nat)
    ensures
        events_text(e + seq![MarkdownEventView::HardBreak] + f) == events_text(e) + seq![' '] + events_text(f),
        events_text(e + seq![MarkdownEventView::SoftBreak] + f) == events_text(e) + seq![' '] + events_text(f),
        excerpt_from(e + seq![MarkdownEventView::HardBreak] + f, max_len) == excerpt_from(
            e + seq![MarkdownEventView::SoftBreak] + f,
            max_len,
        ),
{
    lemma_events_text_concat(e + seq![MarkdownEventView::HardBreak], f);
    lemma_events_text_concat(e, seq![MarkdownEventView::HardBreak]);
    lemma_events_text_single(MarkdownEventView::HardBreak);
    lemma_events_text_concat(e + seq![MarkdownEventView::SoftBreak], f);
    lemma_events_text_concat(e, seq![MarkdownEventView::SoftBreak]);
    lemma_events_text_single(MarkdownEventView::SoftBreak);
}

/// Whether a text is one word: nonempty, with no whitespace.
pub open spec fn is_word(s: Seq<char>) -> bool {
    s.len() > 0 && forall|i: int| 0 <= i < s.len() ==> !is_whitespace(#[trigger] s[i])
}

/// A single word is its own only word.
proof fn lemma_words_of_word(s: Seq<char>)
    requires
        is_word(s),
    ensures
        words(s) == seq![s],
    decreases s.len(),
{
    if s.len() == 1 {
        assert(s.drop_last() =~= Seq::<char>::empty());
        assert(words(s.drop_last()) == Seq::<Seq<char>>::empty());
        assert(!is_whitespace(s.last()));
        assert(seq![s.last()] =~= s);
        assert(Seq::<Seq<char>>::empty().push(seq![s.last()]) =~= seq![s]);
    } else {
        let t = s.drop_last();
        assert(is_word(t)) by {
            assert forall|i: int| 0 <= i < t.len() implies !is_whitespace(#[trigger] t[i]) by {
                assert(t[i] == s[i]);
            }
        }
        lemma_words_of_word(t);
        assert(!is_whitespace(s[s.len() - 2]));
        assert(!is_whitespace(s.last()));
        assert(t.push(s.last()) =~= s);
        assert(seq![t].drop_last().push(seq![t].last().push(s.last())) =~= seq![s]);
    }
}

/// Two words with a space between are those two words.
proof fn lemma_words_of_two(a: Seq<char>, b: Seq<char>)
    requires
        is_word(a),
        is_word(b),
    ensures
        words(a + seq![' '] + b) == seq![a, b],
    decreases b.len(),
{
    let t = a + seq![' '] + b;
    let c = b.last();
    assert(!is_whitespace(c));
    assert(t.last() == c);
    if b.len() == 1 {
        let u = a + seq![' '];
        assert(t.drop_last() =~= u);
        assert(u.drop_last() =~= a);
        assert(is_whitespace(u.last()));
        lemma_words_of_word(a);
        assert(words(u) == seq![a]);
        assert(t[t.len() - 2] == ' ');
        assert(seq![c] =~= b);
        assert(seq![a].push(seq![c]) =~= seq![a, b]);
    } else {
        let b0 = b.drop_last();
        assert(is_word(b0)) by {
            assert forall|i: int| 0 <= i < b0.len() implies !is_whitespace(#[trigger] b0[i]) by {
                assert(b0[i] == b[i]);
            }
        }
        lemma_words_of_two(a, b0);
        assert(t.drop_last() =~= a + seq![' '] + b0);
        assert(t[t.len() - 2] == b[b.len() - 2]);
        assert(!is_whitespace(b[b.len() - 2]));
        assert(b0.push(c) =~= b);
        assert(seq![a, b0].drop_last().push(seq![a, b0].last().push(c)) =~= seq![a, b]);
    }
}

/// Two words on either side of a hard line break make the excerpt "first
/// word, one space, second word" when it fits: the break keeps them apart.
pub proof fn lemma_hard_break_between_words(a: Seq<char>, b: Seq<char>, max_len: nat)
    requires
        is_word(a),
        is_word(b),
        a.len() + 1 + b.len() <= max_len,
    ensures
        excerpt_from(
            seq![MarkdownEventView::Text(a), MarkdownEventView::HardBreak, MarkdownEventView::Text(b)],
            max_len,
        ) == a + seq![' '] + b,
{
    let evs = seq![MarkdownEventView::Text(a), MarkdownEventView::HardBreak, MarkdownEventView::Text(b)];
    assert(evs =~= seq![MarkdownEventView::Text(a)] + seq![MarkdownEventView::HardBreak] + seq![MarkdownEventView::Text(b)]);
    lemma_hard_break_is_a_space(seq![MarkdownEventView::Text(a)], seq![MarkdownEventView::Text(b)], max_len);
    lemma_events_text_single(MarkdownEventView::Text(a));
    lemma_events_text_single(MarkdownEventView::Text(b));
    assert(events_text(evs) == a + seq![' '] + b);
    lemma_words_of_two(a, b);
    let ws = seq![a, b];
    assert(ws.drop_last() =~= seq![a]);
    assert(join_words(seq![a]) == a);
    assert(join_words(ws) == a + seq![' '] + b);
}
} // verus!
