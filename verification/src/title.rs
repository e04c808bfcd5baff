//! The title that a session gets from its first prompt.

use crate::text::white_space;
use vstd::prelude::*;
use vstd::string::*;

verus! {

/// The longest prompt that becomes a title as it is, in characters.
pub const TITLE_LEN: usize = 60;

/// Whether a word of `s` ends with its last character.
pub open spec fn ends_in_word(s: Seq<char>) -> bool {
    s.len() > 0 && !crate::text::is_white_space(s.last())
}

/// The words of `s`: its longest runs of characters that are not white space.
pub open spec fn words(s: Seq<char>) -> Seq<Seq<char>>
    decreases s.len(),
{
    if s.len() == 0 {
        Seq::empty()
    } else {
        let before = words(s.drop_last());
        if crate::text::is_white_space(s.last()) {
            before
        } else if ends_in_word(s.drop_last()) {
            before.drop_last().push(before.last().push(s.last()))
        } else {
            before.push(seq![s.last()])
        }
    }
}

/// Words with a space between each two.
pub open spec fn joined(words: Seq<Seq<char>>) -> Seq<char>
    decreases words.len(),
{
    if words.len() == 0 {
        Seq::empty()
    } else if words.len() == 1 {
        words[0]
    } else {
        joined(words.drop_last()) + seq![' '] + words.last()
    }
}

/// A text cut before its last space, if it has one.
pub open spec fn without_last_word(s: Seq<char>) -> Seq<char> {
    match s.index_of_last(' ') {
        Some(i) => s.take(i),
        None => s,
    }
}

/// The title that a prompt gives: its words with a space between each two, and
/// where these are too long, as many of them as fit and an ellipsis. A prompt
/// without words gives a default title.
pub open spec fn title_of(prompt: Seq<char>) -> Seq<char> {
    let text = joined(words(prompt));
    if text.len() == 0 {
        "Codex Chat"@
    } else if text.len() <= TITLE_LEN {
        text
    } else {
        without_last_word(text.take(TITLE_LEN as int)).push('\u{2026}')
    }
}

proof fn words_are_not_empty(s: Seq<char>)
    ensures
        forall|i: int| 0 <= i < words(s).len() ==> (#[trigger] words(s)[i]).len() > 0,
        ends_in_word(s) ==> words(s).len() > 0,
    decreases s.len(),
{
    if s.len() > 0 {
        words_are_not_empty(s.drop_last());
        let before = words(s.drop_last());
        assert forall|i: int| 0 <= i < words(s).len() implies (#[trigger] words(s)[i]).len() > 0 by {
            if i < before.len() - 1 || (i < before.len() && words(s)[i] == before[i]) {
                assert(words(s)[i] == before[i]);
            }
        }
    }
}

proof fn joined_is_empty_only_for_no_words(w: Seq<Seq<char>>)
    requires
        forall|i: int| 0 <= i < w.len() ==> (#[trigger] w[i]).len() > 0,
    ensures
        joined(w).len() == 0 <==> w.len() == 0,
{
    if w.len() == 1 {
        assert(w[0].len() > 0);
    }
}

/// A last word that grows makes the joined text grow.
proof fn joined_grows(w: Seq<Seq<char>>, c: char)
    requires
        w.len() > 0,
    ensures
        joined(w.drop_last().push(w.last().push(c))) == joined(w).push(c),
{
    let longer = w.drop_last().push(w.last().push(c));
    assert(longer.drop_last() =~= w.drop_last());
    assert(joined(longer) =~= joined(w).push(c));
}

/// The words of a prompt with a space between each two.
fn normalized(prompt: &str) -> (r: Vec<char>)
    ensures
        r@ == joined(words(prompt@)),
{
    let mut out: Vec<char> = Vec::new();
    let mut in_word = false;
    let len: usize = prompt.unicode_len();
    let mut chars = prompt.chars();
    let mut i: usize = 0;
    assert(prompt@.take(0) =~= Seq::empty());
    while i < len
        invariant
            i <= len == prompt@.len(),
            vstd::std_specs::iter::IteratorSpec::remaining(&chars) == prompt@.skip(i as int),
            in_word == ends_in_word(prompt@.take(i as int)),
            out@ == joined(words(prompt@.take(i as int))),
        decreases len - i,
    {
        let c = chars.next().unwrap();
        let ghost before = words(prompt@.take(i as int));
        proof {
            assert(prompt@.take(i + 1).drop_last() =~= prompt@.take(i as int));
            assert(prompt@.take(i + 1).last() == c);
            words_are_not_empty(prompt@.take(i as int));
            joined_is_empty_only_for_no_words(before);
        }
        if white_space(c) {
            in_word = false;
        } else if in_word {
            out.push(c);
            in_word = true;
            proof {
                joined_grows(before, c);
            }
        } else {
            if out.len() > 0 {
                out.push(' ');
            }
            out.push(c);
            in_word = true;
            proof {
                assert(before.push(seq![c]).drop_last() =~= before);
                assert(out@ =~= joined(before.push(seq![c])));
            }
        }
        i = i + 1;
    }
    assert(prompt@.take(len as int) =~= prompt@);
    out
}

fn string_of(chars: &Vec<char>, len: usize) -> (r: String)
    requires
        len <= chars@.len(),
    ensures
        r@ == chars@.take(len as int),
{
    let mut out = String::new();
    let mut i: usize = 0;
    while i < len
        invariant
            i <= len <= chars@.len(),
            out@ == chars@.take(i as int),
        decreases len - i,
    {
        out.push(chars[i]);
        assert(chars@.take(i + 1) =~= chars@.take(i as int).push(chars@[i as int]));
        i = i + 1;
    }
    out
}

/// Where a text of `len` characters is cut to drop its last word.
fn cut_before_last_space(chars: &Vec<char>, len: usize) -> (r: usize)
    requires
        len <= chars@.len(),
    ensures
        r <= len,
        chars@.take(r as int) == without_last_word(chars@.take(len as int)),
{
    let ghost text = chars@.take(len as int);
    proof {
        text.index_of_last_ensures(' ');
    }
    let mut i: usize = len;
    while i > 0
        invariant
            i <= len <= chars@.len(),
            text == chars@.take(len as int),
            forall|j: int| i <= j < len ==> text[j] != ' ',
        decreases i,
    {
        if chars[i - 1] == ' ' {
            proof {
                text.index_of_last_ensures(' ');
                assert(text[i - 1] == ' ');
                assert(text.contains(' '));
                let last = text.index_of_last(' ')->0;
                assert(last == i - 1);
                assert(text.take(last) =~= chars@.take(last));
            }
            return i - 1;
        }
        i = i - 1;
    }
    assert(!text.contains(' '));
    len
}

/// The title that a session gets from its first prompt.
pub fn first_turn_title(prompt: &str) -> (r: String)
    ensures
        r@ == title_of(prompt@),
{
    let text = normalized(prompt);
    if text.len() == 0 {
        return "Codex Chat".to_owned();
    }
    if text.len() <= TITLE_LEN {
        assert(text@.take(text@.len() as int) =~= text@);
        return string_of(&text, text.len());
    }
    let cut = cut_before_last_space(&text, TITLE_LEN);
    let mut title = string_of(&text, cut);
    title.push('\u{2026}');
    title
}

/// A title is never empty and has at most one character more than the limit. It
/// is within the limit unless it is the start of one long word.
pub proof fn titles_are_bounded(prompt: Seq<char>)
    ensures
        0 < title_of(prompt).len() <= TITLE_LEN + 1,
        title_of(prompt).len() > TITLE_LEN ==> !joined(words(prompt)).take(
            TITLE_LEN as int,
        ).contains(' '),
{
    reveal_strlit("Codex Chat");
    let text = joined(words(prompt));
    if text.len() > TITLE_LEN {
        text.take(TITLE_LEN as int).index_of_last_ensures(' ');
    }
}

/// The white space around and between the words of a prompt has no part in its
/// title.
pub proof fn titles_depend_on_words_alone(a: Seq<char>, b: Seq<char>)
    requires
        words(a) == words(b),
    ensures
        title_of(a) == title_of(b),
{
}

/// White space parts words: the words of two texts with white space between them
/// are the words of the one and then those of the other.
pub proof fn white_space_parts_words(a: Seq<char>, c: char, b: Seq<char>)
    requires
        crate::text::is_white_space(c),
    ensures
        words(a.push(c) + b) == words(a) + words(b),
    decreases b.len(),
{
    let whole = a.push(c) + b;
    if b.len() == 0 {
        assert(whole =~= a.push(c));
        assert(whole.drop_last() =~= a);
        assert(words(a) + words(b) =~= words(a));
    } else {
        let rest = b.drop_last();
        white_space_parts_words(a, c, rest);
        assert(whole.drop_last() =~= a.push(c) + rest);
        assert(whole.last() == b.last());
        words_are_not_empty(rest);
        if rest.len() == 0 {
            assert(whole.drop_last().last() == c);
        } else {
            assert(whole.drop_last().last() == rest.last());
        }
        assert(ends_in_word(whole.drop_last()) == ends_in_word(rest));
        let before = words(a) + words(rest);
        if crate::text::is_white_space(b.last()) {
        } else if ends_in_word(rest) {
            assert(before.last() == words(rest).last());
            assert(words(whole) =~= words(a) + words(b));
        } else {
            assert(words(whole) =~= words(a) + words(b));
        }
    }
}

/// A text without white space is one word, if it is not empty, and nothing has no
/// words.
pub proof fn unbroken_texts_are_words(s: Seq<char>)
    requires
        forall|i: int| 0 <= i < s.len() ==> !crate::text::is_white_space(#[trigger] s[i]),
    ensures
        words(s) == (if s.len() == 0 {
            Seq::<Seq<char>>::empty()
        } else {
            seq![s]
        }),
    decreases s.len(),
{
    if s.len() > 0 {
        let rest = s.drop_last();
        assert forall|i: int| 0 <= i < rest.len() implies !crate::text::is_white_space(
            #[trigger] rest[i],
        ) by {
            assert(rest[i] == s[i]);
        }
        unbroken_texts_are_words(rest);
        assert(!crate::text::is_white_space(s[s.len() - 1]));
        if rest.len() > 0 {
            assert(!crate::text::is_white_space(rest[rest.len() - 1]));
            assert(words(rest).drop_last() =~= Seq::empty());
            assert(rest.push(s.last()) =~= s);
            assert(words(s) =~= seq![s]);
        } else {
            assert(seq![s.last()] =~= s);
            assert(words(s) =~= seq![s]);
        }
    }
}

/// Joining puts one space between the words of one list and those of the next, and
/// leaves a single word as it is.
pub proof fn joining_puts_one_space(a: Seq<Seq<char>>, b: Seq<Seq<char>>, w: Seq<char>)
    ensures
        joined(Seq::empty()) == Seq::<char>::empty(),
        joined(seq![w]) == w,
        a.len() > 0 && b.len() > 0 ==> joined(a + b) == joined(a) + seq![' '] + joined(b),
    decreases b.len(),
{
    if a.len() > 0 && b.len() > 0 {
        let whole = a + b;
        let rest = b.drop_last();
        assert(whole.drop_last() =~= a + rest);
        assert(whole.last() == b.last());
        joining_puts_one_space(a, rest, w);
        if rest.len() == 0 {
            assert(a + rest =~= a);
            assert(joined(b) == b.last());
        } else {
            assert(joined(whole) =~= joined(a) + seq![' '] + joined(b));
        }
    }
}

proof fn words_hold_no_space(s: Seq<char>)
    ensures
        forall|i: int| 0 <= i < words(s).len() ==> !(#[trigger] words(s)[i]).contains(' '),
    decreases s.len(),
{
    if s.len() > 0 {
        words_hold_no_space(s.drop_last());
        words_are_not_empty(s.drop_last());
        let before = words(s.drop_last());
        let all = words(s);
        assert forall|i: int| 0 <= i < all.len() implies !(#[trigger] all[i]).contains(' ') by {
            if crate::text::is_white_space(s.last()) {
                assert(all[i] == before[i]);
            } else if i < all.len() - 1 {
                assert(all[i] == before[i]);
            } else if ends_in_word(s.drop_last()) {
                let w = before.last();
                assert(!before[before.len() - 1].contains(' '));
                assert(all[i] == w.push(s.last()));
                assert forall|j: int| 0 <= j < all[i].len() implies all[i][j] != ' ' by {
                    if j < w.len() {
                        assert(w[j] == all[i][j]);
                    }
                }
            }
        }
    }
}

/// The first words of a list, joined, are how all of them, joined, begin; a space
/// follows them unless they are all.
proof fn joined_begins(w: Seq<Seq<char>>, k: int)
    requires
        0 < k <= w.len(),
    ensures
        joined(w.take(k)).len() <= joined(w).len(),
        joined(w).take(joined(w.take(k)).len() as int) == joined(w.take(k)),
        k < w.len() ==> joined(w.take(k)).len() < joined(w).len() && joined(w)[joined(
            w.take(k),
        ).len() as int] == ' ',
{
    if k < w.len() {
        joining_puts_one_space(w.take(k), w.skip(k), Seq::empty());
        assert(w.take(k) + w.skip(k) =~= w);
        let first = joined(w.take(k));
        assert(joined(w).take(first.len() as int) =~= first);
    } else {
        assert(w.take(k) =~= w);
        assert(joined(w).take(joined(w).len() as int) =~= joined(w));
    }
}

/// Where a space stands in joined words, some of the words end.
proof fn spaces_end_words(w: Seq<Seq<char>>, i: int) -> (k: int)
    requires
        forall|j: int| 0 <= j < w.len() ==> !(#[trigger] w[j]).contains(' '),
        0 <= i < joined(w).len(),
        joined(w)[i] == ' ',
    ensures
        0 < k < w.len(),
        joined(w.take(k)).len() == i,
    decreases w.len(),
{
    if w.len() == 1 {
        assert(!w[0].contains(' '));
        0
    } else {
        let rest = w.drop_last();
        let n = joined(rest).len() as int;
        assert(w.take(w.len() - 1) =~= rest);
        if i < n {
            assert forall|j: int| 0 <= j < rest.len() implies !(#[trigger] rest[j]).contains(
                ' ',
            ) by {
                assert(rest[j] == w[j]);
            }
            assert(joined(rest)[i] == ' ');
            let k = spaces_end_words(rest, i);
            assert(rest.take(k) =~= w.take(k));
            k
        } else if i == n {
            w.len() - 1
        } else {
            assert(joined(w)[i] == w.last()[i - n - 1]);
            assert(!w[w.len() - 1].contains(' '));
            0
        }
    }
}

proof fn joined_of_more_is_longer(w: Seq<Seq<char>>, k: int, n: int)
    requires
        0 < k < n <= w.len(),
    ensures
        joined(w.take(k)).len() < joined(w.take(n)).len(),
{
    joined_begins(w.take(n), k);
    assert(w.take(n).take(k) =~= w.take(k));
}

/// A prompt without words gets the default title. One whose words, with a space
/// between each two, are at most 60 characters long gets these as its title.
pub proof fn short_prompts_are_their_own_title(prompt: Seq<char>)
    ensures
        words(prompt).len() == 0 ==> title_of(prompt) == "Codex Chat"@,
        words(prompt).len() > 0 && joined(words(prompt)).len() <= 60 ==> title_of(prompt)
            == joined(words(prompt)),
{
    words_are_not_empty(prompt);
    joined_is_empty_only_for_no_words(words(prompt));
}

/// A prompt that is too long, and does not begin with a word of 60 characters or
/// more, gets whole words as its title: as many of its first words as leave room
/// for a space within 60 characters, and then an ellipsis.
pub proof fn long_titles_are_whole_words(prompt: Seq<char>)
    requires
        joined(words(prompt)).len() > 60,
        words(prompt)[0].len() < 60,
    ensures
        exists|k: int|
            0 < k < words(prompt).len() && #[trigger] joined(words(prompt).take(k)).len() < 60
                && joined(words(prompt).take(k + 1)).len() >= 60 && title_of(prompt) == joined(
                words(prompt).take(k),
            ).push('\u{2026}'),
        forall|k: int|
            0 < k < words(prompt).len() && #[trigger] joined(words(prompt).take(k)).len() < 60
                ==> joined(words(prompt).take(k)).len() + 1 <= title_of(prompt).len(),
{
    let w = words(prompt);
    let text = joined(w);
    let head = text.take(60);
    words_hold_no_space(prompt);
    assert(w.len() > 1) by {
        if w.len() == 1 {
            assert(text == w[0]);
        }
    }
    joined_begins(w, 1);
    assert(w.take(1) =~= seq![w[0]]);
    joining_puts_one_space(w, w, w[0]);
    assert(head[w[0].len() as int] == ' ');
    assert(head.contains(' '));
    head.index_of_last_ensures(' ');
    let last = head.index_of_last(' ')->0;
    let k = spaces_end_words(w, last);
    joined_begins(w, k);
    assert(head.take(last) =~= text.take(last));
    assert(title_of(prompt) == joined(w.take(k)).push('\u{2026}'));
    assert(joined(w.take(k + 1)).len() >= 60) by {
        joined_begins(w, k + 1);
        if k + 1 < w.len() {
            let next = joined(w.take(k + 1)).len() as int;
            joined_of_more_is_longer(w, k, k + 1);
            if next < 60 {
                assert(head[next] == ' ');
            }
        } else {
            assert(w.take(k + 1) =~= w);
        }
    }
    assert forall|n: int| 0 < n < w.len() && #[trigger] joined(w.take(n)).len() < 60 implies joined(
        w.take(n),
    ).len() + 1 <= title_of(prompt).len() by {
        joined_begins(w, n);
        assert(head[joined(w.take(n)).len() as int] == ' ');
    }
}

/// A prompt that is too long and begins with a word of 60 characters or more gets
/// the first 60 characters of that word as its title, and then an ellipsis.
pub proof fn one_long_word_is_cut(prompt: Seq<char>)
    requires
        joined(words(prompt)).len() > 60,
        words(prompt)[0].len() >= 60,
    ensures
        title_of(prompt) == words(prompt)[0].take(60).push('\u{2026}'),
{
    let w = words(prompt);
    let text = joined(w);
    let head = text.take(60);
    words_hold_no_space(prompt);
    words_are_not_empty(prompt);
    assert(w.len() > 0);
    joined_begins(w, 1);
    assert(w.take(1) =~= seq![w[0]]);
    joining_puts_one_space(w, w, w[0]);
    assert(head =~= w[0].take(60));
    assert(!head.contains(' ')) by {
        if head.contains(' ') {
            let i = choose|i: int| 0 <= i < head.len() && head[i] == ' ';
            assert(w[0][i] == ' ');
            assert(!w[0].contains(' '));
        }
    }
    head.index_of_last_ensures(' ');
}

}
