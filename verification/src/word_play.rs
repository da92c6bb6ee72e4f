//! Pig-latin conversion: splits an expression into whitespace-separated
//! words, moves a leading consonant to the tail of each word (vowels get
//! `-hay`), keeps one trailing punctuation character in place, and joins
//! the words with single spaces.

use vstd::prelude::*;

verus! {

/// A single word held for conversion; never empty.
pub struct PigConverter {
    word: String,
}

impl PigConverter {
    /// The held word.
    pub closed spec fn word_view(self) -> Seq<char> {
        self.word@
    }

    /// Wraps a word; the word must have at least one letter.
    pub fn new(word: &str) -> (r: PigConverter)
        requires
            word@.len() > 0,
        ensures
            r.word_view() == word@,
    {
        PigConverter { word: word.to_owned() }
    }
}

/// A whitespace character in the ASCII range: the horizontal tab through
/// carriage return block, or the space.
pub open spec fn is_space_char(c: char) -> bool {
    c == ' ' || (9 <= c as int && c as int <= 13)
}

/// An ASCII punctuation character: the four blocks between the digits,
/// letters and control characters.
pub open spec fn is_punct_char(c: char) -> bool {
    let i = c as int;
    (0x21 <= i && i <= 0x2f) || (0x3a <= i && i <= 0x40) || (0x5b <= i && i <= 0x60) || (0x7b <= i
        && i <= 0x7e)
}

/// A vowel, in either case.
pub open spec fn is_vowel_char(c: char) -> bool {
    c == 'a' || c == 'e' || c == 'i' || c == 'o' || c == 'u' || c == 'A' || c == 'E' || c == 'I'
        || c == 'O' || c == 'U'
}

/// The lower-case form of an ASCII letter; everything else is unchanged.
pub open spec fn lower_char(c: char) -> char {
    if c == 'A' {
        'a'
    } else if c == 'B' {
        'b'
    } else if c == 'C' {
        'c'
    } else if c == 'D' {
        'd'
    } else if c == 'E' {
        'e'
    } else if c == 'F' {
        'f'
    } else if c == 'G' {
        'g'
    } else if c == 'H' {
        'h'
    } else if c == 'I' {
        'i'
    } else if c == 'J' {
        'j'
    } else if c == 'K' {
        'k'
    } else if c == 'L' {
        'l'
    } else if c == 'M' {
        'm'
    } else if c == 'N' {
        'n'
    } else if c == 'O' {
        'o'
    } else if c == 'P' {
        'p'
    } else if c == 'Q' {
        'q'
    } else if c == 'R' {
        'r'
    } else if c == 'S' {
        's'
    } else if c == 'T' {
        't'
    } else if c == 'U' {
        'u'
    } else if c == 'V' {
        'v'
    } else if c == 'W' {
        'w'
    } else if c == 'X' {
        'x'
    } else if c == 'Y' {
        'y'
    } else if c == 'Z' {
        'z'
    } else {
        c
    }
}

/// One word in pig latin. A word ending in one punctuation character keeps
/// it at the very end and lower-cases a moved consonant; a vowel start
/// earns `-hay`.
pub open spec fn pig_word_chars(w: Seq<char>) -> Seq<char>
    recommends
        w.len() > 0,
{
    if w.len() >= 2 && is_punct_char(w.last()) {
        let core = w.drop_last();
        if is_vowel_char(core[0]) {
            core + "-hay"@ + seq![w.last()]
        } else {
            core.drop_first() + seq!['-', lower_char(core[0])] + "ay"@ + seq![w.last()]
        }
    } else {
        if is_vowel_char(w[0]) {
            w + "-hay"@
        } else {
            w.drop_first() + seq!['-', w[0]] + "ay"@
        }
    }
}

/// The index of the first whitespace character at or after `i`, or the
/// length when none follows.
pub open spec fn word_end(s: Seq<char>, i: int) -> int
    decreases s.len() - i,
{
    if i < 0 || i >= s.len() || is_space_char(s[i]) {
        i
    } else {
        word_end(s, i + 1)
    }
}

proof fn lemma_word_end_bounds(s: Seq<char>, i: int)
    requires
        0 <= i <= s.len(),
    ensures
        i <= word_end(s, i) <= s.len(),
    decreases s.len() - i,
{
    if i < s.len() && !is_space_char(s[i]) {
        lemma_word_end_bounds(s, i + 1);
    }
}

/// The whitespace-separated words of `s` from position `i` on.
pub open spec fn words_from(s: Seq<char>, i: int) -> Seq<Seq<char>>
    decreases s.len() - i when 0 <= i <= s.len() via words_from_decreases
{
    if i < 0 || i >= s.len() {
        Seq::empty()
    } else if is_space_char(s[i]) {
        words_from(s, i + 1)
    } else {
        seq![s.subrange(i, word_end(s, i))] + words_from(s, word_end(s, i))
    }
}

#[via_fn]
proof fn words_from_decreases(s: Seq<char>, i: int) {
    if 0 <= i < s.len() && !is_space_char(s[i]) {
        lemma_word_end_bounds(s, i + 1);
    }
}

/// The whitespace-separated words of `s`, in order, empties skipped.
pub open spec fn words_of(s: Seq<char>) -> Seq<Seq<char>> {
    words_from(s, 0)
}

/// Words joined with one space between neighbours.
pub open spec fn joined(ws: Seq<Seq<char>>) -> Seq<char>
    decreases ws.len(),
{
    if ws.len() == 0 {
        Seq::empty()
    } else if ws.len() == 1 {
        ws[0]
    } else {
        joined(ws.drop_last()) + seq![' '] + ws.last()
    }
}

/// The whole expression in pig latin: every word converted, joined with
/// single spaces; surplus whitespace collapses.
pub open spec fn pig_latin_chars(s: Seq<char>) -> Seq<char> {
    joined(words_of(s).map_values(|w: Seq<char>| pig_word_chars(w)))
}

/// A word the conversion accepts: non-empty, and not a lone punctuation
/// character (a trailing punctuation character must follow at least one
/// letter).
pub open spec fn word_convertible(w: Seq<char>) -> bool {
    w.len() > 0 && (is_punct_char(w.last()) ==> w.len() >= 2)
}

/// True exactly when `c` is ASCII whitespace.
fn is_space(c: char) -> (r: bool)
    ensures
        r == is_space_char(c),
{
    c == ' ' || (c as u32 >= 9 && c as u32 <= 13)
}

/// True exactly when `c` is ASCII punctuation.
fn is_punct(c: char) -> (r: bool)
    ensures
        r == is_punct_char(c),
{
    let i = c as u32;
    (0x21 <= i && i <= 0x2f) || (0x3a <= i && i <= 0x40) || (0x5b <= i && i <= 0x60) || (0x7b <= i
        && i <= 0x7e)
}

/// True exactly when `c` is a vowel, in either case.
fn is_vowel(c: char) -> (r: bool)
    ensures
        r == is_vowel_char(c),
{
    c == 'a' || c == 'e' || c == 'i' || c == 'o' || c == 'u' || c == 'A' || c == 'E' || c == 'I'
        || c == 'O' || c == 'U'
}

/// Appends the lower-case form of the character of `s` at `i`.
fn append_lower(out: &mut String, s: &str, i: usize)
    requires
        s.is_ascii(),
        i < s@.len(),
        i < usize::MAX,
    ensures
        final(out)@ == old(out)@ + seq![lower_char(s@[i as int])],
{
    let c = s.get_char(i);
    proof {
        reveal_strlit("a");
        reveal_strlit("b");
        reveal_strlit("c");
        reveal_strlit("d");
        reveal_strlit("e");
        reveal_strlit("f");
        reveal_strlit("g");
        reveal_strlit("h");
        reveal_strlit("i");
        reveal_strlit("j");
        reveal_strlit("k");
        reveal_strlit("l");
        reveal_strlit("m");
        reveal_strlit("n");
        reveal_strlit("o");
        reveal_strlit("p");
        reveal_strlit("q");
        reveal_strlit("r");
        reveal_strlit("s");
        reveal_strlit("t");
        reveal_strlit("u");
        reveal_strlit("v");
        reveal_strlit("w");
        reveal_strlit("x");
        reveal_strlit("y");
        reveal_strlit("z");
    }
    match c {
        'A' => out.append("a"),
        'B' => out.append("b"),
        'C' => out.append("c"),
        'D' => out.append("d"),
        'E' => out.append("e"),
        'F' => out.append("f"),
        'G' => out.append("g"),
        'H' => out.append("h"),
        'I' => out.append("i"),
        'J' => out.append("j"),
        'K' => out.append("k"),
        'L' => out.append("l"),
        'M' => out.append("m"),
        'N' => out.append("n"),
        'O' => out.append("o"),
        'P' => out.append("p"),
        'Q' => out.append("q"),
        'R' => out.append("r"),
        'S' => out.append("s"),
        'T' => out.append("t"),
        'U' => out.append("u"),
        'V' => out.append("v"),
        'W' => out.append("w"),
        'X' => out.append("x"),
        'Y' => out.append("y"),
        'Z' => out.append("z"),
        _ => {
            let piece = s.substring_ascii(i, i + 1);
            out.append(piece);
            proof {
                assert(piece@ =~= seq![s@[i as int]]);
            }
        },
    }
    proof {
        assert(out@ =~= old(out)@ + seq![lower_char(s@[i as int])]);
    }
}

/// Appends the pig-latin form of the word of `s` spanning `[from, to)`.
fn append_pig_word(out: &mut String, s: &str, from: usize, to: usize)
    requires
        s.is_ascii(),
        from < to <= s@.len(),
        word_convertible(s@.subrange(from as int, to as int)),
    ensures
        final(out)@ == old(out)@ + pig_word_chars(s@.subrange(from as int, to as int)),
{
    let ghost w = s@.subrange(from as int, to as int);
    let last = s.get_char(to - 1);
    let first = s.get_char(from);
    proof {
        assert(w.last() == s@[to - 1]);
        assert(w[0] == s@[from as int]);
        reveal_strlit("-hay");
        reveal_strlit("-");
        reveal_strlit("ay");
    }
    if to - from >= 2 && is_punct(last) {
        proof {
            assert(w.drop_last() =~= s@.subrange(from as int, to - 1));
            assert(w.drop_last().drop_first() =~= s@.subrange(from as int + 1, to - 1));
            assert(w.drop_last()[0] == w[0]);
        }
        if is_vowel(first) {
            out.append(s.substring_ascii(from, to - 1));
            out.append("-hay");
            out.append(s.substring_ascii(to - 1, to));
        } else {
            out.append(s.substring_ascii(from + 1, to - 1));
            out.append("-");
            append_lower(out, s, from);
            out.append("ay");
            out.append(s.substring_ascii(to - 1, to));
        }
    } else {
        proof {
            assert(w.drop_first() =~= s@.subrange(from as int + 1, to as int));
        }
        if is_vowel(first) {
            out.append(s.substring_ascii(from, to));
            out.append("-hay");
        } else {
            out.append(s.substring_ascii(from + 1, to));
            out.append("-");
            out.append(s.substring_ascii(from, from + 1));
            out.append("ay");
        }
    }
    proof {
        assert(out@ =~= old(out)@ + pig_word_chars(w));
    }
}

/// Converts an ASCII expression to pig latin, word by word. Every word
/// must be convertible: a lone punctuation character has no letters to
/// move.
pub fn to_pig_latin(expression: &str) -> (r: String)
    requires
        expression.is_ascii(),
        forall|k: int|
            0 <= k < words_of(expression@).len() ==> word_convertible(
                #[trigger] words_of(expression@)[k],
            ),
    ensures
        r@ == pig_latin_chars(expression@),
{
    let ghost s = expression@;
    let ghost all = words_of(s);
    let n = expression.unicode_len();
    let mut out = String::new();
    let ghost mut processed: Seq<Seq<char>> = Seq::empty();
    let mut first_word: bool = true;
    let mut i: usize = 0;
    while i < n
        invariant
            expression.is_ascii(),
            s == expression@,
            all == words_of(s),
            forall|k: int| 0 <= k < all.len() ==> word_convertible(#[trigger] all[k]),
            n == s.len(),
            0 <= i <= n,
            all == processed + words_from(s, i as int),
            first_word <==> processed.len() == 0,
            out@ == joined(processed.map_values(|w: Seq<char>| pig_word_chars(w))),
        decreases n - i,
    {
        let c = expression.get_char(i);
        if is_space(c) {
            i = i + 1;
            continue ;
        }
        // Scan to the end of the word.
        let mut j: usize = i + 1;
        while j < n && !is_space(expression.get_char(j))
            invariant
                expression.is_ascii(),
                s == expression@,
                n == s.len(),
                i < j <= n,
                forall|k: int| i <= k < j ==> !is_space_char(s[k]),
            decreases n - j,
        {
            j = j + 1;
        }
        proof {
            lemma_word_end_at(s, i as int, j as int);
            assert(words_from(s, i as int) == seq![s.subrange(i as int, j as int)] + words_from(
                s,
                j as int,
            ));
            assert(all[processed.len() as int] == s.subrange(i as int, j as int));
        }
        if !first_word {
            out.append(" ");
        }
        first_word = false;
        append_pig_word(&mut out, expression, i, j);
        proof {
            reveal_strlit(" ");
            let pig = |w: Seq<char>| pig_word_chars(w);
            let word = s.subrange(i as int, j as int);
            assert(processed.push(word).map_values(pig) =~= processed.map_values(pig).push(
                pig_word_chars(word),
            ));
            assert(processed.push(word).map_values(pig).drop_last() =~= processed.map_values(pig));
            processed = processed.push(word);
            assert(out@ =~= joined(processed.map_values(pig)));
            assert(all =~= processed + words_from(s, j as int));
        }
        i = j;
    }
    proof {
        assert(words_from(s, n as int) =~= Seq::<Seq<char>>::empty());
        assert(all =~= processed);
    }
    out
}

proof fn lemma_word_end_at(s: Seq<char>, i: int, j: int)
    requires
        0 <= i < j <= s.len(),
        forall|k: int| i <= k < j ==> !is_space_char(s[k]),
        j == s.len() || is_space_char(s[j]),
    ensures
        word_end(s, i) == j,
    decreases j - i,
{
    if i + 1 < j {
        lemma_word_end_at(s, i + 1, j);
    } else {
        assert(word_end(s, i + 1) == i + 1);
    }
}

} // verus!
