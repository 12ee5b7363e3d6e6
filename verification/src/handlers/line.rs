//! A line of text from the user, cut into words.

use vstd::prelude::*;
use vstd::std_specs::iter::IteratorSpec;

verus! {

/// The characters that Unicode counts as white space.
pub open spec fn white_space(c: char) -> bool {
    let n = c as u32;
    (0x09 <= n && n <= 0x0d) || n == 0x20 || n == 0x85 || n == 0xa0 || n == 0x1680 || (0x2000 <= n && n
        <= 0x200a) || n == 0x2028 || n == 0x2029 || n == 0x202f || n == 0x205f || n == 0x3000
}

/// Whether a character separates words.
pub fn is_whitespace(c: char) -> (w: bool)
    ensures
        w == white_space(c),
{
    let n: u32 = c as u32;
    (0x09 <= n && n <= 0x0d) || n == 0x20 || n == 0x85 || n == 0xa0 || n == 0x1680 || (0x2000 <= n && n
        <= 0x200a) || n == 0x2028 || n == 0x2029 || n == 0x202f || n == 0x205f || n == 0x3000
}

/// The characters of a string, in order.
pub fn chars_of(s: &str) -> (chars: Vec<char>)
    ensures
        chars@ == s@,
{
    let mut chars: Vec<char> = Vec::new();
    let mut it = s.chars();
    let ghost all = it.remaining();
    assert(all == s@) by {
        broadcast use vstd::string::axiom_spec_iter;
    }
    loop
        invariant
            it.obeys_prophetic_iter_laws(),
            it.decrease() is Some,
            chars@ + it.remaining() == all,
            all == s@,
        decreases it.decrease()->0,
    {
        let ghost before = it.remaining();
        match it.next() {
            Some(c) => {
                proof {
                    broadcast use vstd::string::next_postcondition;
                    assert(chars@.push(c) + before.drop_first() =~= chars@ + before);
                }
                chars.push(c);
            },
            None => {
                proof {
                    broadcast use vstd::string::next_postcondition;
                    assert(chars@ + before =~= chars@);
                }
                return chars;
            },
        }
    }
}

/// What is left to split off `line` when `current` holds the characters of
/// the word that is being read.
pub open spec fn split(line: Seq<char>, current: Seq<char>) -> Seq<Seq<char>>
    decreases line.len(),
{
    let done = if current.len() > 0 {
        seq![current]
    } else {
        Seq::empty()
    };
    if line.len() == 0 {
        done
    } else if white_space(line[0]) {
        done + split(line.drop_first(), Seq::empty())
    } else {
        split(line.drop_first(), current.push(line[0]))
    }
}

/// The words of a line: its longest runs of characters that are no white
/// space, in order.
pub open spec fn words(line: Seq<char>) -> Seq<Seq<char>> {
    split(line, Seq::empty())
}

/// A word: not empty, and without white space.
pub open spec fn is_word(word: Seq<char>) -> bool {
    word.len() > 0 && forall|j: int| 0 <= j < word.len() ==> !white_space(#[trigger] word[j])
}

/// What is split off a line are words, if what was read of the current word
/// holds no white space.
pub proof fn lemma_split_gives_words(line: Seq<char>, current: Seq<char>)
    requires
        forall|j: int| 0 <= j < current.len() ==> !white_space(#[trigger] current[j]),
    ensures
        forall|i: int| 0 <= i < split(line, current).len() ==> is_word(#[trigger] split(line, current)[i]),
    decreases line.len(),
{
    let all = split(line, current);
    if line.len() == 0 {
        assert forall|i: int| 0 <= i < all.len() implies is_word(#[trigger] all[i]) by {
            assert(all[i] == current);
        }
    } else if white_space(line[0]) {
        lemma_split_gives_words(line.drop_first(), Seq::empty());
        let rest = split(line.drop_first(), Seq::empty());
        assert forall|i: int| 0 <= i < all.len() implies is_word(#[trigger] all[i]) by {
            if current.len() > 0 {
                if i > 0 {
                    assert(all[i] == rest[i - 1]);
                } else {
                    assert(all[i] == current);
                }
            } else {
                assert(all =~= rest);
            }
        }
    } else {
        let longer = current.push(line[0]);
        assert forall|j: int| 0 <= j < longer.len() implies !white_space(#[trigger] longer[j]) by {
            if j < current.len() {
                assert(longer[j] == current[j]);
            }
        }
        lemma_split_gives_words(line.drop_first(), longer);
        assert(all == split(line.drop_first(), longer));
    }
}

/// Every word of a line is a word: it is not empty and holds no white space.
pub proof fn lemma_words_are_words(line: Seq<char>)
    ensures
        forall|i: int| 0 <= i < words(line).len() ==> is_word(#[trigger] words(line)[i]),
{
    lemma_split_gives_words(line, Seq::empty());
}

/// The words with one space between each two.
pub open spec fn join_words(list: Seq<Seq<char>>) -> Seq<char>
    decreases list.len(),
{
    if list.len() == 0 {
        Seq::empty()
    } else if list.len() == 1 {
        list[0]
    } else {
        list[0] + (seq![' '] + join_words(list.drop_first()))
    }
}

/// The character sequences that a vector of words holds.
pub open spec fn word_views(list: Seq<Vec<char>>) -> Seq<Seq<char>> {
    Seq::new(list.len(), |i: int| list[i]@)
}

/// The upper-case form of a string, after Unicode's full case mapping.
pub uninterp spec fn uppercase(s: Seq<char>) -> Seq<char>;

/// `String::from_iter` over the characters: the string that holds exactly
/// them, in order.
#[verifier::external_body]
pub(crate) fn string_of(chars: &[char]) -> (s: String)
    ensures
        s@ == chars@,
{
    String::from_iter(chars.iter())
}

/// `str::to_uppercase`: the upper-case form of the string.
#[verifier::external_body]
pub(crate) fn to_uppercase(s: &str) -> (upper: String)
    ensures
        upper@ == uppercase(s@),
{
    s.to_uppercase()
}

/// Cuts a line into its words.
pub fn split_words(line: &str) -> (list: Vec<Vec<char>>)
    ensures
        word_views(list@) == words(line@),
{
    let chars = chars_of(line);
    let mut list: Vec<Vec<char>> = Vec::new();
    let mut current: Vec<char> = Vec::new();
    let mut i: usize = 0;
    proof {
        assert(chars@.skip(0) =~= chars@);
        assert(word_views(list@) + split(chars@.skip(0), current@) =~= words(line@));
    }
    while i < chars.len()
        invariant
            i <= chars.len(),
            chars@ == line@,
            word_views(list@) + split(chars@.skip(i as int), current@) == words(line@),
        decreases chars.len() - i,
    {
        let c = chars[i];
        proof {
            assert(chars@.skip(i as int).drop_first() =~= chars@.skip(i as int + 1));
            assert(chars@.skip(i as int)[0] == c);
        }
        if is_whitespace(c) {
            if current.len() > 0 {
                proof {
                    assert(word_views(list@.push(current)) =~= word_views(list@) + seq![current@]);
                    assert(word_views(list@.push(current)) + split(chars@.skip(i as int + 1), Seq::empty())
                        =~= word_views(list@) + split(chars@.skip(i as int), current@));
                }
                list.push(current);
                current = Vec::new();
            } else {
                proof {
                    assert(current@ =~= Seq::<char>::empty());
                    assert(word_views(list@) + split(chars@.skip(i as int + 1), current@) =~= word_views(list@)
                        + split(chars@.skip(i as int), current@));
                }
            }
        } else {
            let ghost word = current@;
            current.push(c);
            proof {
                assert(split(chars@.skip(i as int), word) == split(chars@.skip(i as int + 1), word.push(c)));
            }
        }
        i += 1;
    }
    proof {
        assert(chars@.skip(i as int) =~= Seq::<char>::empty());
    }
    if current.len() > 0 {
        proof {
            assert(word_views(list@.push(current)) =~= word_views(list@) + seq![current@]);
        }
        list.push(current);
    } else {
        proof {
            assert(word_views(list@) + Seq::<Seq<char>>::empty() =~= word_views(list@));
        }
    }
    list
}

/// Joining one more word adds a space and the word, or the word alone where
/// it is the first.
pub proof fn lemma_join_words_push(list: Seq<Seq<char>>, word: Seq<char>)
    ensures
        join_words(list.push(word)) == if list.len() == 0 {
            word
        } else {
            join_words(list) + (seq![' '] + word)
        },
    decreases list.len(),
{
    if list.len() == 0 {
        assert(list.push(word)[0] == word);
    } else if list.len() == 1 {
        assert(list.push(word).drop_first() =~= seq![word]);
        assert(join_words(seq![word]) == word);
        assert(join_words(list.push(word)) =~= join_words(list) + (seq![' '] + word));
    } else {
        lemma_join_words_push(list.drop_first(), word);
        assert(list.push(word).drop_first() =~= list.drop_first().push(word));
        assert(join_words(list.push(word)) =~= join_words(list) + (seq![' '] + word));
    }
}

/// Joins the words from index `from` on with single spaces.
pub fn join_from(list: &Vec<Vec<char>>, from: usize) -> (joined: String)
    requires
        from <= list.len(),
    ensures
        joined@ == join_words(word_views(list@).skip(from as int)),
{
    let ghost tail = word_views(list@).skip(from as int);
    let mut out: Vec<char> = Vec::new();
    let mut i: usize = from;
    while i < list.len()
        invariant
            from <= i <= list.len(),
            tail == word_views(list@).skip(from as int),
            out@ == join_words(tail.take(i - from)),
        decreases list.len() - i,
    {
        if i > from {
            out.push(' ');
        }
        let word = &list[i];
        let ghost before = out@;
        let mut j: usize = 0;
        while j < word.len()
            invariant
                j <= word.len(),
                out@ == before + word@.take(j as int),
            decreases word.len() - j,
        {
            out.push(word[j]);
            proof {
                assert(word@.take(j as int + 1) =~= word@.take(j as int).push(word@[j as int]));
            }
            j += 1;
        }
        proof {
            assert(word@.take(j as int) =~= word@);
            lemma_join_words_push(tail.take(i - from), tail[i - from]);
            assert(tail.take(i - from + 1) =~= tail.take(i - from).push(tail[i - from]));
            assert(tail[i - from] == word@);
            assert(out@ =~= join_words(tail.take(i - from + 1)));
        }
        i += 1;
    }
    proof {
        assert(tail.take(i - from) =~= tail);
    }
    string_of(out.as_slice())
}

} // verus!
