//! Text building shared by the status lines and the runner's command line.

use vstd::prelude::*;

verus! {

/// The words of `words` in order, with `sep` between each two neighbours.
/// No word gives the empty text; one word gives that word alone.
pub open spec fn joined(words: Seq<Seq<char>>, sep: Seq<char>) -> Seq<char>
    decreases words.len(),
{
    if words.len() == 0 {
        Seq::empty()
    } else if words.len() == 1 {
        words[0]
    } else {
        joined(words.drop_last(), sep) + sep + words.last()
    }
}

/// Joining words that all have a letter gives a text with a letter, as soon
/// as there is one word.
pub proof fn lemma_joined_nonempty(words: Seq<Seq<char>>, sep: Seq<char>)
    requires
        words.len() > 0,
        forall|i: int| 0 <= i < words.len() ==> (#[trigger] words[i]).len() > 0,
    ensures
        joined(words, sep).len() > 0,
{
    assert(words.last().len() > 0);
}

/// How a flag reads in a status line.
pub open spec fn flag_text(flag: bool) -> Seq<char> {
    if flag {
        "true"@
    } else {
        "false"@
    }
}

/// Joins `words` with `sep` between them.
pub fn join(words: &Vec<&str>, sep: &str) -> (text: String)
    ensures
        text@ == joined(words.deep_view(), sep@),
{
    let mut text = String::new();
    let mut i: usize = 0;
    while i < words.len()
        invariant
            i <= words.len(),
            text@ == joined(words.deep_view().take(i as int), sep@),
        decreases words.len() - i,
    {
        if i > 0 {
            text.append(sep);
        }
        text.append(words[i]);
        proof {
            let before = words.deep_view().take(i as int);
            let after = words.deep_view().take(i + 1);
            assert(after.drop_last() =~= before);
            assert(after.last() == words[i as int]@);
        }
        i += 1;
    }
    proof {
        assert(words.deep_view().take(words.len() as int) =~= words.deep_view());
    }
    text
}

/// The word that a status line shows for `flag`.
pub fn flag_word(flag: bool) -> (word: &'static str)
    ensures
        word@ == flag_text(flag),
{
    if flag {
        "true"
    } else {
        "false"
    }
}

} // verus!
