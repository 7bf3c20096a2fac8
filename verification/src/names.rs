//! Blueprint names: from the words of a command line to a file name.

use vstd::prelude::*;
use crate::text::text_views;

verus! {

/// The words of a list, with `sep` between each two.
pub open spec fn joined(words: Seq<Seq<char>>, sep: Seq<char>) -> Seq<char>
    decreases words.len(),
{
    if words.len() == 0 {
        Seq::empty()
    } else if words.len() == 1 {
        words[0]
    } else {
        joined(words.drop_last(), sep) + sep + words.last()
    }
}

/// The file name of the blueprint that the words name: the words with a
/// space between each two, and `.json` behind them.
pub open spec fn file_name_of(words: Seq<Seq<char>>) -> Seq<char> {
    joined(words, " "@) + ".json"@
}

/// The file name of the blueprint that `words` name. A blueprint's name may
/// hold spaces, and the command line hands it over word by word.
pub fn blueprint_file_name(words: &Vec<String>) -> (r: String)
    ensures
        r@ == file_name_of(text_views(words@)),
{
    let ghost texts = text_views(words@);
    let mut r = String::new();
    let mut i: usize = 0;
    while i < words.len()
        invariant
            i <= words.len(),
            texts == text_views(words@),
            r@ == joined(texts.take(i as int), " "@),
        decreases words.len() - i,
    {
        assert(texts.take(i as int + 1).drop_last() =~= texts.take(i as int));
        if i > 0 {
            r.append(" ");
        }
        r.append(words[i].as_str());
        i += 1;
    }
    assert(texts.take(i as int) =~= texts);
    r.append(".json");
    r
}

} // verus!
