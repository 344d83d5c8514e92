//! Text that goes to files, and the places where a program is looked for.

use crate::api::cmd::joined;
use vstd::prelude::*;

verus! {

/// The items in a row, each followed by a line feed.
pub open spec fn lines_of(items: Seq<Seq<char>>) -> Seq<char>
    decreases items.len(),
{
    if items.len() == 0 {
        Seq::empty()
    } else {
        lines_of(items.drop_last()) + items.last() + seq!['\n']
    }
}

/// Turns a list of strings into one string of lines.
pub fn lines(arr: Vec<String>) -> (text: String)
    ensures
        text@ == lines_of(Seq::new(arr@.len(), |i: int| arr@[i]@)),
{
    let ghost items = Seq::new(arr@.len(), |i: int| arr@[i]@);
    let mut text = String::new();
    let mut i: usize = 0;
    proof {
        reveal_strlit("\n");
    }
    while i < arr.len()
        invariant
            i <= arr@.len(),
            items == Seq::new(arr@.len(), |i: int| arr@[i]@),
            text@ == lines_of(items.take(i as int)),
            "\n"@ == seq!['\n'],
        decreases arr@.len() - i,
    {
        assert(items.take(i + 1).drop_last() =~= items.take(i as int));
        assert(items.take(i + 1).last() == arr@[i as int]@);
        text.append(arr[i].as_str());
        text.append("\n");
        i = i + 1;
    }
    assert(items.take(i as int) =~= items);
    text
}

/// The pieces of `s` between the occurrences of `sep`: one piece more than
/// there are separators, empty pieces included.
pub open spec fn split_on(s: Seq<char>, sep: char) -> Seq<Seq<char>>
    decreases s.len(),
{
    if s.len() == 0 {
        seq![Seq::empty()]
    } else {
        let before = split_on(s.drop_last(), sep);
        if s.last() == sep {
            before.push(Seq::empty())
        } else {
            before.drop_last().push(before.last().push(s.last()))
        }
    }
}

/// Splitting never gives an empty list, no piece holds the separator, and
/// the pieces joined by the separator are the text again.
pub proof fn lemma_split_on(s: Seq<char>, sep: char)
    ensures
        split_on(s, sep).len() >= 1,
        forall|i: int, j: int|
            0 <= i < split_on(s, sep).len() && 0 <= j < split_on(s, sep)[i].len() ==> split_on(
                s,
                sep,
            )[i][j] != sep,
        joined(split_on(s, sep), seq![sep]) == s,
    decreases s.len(),
{
    let pieces = split_on(s, sep);
    if s.len() == 0 {
        assert(joined(pieces, seq![sep]) =~= s);
    } else {
        let before = split_on(s.drop_last(), sep);
        lemma_split_on(s.drop_last(), sep);
        if s.last() == sep {
            assert(pieces.drop_last() =~= before);
            assert(joined(pieces, seq![sep]) =~= s.drop_last() + seq![sep] + Seq::empty());
            assert(s.drop_last() + seq![sep] + Seq::<char>::empty() =~= s);
        } else {
            let grown = before.last().push(s.last());
            assert(pieces.last() == grown);
            assert(pieces.drop_last() =~= before.drop_last());
            if before.len() == 1 {
                assert(before[0] == s.drop_last());
                assert(grown =~= s);
            } else {
                assert(joined(before, seq![sep]) == joined(before.drop_last(), seq![sep]) + seq![
                    sep,
                ] + before.last());
                assert(joined(pieces, seq![sep]) =~= joined(before, seq![sep]).push(s.last()));
                assert(s.drop_last().push(s.last()) =~= s);
            }
        }
    }
}

/// Splits `s` at every `sep`.
pub fn split(s: &str, sep: char) -> (pieces: Vec<String>)
    ensures
        Seq::new(pieces@.len(), |i: int| pieces@[i]@) == split_on(s@, sep),
{
    let n = s.unicode_len();
    let mut pieces: Vec<String> = Vec::new();
    let mut start: usize = 0;
    let mut i: usize = 0;
    assert(s@.take(0).len() == 0);
    assert(s@.subrange(0, 0) =~= Seq::empty());
    assert(split_on(s@.take(0), sep) =~= Seq::new(pieces@.len(), |k: int| pieces@[k]@).push(
        s@.subrange(0, 0),
    ));
    while i < n
        invariant
            n == s@.len(),
            start <= i <= n,
            split_on(s@.take(i as int), sep) == Seq::new(pieces@.len(), |k: int| pieces@[k]@).push(
                s@.subrange(start as int, i as int),
            ),
        decreases n - i,
    {
        let ghost done = Seq::new(pieces@.len(), |k: int| pieces@[k]@);
        let ghost before = split_on(s@.take(i as int), sep);
        assert(s@.take(i + 1).drop_last() =~= s@.take(i as int));
        assert(s@.take(i + 1).last() == s@[i as int]);
        assert(before.drop_last() =~= done);
        if s.get_char(i) == sep {
            pieces.push(s.substring_char(start, i).to_owned());
            start = i + 1;
            assert(Seq::new(pieces@.len(), |k: int| pieces@[k]@) =~= before);
            assert(s@.subrange(start as int, i + 1) =~= Seq::empty());
        } else {
            assert(s@.subrange(start as int, i + 1) =~= s@.subrange(start as int, i as int).push(
                s@[i as int],
            ));
        }
        i = i + 1;
    }
    assert(s@.take(n as int) =~= s@);
    pieces.push(s.substring_char(start, n).to_owned());
    assert(Seq::new(pieces@.len(), |k: int| pieces@[k]@) =~= split_on(s@, sep));
    pieces
}

/// The places where a program called `name` may be, in the order in which
/// they are tried: the current directory first, then each directory of the
/// search path `path`, whose entries are separated by colons.
pub open spec fn which_candidates_of(name: Seq<char>, path: Option<Seq<char>>) -> Seq<Seq<char>> {
    let dirs = match path {
        Some(path) => split_on(path, ':'),
        None => Seq::empty(),
    };
    seq![seq!['.', '/'] + name] + Seq::new(dirs.len(), |i: int| dirs[i] + seq!['/'] + name)
}

/// Lists the places where a program called `name` may be.
pub fn which_candidates(name: &str, path: Option<&str>) -> (places: Vec<String>)
    ensures
        Seq::new(places@.len(), |i: int| places@[i]@) == which_candidates_of(
            name@,
            match path {
                Some(path) => Some(path@),
                None => None,
            },
        ),
{
    proof {
        reveal_strlit("./");
        reveal_strlit("/");
    }
    let ghost wanted = which_candidates_of(
        name@,
        match path {
            Some(path) => Some(path@),
            None => None,
        },
    );
    let mut places: Vec<String> = Vec::new();
    let mut here = "./".to_owned();
    here.append(name);
    assert(here@ =~= seq!['.', '/'] + name@);
    places.push(here);
    match path {
        Some(path) => {
            let dirs = split(path, ':');
            let mut i: usize = 0;
            while i < dirs.len()
                invariant
                    i <= dirs@.len(),
                    "/"@ == seq!['/'],
                    Seq::new(dirs@.len(), |k: int| dirs@[k]@) == split_on(path@, ':'),
                    wanted == which_candidates_of(name@, Some(path@)),
                    places@.len() == i + 1,
                    forall|k: int| 0 <= k < places@.len() ==> places@[k]@ == wanted[k],
                decreases dirs@.len() - i,
            {
                let ghost dir = Seq::new(dirs@.len(), |k: int| dirs@[k]@)[i as int];
                let mut place = dirs[i].clone();
                place.append("/");
                place.append(name);
                assert(place@ =~= dir + seq!['/'] + name@);
                places.push(place);
                i = i + 1;
            }
            assert(split_on(path@, ':').len() == dirs@.len());
        },
        None => {},
    }
    assert(Seq::new(places@.len(), |i: int| places@[i]@) =~= wanted);
    places
}

} // verus!
