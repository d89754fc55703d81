//! Reading one line of input: splitting it into words and telling a command
//! from the request to leave and from a blank line.

use vstd::prelude::*;

verus! {

/// What one line of input asks for.
#[derive(Debug, PartialEq, Eq)]
pub enum Input {
    /// Run the named command with the given arguments, in order.
    Command(String, Vec<String>),
    /// The line holds no word.
    Empty,
    /// Leave the session.
    Exit,
}

/// The mathematical value of an [`Input`].
pub enum InputView {
    Command(Seq<char>, Seq<Seq<char>>),
    Empty,
    Exit,
}

/// The characters of each string of `v`, in order.
pub open spec fn texts(v: Seq<String>) -> Seq<Seq<char>> {
    Seq::new(v.len(), |i: int| v[i]@)
}

impl View for Input {
    type V = InputView;

    open spec fn view(&self) -> InputView {
        match self {
            Input::Command(name, args) => InputView::Command(name@, texts(args@)),
            Input::Empty => InputView::Empty,
            Input::Exit => InputView::Exit,
        }
    }
}

/// The character that separates words. Tabs and other blanks are ordinary
/// characters of a word.
pub open spec fn is_separator(c: char) -> bool {
    c == ' '
}

/// The word that ends the session.
pub open spec fn exit_token() -> Seq<char> {
    seq!['e', 'x', 'i', 't']
}

/// `line` cut at every separator: one piece more than there are separators,
/// some of them empty.
pub open spec fn pieces(line: Seq<char>) -> Seq<Seq<char>>
    decreases line.len(),
{
    if line.len() == 0 {
        seq![Seq::empty()]
    } else {
        let before = pieces(line.drop_last());
        if is_separator(line.last()) {
            before.push(Seq::empty())
        } else {
            before.drop_last().push(before.last().push(line.last()))
        }
    }
}

/// The pieces of `all` that hold at least one character, in order.
pub open spec fn non_empty(all: Seq<Seq<char>>) -> Seq<Seq<char>>
    decreases all.len(),
{
    if all.len() == 0 {
        Seq::empty()
    } else if all.last().len() > 0 {
        non_empty(all.drop_last()).push(all.last())
    } else {
        non_empty(all.drop_last())
    }
}

/// The words of `line`: its maximal runs of characters other than the
/// separator, from left to right.
pub open spec fn words(line: Seq<char>) -> Seq<Seq<char>> {
    non_empty(pieces(line))
}

/// What `line` asks for: nothing when it holds no word, to leave when its
/// first word is the exit token (whatever follows), else to run the first
/// word as a command on the remaining words.
pub open spec fn parsed(line: Seq<char>) -> InputView {
    let w = words(line);
    if w.len() == 0 {
        InputView::Empty
    } else if w[0] == exit_token() {
        InputView::Exit
    } else {
        InputView::Command(w[0], w.skip(1))
    }
}

/// There is always at least one piece.
pub proof fn lemma_pieces_nonempty(line: Seq<char>)
    ensures
        pieces(line).len() >= 1,
    decreases line.len(),
{
    if line.len() > 0 {
        lemma_pieces_nonempty(line.drop_last());
    }
}

/// The pieces with one separator between each two of them.
pub open spec fn spaced(all: Seq<Seq<char>>) -> Seq<char>
    decreases all.len(),
{
    if all.len() == 0 {
        Seq::empty()
    } else if all.len() == 1 {
        all[0]
    } else {
        spaced(all.drop_last()).push(' ') + all.last()
    }
}

/// Cutting loses nothing: the pieces of a line, put together again with a
/// separator between each two, are the line. With the fact that no piece
/// holds a separator, this says what the pieces are.
pub proof fn lemma_pieces_rejoin(line: Seq<char>)
    ensures
        spaced(pieces(line)) == line,
    decreases line.len(),
{
    if line.len() == 0 {
        assert(spaced(pieces(line)) =~= line);
    } else {
        let shorter = line.drop_last();
        let before = pieces(shorter);
        lemma_pieces_rejoin(shorter);
        lemma_pieces_nonempty(shorter);
        assert(line =~= shorter.push(line.last()));
        if is_separator(line.last()) {
            let after = before.push(Seq::empty());
            assert(after.drop_last() =~= before);
            assert(spaced(after) =~= spaced(before).push(' '));
        } else {
            let grown = before.last().push(line.last());
            let after = before.drop_last().push(grown);
            assert(after.drop_last() =~= before.drop_last());
            if before.len() == 1 {
                assert(spaced(before) == before[0]);
                assert(spaced(after) =~= grown);
            } else {
                assert(spaced(before) == spaced(before.drop_last()).push(' ') + before.last());
                assert(spaced(after) =~= spaced(before.drop_last()).push(' ') + grown);
                assert(spaced(after) =~= spaced(before).push(line.last()));
            }
        }
    }
}

/// No piece holds a separator.
pub proof fn lemma_pieces_hold_no_separator(line: Seq<char>)
    ensures
        forall|i: int, j: int|
            0 <= i < pieces(line).len() && 0 <= j < pieces(line)[i].len() ==> !is_separator(
                #[trigger] pieces(line)[i][j],
            ),
    decreases line.len(),
{
    if line.len() > 0 {
        lemma_pieces_hold_no_separator(line.drop_last());
        lemma_pieces_nonempty(line.drop_last());
    }
}

/// Every word holds at least one character and no separator.
pub proof fn lemma_words_are_words(line: Seq<char>)
    ensures
        forall|i: int|
            0 <= i < words(line).len() ==> (#[trigger] words(line)[i]).len() > 0 && forall|j: int|
                0 <= j < words(line)[i].len() ==> !is_separator(words(line)[i][j]),
{
    lemma_pieces_hold_no_separator(line);
    lemma_non_empty_keeps(pieces(line));
}

/// What is left of the pieces are pieces, and none of them is empty.
proof fn lemma_non_empty_keeps(all: Seq<Seq<char>>)
    ensures
        forall|i: int|
            0 <= i < non_empty(all).len() ==> (#[trigger] non_empty(all)[i]).len() > 0
                && all.contains(non_empty(all)[i]),
    decreases all.len(),
{
    if all.len() > 0 {
        lemma_non_empty_keeps(all.drop_last());
        let kept = non_empty(all);
        assert forall|i: int| 0 <= i < kept.len() implies (#[trigger] kept[i]).len() > 0
            && all.contains(kept[i]) by {
            if i < non_empty(all.drop_last()).len() {
                let piece = non_empty(all.drop_last())[i];
                assert(all.drop_last().contains(piece));
                let at = choose|at: int| 0 <= at < all.drop_last().len() && all.drop_last()[at] == piece;
                assert(all[at] == piece);
            } else {
                assert(kept[i] == all.last());
                assert(all[all.len() - 1] == kept[i]);
            }
        }
    }
}

/// A line of separators holds no word: all its pieces are empty.
pub proof fn lemma_blank_has_no_words(line: Seq<char>)
    requires
        forall|i: int| 0 <= i < line.len() ==> is_separator(line[i]),
    ensures
        words(line).len() == 0,
        forall|i: int| 0 <= i < pieces(line).len() ==> (#[trigger] pieces(line)[i]).len() == 0,
    decreases line.len(),
{
    if line.len() > 0 {
        lemma_blank_has_no_words(line.drop_last());
        assert(is_separator(line.last()));
        assert(pieces(line).drop_last() =~= pieces(line.drop_last()));
    }
    lemma_all_empty(pieces(line));
}

/// Where every piece is empty, none is left.
proof fn lemma_all_empty(all: Seq<Seq<char>>)
    requires
        forall|i: int| 0 <= i < all.len() ==> (#[trigger] all[i]).len() == 0,
    ensures
        non_empty(all).len() == 0,
    decreases all.len(),
{
    if all.len() > 0 {
        lemma_all_empty(all.drop_last());
    }
}

/// Appends `c` to `s`.
///
/// Trusted: `String::push` of std, which the documentation describes as
/// appending the given character to the end of the string.
#[verifier::external_body]
fn push_char(s: &mut String, c: char)
    ensures
        final(s)@ == old(s)@.push(c),
{
    s.push(c)
}

/// Splits `line` into its words.
pub fn split_words(line: &str) -> (out: Vec<String>)
    ensures
        texts(out@) == words(line@),
{
    let mut done: Vec<String> = Vec::new();
    let mut current = String::new();
    proof {
        assert(texts(done@) =~= non_empty(pieces(line@.take(0)).drop_last()));
    }
    for c in it: line.chars()
        invariant
            it.seq() == line@,
            pieces(line@.take(it.index() as int)).len() >= 1,
            current@ == pieces(line@.take(it.index() as int)).last(),
            texts(done@) == non_empty(pieces(line@.take(it.index() as int)).drop_last()),
    {
        let ghost seen = line@.take(it.index() as int);
        let ghost next = line@.take(it.index() as int + 1);
        proof {
            assert(next.drop_last() =~= seen);
            assert(next.last() == c);
            lemma_pieces_nonempty(next);
            assert(pieces(seen) =~= pieces(seen).drop_last().push(pieces(seen).last()));
        }
        if c == ' ' {
            if !current.as_str().is_empty() {
                let ghost before = texts(done@);
                let word = current;
                done.push(word);
                proof {
                    assert(texts(done@) =~= before.push(word@));
                }
            }
            current = String::new();
            proof {
                assert(pieces(next).drop_last() =~= pieces(seen));
            }
        } else {
            push_char(&mut current, c);
            proof {
                assert(pieces(next).drop_last() =~= pieces(seen).drop_last());
            }
        }
    }
    proof {
        assert(line@.take(line@.len() as int) =~= line@);
        assert(pieces(line@) =~= pieces(line@).drop_last().push(pieces(line@).last()));
    }
    if !current.as_str().is_empty() {
        let ghost before = texts(done@);
        let word = current;
        done.push(word);
        proof {
            assert(texts(done@) =~= before.push(word@));
        }
    }
    done
}

/// Reads one line of input.
///
/// Words are separated by spaces; runs of spaces count as one separator and
/// leading or trailing spaces are ignored. A line whose first word is `exit`
/// asks to leave, whatever follows it.
pub fn parse(line: &str) -> (input: Input)
    ensures
        input@ == parsed(line@),
{
    let mut found = split_words(line);
    if found.len() == 0 {
        return Input::Empty;
    }
    let name = found.remove(0);
    let exit = "exit".to_owned();
    proof {
        reveal_strlit("exit");
        assert(exit@ =~= exit_token());
        assert(texts(found@) =~= words(line@).skip(1));
    }
    if name == exit {
        Input::Exit
    } else {
        Input::Command(name, found)
    }
}

} // verus!
