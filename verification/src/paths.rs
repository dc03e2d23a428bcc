//! Paths, compared by their components.
use crate::text::{chars_of, same_text, texts};
use vstd::prelude::*;
use vstd::string::*;

verus! {

/// The pieces of a text between slashes.
pub open spec fn pieces(s: Seq<char>) -> Seq<Seq<char>>
    decreases s.len(),
{
    if s.len() == 0 {
        seq![Seq::empty()]
    } else {
        let before = pieces(s.drop_last());
        if s.last() == '/' {
            before.push(Seq::empty())
        } else {
            before.drop_last().push(before.last().push(s.last()))
        }
    }
}

/// The piece names something: it is neither empty nor the directory itself.
pub open spec fn is_name(piece: Seq<char>) -> bool {
    piece.len() > 0 && piece != "."@
}

/// The names along a path.
pub open spec fn names(path: Seq<char>) -> Seq<Seq<char>> {
    pieces(path).filter(|piece: Seq<char>| is_name(piece))
}

/// The path starts at the root.
pub open spec fn starts_at_root(path: Seq<char>) -> bool {
    path.len() > 0 && path[0] == '/'
}

/// The path starts at the current directory, by its name.
pub open spec fn starts_at_dot(path: Seq<char>) -> bool {
    path.len() > 0 && path[0] == '.' && (path.len() == 1 || path[1] == '/')
}

/// The same path: it starts at the same place and has the same names, whatever
/// slashes are repeated or trail, and whatever single dots stand between them. Two
/// dots are a name like any other.
pub open spec fn is_same_path(a: Seq<char>, b: Seq<char>) -> bool {
    &&& starts_at_root(a) == starts_at_root(b)
    &&& starts_at_dot(a) == starts_at_dot(b)
    &&& names(a) == names(b)
}

/// Two paths joined by a slash have the names of both.
proof fn lemma_joined_names(a: Seq<char>, b: Seq<char>)
    ensures
        pieces(a.push('/') + b) == pieces(a) + pieces(b),
        names(a.push('/') + b) == names(a) + names(b),
    decreases b.len(),
{
    lemma_last_piece(a, '/');
    if b.len() == 0 {
        assert(a.push('/') + b =~= a.push('/'));
        assert(pieces(a).push(Seq::empty()) =~= pieces(a) + pieces(b));
    } else {
        let rest = b.drop_last();
        let c = b.last();
        lemma_joined_names(a, rest);
        lemma_last_piece(rest, c);
        lemma_last_piece(a.push('/') + rest, c);
        assert(rest.push(c) =~= b);
        assert((a.push('/') + rest).push(c) =~= a.push('/') + b);
        let joined = pieces(a) + pieces(rest);
        assert(joined.last() == pieces(rest).last());
        if c == '/' {
            assert(joined.push(Seq::empty()) =~= pieces(a) + pieces(rest).push(Seq::empty()));
        } else {
            let last = pieces(rest).last().push(c);
            assert(joined.drop_last().push(last) =~= pieces(a) + pieces(rest).drop_last().push(
                last,
            ));
        }
    }
    Seq::filter_distributes_over_add(
        pieces(a),
        pieces(b),
        |piece: Seq<char>| is_name(piece),
    );
}

/// Slashes that are repeated or trail change no path, nor do single dots between
/// slashes.
pub proof fn law_empty_pieces_and_dots_name_nothing(a: Seq<char>, b: Seq<char>)
    ensures
        is_same_path(a + "/"@ + b, a + "//"@ + b),
        is_same_path(a + "/"@ + b, a + "/./"@ + b),
        a.len() > 0 ==> is_same_path(a, a + "/"@),
{
    reveal_strlit(".");
    reveal_strlit("/");
    reveal_strlit("//");
    reveal_strlit("/./");
    let none = Seq::<char>::empty();
    let dot = seq!['.'];
    assert(dot =~= "."@);
    assert(none.push('/') + b =~= "/"@ + b);
    assert(a + "/"@ + b =~= a.push('/') + b);
    assert(a + "//"@ + b =~= a.push('/') + (none.push('/') + b));
    assert(a + "/./"@ + b =~= a.push('/') + (dot.push('/') + b));
    assert(a + "/"@ =~= a.push('/') + none);
    lemma_joined_names(a, b);
    lemma_joined_names(a, none.push('/') + b);
    lemma_joined_names(a, dot.push('/') + b);
    lemma_joined_names(none, b);
    lemma_joined_names(dot, b);
    lemma_joined_names(a, none);
    assert(names(none) =~= Seq::empty() && names(dot) =~= Seq::empty()) by {
        reveal_with_fuel(Seq::<Seq<char>>::filter, 2);
        lemma_last_piece(none, '.');
        assert(none.push('.') =~= dot);
        assert(pieces(none).drop_last() =~= Seq::empty());
        assert(pieces(dot).drop_last() =~= Seq::empty());
        assert(pieces(dot).last() =~= dot);
    }
    assert(names(a) + names(b) =~= names(a) + (names(none) + names(b)));
    assert(names(a) + names(b) =~= names(a) + (names(dot) + names(b)));
    assert(names(a) + names(none) =~= names(a));
}

/// A slash ends a piece; any other character goes on with it.
proof fn lemma_last_piece(s: Seq<char>, c: char)
    ensures
        pieces(s).len() > 0,
        c == '/' ==> pieces(s.push(c)) == pieces(s).push(Seq::empty()),
        c != '/' ==> pieces(s.push(c)) == pieces(s).drop_last().push(pieces(s).last().push(c)),
        pieces(s.push(c)).drop_last() == if c == '/' {
            pieces(s)
        } else {
            pieces(s).drop_last()
        },
    decreases s.len(),
{
    if s.len() > 0 {
        lemma_last_piece(s.drop_last(), s.last());
        assert(s.drop_last().push(s.last()) =~= s);
    }
    assert(s.push(c).drop_last() =~= s);
    assert(pieces(s).push(Seq::empty()).drop_last() =~= pieces(s));
    assert(pieces(s).drop_last().push(pieces(s).last().push(c)).drop_last() =~= pieces(
        s,
    ).drop_last());
}

/// Adds a piece to the names where it is one.
fn add_piece(out: &mut Vec<String>, piece: String)
    ensures
        texts(final(out)@) == if is_name(piece@) {
            texts(old(out)@).push(piece@)
        } else {
            texts(old(out)@)
        },
{
    if !piece.as_str().is_empty() && !same_text(piece.as_str(), ".") {
        out.push(piece);
        assert(texts(out@) =~= texts(old(out)@).push(piece@));
    }
}

/// The names along a path.
fn names_of(path: &str) -> (out: Vec<String>)
    ensures
        texts(out@) == names(path@),
{
    let chars = chars_of(path);
    let mut out: Vec<String> = Vec::new();
    let mut piece = String::new();
    let mut i: usize = 0;
    let ghost kept = |p: Seq<char>| is_name(p);
    proof {
        reveal(Seq::filter);
        assert(chars@.take(0) =~= Seq::empty());
        assert(piece@ =~= Seq::empty());
        assert(pieces(chars@.take(0)).drop_last() =~= Seq::empty());
        assert(texts(out@) =~= Seq::empty());
    }
    while i < chars.len()
        invariant
            i <= chars@.len(),
            chars@ == path@,
            kept == (|p: Seq<char>| is_name(p)),
            pieces(chars@.take(i as int)).len() > 0,
            piece@ == pieces(chars@.take(i as int)).last(),
            texts(out@) == pieces(chars@.take(i as int)).drop_last().filter(kept),
        decreases chars.len() - i,
    {
        let c = chars[i];
        proof {
            reveal(Seq::filter);
            lemma_last_piece(chars@.take(i as int), c);
            assert(chars@.take(i + 1) =~= chars@.take(i as int).push(c));
        }
        if c == '/' {
            add_piece(&mut out, piece);
            piece = String::new();
            assert(piece@ =~= Seq::empty());
        } else {
            piece.push(c);
        }
        i += 1;
    }
    proof {
        reveal(Seq::filter);
        assert(chars@.take(i as int) =~= path@);
    }
    add_piece(&mut out, piece);
    out
}

/// Whether two lists hold the same texts in the same order.
fn same_texts(a: &Vec<String>, b: &Vec<String>) -> (same: bool)
    ensures
        same == (texts(a@) == texts(b@)),
{
    if a.len() != b.len() {
        assert(texts(a@).len() != texts(b@).len());
        return false;
    }
    let mut i: usize = 0;
    while i < a.len()
        invariant
            i <= a@.len(),
            a@.len() == b@.len(),
            forall|j: int| 0 <= j < i ==> (#[trigger] a@[j])@ == b@[j]@,
        decreases a.len() - i,
    {
        if !same_text(a[i].as_str(), b[i].as_str()) {
            assert(texts(a@)[i as int] != texts(b@)[i as int]);
            return false;
        }
        i += 1;
    }
    assert(texts(a@) =~= texts(b@));
    true
}

/// Whether two texts are the same path.
pub fn same_path(a: &str, b: &str) -> (same: bool)
    ensures
        same == is_same_path(a@, b@),
{
    let x = chars_of(a);
    let y = chars_of(b);
    let rooted_a = x.len() > 0 && x[0] == '/';
    let rooted_b = y.len() > 0 && y[0] == '/';
    let dotted_a = x.len() > 0 && x[0] == '.' && (x.len() == 1 || x[1] == '/');
    let dotted_b = y.len() > 0 && y[0] == '.' && (y.len() == 1 || y[1] == '/');
    rooted_a == rooted_b && dotted_a == dotted_b && same_texts(&names_of(a), &names_of(b))
}

/// A piece without a slash is one piece.
proof fn lemma_one_piece(s: Seq<char>)
    requires
        forall|i: int| 0 <= i < s.len() ==> (#[trigger] s[i]) != '/',
    ensures
        pieces(s) == seq![s],
    decreases s.len(),
{
    if s.len() > 0 {
        let rest = s.drop_last();
        lemma_one_piece(rest);
        lemma_last_piece(rest, s.last());
        assert(rest.push(s.last()) =~= s);
        assert(pieces(rest).drop_last().push(pieces(rest).last().push(s.last())) =~= seq![s]);
    } else {
        assert(s =~= Seq::empty());
        assert(pieces(s) =~= seq![s]);
    }
}

/// Two names in the same directory are the same path only where they are the same.
pub proof fn law_names_tell_paths_apart(a: Seq<char>, x: Seq<char>, y: Seq<char>)
    requires
        is_name(x) && is_name(y),
        forall|i: int| 0 <= i < x.len() ==> (#[trigger] x[i]) != '/',
        forall|i: int| 0 <= i < y.len() ==> (#[trigger] y[i]) != '/',
    ensures
        is_same_path(a.push('/') + x, a.push('/') + y) ==> x == y,
        names(a.push('/') + x) == names(a).push(x),
{
    lemma_joined_names(a, x);
    lemma_joined_names(a, y);
    lemma_one_piece(x);
    lemma_one_piece(y);
    assert(names(x) =~= seq![x] && names(y) =~= seq![y]) by {
        reveal_with_fuel(Seq::<_>::filter, 2);
        assert(seq![x].drop_last() =~= Seq::empty());
        assert(seq![y].drop_last() =~= Seq::empty());
    }
    assert(names(a) + names(x) =~= names(a).push(x));
    assert(names(a) + names(y) =~= names(a).push(y));
    if names(a).push(x) == names(a).push(y) {
        assert(names(a).push(x).last() == names(a).push(y).last());
    }
}

/// A path from the root is not one that is relative, and a path is the same as itself.
pub proof fn law_roots_tell_paths_apart(a: Seq<char>, b: Seq<char>)
    ensures
        is_same_path(a, a),
        is_same_path(a, b) ==> is_same_path(b, a),
        a.len() > 0 && a[0] == '/' && (b.len() == 0 || b[0] != '/') ==> !is_same_path(a, b),
{
}

} // verus!
