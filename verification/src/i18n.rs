//! Interpolation of the `{}` placeholders of user-visible messages, once
//! they are translated.

use vstd::prelude::*;

verus! {

/// True when the placeholder `{}` starts at index `i` of `s`.
pub open spec fn placeholder_at(s: Seq<char>, i: int) -> bool {
    0 <= i && i + 1 < s.len() && s[i] == '{' && s[i + 1] == '}'
}

/// The pieces of `s` that lie between the `{}` placeholders, the
/// placeholders being matched from the left without overlapping.
/// There is always one piece more than there are placeholders.
pub open spec fn split_placeholders(s: Seq<char>) -> Seq<Seq<char>>
    decreases s.len(),
{
    if s.len() == 0 {
        seq![Seq::<char>::empty()]
    } else if placeholder_at(s, 0) {
        seq![Seq::<char>::empty()] + split_placeholders(s.skip(2))
    } else {
        let rest = split_placeholders(s.skip(1));
        rest.update(0, seq![s[0]] + rest[0])
    }
}

/// Each argument followed by the piece that comes after its placeholder,
/// as long as both an argument and a piece remain.
pub open spec fn zip_pieces(pieces: Seq<Seq<char>>, args: Seq<Seq<char>>) -> Seq<char>
    decreases pieces.len(),
{
    if pieces.len() == 0 || args.len() == 0 {
        Seq::<char>::empty()
    } else {
        args[0] + pieces[0] + zip_pieces(pieces.drop_first(), args.drop_first())
    }
}

/// The text of `template` with its placeholders replaced, in order, by
/// `args`. Text after a placeholder for which no argument is left is
/// dropped, and arguments for which no placeholder is left are ignored.
pub open spec fn interpolation(template: Seq<char>, args: Seq<Seq<char>>) -> Seq<char> {
    let pieces = split_placeholders(template);
    pieces[0] + zip_pieces(pieces.drop_first(), args)
}

/// The views of a slice of string slices.
pub open spec fn str_views(args: Seq<&str>) -> Seq<Seq<char>> {
    args.map_values(|a: &str| a@)
}

/// Prefixes the first piece of `pieces` with `prefix`.
pub open spec fn prepend_first(prefix: Seq<char>, pieces: Seq<Seq<char>>) -> Seq<Seq<char>> {
    pieces.update(0, prefix + pieces[0])
}

/// There is always at least one piece.
pub proof fn lemma_split_nonempty(s: Seq<char>)
    ensures
        split_placeholders(s).len() >= 1,
    decreases s.len(),
{
    if s.len() == 0 {
    } else if placeholder_at(s, 0) {
        lemma_split_nonempty(s.skip(2));
    } else {
        lemma_split_nonempty(s.skip(1));
    }
}

/// A text without placeholder is a single piece.
pub proof fn lemma_split_without_placeholder(s: Seq<char>)
    requires
        forall|i: int| !placeholder_at(s, i),
    ensures
        split_placeholders(s) == seq![s],
    decreases s.len(),
{
    if s.len() > 0 {
        let t = s.skip(1);
        assert forall|i: int| !placeholder_at(t, i) by {
            if placeholder_at(t, i) {
                assert(placeholder_at(s, i + 1));
            }
        }
        lemma_split_without_placeholder(t);
        assert(!placeholder_at(s, 0));
        assert(seq![s[0]] + t =~= s);
        assert(seq![t].update(0, seq![s[0]] + t) =~= seq![s]);
    } else {
        assert(s =~= Seq::<char>::empty());
        assert(seq![Seq::<char>::empty()] =~= seq![s]);
    }
}

/// Interpolating a text without placeholder gives the text back, whatever
/// the arguments.
pub proof fn lemma_interpolation_without_placeholder(template: Seq<char>, args: Seq<Seq<char>>)
    requires
        forall|i: int| !placeholder_at(template, i),
    ensures
        interpolation(template, args) == template,
{
    lemma_split_without_placeholder(template);
    assert(seq![template].drop_first() =~= Seq::<Seq<char>>::empty());
    assert(template + Seq::<char>::empty() =~= template);
}

/// With no argument, only the text before the first placeholder is kept.
pub proof fn lemma_interpolation_without_args(template: Seq<char>)
    ensures
        interpolation(template, Seq::<Seq<char>>::empty()) == split_placeholders(template)[0],
{
    let pieces = split_placeholders(template);
    assert(pieces[0] + Seq::<char>::empty() =~= pieces[0]);
}

/// A text with no placeholder, followed by a placeholder, makes the first
/// piece; the pieces of what comes after the placeholder follow it.
pub proof fn lemma_split_after_plain_prefix(p0: Seq<char>, rest: Seq<char>)
    requires
        forall|i: int| !placeholder_at(p0, i),
    ensures
        split_placeholders(p0 + seq!['{', '}'] + rest) == seq![p0] + split_placeholders(rest),
    decreases p0.len(),
{
    let s = p0 + seq!['{', '}'] + rest;
    if p0.len() == 0 {
        assert(placeholder_at(s, 0));
        assert(s.skip(2) =~= rest);
        assert(p0 =~= Seq::<char>::empty());
    } else {
        let t = p0.skip(1);
        assert forall|i: int| !placeholder_at(t, i) by {
            if placeholder_at(t, i) {
                assert(placeholder_at(p0, i + 1));
            }
        }
        if p0.len() >= 2 {
            assert(!placeholder_at(p0, 0));
            assert(s[1] == p0[1]);
        } else {
            assert(s[1] == '{');
        }
        assert(!placeholder_at(s, 0));
        assert(s.skip(1) =~= t + seq!['{', '}'] + rest);
        lemma_split_after_plain_prefix(t, rest);
        let r = split_placeholders(s.skip(1));
        assert(r == seq![t] + split_placeholders(rest));
        assert(seq![s[0]] + t =~= p0);
        assert(r.update(0, seq![s[0]] + r[0]) =~= seq![p0] + split_placeholders(rest));
    }
}

/// The first placeholder of a template is filled by the first argument, and
/// the rest of the template is filled by the remaining arguments.
pub proof fn lemma_interpolation_fills_first_placeholder(
    p0: Seq<char>,
    rest: Seq<char>,
    a: Seq<char>,
    more: Seq<Seq<char>>,
)
    requires
        forall|i: int| !placeholder_at(p0, i),
    ensures
        interpolation(p0 + seq!['{', '}'] + rest, seq![a] + more) == p0 + a + interpolation(
            rest,
            more,
        ),
{
    lemma_split_after_plain_prefix(p0, rest);
    lemma_split_nonempty(rest);
    let sr = split_placeholders(rest);
    let pieces = split_placeholders(p0 + seq!['{', '}'] + rest);
    let args = seq![a] + more;
    assert(pieces[0] == p0);
    assert(pieces.drop_first() =~= sr);
    assert(args.drop_first() =~= more);
    assert(args[0] == a);
    assert(zip_pieces(sr, args) == a + sr[0] + zip_pieces(sr.drop_first(), more));
    assert(p0 + (a + sr[0] + zip_pieces(sr.drop_first(), more)) =~= p0 + a + (sr[0]
        + zip_pieces(sr.drop_first(), more)));
}

/// Splits `template` into the pieces between its placeholders.
pub fn placeholder_pieces(template: &str) -> (pieces: Vec<String>)
    ensures
        pieces@.map_values(|p: String| p@) == split_placeholders(template@),
{
    let n = template.unicode_len();
    let ghost s = template@;
    let mut done: Vec<String> = Vec::new();
    let mut start: usize = 0;
    let mut i: usize = 0;
    proof {
        lemma_split_nonempty(s);
        assert(s.skip(0) =~= s);
        assert(prepend_first(s.subrange(0, 0), split_placeholders(s)) =~= split_placeholders(s)) by {
            assert(s.subrange(0, 0) + split_placeholders(s)[0] =~= split_placeholders(s)[0]);
        }
        assert(done@.map_values(|p: String| p@) =~= Seq::<Seq<char>>::empty());
    }
    while i < n
        invariant
            n == s.len(),
            s == template@,
            start <= i <= n,
            split_placeholders(s) == done@.map_values(|p: String| p@) + prepend_first(
                s.subrange(start as int, i as int),
                split_placeholders(s.skip(i as int)),
            ),
        decreases n - i,
    {
        let ghost t = s.skip(i as int);
        proof {
            lemma_split_nonempty(t);
        }
        let c = template.get_char(i);
        if c == '{' && i + 1 < n && template.get_char(i + 1) == '}' {
            assert(placeholder_at(t, 0));
            let ghost rest = split_placeholders(t.skip(2));
            assert(t.skip(2) =~= s.skip(i + 2));
            proof {
                lemma_split_nonempty(t.skip(2));
            }
            let piece = template.substring_char(start, i).to_owned();
            let ghost old_done = done@.map_values(|p: String| p@);
            done.push(piece);
            assert(done@.map_values(|p: String| p@) =~= old_done.push(piece@));
            assert(prepend_first(s.subrange(start as int, i as int), seq![Seq::<char>::empty()] + rest)
                =~= seq![s.subrange(start as int, i as int)] + rest);
            assert(prepend_first(s.subrange((i + 2) as int, (i + 2) as int), rest) =~= rest) by {
                assert(Seq::<char>::empty() + rest[0] =~= rest[0]);
            }
            i = i + 2;
            start = i;
        } else {
            assert(!placeholder_at(t, 0));
            let ghost rest = split_placeholders(t.skip(1));
            assert(t.skip(1) =~= s.skip(i + 1));
            proof {
                lemma_split_nonempty(t.skip(1));
            }
            assert(prepend_first(s.subrange(start as int, i as int), split_placeholders(t))
                =~= prepend_first(s.subrange(start as int, (i + 1) as int), rest)) by {
                assert(s.subrange(start as int, i as int) + (seq![t[0]] + rest[0])
                    =~= s.subrange(start as int, (i + 1) as int) + rest[0]);
            }
            i = i + 1;
        }
    }
    let ghost old_done = done@.map_values(|p: String| p@);
    let last = template.substring_char(start, n).to_owned();
    done.push(last);
    assert(s.skip(n as int) =~= Seq::<char>::empty());
    assert(done@.map_values(|p: String| p@) =~= old_done.push(last@));
    assert(prepend_first(s.subrange(start as int, n as int), seq![Seq::<char>::empty()])
        =~= seq![last@]);
    done
}


/// Replaces the placeholders of `template`, in order, by `args`.
pub fn interpolate(template: &str, args: &[&str]) -> (text: String)
    ensures
        text@ == interpolation(template@, str_views(args@)),
{
    let pieces = placeholder_pieces(template);
    let ghost pv = pieces@.map_values(|p: String| p@);
    let ghost av = str_views(args@);
    proof {
        lemma_split_nonempty(template@);
    }
    let mut text = pieces[0].clone();
    let n_pieces = pieces.len();
    let n_args = args.len();
    let mut j: usize = 0;
    assert(pv.drop_first().skip(0) =~= pv.drop_first());
    assert(av.skip(0) =~= av);
    while j + 1 < n_pieces && j < n_args
        invariant
            n_pieces == pieces.len(),
            n_args == args.len(),
            n_pieces >= 1,
            j < n_pieces,
            j <= n_args,
            pv == pieces@.map_values(|p: String| p@),
            av == str_views(args@),
            pv == split_placeholders(template@),
            interpolation(template@, av) == text@ + zip_pieces(
                pv.drop_first().skip(j as int),
                av.skip(j as int),
            ),
        decreases n_args - j,
    {
        let ghost ps = pv.drop_first().skip(j as int);
        let ghost rs = av.skip(j as int);
        assert(ps.drop_first() =~= pv.drop_first().skip(j + 1));
        assert(rs.drop_first() =~= av.skip(j + 1));
        assert(ps[0] == pieces@[j + 1]@);
        assert(rs[0] == args@[j as int]@);
        text.append(args[j]);
        text.append(pieces[j + 1].as_str());
        j = j + 1;
    }
    assert(zip_pieces(pv.drop_first().skip(j as int), av.skip(j as int)) =~= Seq::<char>::empty());
    text
}

} // verus!
