//! Building blocks of the wire encoding: decimal rendering of handles and
//! sizes, JSON string escaping, and comma-joined lists.
//!
//! Every encoder in the crate states its output against the spec functions
//! defined here, so the whole wire format is pinned down once.

use vstd::prelude::*;

verus! {

// ---------------------------------------------------------------------------
// Decimal rendering
// ---------------------------------------------------------------------------
/// The character for one decimal digit.
pub open spec fn dec_digit(d: nat) -> char {
    if d == 0 {
        '0'
    } else if d == 1 {
        '1'
    } else if d == 2 {
        '2'
    } else if d == 3 {
        '3'
    } else if d == 4 {
        '4'
    } else if d == 5 {
        '5'
    } else if d == 6 {
        '6'
    } else if d == 7 {
        '7'
    } else if d == 8 {
        '8'
    } else {
        '9'
    }
}

/// The decimal rendering of a number, most significant digit first, with no
/// leading zero except for the number zero itself.
pub open spec fn dec_rep(n: nat) -> Seq<char>
    decreases n,
{
    if n < 10 {
        seq![dec_digit(n)]
    } else {
        dec_rep(n / 10).push(dec_digit(n % 10))
    }
}

/// The numeric value a digit character stands for.
pub open spec fn dec_digit_val(c: char) -> nat {
    if c == '0' {
        0
    } else if c == '1' {
        1
    } else if c == '2' {
        2
    } else if c == '3' {
        3
    } else if c == '4' {
        4
    } else if c == '5' {
        5
    } else if c == '6' {
        6
    } else if c == '7' {
        7
    } else if c == '8' {
        8
    } else {
        9
    }
}

/// Reading a digit string back into a number, most significant digit first.
pub open spec fn dec_val(s: Seq<char>) -> nat
    decreases s.len(),
{
    if s.len() == 0 {
        0
    } else {
        dec_val(s.drop_last()) * 10 + dec_digit_val(s.last())
    }
}

/// Reading back the decimal rendering of a number recovers the number: the
/// digits on the wire carry the handle exactly.
pub proof fn lemma_dec_round_trip(n: nat)
    ensures
        dec_val(dec_rep(n)) == n,
    decreases n,
{
    if n < 10 {
        assert(dec_rep(n).len() == 1);
        assert(dec_val(dec_rep(n)) == dec_val(dec_rep(n).drop_last()) * 10 + dec_digit_val(
            dec_rep(n).last(),
        ));
        assert(dec_rep(n).last() == dec_digit(n));
        assert(dec_rep(n).drop_last() =~= Seq::<char>::empty());
        assert(dec_val(Seq::<char>::empty()) == 0);
        assert(dec_digit_val(dec_digit(n)) == n);
    } else {
        lemma_dec_round_trip(n / 10);
        assert(dec_rep(n).len() > 0);
        assert(dec_val(dec_rep(n)) == dec_val(dec_rep(n).drop_last()) * 10 + dec_digit_val(
            dec_rep(n).last(),
        ));
        assert(dec_rep(n).last() == dec_digit(n % 10));
        assert(dec_rep(n).drop_last() =~= dec_rep(n / 10));
        assert(dec_digit_val(dec_digit(n % 10)) == n % 10);
        assert((n / 10) * 10 + n % 10 == n);
    }
}

fn dec_digit_str(d: usize) -> (s: &'static str)
    requires
        d < 10,
    ensures
        s@ =~= seq![dec_digit(d as nat)],
{
    proof {
        reveal_strlit("0");
        reveal_strlit("1");
        reveal_strlit("2");
        reveal_strlit("3");
        reveal_strlit("4");
        reveal_strlit("5");
        reveal_strlit("6");
        reveal_strlit("7");
        reveal_strlit("8");
        reveal_strlit("9");
    }
    if d == 0 {
        "0"
    } else if d == 1 {
        "1"
    } else if d == 2 {
        "2"
    } else if d == 3 {
        "3"
    } else if d == 4 {
        "4"
    } else if d == 5 {
        "5"
    } else if d == 6 {
        "6"
    } else if d == 7 {
        "7"
    } else if d == 8 {
        "8"
    } else {
        "9"
    }
}

/// Renders a number in decimal, exactly as `dec_rep` spells it.
pub fn usize_to_dec(n: usize) -> (s: String)
    ensures
        s@ == dec_rep(n as nat),
    decreases n,
{
    if n < 10 {
        let s = dec_digit_str(n).to_owned();
        assert(s@ =~= dec_rep(n as nat));
        s
    } else {
        let mut s = usize_to_dec(n / 10);
        s.append(dec_digit_str(n % 10));
        assert(s@ =~= dec_rep(n as nat));
        s
    }
}

// ---------------------------------------------------------------------------
// JSON string escaping
// ---------------------------------------------------------------------------
/// The character for one hexadecimal digit.
pub open spec fn hex_digit(d: nat) -> char {
    if d < 10 {
        dec_digit(d)
    } else if d == 10 {
        'a'
    } else if d == 11 {
        'b'
    } else if d == 12 {
        'c'
    } else if d == 13 {
        'd'
    } else if d == 14 {
        'e'
    } else {
        'f'
    }
}

/// How a single character appears inside a JSON string: quotes and
/// backslashes are escaped, control characters take the `\u00XX` form, and
/// everything else stands for itself.
pub open spec fn escape_char(c: char) -> Seq<char> {
    if c == '"' {
        seq!['\\', '"']
    } else if c == '\\' {
        seq!['\\', '\\']
    } else if (c as nat) < 32 {
        seq!['\\', 'u', '0', '0', hex_digit((c as nat) / 16), hex_digit((c as nat) % 16)]
    } else {
        seq![c]
    }
}

/// A whole text escaped for a JSON string, character by character.
pub open spec fn escape_seq(s: Seq<char>) -> Seq<char>
    decreases s.len(),
{
    if s.len() == 0 {
        Seq::<char>::empty()
    } else {
        escape_char(s[0]) + escape_seq(s.drop_first())
    }
}

/// Escaping distributes over extending the text by one character.
pub proof fn lemma_escape_seq_push(s: Seq<char>, c: char)
    ensures
        escape_seq(s.push(c)) == escape_seq(s) + escape_char(c),
    decreases s.len(),
{
    if s.len() == 0 {
        assert(s.push(c).len() == 1);
        assert(s.push(c)[0] == c);
        assert(s.push(c).drop_first() =~= Seq::<char>::empty());
        assert(escape_seq(s.push(c)) == escape_char(c) + escape_seq(s.push(c).drop_first()));
        assert(escape_seq(s.push(c).drop_first()) == Seq::<char>::empty());
        assert(escape_seq(s) == Seq::<char>::empty());
        assert(escape_seq(s.push(c)) =~= escape_seq(s) + escape_char(c));
    } else {
        lemma_escape_seq_push(s.drop_first(), c);
        assert(s.push(c)[0] == s[0]);
        assert(s.push(c).drop_first() =~= s.drop_first().push(c));
        assert(escape_seq(s.push(c)) == escape_char(s.push(c)[0]) + escape_seq(
            s.push(c).drop_first(),
        ));
        assert(escape_seq(s) == escape_char(s[0]) + escape_seq(s.drop_first()));
        assert(escape_seq(s.push(c).drop_first()) == escape_seq(s.drop_first()) + escape_char(c));
        assert(escape_char(s[0]) + (escape_seq(s.drop_first()) + escape_char(c)) =~= (escape_char(
            s[0],
        ) + escape_seq(s.drop_first())) + escape_char(c));
        assert(escape_seq(s.push(c)) =~= escape_seq(s) + escape_char(c));
    }
}

/// A quoted JSON string: the escaped text between two quote characters.
pub open spec fn spec_json_string(s: Seq<char>) -> Seq<char> {
    seq!['"'] + escape_seq(s) + seq!['"']
}

fn hex_digit_str(d: usize) -> (s: &'static str)
    requires
        d < 16,
    ensures
        s@ =~= seq![hex_digit(d as nat)],
{
    proof {
        reveal_strlit("a");
        reveal_strlit("b");
        reveal_strlit("c");
        reveal_strlit("d");
        reveal_strlit("e");
        reveal_strlit("f");
    }
    if d < 10 {
        dec_digit_str(d)
    } else if d == 10 {
        "a"
    } else if d == 11 {
        "b"
    } else if d == 12 {
        "c"
    } else if d == 13 {
        "d"
    } else if d == 14 {
        "e"
    } else {
        "f"
    }
}

/// Escapes a text for inclusion in a JSON string.
pub fn escape_json(s: &str) -> (r: String)
    ensures
        r@ == escape_seq(s@),
{
    let len = s.unicode_len();
    let mut out = String::new();
    let mut i: usize = 0;
    while i < len
        invariant
            i <= len,
            len == s@.len(),
            out@ == escape_seq(s@.subrange(0, i as int)),
        decreases len - i,
    {
        let c = s.get_char(i);
        proof {
            lemma_escape_seq_push(s@.subrange(0, i as int), c);
            assert(s@.subrange(0, i as int).push(c) =~= s@.subrange(0, i + 1 as int));
        }
        if c == '"' {
            out.append("\\\"");
            proof {
                reveal_strlit("\\\"");
                assert(out@ =~= escape_seq(s@.subrange(0, i + 1 as int)));
            }
        } else if c == '\\' {
            out.append("\\\\");
            proof {
                reveal_strlit("\\\\");
                assert(out@ =~= escape_seq(s@.subrange(0, i + 1 as int)));
            }
        } else if (c as u32) < 32 {
            out.append("\\u00");
            let code = (c as u32) as usize;
            out.append(hex_digit_str(code / 16));
            out.append(hex_digit_str(code % 16));
            proof {
                reveal_strlit("\\u00");
                assert(out@ =~= escape_seq(s@.subrange(0, i + 1 as int)));
            }
        } else {
            out.append(s.substring_char(i, i + 1));
            proof {
                assert(s@.subrange(i as int, i + 1 as int) =~= seq![c]);
                assert(out@ =~= escape_seq(s@.subrange(0, i + 1 as int)));
            }
        }
        i = i + 1;
    }
    proof {
        assert(s@.subrange(0, len as int) =~= s@);
    }
    out
}

/// Builds the quoted JSON string for a text.
pub fn json_string(s: &str) -> (r: String)
    ensures
        r@ == spec_json_string(s@),
{
    let mut out = "\"".to_owned();
    out.append(escape_json(s).as_str());
    out.append("\"");
    proof {
        reveal_strlit("\"");
        assert(out@ =~= spec_json_string(s@));
    }
    out
}

// ---------------------------------------------------------------------------
// Comma-joined lists
// ---------------------------------------------------------------------------
/// Pieces of a JSON array or object body, joined by commas.
pub open spec fn spec_join_comma(pieces: Seq<Seq<char>>) -> Seq<char>
    decreases pieces.len(),
{
    if pieces.len() == 0 {
        Seq::<char>::empty()
    } else if pieces.len() == 1 {
        pieces[0]
    } else {
        pieces[0] + seq![','] + spec_join_comma(pieces.drop_first())
    }
}

/// A JSON array of numbers, each rendered in decimal.
pub open spec fn spec_dec_array(xs: Seq<usize>) -> Seq<char> {
    "["@ + spec_join_comma(xs.map_values(|x: usize| dec_rep(x as nat))) + "]"@
}

/// Encodes a list of numbers as a JSON array of decimals.
pub fn dec_array(xs: &Vec<usize>) -> (r: String)
    ensures
        r@ == spec_dec_array(xs@),
{
    let mut out = "[".to_owned();
    let ghost prefix = out@;
    let mut i: usize = 0;
    proof {
        assert(xs@.subrange(0, 0).map_values(|x: usize| dec_rep(x as nat)) =~= Seq::<
            Seq<char>,
        >::empty());
    }
    while i < xs.len()
        invariant
            i <= xs@.len(),
            prefix == "["@,
            out@ == prefix + spec_join_comma(
                xs@.subrange(0, i as int).map_values(|x: usize| dec_rep(x as nat)),
            ),
        decreases xs@.len() - i,
    {
        let ghost done = xs@.subrange(0, i as int).map_values(|x: usize| dec_rep(x as nat));
        if i > 0 {
            out.append(",");
        }
        out.append(usize_to_dec(xs[i]).as_str());
        proof {
            reveal_strlit(",");
            lemma_join_comma_push(done, dec_rep(xs@[i as int] as nat));
            assert(xs@.subrange(0, i + 1 as int).map_values(|x: usize| dec_rep(x as nat))
                =~= done.push(dec_rep(xs@[i as int] as nat)));
            assert(out@ =~= prefix + spec_join_comma(
                xs@.subrange(0, i + 1 as int).map_values(|x: usize| dec_rep(x as nat)),
            ));
        }
        i = i + 1;
    }
    out.append("]");
    proof {
        assert(xs@.subrange(0, xs@.len() as int) =~= xs@);
        assert(out@ =~= spec_dec_array(xs@));
    }
    out
}

/// Pieces joined by an arbitrary single-character separator.
pub open spec fn spec_join_sep(pieces: Seq<Seq<char>>, sep: char) -> Seq<char>
    decreases pieces.len(),
{
    if pieces.len() == 0 {
        Seq::<char>::empty()
    } else if pieces.len() == 1 {
        pieces[0]
    } else {
        pieces[0] + seq![sep] + spec_join_sep(pieces.drop_first(), sep)
    }
}

/// Separator-joining distributes over appending one more piece.
pub proof fn lemma_join_sep_push(pieces: Seq<Seq<char>>, sep: char, x: Seq<char>)
    ensures
        spec_join_sep(pieces.push(x), sep) == if pieces.len() == 0 {
            x
        } else {
            spec_join_sep(pieces, sep) + seq![sep] + x
        },
    decreases pieces.len(),
{
    if pieces.len() == 0 {
        assert(pieces.push(x) =~= seq![x]);
        assert(spec_join_sep(pieces.push(x), sep) == x);
    } else if pieces.len() == 1 {
        assert(pieces.push(x)[0] == pieces[0]);
        assert(pieces.push(x).drop_first() =~= seq![x]);
        assert(spec_join_sep(pieces.push(x), sep) == pieces.push(x)[0] + seq![sep] + spec_join_sep(
            pieces.push(x).drop_first(),
            sep,
        ));
        assert(spec_join_sep(seq![x], sep) == x);
        assert(spec_join_sep(pieces.push(x), sep) =~= pieces[0] + seq![sep] + x);
        assert(spec_join_sep(pieces, sep) + seq![sep] + x =~= pieces[0] + seq![sep] + x);
    } else {
        lemma_join_sep_push(pieces.drop_first(), sep, x);
        assert(pieces.push(x)[0] == pieces[0]);
        assert(pieces.push(x).drop_first() =~= pieces.drop_first().push(x));
        assert(spec_join_sep(pieces.push(x), sep) == pieces.push(x)[0] + seq![sep] + spec_join_sep(
            pieces.push(x).drop_first(),
            sep,
        ));
        assert(spec_join_sep(pieces, sep) == pieces[0] + seq![sep] + spec_join_sep(
            pieces.drop_first(),
            sep,
        ));
        assert(spec_join_sep(pieces.push(x), sep) =~= spec_join_sep(pieces, sep) + seq![sep] + x);
    }
}

/// Joining distributes over appending one more piece.
pub proof fn lemma_join_comma_push(pieces: Seq<Seq<char>>, x: Seq<char>)
    ensures
        spec_join_comma(pieces.push(x)) == if pieces.len() == 0 {
            x
        } else {
            spec_join_comma(pieces) + seq![','] + x
        },
    decreases pieces.len(),
{
    if pieces.len() == 0 {
        assert(pieces.push(x) =~= seq![x]);
        assert(spec_join_comma(pieces.push(x)) == x);
    } else if pieces.len() == 1 {
        assert(pieces.push(x)[0] == pieces[0]);
        assert(pieces.push(x).drop_first() =~= seq![x]);
        assert(spec_join_comma(pieces.push(x)) == pieces.push(x)[0] + seq![','] + spec_join_comma(
            pieces.push(x).drop_first(),
        ));
        assert(spec_join_comma(seq![x]) == x);
        assert(spec_join_comma(pieces.push(x)) =~= pieces[0] + seq![','] + x);
        assert(spec_join_comma(pieces) + seq![','] + x =~= pieces[0] + seq![','] + x);
    } else {
        lemma_join_comma_push(pieces.drop_first(), x);
        assert(pieces.push(x)[0] == pieces[0]);
        assert(pieces.push(x).drop_first() =~= pieces.drop_first().push(x));
        assert(spec_join_comma(pieces.push(x)) == pieces.push(x)[0] + seq![','] + spec_join_comma(
            pieces.push(x).drop_first(),
        ));
        assert(spec_join_comma(pieces) == pieces[0] + seq![','] + spec_join_comma(
            pieces.drop_first(),
        ));
        assert(spec_join_comma(pieces.push(x)) =~= spec_join_comma(pieces) + seq![','] + x);
    }
}

} // verus!
