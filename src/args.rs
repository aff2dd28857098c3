//! Command arguments and the text helpers that build them.
use vstd::prelude::*;

verus! {

/// One argument of a command: text, or an opaque byte string.
#[derive(Debug, PartialEq, Eq)]
pub enum Arg {
    Text(String),
    Blob(Vec<u8>),
}

/// The mathematical value of an [`Arg`].
pub enum ArgView {
    Text(Seq<char>),
    Blob(Seq<u8>),
}

impl View for Arg {
    type V = ArgView;

    open spec fn view(&self) -> ArgView {
        match self {
            Arg::Text(s) => ArgView::Text(s@),
            Arg::Blob(b) => ArgView::Blob(b@),
        }
    }
}

/// The values of a sequence of arguments.
pub open spec fn args_view(s: Seq<Arg>) -> Seq<ArgView> {
    s.map_values(|a: Arg| a@)
}

/// A text argument.
pub open spec fn text(s: Seq<char>) -> ArgView {
    ArgView::Text(s)
}

/// The character of a decimal digit.
pub open spec fn digit_char(d: nat) -> char {
    if d == 0 { '0' }
    else if d == 1 { '1' }
    else if d == 2 { '2' }
    else if d == 3 { '3' }
    else if d == 4 { '4' }
    else if d == 5 { '5' }
    else if d == 6 { '6' }
    else if d == 7 { '7' }
    else if d == 8 { '8' }
    else { '9' }
}

/// The canonical decimal text of a natural number.
pub open spec fn decimal(n: nat) -> Seq<char>
    decreases n,
{
    if n < 10 {
        seq![digit_char(n)]
    } else {
        decimal(n / 10).push(digit_char(n % 10))
    }
}

/// The canonical decimal text of an integer, with a leading `-` when negative.
pub open spec fn signed_decimal(i: int) -> Seq<char> {
    if i < 0 {
        seq!['-'] + decimal((-i) as nat)
    } else {
        decimal(i as nat)
    }
}

/// The strings `items` joined by `sep`.
pub open spec fn join(items: Seq<Seq<char>>, sep: Seq<char>) -> Seq<char>
    decreases items.len(),
{
    if items.len() == 0 {
        Seq::empty()
    } else if items.len() == 1 {
        items[0]
    } else {
        join(items.drop_last(), sep) + sep + items.last()
    }
}

/// The views of a slice of strings.
pub open spec fn str_views(s: Seq<&str>) -> Seq<Seq<char>> {
    s.map_values(|x: &str| x@)
}

fn digit_str(d: u8) -> (r: &'static str)
    requires
        d < 10,
    ensures
        r@ == seq![digit_char(d as nat)],
{
    proof {
        reveal_strlit("0");
        reveal_strlit("1");
        reveal_strlit("2");
        reveal_strlit("3");
        reveal_strlit("4");
        reveal_strlit("5");
        reveal_strlit("6");
        reveal_strlit("7");
        reveal_strlit("8");
        reveal_strlit("9");
    }
    let r = if d == 0 { "0" }
    else if d == 1 { "1" }
    else if d == 2 { "2" }
    else if d == 3 { "3" }
    else if d == 4 { "4" }
    else if d == 5 { "5" }
    else if d == 6 { "6" }
    else if d == 7 { "7" }
    else if d == 8 { "8" }
    else { "9" };
    assert(r@ =~= seq![digit_char(d as nat)]);
    r
}

/// The canonical decimal text of an unsigned integer.
pub fn u128_text(n: u128) -> (r: String)
    ensures
        r@ == decimal(n as nat),
    decreases n,
{
    if n < 10 {
        String::from_str(digit_str(n as u8))
    } else {
        let mut s = u128_text(n / 10);
        let d = digit_str((n % 10) as u8);
        s.append(d);
        assert(s@ =~= decimal((n / 10) as nat).push(digit_char((n % 10) as nat)));
        s
    }
}

/// The canonical decimal text of a signed integer.
pub fn i128_text(n: i128) -> (r: String)
    ensures
        r@ == signed_decimal(n as int),
{
    if n < 0 {
        let magnitude: u128 = ((-(n + 1)) as u128) + 1;
        let digits = u128_text(magnitude);
        let mut s = String::from_str("-");
        proof {
            reveal_strlit("-");
        }
        s.append(digits.as_str());
        assert(s@ =~= seq!['-'] + decimal((-n) as nat));
        s
    } else {
        u128_text(n as u128)
    }
}

/// The canonical decimal text of a `usize`.
pub fn usize_text(n: usize) -> (r: String)
    ensures
        r@ == decimal(n as nat),
{
    u128_text(n as u128)
}

/// The strings of `values` joined by `sep`.
pub fn join_strs(values: &[&str], sep: &str) -> (r: String)
    ensures
        r@ == join(str_views(values@), sep@),
{
    let ghost items = str_views(values@);
    let mut out = String::new();
    let mut i: usize = 0;
    while i < values.len()
        invariant
            0 <= i <= values@.len(),
            items == str_views(values@),
            out@ == join(items.take(i as int), sep@),
        decreases values@.len() - i,
    {
        if i > 0 {
            out.append(sep);
        }
        out.append(values[i]);
        proof {
            let next = items.take(i + 1);
            assert(next.drop_last() =~= items.take(i as int));
            assert(next.last() == values@[i as int]@);
            if i == 0 {
                assert(out@ =~= join(next, sep@));
            }
        }
        i = i + 1;
    }
    assert(items.take(values@.len() as int) =~= items);
    out
}

/// A copy of a byte string.
pub(crate) fn copy_bytes(b: &Vec<u8>) -> (r: Vec<u8>)
    ensures
        r@ == b@,
{
    let mut out: Vec<u8> = Vec::new();
    let mut i: usize = 0;
    while i < b.len()
        invariant
            0 <= i <= b@.len(),
            out@ == b@.take(i as int),
        decreases b@.len() - i,
    {
        out.push(b[i]);
        assert(out@ =~= b@.take(i + 1));
        i = i + 1;
    }
    assert(b@.take(b@.len() as int) =~= b@);
    out
}

/// Appends a text argument.
pub(crate) fn push_text(out: &mut Vec<Arg>, s: &str)
    ensures
        args_view(final(out)@) == args_view(old(out)@).push(text(s@)),
{
    out.push(Arg::Text(String::from_str(s)));
    assert(args_view(out@) =~= args_view(old(out)@).push(text(s@)));
}

/// Appends a byte-string argument.
pub(crate) fn push_blob(out: &mut Vec<Arg>, b: &Vec<u8>)
    ensures
        args_view(final(out)@) == args_view(old(out)@).push(ArgView::Blob(b@)),
{
    out.push(Arg::Blob(copy_bytes(b)));
    assert(args_view(out@) =~= args_view(old(out)@).push(ArgView::Blob(b@)));
}

/// Appends the decimal text of a count.
pub(crate) fn push_count(out: &mut Vec<Arg>, n: usize)
    ensures
        args_view(final(out)@) == args_view(old(out)@).push(text(decimal(n as nat))),
{
    let s = usize_text(n);
    push_text(out, s.as_str());
}

} // verus!
