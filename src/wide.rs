use vstd::prelude::*;
use vstd::slice::slice_to_vec;
use vstd::utf8::char_u32_cast;

verus! {

/// The UTF-16 code units of one character: the value itself below the
/// supplementary planes, else a high surrogate followed by a low one.
pub open spec fn utf16_of_char(c: char) -> Seq<u16> {
    let v = c as u32;
    if v < 0x10000 {
        seq![v as u16]
    } else {
        let w = v - 0x10000;
        seq![(0xD800 + w / 0x400) as u16, (0xDC00 + w % 0x400) as u16]
    }
}

/// The UTF-16 code units of a character sequence.
pub open spec fn utf16_of(s: Seq<char>) -> Seq<u16>
    decreases s.len(),
{
    if s.len() == 0 {
        seq![]
    } else {
        utf16_of_char(s[0]) + utf16_of(s.drop_first())
    }
}

/// Whether `units` is the UTF-16 encoding of some character sequence.
pub open spec fn is_utf16(units: Seq<u16>) -> bool {
    exists|s: Seq<char>| utf16_of(s) == units
}

/// The characters that `units` encodes, if it is well-formed UTF-16.
pub open spec fn decode_utf16(units: Seq<u16>) -> Option<Seq<char>> {
    if is_utf16(units) {
        Some(choose|s: Seq<char>| utf16_of(s) == units)
    } else {
        None
    }
}

/// Whether the first terminator of `buf` stands at `n` (or `buf` has none
/// and `n` is its length).
pub open spec fn terminated_at(buf: Seq<u16>, n: nat) -> bool {
    &&& n <= buf.len()
    &&& forall|i: int| 0 <= i < n ==> buf[i] != 0
    &&& n == buf.len() || buf[n as int] == 0
}

/// Relies on str::encode_utf16: the UTF-16 code units of the string, in order.
#[verifier::external_body]
fn encode_utf16(s: &str) -> (r: Vec<u16>)
    ensures
        r@ == utf16_of(s@),
{
    s.encode_utf16().collect()
}

/// Relies on String::from_utf16: the string whose UTF-16 encoding is
/// `units`, or an error when `units` encodes none.
#[verifier::external_body]
fn string_from_utf16(units: &[u16]) -> (r: Option<String>)
    ensures
        r is Some <==> is_utf16(units@),
        r is Some ==> utf16_of(r->0@) == units@,
{
    String::from_utf16(units).ok()
}

proof fn lemma_char_units(c: char)
    ensures
        ({
            let u = utf16_of_char(c);
            &&& 1 <= u.len() <= 2
            &&& u.len() == 1 <==> !(0xD800 <= u[0] < 0xDC00)
            &&& u.len() == 1 ==> u[0] == c as u32
            &&& u.len() == 2 ==> 0xDC00 <= u[1] < 0xE000
            &&& u.len() == 2 ==> c as u32 == 0x10000 + (u[0] - 0xD800) * 0x400 + (u[1] - 0xDC00)
            &&& c != '\0' ==> u[0] != 0
        }),
{
    let v = c as u32;
    if v >= 0x10000 {
        let w = v - 0x10000;
        assert(w == (w / 0x400) * 0x400 + w % 0x400);
    }
}

proof fn lemma_utf16_len(s: Seq<char>)
    ensures
        utf16_of(s).len() >= s.len(),
    decreases s.len(),
{
    if s.len() > 0 {
        lemma_char_units(s[0]);
        lemma_utf16_len(s.drop_first());
    }
}

proof fn lemma_utf16_no_zero(s: Seq<char>)
    requires
        !s.contains('\0'),
    ensures
        forall|i: int| 0 <= i < utf16_of(s).len() ==> utf16_of(s)[i] != 0,
    decreases s.len(),
{
    if s.len() > 0 {
        assert(s[0] != '\0') by {
            assert(s.contains(s[0]));
        }
        lemma_char_units(s[0]);
        let t = s.drop_first();
        assert(!t.contains('\0')) by {
            if t.contains('\0') {
                let j = choose|j: int| 0 <= j < t.len() && t[j] == '\0';
                assert(s[j + 1] == '\0');
            }
        }
        lemma_utf16_no_zero(t);
        let u = utf16_of_char(s[0]);
        assert forall|i: int| 0 <= i < utf16_of(s).len() implies utf16_of(s)[i] != 0 by {
            if i >= u.len() {
                assert(utf16_of(s)[i] == utf16_of(t)[i - u.len()]);
            }
        }
    }
}

/// Distinct character sequences have distinct UTF-16 encodings.
pub proof fn lemma_utf16_injective(a: Seq<char>, b: Seq<char>)
    requires
        utf16_of(a) == utf16_of(b),
    ensures
        a == b,
    decreases a.len(),
{
    if a.len() == 0 {
        lemma_utf16_len(b);
        if b.len() > 0 {
            lemma_char_units(b[0]);
        }
    } else if b.len() == 0 {
        lemma_utf16_len(a);
        lemma_char_units(a[0]);
    } else {
        let ua = utf16_of_char(a[0]);
        let ub = utf16_of_char(b[0]);
        let e = utf16_of(a);
        lemma_char_units(a[0]);
        lemma_char_units(b[0]);
        assert(e[0] == ua[0] && e[0] == ub[0]);
        if ua.len() == 2 {
            assert(e[1] == ua[1] && e[1] == ub[1]);
        }
        let v = a[0] as u32;
        assert(v == b[0] as u32);
        char_u32_cast(a[0], v);
        char_u32_cast(b[0], v);
        assert(ua =~= ub);
        assert(utf16_of(a.drop_first()) =~= e.subrange(ua.len() as int, e.len() as int));
        assert(utf16_of(b.drop_first()) =~= e.subrange(ub.len() as int, e.len() as int));
        lemma_utf16_injective(a.drop_first(), b.drop_first());
        assert(a =~= seq![a[0]] + a.drop_first());
        assert(b =~= seq![b[0]] + b.drop_first());
    }
}

/// A path written out as wide characters and read back is the same path:
/// its encoding with a terminator ends exactly at that terminator, and the
/// units before it decode to the original characters.
pub proof fn lemma_wide_round_trip(s: Seq<char>)
    requires
        !s.contains('\0'),
    ensures
        terminated_at(utf16_of(s).push(0), utf16_of(s).len()),
        utf16_of(s).push(0).take(utf16_of(s).len() as int) == utf16_of(s),
        decode_utf16(utf16_of(s)) == Some(s),
{
    lemma_utf16_no_zero(s);
    let e = utf16_of(s);
    assert(e.push(0).take(e.len() as int) =~= e);
    assert(is_utf16(e));
    let d = choose|d: Seq<char>| utf16_of(d) == e;
    lemma_utf16_injective(d, s);
}

/// A path as the driver hands it over: wide characters that it owns for the
/// duration of one callback, up to (not including) their terminator.
#[derive(Clone, Copy)]
pub struct RawPath<'a> {
    units: &'a [u16],
}

impl<'a> View for RawPath<'a> {
    type V = Seq<u16>;

    closed spec fn view(&self) -> Seq<u16> {
        self.units@
    }
}

/// The number of wide characters before the first terminator of `buf`.
pub fn wide_len(buf: &[u16]) -> (n: usize)
    ensures
        terminated_at(buf@, n as nat),
{
    let mut n: usize = 0;
    while n < buf.len() && buf[n] != 0
        invariant
            n <= buf.len(),
            forall|i: int| 0 <= i < n ==> buf@[i] != 0,
        decreases buf.len() - n,
    {
        n = n + 1;
    }
    n
}

impl<'a> RawPath<'a> {
    /// The path that `buf` holds, up to its first terminator.
    pub fn from_wide(buf: &'a [u16]) -> (r: RawPath<'a>)
        ensures
            terminated_at(buf@, r@.len()),
            r@ == buf@.take(r@.len() as int),
    {
        let n = wide_len(buf);
        let (head, _) = buf.split_at(n);
        assert(head@ =~= buf@.take(n as int));
        RawPath { units: head }
    }

    /// The wide characters of the path, without a terminator.
    pub fn as_wide(&self) -> (r: &'a [u16])
        ensures
            r@ == self@,
    {
        self.units
    }

    /// Copies the path out of the driver's buffer, unit for unit: the owned
    /// path holds exactly what the driver handed over, well-formed UTF-16 or
    /// not.
    pub fn to_path_buf(self) -> (r: Vec<u16>)
        ensures
            r@ == self@,
    {
        slice_to_vec(self.units)
    }

    /// The path as a string; `None` when its units are not well-formed
    /// UTF-16 (an unpaired surrogate), which a string cannot hold.
    pub fn decode(self) -> (r: Option<String>)
        ensures
            match r {
                Some(s) => decode_utf16(self@) == Some(s@),
                None => decode_utf16(self@) is None,
            },
    {
        let r = string_from_utf16(self.units);
        proof {
            if r is Some {
                let d = choose|d: Seq<char>| utf16_of(d) == self@;
                lemma_utf16_injective(d, r->0@);
            }
        }
        r
    }
}

/// The wide characters of `path` followed by a terminator, as the driver
/// expects a path.
pub fn encode_wide(path: &str) -> (r: Vec<u16>)
    ensures
        r@ == utf16_of(path@).push(0),
{
    let mut r = encode_utf16(path);
    r.push(0);
    r
}

} // verus!
