use vstd::prelude::*;

verus! {

/// The UTF-16 code units of one character: one unit inside the basic
/// multilingual plane, a surrogate pair above it.
pub open spec fn utf16_of_char(c: char) -> Seq<u16> {
    let v = c as u32 as int;
    if v < 0x10000 {
        seq![v as u16]
    } else {
        let w = v - 0x10000;
        seq![(0xD800 + w / 0x400) as u16, (0xDC00 + w % 0x400) as u16]
    }
}

/// The UTF-16 encoding of a character sequence.
pub open spec fn utf16_of(s: Seq<char>) -> Seq<u16>
    decreases s.len(),
{
    if s.len() == 0 {
        seq![]
    } else {
        utf16_of(s.drop_last()) + utf16_of_char(s.last())
    }
}

/// The nul-terminated wide form of a string, as handed to Win32 calls.
pub open spec fn wide_of(s: Seq<char>) -> Seq<u16> {
    utf16_of(s).push(0)
}

/// A nul-terminated UTF-16 string, or the absence of one (a null pointer).
#[derive(Default, Debug)]
pub struct WString(Option<Vec<u16>>);

impl View for WString {
    type V = Option<Seq<u16>>;

    closed spec fn view(&self) -> Option<Seq<u16>> {
        match self.0 {
            Some(v) => Some(v@),
            None => None,
        }
    }
}

fn push_char_units(out: &mut Vec<u16>, c: char)
    ensures
        final(out)@ == old(out)@ + utf16_of_char(c),
{
    let v: u32 = c as u32;
    if v < 0x10000 {
        out.push(v as u16);
    } else {
        assert(v <= 0x10FFFF) by {
            assert(c as u32 <= 0x10FFFF);
        }
        let w: u32 = v - 0x10000;
        out.push((0xD800 + w / 0x400) as u16);
        out.push((0xDC00 + w % 0x400) as u16);
    }
}

/// Encodes `s` as UTF-16 followed by a terminating nul unit.
fn encode_wide(s: &str) -> (r: Vec<u16>)
    ensures
        r@ == wide_of(s@),
{
    let n: usize = s.unicode_len();
    let mut out: Vec<u16> = Vec::new();
    let mut i: usize = 0;
    while i < n
        invariant
            n == s@.len(),
            i <= n,
            out@ == utf16_of(s@.subrange(0, i as int)),
        decreases n - i,
    {
        let c = s.get_char(i);
        push_char_units(&mut out, c);
        assert(s@.subrange(0, i + 1).drop_last() =~= s@.subrange(0, i as int));
        i = i + 1;
    }
    assert(s@.subrange(0, n as int) =~= s@);
    out.push(0);
    out
}

impl WString {
    /// The wide form of `s`, or the null string when `s` is `None`.
    pub fn from_opt_str(s: Option<&str>) -> (r: Self)
        ensures
            r@ == (match s {
                Some(t) => Some(wide_of(t@)),
                None => None,
            }),
    {
        match s {
            Some(t) => WString(Some(encode_wide(t))),
            None => WString(None),
        }
    }

    /// The wide form of `s`.
    pub fn new(s: &str) -> (r: Self)
        ensures
            r@ == Some(wide_of(s@)),
    {
        Self::from_opt_str(Some(s))
    }

    /// The buffer that a wide-string pointer to this value addresses; `None`
    /// stands for the null pointer.
    pub fn as_ptr(&self) -> (r: Option<&[u16]>)
        ensures
            match r {
                Some(b) => self@ == Some(b@),
                None => self@ is None,
            },
    {
        match &self.0 {
            Some(v) => Some(v.as_slice()),
            None => None,
        }
    }
}

} // verus!
