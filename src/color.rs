use vstd::prelude::*;

verus! {

/// One color with 8-bit channels.
#[derive(Clone, Copy, Debug, PartialEq, Eq, Structural)]
pub struct Rgb {
    pub red: u8,
    pub green: u8,
    pub blue: u8,
}

impl Rgb {
    pub fn new(red: u8, green: u8, blue: u8) -> (r: Rgb)
        ensures
            r.red == red,
            r.green == green,
            r.blue == blue,
    {
        Rgb { red, green, blue }
    }

    /// The channels in order red, green, blue.
    pub fn to_array(&self) -> (r: [u8; 3])
        ensures
            r@ == seq![self.red, self.green, self.blue],
    {
        let r = [self.red, self.green, self.blue];
        assert(r@ =~= seq![self.red, self.green, self.blue]);
        r
    }

    pub fn from_array(a: [u8; 3]) -> (r: Rgb)
        ensures
            seq![r.red, r.green, r.blue] == a@,
    {
        let r = Rgb { red: a[0], green: a[1], blue: a[2] };
        assert(seq![r.red, r.green, r.blue] =~= a@);
        r
    }
}

/// The number that identifies a color: its channels read as one
/// 24-bit integer, red highest.
pub open spec fn key_of(c: Rgb) -> int {
    c.red as int * 65536 + c.green as int * 256 + c.blue as int
}

/// Distinct colors have distinct keys.
pub proof fn lemma_key_injective(a: Rgb, b: Rgb)
    requires
        key_of(a) == key_of(b),
    ensures
        a == b,
{
    let (ar, ag, ab) = (a.red as int, a.green as int, a.blue as int);
    let (br, bg, bb) = (b.red as int, b.green as int, b.blue as int);
    assert(ar == br) by (nonlinear_arith)
        requires
            ar * 65536 + ag * 256 + ab == br * 65536 + bg * 256 + bb,
            0 <= ag < 256, 0 <= ab < 256, 0 <= bg < 256, 0 <= bb < 256,
    ;
    assert(ag == bg) by (nonlinear_arith)
        requires
            ag * 256 + ab == bg * 256 + bb,
            0 <= ab < 256, 0 <= bb < 256,
    ;
}

/// The key of `c` as a machine integer.
pub fn color_key(c: Rgb) -> (k: u32)
    ensures
        k as int == key_of(c),
{
    c.red as u32 * 65536 + c.green as u32 * 256 + c.blue as u32
}

} // verus!
