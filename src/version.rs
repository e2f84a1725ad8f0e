//! The packed version tag stored in a channel's metadata.
use vstd::prelude::*;
use vstd::string::StringExecFns;

verus! {

/// The character of a decimal digit.
pub open spec fn digit_char(d: nat) -> char {
    if d == 0 { '0' }
    else if d == 1 { '1' }
    else if d == 2 { '2' }
    else if d == 3 { '3' }
    else if d == 4 { '4' }
    else if d == 5 { '5' }
    else if d == 6 { '6' }
    else if d == 7 { '7' }
    else if d == 8 { '8' }
    else { '9' }
}

/// The decimal digits of `n`, most significant first, without sign or padding.
pub open spec fn decimal(n: nat) -> Seq<char>
    decreases n,
{
    if n < 10 {
        seq![digit_char(n)]
    } else {
        decimal(n / 10).push(digit_char(n % 10))
    }
}

fn digit_str(d: u64) -> (r: &'static str)
    requires
        d < 10,
    ensures
        r@ == seq![digit_char(d as nat)],
{
    proof {
        reveal_strlit("0");
        reveal_strlit("1");
        reveal_strlit("2");
        reveal_strlit("3");
        reveal_strlit("4");
        reveal_strlit("5");
        reveal_strlit("6");
        reveal_strlit("7");
        reveal_strlit("8");
        reveal_strlit("9");
    }
    match d {
        0 => "0",
        1 => "1",
        2 => "2",
        3 => "3",
        4 => "4",
        5 => "5",
        6 => "6",
        7 => "7",
        8 => "8",
        _ => "9",
    }
}

/// Appends the decimal digits of `n` to `s`.
fn push_decimal(s: &mut String, n: u64)
    ensures
        final(s)@ == old(s)@ + decimal(n as nat),
    decreases n,
{
    if n >= 10 {
        push_decimal(s, n / 10);
    }
    s.append(digit_str(n % 10));
    assert(final(s)@ =~= old(s)@ + decimal(n as nat));
}

/// A version packed in a `u64`: major in the top 16 bits, minor in the next 16,
/// patch in the low 32.
#[derive(Clone, Copy, Debug, PartialEq, Eq, Structural)]
pub struct Version {
    version: u64,
}

/// The packed form of a version.
pub open spec fn pack(major: u16, minor: u16, patch: u32) -> int {
    major as int * 0x1_0000_0000_0000 + minor as int * 0x1_0000_0000 + patch as int
}

impl View for Version {
    type V = u64;

    closed spec fn view(&self) -> u64 {
        self.version
    }
}

/// Two versions with the same packed value are the same version.
pub proof fn lemma_version_view_injective(a: Version, b: Version)
    ensures
        a@ == b@ ==> a == b,
{
}

impl Version {
    /// The major part of a packed version.
    pub open spec fn spec_major(v: u64) -> u16 {
        (v / 0x1_0000_0000_0000) as u16
    }

    /// The minor part of a packed version.
    pub open spec fn spec_minor(v: u64) -> u16 {
        ((v / 0x1_0000_0000) % 0x1_0000) as u16
    }

    /// The patch part of a packed version.
    pub open spec fn spec_patch(v: u64) -> u32 {
        (v % 0x1_0000_0000) as u32
    }

    /// Packs a version.
    pub fn new(major: u16, minor: u16, patch: u32) -> (r: Version)
        ensures
            r@ as int == pack(major, minor, patch),
            Version::spec_major(r@) == major,
            Version::spec_minor(r@) == minor,
            Version::spec_patch(r@) == patch,
    {
        let mut v_u64: u64 = 0;
        v_u64 = v_u64 | ((major as u64) << 48u64);
        v_u64 = v_u64 | ((minor as u64) << 32u64);
        v_u64 = v_u64 | (patch as u64);
        let ma = major as u64;
        let mi = minor as u64;
        let pa = patch as u64;
        assert(((0u64 | (ma << 48u64)) | (mi << 32u64)) | pa
            == ma * 0x1_0000_0000_0000 + mi * 0x1_0000_0000 + pa) by (bit_vector)
            requires ma < 0x1_0000, mi < 0x1_0000, pa < 0x1_0000_0000;
        let x = ((0u64 | (ma << 48u64)) | (mi << 32u64)) | pa;
        assert(x / 0x1_0000_0000_0000 == ma && (x / 0x1_0000_0000) % 0x1_0000 == mi
            && x % 0x1_0000_0000 == pa) by (bit_vector)
            requires
                x == ((0u64 | (ma << 48u64)) | (mi << 32u64)) | pa,
                ma < 0x1_0000, mi < 0x1_0000, pa < 0x1_0000_0000;
        let r = Version { version: v_u64 };
        r
    }

    /// The major part.
    pub fn major(self) -> (r: u16)
        ensures
            r == Version::spec_major(self@),
    {
        let v = self.version;
        assert(v >> 48u64 == v / 0x1_0000_0000_0000) by (bit_vector);
        (v >> 48) as u16
    }

    /// The minor part.
    pub fn minor(self) -> (r: u16)
        ensures
            r == Version::spec_minor(self@),
    {
        let v = self.version;
        assert((v << 16u64) >> 48u64 == (v / 0x1_0000_0000) % 0x1_0000) by (bit_vector);
        ((v << 16) >> 48) as u16
    }

    /// The patch part.
    pub fn patch(self) -> (r: u32)
        ensures
            r == Version::spec_patch(self@),
    {
        let v = self.version;
        assert(v & 0x0000_0000_FFFF_FFFF == v % 0x1_0000_0000) by (bit_vector);
        (v & 0x0000_0000_FFFF_FFFF) as u32
    }

    /// Tells whether a channel written by `other` can be read by code of version `self`:
    /// `other` is not newer than `self`.
    pub fn is_compatible(self, other: Version) -> (r: bool)
        ensures
            r == (self@ >= other@),
    {
        self.version >= other.version
    }

    /// The packed value of the version this library writes.
    pub open spec fn spec_latest() -> u64 {
        pack(1, 0, 0) as u64
    }

    /// The version this library writes: 1.0.0.
    pub fn latest() -> (r: Version)
        ensures
            r@ == Version::spec_latest(),
    {
        Version::new(1, 0, 0)
    }

    /// The packed value.
    pub fn packed(self) -> (r: u64)
        ensures
            r == self@,
    {
        self.version
    }

    /// Text of the version as `major.minor.patch`.
    pub open spec fn spec_text(v: u64) -> Seq<char> {
        decimal(Version::spec_major(v) as nat) + seq!['.'] + decimal(Version::spec_minor(v) as nat)
            + seq!['.'] + decimal(Version::spec_patch(v) as nat)
    }

    /// The version as text, `major.minor.patch`.
    pub fn to_string(self) -> (r: String)
        ensures
            r@ == Version::spec_text(self@),
    {
        let mut s = String::new();
        push_decimal(&mut s, self.major() as u64);
        s.append(".");
        push_decimal(&mut s, self.minor() as u64);
        s.append(".");
        push_decimal(&mut s, self.patch() as u64);
        proof {
            reveal_strlit(".");
        }
        s
    }
}

impl From<Version> for u64 {
    fn from(version: Version) -> (r: u64) {
        version.version
    }
}

impl vstd::std_specs::convert::FromSpecImpl<Version> for u64 {
    open spec fn obeys_from_spec() -> bool {
        true
    }

    open spec fn from_spec(v: Version) -> u64 {
        v@
    }
}

impl From<u64> for Version {
    fn from(version: u64) -> (r: Version)
        ensures
            r@ == version,
    {
        Version { version }
    }
}

impl vstd::std_specs::convert::FromSpecImpl<u64> for Version {
    open spec fn obeys_from_spec() -> bool {
        true
    }

    closed spec fn from_spec(v: u64) -> Version {
        Version { version: v }
    }
}

} // verus!
