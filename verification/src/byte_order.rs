//! Integers in byte buffers.
//!
//! The vhost-user protocol sends its numbers in the byte order of the machine,
//! the virtio configuration space holds them in little-endian order.

use vm_memory::{ByteValued, Le16, Le32};
use vstd::prelude::*;

verus! {

/// The order in which a number's bytes stand in memory.
#[derive(Clone, Copy, Debug, PartialEq, Eq, Structural)]
pub enum ByteOrder {
    Little,
    Big,
}

/// The number that four bytes of `s`, from `i` on, hold.
pub open spec fn u32_at(order: ByteOrder, s: Seq<u8>, i: int) -> int {
    match order {
        ByteOrder::Little => s[i] + 0x100 * s[i + 1] + 0x1_0000 * s[i + 2] + 0x100_0000 * s[i + 3],
        ByteOrder::Big => s[i + 3] + 0x100 * s[i + 2] + 0x1_0000 * s[i + 1] + 0x100_0000 * s[i],
    }
}

/// The number that eight bytes of `s`, from `i` on, hold.
pub open spec fn u64_at(order: ByteOrder, s: Seq<u8>, i: int) -> int {
    match order {
        ByteOrder::Little => u32_at(order, s, i) + 0x1_0000_0000 * u32_at(order, s, i + 4),
        ByteOrder::Big => u32_at(order, s, i + 4) + 0x1_0000_0000 * u32_at(order, s, i),
    }
}

/// The number that two bytes hold in little-endian order.
pub open spec fn le16(s: Seq<u8>, i: int) -> int {
    s[i] + 0x100 * s[i + 1]
}

/// The number that four bytes hold in little-endian order.
pub open spec fn le32(s: Seq<u8>, i: int) -> int {
    u32_at(ByteOrder::Little, s, i)
}

/// Reads the bytes 1 and 0 with `u16::from_ne_bytes`, which takes them as 1 on a
/// little-endian machine and as 256 on a big-endian one.
#[verifier::external_body]
fn probe_native_order() -> (probe: u16)
    ensures
        probe == 1 || probe == 256,
{
    u16::from_ne_bytes([1, 0])
}

impl ByteOrder {
    /// The byte order of this machine. Which one it is depends on the machine
    /// alone, so nothing more is said of the result: [`ByteOrder::from_probe`] says
    /// what each outcome of the probe leads to, and what follows from it is stated
    /// by the functions that take a byte order.
    pub fn native() -> (order: ByteOrder)
        ensures
            order == ByteOrder::Little || order == ByteOrder::Big,
    {
        ByteOrder::from_probe(probe_native_order())
    }

    /// The byte order of a machine that takes the bytes 1 and 0 for the number
    /// `probe`: 1 where the lower byte stands first.
    pub fn from_probe(probe: u16) -> (order: ByteOrder)
        ensures
            order == (if probe == 1 {
                ByteOrder::Little
            } else {
                ByteOrder::Big
            }),
    {
        if probe == 1 {
            ByteOrder::Little
        } else {
            ByteOrder::Big
        }
    }

    /// Reads four bytes from `at` on.
    pub fn read_u32(self, bytes: &[u8], at: usize) -> (value: u32)
        requires
            at + 4 <= bytes@.len(),
        ensures
            value == u32_at(self, bytes@, at as int),
    {
        let a = bytes[at] as u32;
        let b = bytes[at + 1] as u32;
        let c = bytes[at + 2] as u32;
        let d = bytes[at + 3] as u32;
        match self {
            ByteOrder::Little => a + 0x100 * b + 0x1_0000 * c + 0x100_0000 * d,
            ByteOrder::Big => d + 0x100 * c + 0x1_0000 * b + 0x100_0000 * a,
        }
    }

    /// Reads eight bytes from `at` on.
    pub fn read_u64(self, bytes: &[u8], at: usize) -> (value: u64)
        requires
            at + 8 <= bytes@.len(),
        ensures
            value == u64_at(self, bytes@, at as int),
    {
        assert(bytes@.len() == bytes.len());
        let first = self.read_u32(bytes, at) as u64;
        let second = self.read_u32(bytes, at + 4) as u64;
        match self {
            ByteOrder::Little => first + 0x1_0000_0000 * second,
            ByteOrder::Big => second + 0x1_0000_0000 * first,
        }
    }

    /// Writes four bytes from `at` on.
    pub fn write_u32(self, bytes: &mut [u8], at: usize, value: u32)
        requires
            at + 4 <= old(bytes)@.len(),
        ensures
            final(bytes)@.len() == old(bytes)@.len(),
            u32_at(self, final(bytes)@, at as int) == value,
            forall|i: int|
                0 <= i < old(bytes)@.len() && !(at <= i < at + 4) ==> #[trigger] final(bytes)@[i] == old(bytes)@[i],
    {
        let a = (value % 0x100) as u8;
        let b = (value / 0x100 % 0x100) as u8;
        let c = (value / 0x1_0000 % 0x100) as u8;
        let d = (value / 0x100_0000) as u8;
        match self {
            ByteOrder::Little => {
                bytes[at] = a;
                bytes[at + 1] = b;
                bytes[at + 2] = c;
                bytes[at + 3] = d;
            },
            ByteOrder::Big => {
                bytes[at] = d;
                bytes[at + 1] = c;
                bytes[at + 2] = b;
                bytes[at + 3] = a;
            },
        }
    }

    /// Writes eight bytes from `at` on.
    pub fn write_u64(self, bytes: &mut [u8], at: usize, value: u64)
        requires
            at + 8 <= old(bytes)@.len(),
        ensures
            final(bytes)@.len() == old(bytes)@.len(),
            u64_at(self, final(bytes)@, at as int) == value,
            forall|i: int|
                0 <= i < old(bytes)@.len() && !(at <= i < at + 8) ==> #[trigger] final(bytes)@[i] == old(bytes)@[i],
    {
        assert(bytes@.len() == bytes.len());
        let low = (value % 0x1_0000_0000) as u32;
        let high = (value / 0x1_0000_0000) as u32;
        match self {
            ByteOrder::Little => {
                self.write_u32(bytes, at, low);
                self.write_u32(bytes, at + 4, high);
            },
            ByteOrder::Big => {
                self.write_u32(bytes, at, high);
                self.write_u32(bytes, at + 4, low);
            },
        }
    }
}

/// Reads two bytes in little-endian order.
pub fn read_le16(bytes: &[u8], at: usize) -> (value: u16)
    requires
        at + 2 <= bytes@.len(),
    ensures
        value == le16(bytes@, at as int),
{
    bytes[at] as u16 + 0x100 * (bytes[at + 1] as u16)
}

/// The bytes of `vm_memory::Le32::from(value)`: four of them, the lowest first.
#[verifier::external_body]
pub(crate) fn le32_bytes(value: u32) -> (bytes: Vec<u8>)
    ensures
        bytes@.len() == 4,
        le32(bytes@, 0) == value,
{
    Le32::from(value).as_slice().to_vec()
}

/// The bytes of `vm_memory::Le16::from(value)`: two of them, the lower first.
#[verifier::external_body]
pub(crate) fn le16_bytes(value: u16) -> (bytes: Vec<u8>)
    ensures
        bytes@.len() == 2,
        le16(bytes@, 0) == value,
{
    Le16::from(value).as_slice().to_vec()
}

/// Four digits to the base 256 are told by the number that they form.
proof fn lemma_digits(a: u8, b: u8, c: u8, d: u8, e: u8, f: u8, g: u8, h: u8)
    requires
        a + 0x100 * b + 0x1_0000 * c + 0x100_0000 * d == e + 0x100 * f + 0x1_0000 * g + 0x100_0000 * h,
    ensures
        a == e && b == f && c == g && d == h,
{
    assert(d == h);
    assert(c == g);
    assert(b == f);
}

/// A number has one form only in four bytes of a given order.
pub proof fn law_u32_bytes_are_unique(order: ByteOrder, a: Seq<u8>, b: Seq<u8>, i: int)
    requires
        u32_at(order, a, i) == u32_at(order, b, i),
    ensures
        forall|k: int| i <= k < i + 4 ==> a[k] == b[k],
{
    match order {
        ByteOrder::Little => {
            lemma_digits(a[i], a[i + 1], a[i + 2], a[i + 3], b[i], b[i + 1], b[i + 2], b[i + 3]);
        },
        ByteOrder::Big => {
            lemma_digits(a[i + 3], a[i + 2], a[i + 1], a[i], b[i + 3], b[i + 2], b[i + 1], b[i]);
        },
    }
    assert forall|k: int| i <= k < i + 4 implies a[k] == b[k] by {
        assert(k == i || k == i + 1 || k == i + 2 || k == i + 3);
    }
}

/// A number has one form only in eight bytes of a given order.
pub proof fn law_u64_bytes_are_unique(order: ByteOrder, a: Seq<u8>, b: Seq<u8>)
    requires
        a.len() == 8,
        b.len() == 8,
        u64_at(order, a, 0) == u64_at(order, b, 0),
    ensures
        a == b,
{
    law_u32_bytes_are_unique(order, a, b, 0);
    law_u32_bytes_are_unique(order, a, b, 4);
    assert(a =~= b);
}

/// The bytes of a number are its digits to the base 256: in little-endian order the
/// lowest stands first, in big-endian order it stands last.
pub proof fn law_bytes_are_digits(s: Seq<u8>, i: int)
    ensures
        ({
            let n = u32_at(ByteOrder::Little, s, i);
            &&& 0 <= n < 0x1_0000_0000
            &&& n % 0x100 == s[i]
            &&& n / 0x100 % 0x100 == s[i + 1]
            &&& n / 0x1_0000 % 0x100 == s[i + 2]
            &&& n / 0x100_0000 == s[i + 3]
        }),
        ({
            let n = u32_at(ByteOrder::Big, s, i);
            &&& 0 <= n < 0x1_0000_0000
            &&& n % 0x100 == s[i + 3]
            &&& n / 0x100 % 0x100 == s[i + 2]
            &&& n / 0x1_0000 % 0x100 == s[i + 1]
            &&& n / 0x100_0000 == s[i]
        }),
        0 <= le16(s, i) < 0x1_0000,
        le16(s, i) % 0x100 == s[i],
        le16(s, i) / 0x100 == s[i + 1],
        le32(s, i) % 0x1_0000 == le16(s, i),
        le32(s, i) / 0x1_0000 == le16(s, i + 2),
{
    lemma_four_digits(s[i], s[i + 1], s[i + 2], s[i + 3]);
    lemma_four_digits(s[i + 3], s[i + 2], s[i + 1], s[i]);
}

proof fn lemma_last_digit(digit: u8, rest: int)
    requires
        0 <= rest,
    ensures
        (digit + 0x100 * rest) % 0x100 == digit,
        (digit + 0x100 * rest) / 0x100 == rest,
{
}

proof fn lemma_four_digits(a: u8, b: u8, c: u8, d: u8)
    ensures
        ({
            let n = a + 0x100 * b + 0x1_0000 * c + 0x100_0000 * d;
            &&& 0 <= n < 0x1_0000_0000
            &&& n % 0x100 == a
            &&& n / 0x100 % 0x100 == b
            &&& n / 0x1_0000 % 0x100 == c
            &&& n / 0x100_0000 == d
            &&& n % 0x1_0000 == a + 0x100 * b
            &&& n / 0x1_0000 == c + 0x100 * d
        }),
        (a + 0x100 * b) % 0x100 == a,
        (a + 0x100 * b) / 0x100 == b,
{
    let high = c + 0x100 * d;
    let rest = b + 0x100 * high;
    let n = a + 0x100 * rest;
    lemma_last_digit(a, rest);
    lemma_last_digit(b, high);
    lemma_last_digit(c, d as int);
    lemma_last_digit(a, b as int);
    assert(n / 0x1_0000 == n / 0x100 / 0x100);
    assert(n / 0x100_0000 == n / 0x1_0000 / 0x100);
    assert(n % 0x1_0000 == a + 0x100 * b);
}

/// A number of eight bytes is two numbers of four: the half that counts more stands
/// last in little-endian order, and first in big-endian order.
pub proof fn law_halves_make_the_whole(s: Seq<u8>, i: int)
    ensures
        0 <= u64_at(ByteOrder::Little, s, i) <= u64::MAX,
        u64_at(ByteOrder::Little, s, i) % 0x1_0000_0000 == u32_at(ByteOrder::Little, s, i),
        u64_at(ByteOrder::Little, s, i) / 0x1_0000_0000 == u32_at(ByteOrder::Little, s, i + 4),
        0 <= u64_at(ByteOrder::Big, s, i) <= u64::MAX,
        u64_at(ByteOrder::Big, s, i) % 0x1_0000_0000 == u32_at(ByteOrder::Big, s, i + 4),
        u64_at(ByteOrder::Big, s, i) / 0x1_0000_0000 == u32_at(ByteOrder::Big, s, i),
{
    lemma_four_bytes(ByteOrder::Little, s, i);
    lemma_four_bytes(ByteOrder::Little, s, i + 4);
    lemma_four_bytes(ByteOrder::Big, s, i);
    lemma_four_bytes(ByteOrder::Big, s, i + 4);
    lemma_two_halves(u32_at(ByteOrder::Little, s, i), u32_at(ByteOrder::Little, s, i + 4));
    lemma_two_halves(u32_at(ByteOrder::Big, s, i + 4), u32_at(ByteOrder::Big, s, i));
}

proof fn lemma_four_bytes(order: ByteOrder, s: Seq<u8>, i: int)
    ensures
        0 <= u32_at(order, s, i) < 0x1_0000_0000,
{
}

proof fn lemma_two_halves(low: int, high: int)
    requires
        0 <= low < 0x1_0000_0000,
        0 <= high < 0x1_0000_0000,
    ensures
        0 <= low + 0x1_0000_0000 * high <= u64::MAX,
        (low + 0x1_0000_0000 * high) % 0x1_0000_0000 == low,
        (low + 0x1_0000_0000 * high) / 0x1_0000_0000 == high,
{
}

} // verus!
