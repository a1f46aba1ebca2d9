//! Reading integers, bytes and strings from the front of a byte range.

use crate::error::Error;
use vstd::prelude::*;
use vstd::slice::slice_subrange;

verus! {

/// Index of the first byte at or after `i` whose continuation bit is clear,
/// or `s.len()` where there is none.
pub open spec fn final_byte(s: Seq<u8>, i: int) -> int
    decreases s.len() - i,
{
    if i < 0 || i >= s.len() {
        s.len() as int
    } else if s[i] < 0x80 {
        i
    } else {
        final_byte(s, i + 1)
    }
}

/// The number that the low seven bits of bytes `i..n` spell, least
/// significant group first.
pub open spec fn unsigned_groups(s: Seq<u8>, i: int, n: int) -> int
    decreases n - i,
{
    if i >= n {
        0
    } else {
        (s[i] % 128) + 128 * unsigned_groups(s, i + 1, n)
    }
}

/// As `unsigned_groups`, with the last group read as a signed seven-bit
/// number.
pub open spec fn signed_groups(s: Seq<u8>, i: int, n: int) -> int
    decreases n - i,
{
    if i >= n {
        0
    } else if i == n - 1 {
        if s[i] % 128 >= 64 {
            s[i] % 128 - 128
        } else {
            (s[i] % 128) as int
        }
    } else {
        (s[i] % 128) + 128 * signed_groups(s, i + 1, n)
    }
}

/// The unsigned LEB128 number at the start of `s`, and the bytes after it.
///
/// The encoding ends at the first byte below `0x80`. It is accepted when
/// that byte is among the first nine, or is the tenth and holds `0` or `1`.
/// An encoding that ends later or overflows is malformed; one that has not
/// ended when `s` does is cut short.
pub open spec fn take_varuint(s: Seq<u8>) -> Result<(u64, Seq<u8>), Error> {
    let t = final_byte(s, 0);
    if t >= s.len() {
        Err(Error::Eof)
    } else if t < 9 || (t == 9 && s[9] <= 1) {
        Ok((unsigned_groups(s, 0, t + 1) as u64, s.skip(t + 1)))
    } else {
        Err(Error::MalformedVarint)
    }
}

/// The signed LEB128 number at the start of `s`, and the bytes after it.
///
/// As `take_varuint`, but the last group carries the sign, and a tenth byte
/// must be `0x00` or `0x7f`.
pub open spec fn take_varint(s: Seq<u8>) -> Result<(i64, Seq<u8>), Error> {
    let t = final_byte(s, 0);
    if t >= s.len() {
        Err(Error::Eof)
    } else if t < 9 || (t == 9 && (s[9] == 0 || s[9] == 0x7f)) {
        Ok((signed_groups(s, 0, t + 1) as i64, s.skip(t + 1)))
    } else {
        Err(Error::MalformedVarint)
    }
}

/// The first byte of `s`, and the bytes after it.
pub open spec fn take_u8(s: Seq<u8>) -> Result<(u8, Seq<u8>), Error> {
    if s.len() < 1 {
        Err(Error::Eof)
    } else {
        Ok((s[0], s.skip(1)))
    }
}

/// The first `n` bytes of `s`, and the bytes after them.
pub open spec fn take_bytes(s: Seq<u8>, n: int) -> Result<(Seq<u8>, Seq<u8>), Error> {
    if n < 0 || n > s.len() {
        Err(Error::Eof)
    } else {
        Ok((s.take(n), s.skip(n)))
    }
}

/// The number that the first `n` bytes of `s` spell, least significant byte
/// first.
pub open spec fn little_endian(s: Seq<u8>, n: int) -> int
    decreases n,
{
    if n <= 0 {
        0
    } else {
        s[0] + 256 * little_endian(s.skip(1), n - 1)
    }
}

/// The little-endian 32-bit number at the start of `s`, and the bytes after
/// it.
pub open spec fn take_u32_le(s: Seq<u8>) -> Result<(u32, Seq<u8>), Error> {
    if s.len() < 4 {
        Err(Error::Eof)
    } else {
        Ok((little_endian(s, 4) as u32, s.skip(4)))
    }
}

/// The little-endian 64-bit number at the start of `s`, and the bytes after
/// it.
pub open spec fn take_u64_le(s: Seq<u8>) -> Result<(u64, Seq<u8>), Error> {
    if s.len() < 8 {
        Err(Error::Eof)
    } else {
        Ok((little_endian(s, 8) as u64, s.skip(8)))
    }
}

/// The text that `s` encodes in UTF-8.
pub open spec fn take_str(s: Seq<u8>) -> Result<Seq<char>, Error> {
    if vstd::utf8::valid_utf8(s) {
        Ok(vstd::utf8::decode_utf8(s))
    } else {
        Err(Error::InvalidUtf8)
    }
}

/// A length-prefixed string at the start of `s`, and the bytes after it: an
/// unsigned varint length, then that many bytes of UTF-8.
pub open spec fn take_string(s: Seq<u8>) -> Result<(Seq<char>, Seq<u8>), Error> {
    match take_varuint(s) {
        Err(e) => Err(e),
        Ok((len, r1)) => match take_bytes(r1, len as int) {
            Err(e) => Err(e),
            Ok((raw, r2)) => match take_str(raw) {
                Err(e) => Err(e),
                Ok(text) => Ok((text, r2)),
            },
        },
    }
}

/// Reads an unsigned LEB128 number and moves `iter` past it.
///
/// Calls `leb128::read::unsigned` on the slice. The contract claims that it
/// returns the number described by `take_varuint` and leaves `iter` at the
/// byte after the encoding, that running out of bytes is reported as `Eof`
/// and an encoding that overflows 64 bits as `MalformedVarint`. After a
/// failure nothing is claimed of `iter`.
#[verifier::external_body]
pub(crate) fn read_varuint(iter: &mut &[u8]) -> (r: Result<u64, Error>)
    ensures
        match take_varuint(old(iter)@) {
            Ok((v, rest)) => r == Ok::<u64, Error>(v) && final(iter)@ == rest,
            Err(e) => r == Err::<u64, Error>(e),
        },
{
    match leb128::read::unsigned(iter) {
        Ok(v) => Ok(v),
        Err(leb128::read::Error::IoError(_)) => Err(Error::Eof),
        Err(leb128::read::Error::Overflow) => Err(Error::MalformedVarint),
    }
}

/// Reads a signed LEB128 number and moves `iter` past it.
///
/// Calls `leb128::read::signed` on the slice. The contract claims that it
/// returns the number described by `take_varint` and leaves `iter` at the
/// byte after the encoding, with failures reported as for `read_varuint`.
#[verifier::external_body]
pub(crate) fn read_varint(iter: &mut &[u8]) -> (r: Result<i64, Error>)
    ensures
        match take_varint(old(iter)@) {
            Ok((v, rest)) => r == Ok::<i64, Error>(v) && final(iter)@ == rest,
            Err(e) => r == Err::<i64, Error>(e),
        },
{
    match leb128::read::signed(iter) {
        Ok(v) => Ok(v),
        Err(leb128::read::Error::IoError(_)) => Err(Error::Eof),
        Err(leb128::read::Error::Overflow) => Err(Error::MalformedVarint),
    }
}

/// Reads a little-endian 32-bit number and moves `iter` past it.
///
/// Calls `byteorder::ReadBytesExt::read_u32` with `LittleEndian` on the
/// slice. The contract claims that four bytes are taken and combined least
/// significant first, and that fewer than four bytes give `Eof`.
#[verifier::external_body]
pub(crate) fn read_u32_le(iter: &mut &[u8]) -> (r: Result<u32, Error>)
    ensures
        match take_u32_le(old(iter)@) {
            Ok((v, rest)) => r == Ok::<u32, Error>(v) && final(iter)@ == rest,
            Err(e) => r == Err::<u32, Error>(e),
        },
{
    match byteorder::ReadBytesExt::read_u32::<byteorder::LittleEndian>(iter) {
        Ok(v) => Ok(v),
        Err(_) => Err(Error::Eof),
    }
}

/// Reads a little-endian 64-bit number and moves `iter` past it.
///
/// Calls `byteorder::ReadBytesExt::read_u64` with `LittleEndian` on the
/// slice. The contract claims that eight bytes are taken and combined least
/// significant first, and that fewer than eight bytes give `Eof`.
#[verifier::external_body]
pub(crate) fn read_u64_le(iter: &mut &[u8]) -> (r: Result<u64, Error>)
    ensures
        match take_u64_le(old(iter)@) {
            Ok((v, rest)) => r == Ok::<u64, Error>(v) && final(iter)@ == rest,
            Err(e) => r == Err::<u64, Error>(e),
        },
{
    match byteorder::ReadBytesExt::read_u64::<byteorder::LittleEndian>(iter) {
        Ok(v) => Ok(v),
        Err(_) => Err(Error::Eof),
    }
}

/// Checks that `bytes` is UTF-8 and returns it as text.
///
/// Calls `core::str::from_utf8`. The contract claims that it succeeds
/// exactly on valid UTF-8 and that the text returned is the one the bytes
/// encode.
#[verifier::external_body]
pub(crate) fn read_str<'a>(bytes: &'a [u8]) -> (r: Result<&'a str, Error>)
    ensures
        match take_str(bytes@) {
            Ok(v) => r is Ok && r->Ok_0@ == v,
            Err(e) => r is Err && r->Err_0 == e,
        },
{
    match core::str::from_utf8(bytes) {
        Ok(s) => Ok(s),
        Err(_) => Err(Error::InvalidUtf8),
    }
}

/// Reads one byte and moves `iter` past it.
pub(crate) fn read_u8(iter: &mut &[u8]) -> (r: Result<u8, Error>)
    ensures
        match take_u8(old(iter)@) {
            Ok((v, rest)) => r == Ok::<u8, Error>(v) && final(iter)@ == rest,
            Err(e) => r == Err::<u8, Error>(e) && final(iter)@ == old(iter)@,
        },
{
    let s = *iter;
    if s.len() < 1 {
        Err(Error::Eof)
    } else {
        let b = s[0];
        *iter = slice_subrange(s, 1, s.len());
        Ok(b)
    }
}

/// Splits the next `n` bytes off `iter`.
pub(crate) fn read_bytes<'a>(iter: &mut &'a [u8], n: u64) -> (r: Result<&'a [u8], Error>)
    ensures
        match take_bytes(old(iter)@, n as int) {
            Ok((v, rest)) => r is Ok && r->Ok_0@ == v && final(iter)@ == rest,
            Err(e) => r is Err && r->Err_0 == e && final(iter)@ == old(iter)@,
        },
{
    let s = *iter;
    if n > s.len() as u64 {
        Err(Error::Eof)
    } else {
        let k = n as usize;
        let head = slice_subrange(s, 0, k);
        *iter = slice_subrange(s, k, s.len());
        Ok(head)
    }
}

/// The first final byte at or after `i` lies between `i` and the end.
pub proof fn lemma_final_byte_bounds(s: Seq<u8>, i: int)
    requires
        0 <= i <= s.len(),
    ensures
        i <= final_byte(s, i) <= s.len(),
        final_byte(s, i) < s.len() ==> s[final_byte(s, i)] < 0x80,
        forall|j: int| i <= j < final_byte(s, i) ==> s[j] >= 0x80,
    decreases s.len() - i,
{
    if i < s.len() && s[i] >= 0x80 {
        lemma_final_byte_bounds(s, i + 1);
    }
}

/// Reads a length-prefixed string and moves `iter` past it.
pub(crate) fn read_string<'a>(iter: &mut &'a [u8]) -> (r: Result<&'a str, Error>)
    ensures
        match take_string(old(iter)@) {
            Ok((v, rest)) => r is Ok && r->Ok_0@ == v && final(iter)@ == rest,
            Err(e) => r is Err && r->Err_0 == e,
        },
{
    let len = read_varuint(iter)?;
    let raw = read_bytes(iter, len)?;
    read_str(raw)
}

/// A decoded unsigned varint uses at least one byte, and what is left is a
/// tail of the input.
pub proof fn lemma_take_varuint_tail(s: Seq<u8>)
    requires
        take_varuint(s) is Ok,
    ensures
        take_varuint(s)->Ok_0.1.len() < s.len(),
        take_varuint(s)->Ok_0.1 == s.skip(s.len() - take_varuint(s)->Ok_0.1.len()),
{
    lemma_final_byte_bounds(s, 0);
}

/// A decoded signed varint uses at least one byte, and what is left is a
/// tail of the input.
pub proof fn lemma_take_varint_tail(s: Seq<u8>)
    requires
        take_varint(s) is Ok,
    ensures
        take_varint(s)->Ok_0.1.len() < s.len(),
        take_varint(s)->Ok_0.1 == s.skip(s.len() - take_varint(s)->Ok_0.1.len()),
{
    lemma_final_byte_bounds(s, 0);
}

/// Whether a byte is the final byte of an encoding within the first `k`
/// bytes does not depend on the bytes after them.
pub proof fn lemma_final_byte_prefix(s: Seq<u8>, k: int, i: int)
    requires
        0 <= i <= k <= s.len(),
    ensures
        final_byte(s, i) < k ==> final_byte(s.take(k), i) == final_byte(s, i),
        final_byte(s, i) >= k ==> final_byte(s.take(k), i) == k,
    decreases k - i,
{
    lemma_final_byte_bounds(s, i);
    if i < k && s[i] >= 0x80 {
        lemma_final_byte_prefix(s, k, i + 1);
    }
}

/// The number that the first `n` groups spell does not depend on the bytes
/// after them.
pub proof fn lemma_unsigned_groups_prefix(s: Seq<u8>, k: int, i: int, n: int)
    requires
        0 <= i,
        n <= k <= s.len(),
    ensures
        unsigned_groups(s.take(k), i, n) == unsigned_groups(s, i, n),
    decreases n - i,
{
    if i < n {
        lemma_unsigned_groups_prefix(s, k, i + 1, n);
    }
}

/// An unsigned varint decodes to the same number from any prefix of the
/// input that holds all of its bytes.
pub proof fn lemma_take_varuint_prefix(s: Seq<u8>, k: int)
    requires
        take_varuint(s) is Ok,
        s.len() - take_varuint(s)->Ok_0.1.len() <= k <= s.len(),
    ensures
        take_varuint(s.take(k)) == Ok::<(u64, Seq<u8>), Error>(
            (
                take_varuint(s)->Ok_0.0,
                take_varuint(s)->Ok_0.1.take(k - (s.len() - take_varuint(s)->Ok_0.1.len())),
            ),
        ),
{
    lemma_final_byte_bounds(s, 0);
    lemma_final_byte_prefix(s, k, 0);
    let t = final_byte(s, 0);
    lemma_unsigned_groups_prefix(s, k, 0, t + 1);
    let rest = take_varuint(s)->Ok_0.1;
    assert(s.take(k).skip(t + 1) =~= rest.take(k - (s.len() - rest.len())));
}

/// An unsigned varint that loses one of its bytes or more is cut short.
pub proof fn lemma_take_varuint_cut(s: Seq<u8>, k: int)
    requires
        take_varuint(s) is Ok,
        0 <= k < s.len() - take_varuint(s)->Ok_0.1.len(),
    ensures
        take_varuint(s.take(k)) == Err::<(u64, Seq<u8>), Error>(Error::Eof),
{
    lemma_final_byte_bounds(s, 0);
    lemma_final_byte_prefix(s, k, 0);
}

/// True when `rest` is what is left of `s` after some of its first bytes
/// were taken.
pub open spec fn is_tail(rest: Seq<u8>, s: Seq<u8>) -> bool {
    rest.len() <= s.len() && rest == s.skip(s.len() - rest.len())
}

/// A tail of a tail is a tail.
pub proof fn lemma_tail_of_tail(a: Seq<u8>, b: Seq<u8>, c: Seq<u8>)
    requires
        is_tail(a, b),
        is_tail(b, c),
    ensures
        is_tail(a, c),
{
    assert(a =~= c.skip(c.len() - a.len()));
}

/// What `take_bytes` leaves is a tail of the input.
pub proof fn lemma_take_bytes_tail(s: Seq<u8>, n: int)
    requires
        take_bytes(s, n) is Ok,
    ensures
        is_tail(take_bytes(s, n)->Ok_0.1, s),
        take_bytes(s, n)->Ok_0.1.len() == s.len() - n,
{
}

/// What `take_string` leaves is a tail of the input, shorter than it.
pub proof fn lemma_take_string_tail(s: Seq<u8>)
    requires
        take_string(s) is Ok,
    ensures
        is_tail(take_string(s)->Ok_0.1, s),
        take_string(s)->Ok_0.1.len() < s.len(),
{
    lemma_take_varuint_tail(s);
    let r1 = take_varuint(s)->Ok_0.1;
    let len = take_varuint(s)->Ok_0.0;
    lemma_take_bytes_tail(r1, len as int);
    lemma_tail_of_tail(take_string(s)->Ok_0.1, r1, s);
}

/// 128 to the power `k`.
pub open spec fn pow128(k: nat) -> int
    decreases k,
{
    if k == 0 {
        1
    } else {
        128 * pow128((k - 1) as nat)
    }
}

/// Nine groups of seven bits make 63 bits.
proof fn lemma_pow128_nine()
    ensures
        pow128(9) == 0x8000_0000_0000_0000,
        forall|k: nat| k <= 9 ==> 0 < #[trigger] pow128(k) <= pow128(9),
{
    assert(pow128(0) == 1);
    assert(pow128(1) == 128);
    assert(pow128(2) == 0x4000);
    assert(pow128(3) == 0x20_0000);
    assert(pow128(4) == 0x1000_0000);
    assert(pow128(5) == 0x8_0000_0000);
    assert(pow128(6) == 0x400_0000_0000);
    assert(pow128(7) == 0x2_0000_0000_0000);
    assert(pow128(8) == 0x100_0000_0000_0000);
    assert(pow128(9) == 0x8000_0000_0000_0000);
    assert forall|k: nat| k <= 9 implies 0 < #[trigger] pow128(k) <= pow128(9) by {
        assert(k == 0 || k == 1 || k == 2 || k == 3 || k == 4 || k == 5 || k == 6 || k == 7 || k
            == 8 || k == 9);
    }
}

/// The groups `i..n` spell a number below 128 to the power `n - i`.
pub proof fn lemma_unsigned_groups_bound(s: Seq<u8>, i: int, n: int)
    requires
        i <= n,
    ensures
        0 <= unsigned_groups(s, i, n) < pow128((n - i) as nat),
    decreases n - i,
{
    if i < n {
        lemma_unsigned_groups_bound(s, i + 1, n);
    }
}

/// The last group counts 128 to the power of its place.
proof fn lemma_unsigned_groups_last(s: Seq<u8>, i: int, n: int)
    requires
        i <= n,
    ensures
        unsigned_groups(s, i, n + 1) == unsigned_groups(s, i, n) + (s[n] % 128) * pow128(
            (n - i) as nat,
        ),
    decreases n - i,
{
    if i < n {
        lemma_unsigned_groups_last(s, i + 1, n);
        let last = (s[n] % 128) as int;
        let p = pow128((n - i - 1) as nat);
        assert(128 * (last * p) == last * (128 * p)) by (nonlinear_arith);
    } else {
        assert(unsigned_groups(s, n + 1, n + 1) == 0);
        assert(pow128(0) == 1);
    }
}

/// With the last group read as signed, it counts 128 to the power of its
/// place, once more or once less.
proof fn lemma_signed_groups_last(s: Seq<u8>, i: int, n: int)
    requires
        i <= n,
    ensures
        signed_groups(s, i, n + 1) == unsigned_groups(s, i, n) + (if s[n] % 128 >= 64 {
            s[n] % 128 - 128
        } else {
            (s[n] % 128) as int
        }) * pow128((n - i) as nat),
    decreases n - i,
{
    let last: int = if s[n] % 128 >= 64 {
        s[n] % 128 - 128
    } else {
        (s[n] % 128) as int
    };
    if i < n {
        lemma_signed_groups_last(s, i + 1, n);
        let p = pow128((n - i - 1) as nat);
        assert(128 * (last * p) == last * (128 * p)) by (nonlinear_arith);
    } else {
        assert(pow128(0) == 1);
    }
}

/// The number of an accepted unsigned encoding fits in 64 bits, so that
/// `take_varuint` yields it as it is.
pub proof fn lemma_varuint_fits(s: Seq<u8>)
    requires
        take_varuint(s) is Ok,
    ensures
        0 <= unsigned_groups(s, 0, final_byte(s, 0) + 1) <= u64::MAX,
        take_varuint(s)->Ok_0.0 == unsigned_groups(s, 0, final_byte(s, 0) + 1),
{
    let t = final_byte(s, 0);
    lemma_final_byte_bounds(s, 0);
    lemma_pow128_nine();
    if t < 9 {
        lemma_unsigned_groups_bound(s, 0, t + 1);
        assert(pow128((t + 1) as nat) <= pow128(9));
    } else {
        lemma_unsigned_groups_bound(s, 0, 9);
        lemma_unsigned_groups_last(s, 0, 9);
        let last = (s[9] % 128) as int;
        assert(last == 0 || last == 1);
        assert(last * pow128(9) <= pow128(9)) by (nonlinear_arith)
            requires
                0 <= last <= 1,
                pow128(9) > 0,
        ;
        assert(last * pow128(9) >= 0) by (nonlinear_arith)
            requires
                0 <= last <= 1,
                pow128(9) > 0,
        ;
    }
}

/// The number of an accepted signed encoding fits in 64 bits, so that
/// `take_varint` yields it as it is.
pub proof fn lemma_varint_fits(s: Seq<u8>)
    requires
        take_varint(s) is Ok,
    ensures
        i64::MIN <= signed_groups(s, 0, final_byte(s, 0) + 1) <= i64::MAX,
        take_varint(s)->Ok_0.0 == signed_groups(s, 0, final_byte(s, 0) + 1),
{
    let t = final_byte(s, 0);
    lemma_final_byte_bounds(s, 0);
    lemma_pow128_nine();
    lemma_unsigned_groups_bound(s, 0, t);
    lemma_signed_groups_last(s, 0, t);
    let last: int = if s[t] % 128 >= 64 {
        s[t] % 128 - 128
    } else {
        (s[t] % 128) as int
    };
    let p = pow128(t as nat);
    if t < 9 {
        assert(p <= pow128(9) / 128) by {
            assert(pow128((t + 1) as nat) <= pow128(9));
        }
        assert(-64 * p <= last * p <= 63 * p) by (nonlinear_arith)
            requires
                -64 <= last <= 63,
                p > 0,
        ;
    } else {
        assert(last == 0 || last == -1);
        assert(last * p == 0 || last * p == -p) by (nonlinear_arith)
            requires
                last == 0 || last == -1,
        ;
    }
}

/// Four bytes spell a number that fits in 32 bits, and eight bytes one that
/// fits in 64, so that `take_u32_le` and `take_u64_le` yield them as they
/// are.
pub proof fn lemma_little_endian_fits(s: Seq<u8>)
    ensures
        0 <= little_endian(s, 4) <= u32::MAX,
        0 <= little_endian(s, 8) <= u64::MAX,
{
    lemma_little_endian_bound(s, 4);
    lemma_little_endian_bound(s, 8);
    assert(pow256(0) == 1);
    assert(pow256(1) == 0x100);
    assert(pow256(2) == 0x1_0000);
    assert(pow256(3) == 0x100_0000);
    assert(pow256(4) == 0x1_0000_0000);
    assert(pow256(5) == 0x100_0000_0000);
    assert(pow256(6) == 0x1_0000_0000_0000);
    assert(pow256(7) == 0x100_0000_0000_0000);
    assert(pow256(8) == 0x1_0000_0000_0000_0000);
}

/// 256 to the power `k`.
pub open spec fn pow256(k: nat) -> int
    decreases k,
{
    if k == 0 {
        1
    } else {
        256 * pow256((k - 1) as nat)
    }
}

/// The first `n` bytes spell a number below 256 to the power `n`.
pub proof fn lemma_little_endian_bound(s: Seq<u8>, n: int)
    requires
        0 <= n,
    ensures
        0 <= little_endian(s, n) < pow256(n as nat),
    decreases n,
{
    if n > 0 {
        lemma_little_endian_bound(s.skip(1), n - 1);
    }
}

} // verus!
