//! Unsigned integers stored in the machine's byte order.

use vstd::prelude::*;
use vstd::endian::{endianness, Endian};

verus! {

/// The value of `s` read least significant byte first.
pub open spec fn le_value(s: Seq<u8>) -> nat
    decreases s.len(),
{
    if s.len() == 0 {
        0
    } else {
        s[0] as nat + 256 * le_value(s.drop_first())
    }
}

/// The `n` bytes of `v`, least significant first.
pub open spec fn le_bytes(v: nat, n: nat) -> Seq<u8>
    decreases n,
{
    if n == 0 {
        Seq::empty()
    } else {
        seq![(v % 256) as u8] + le_bytes(v / 256, (n - 1) as nat)
    }
}

/// The value of the bytes `s` in the byte order of the machine the code runs on.
pub open spec fn native_value(s: Seq<u8>) -> nat {
    match endianness() {
        Endian::Little => le_value(s),
        Endian::Big => le_value(s.reverse()),
    }
}

/// The `n` bytes of `v` in the byte order of the machine the code runs on.
pub open spec fn native_bytes(v: nat, n: nat) -> Seq<u8> {
    match endianness() {
        Endian::Little => le_bytes(v, n),
        Endian::Big => le_bytes(v, n).reverse(),
    }
}

/// 256 to the power `n`.
pub open spec fn pow256(n: nat) -> nat
    decreases n,
{
    if n == 0 { 1 } else { 256 * pow256((n - 1) as nat) }
}

/// `le_bytes` gives `n` bytes from which `le_value` recovers the value.
pub proof fn lemma_le_roundtrip(v: nat, n: nat)
    requires
        v < pow256(n),
    ensures
        le_bytes(v, n).len() == n,
        le_value(le_bytes(v, n)) == v,
    decreases n,
{
    if n > 0 {
        lemma_le_roundtrip(v / 256, (n - 1) as nat);
        let b = le_bytes(v, n);
        assert(b.drop_first() =~= le_bytes(v / 256, (n - 1) as nat));
    }
}

/// The powers of 256 for the component widths.
pub proof fn lemma_pow256_widths()
    ensures
        pow256(1) == 0x100,
        pow256(2) == 0x1_0000,
        pow256(4) == 0x1_0000_0000,
        pow256(8) == 0x1_0000_0000_0000_0000,
{
    reveal_with_fuel(pow256, 9);
}

/// `native_bytes` gives `n` bytes from which `native_value` recovers the value.
pub proof fn lemma_native_roundtrip(v: nat, n: nat)
    requires
        v < pow256(n),
    ensures
        native_bytes(v, n).len() == n,
        native_value(native_bytes(v, n)) == v,
{
    lemma_le_roundtrip(v, n);
    assert(le_bytes(v, n).reverse().reverse() =~= le_bytes(v, n));
}

/// A single byte has its own value in either byte order.
pub proof fn lemma_native_one_byte(s: Seq<u8>)
    requires
        s.len() == 1,
    ensures
        native_value(s) == s[0],
{
    assert(s.drop_first() =~= Seq::<u8>::empty());
    assert(le_value(Seq::<u8>::empty()) == 0);
    assert(le_value(s) == s[0] as nat + 256 * le_value(s.drop_first()));
    assert(s.reverse() =~= s);
}

/// The value of `n` bytes is below `256^n`.
pub proof fn lemma_le_value_bound(s: Seq<u8>)
    ensures
        le_value(s) < pow256(s.len()),
    decreases s.len(),
{
    if s.len() > 0 {
        lemma_le_value_bound(s.drop_first());
    }
}

/// The native value of `n` bytes is below `256^n`.
pub proof fn lemma_native_value_bound(s: Seq<u8>)
    ensures
        native_value(s) < pow256(s.len()),
{
    lemma_le_value_bound(s);
    lemma_le_value_bound(s.reverse());
}

/// `bytemuck::pod_read_unaligned::<u16>`: reads the two bytes as a `u16`, which takes the
/// machine's byte order. Claimed: the result is the value of the bytes in that byte order.
#[verifier::external_body]
fn pod_read_u16(bytes: &[u8]) -> (r: u16)
    requires
        bytes@.len() == 2,
    ensures
        r as nat == native_value(bytes@),
{
    bytemuck::pod_read_unaligned(bytes)
}

/// `bytemuck::pod_read_unaligned::<u32>`: reads the four bytes as a `u32`, which takes the
/// machine's byte order. Claimed: the result is the value of the bytes in that byte order.
#[verifier::external_body]
fn pod_read_u32(bytes: &[u8]) -> (r: u32)
    requires
        bytes@.len() == 4,
    ensures
        r as nat == native_value(bytes@),
{
    bytemuck::pod_read_unaligned(bytes)
}

/// `bytemuck::pod_read_unaligned::<u64>`: reads the eight bytes as a `u64`, which takes the
/// machine's byte order. Claimed: the result is the value of the bytes in that byte order.
#[verifier::external_body]
fn pod_read_u64(bytes: &[u8]) -> (r: u64)
    requires
        bytes@.len() == 8,
    ensures
        r as nat == native_value(bytes@),
{
    bytemuck::pod_read_unaligned(bytes)
}

/// `u16::to_ne_bytes`: the two bytes of `v` in the machine's byte order.
#[verifier::external_body]
fn ne_bytes_u16(v: u16) -> (r: [u8; 2])
    ensures
        r@ == native_bytes(v as nat, 2),
{
    v.to_ne_bytes()
}

/// `u32::to_ne_bytes`: the four bytes of `v` in the machine's byte order.
#[verifier::external_body]
fn ne_bytes_u32(v: u32) -> (r: [u8; 4])
    ensures
        r@ == native_bytes(v as nat, 4),
{
    v.to_ne_bytes()
}

/// `u64::to_ne_bytes`: the eight bytes of `v` in the machine's byte order.
#[verifier::external_body]
fn ne_bytes_u64(v: u64) -> (r: [u8; 8])
    ensures
        r@ == native_bytes(v as nat, 8),
{
    v.to_ne_bytes()
}

/// Whether `n` is a width that components come in: 1, 2, 4 or 8 bytes.
pub open spec fn component_width(n: nat) -> bool {
    n == 1 || n == 2 || n == 4 || n == 8
}

/// The values of `count` consecutive `n`-byte components at the start of `bytes`.
pub open spec fn decode_components(bytes: Seq<u8>, n: nat, count: nat) -> Seq<nat> {
    Seq::new(count, |k: int| native_value(bytes.subrange(k * n, k * n + n)))
}

/// The bytes of the components `values`, `n` bytes each, one after the other.
pub open spec fn encode_components(values: Seq<nat>, n: nat) -> Seq<u8> {
    Seq::new(values.len() * n, |i: int| native_bytes(values[i / (n as int)], n)[i % (n as int)])
}

/// Reads `count` components of `n` bytes from the start of `buffer`.
pub fn read_components(buffer: &[u8], n: usize, count: usize) -> (v: Vec<u64>)
    requires
        component_width(n as nat),
        count <= 4,
        count * n <= buffer@.len(),
    ensures
        v@.len() == count,
        forall|k: int| 0 <= k < count ==> #[trigger] v@[k] as nat == decode_components(buffer@, n as nat, count as nat)[k],
{
    let mut v: Vec<u64> = Vec::new();
    let mut k: usize = 0;
    while k < count
        invariant
            k <= count,
            count <= 4,
            component_width(n as nat),
            count * n <= buffer@.len(),
            v@.len() == k,
            forall|j: int| 0 <= j < k ==> #[trigger] v@[j] as nat == native_value(buffer@.subrange(j * n, j * n + n)),
        decreases count - k,
    {
        assert(k * n + n <= count * n) by (nonlinear_arith)
            requires k < count;
        assert(buffer@.len() == buffer.len());
        let at = k * n;
        let bytes = vstd::slice::slice_subrange(buffer, at, at + n);
        let c: u64 = if n == 1 {
            proof {
                lemma_native_one_byte(bytes@);
            }
            bytes[0] as u64
        } else if n == 2 {
            pod_read_u16(bytes) as u64
        } else if n == 4 {
            pod_read_u32(bytes) as u64
        } else {
            pod_read_u64(bytes) as u64
        };
        v.push(c);
        k = k + 1;
    }
    v
}

/// Writes `values`, `n` bytes each in the machine's byte order, to the start of `buffer`;
/// the bytes after them keep their values.
pub fn write_components(buffer: &mut [u8], values: &Vec<u64>, n: usize)
    requires
        component_width(n as nat),
        values@.len() <= 4,
        values@.len() * n <= old(buffer)@.len(),
        forall|k: int| 0 <= k < values@.len() ==> (#[trigger] values@[k]) < pow256(n as nat),
    ensures
        final(buffer)@ == encode_components(values@.map_values(|x: u64| x as nat), n as nat)
            + old(buffer)@.skip(values@.len() * n),
{
    let ghost vals = values@.map_values(|x: u64| x as nat);
    let ghost old_buf = buffer@;
    let count = values.len();
    let mut k: usize = 0;
    while k < count
        invariant
            k <= count,
            count == values@.len(),
            count <= 4,
            component_width(n as nat),
            count * n <= old_buf.len(),
            vals == values@.map_values(|x: u64| x as nat),
            forall|j: int| 0 <= j < values@.len() ==> (#[trigger] values@[j]) < pow256(n as nat),
            buffer@.len() == old_buf.len(),
            forall|i: int| 0 <= i < k * n ==> #[trigger] buffer@[i] == native_bytes(vals[i / (n as int)], n as nat)[i % (n as int)],
            forall|i: int| k * n <= i < old_buf.len() ==> #[trigger] buffer@[i] == old_buf[i],
        decreases count - k,
    {
        assert(k * n + n <= count * n) by (nonlinear_arith)
            requires k < count;
        assert(buffer@.len() == buffer.len());
        let at = k * n;
        let x = values[k];
        assert(x < pow256(n as nat));
        let ghost before = buffer@;
        proof {
            lemma_pow256_widths();
        }
        if n == 1 {
            proof {
                lemma_native_roundtrip(x as nat, 1);
                lemma_native_one_byte(native_bytes(x as nat, 1));
            }
            buffer[at] = x as u8;
        } else if n == 2 {
            let b = ne_bytes_u16(x as u16);
            buffer[at] = b[0];
            buffer[at + 1] = b[1];
        } else if n == 4 {
            let b = ne_bytes_u32(x as u32);
            buffer[at] = b[0];
            buffer[at + 1] = b[1];
            buffer[at + 2] = b[2];
            buffer[at + 3] = b[3];
        } else {
            let b = ne_bytes_u64(x);
            buffer[at] = b[0];
            buffer[at + 1] = b[1];
            buffer[at + 2] = b[2];
            buffer[at + 3] = b[3];
            buffer[at + 4] = b[4];
            buffer[at + 5] = b[5];
            buffer[at + 6] = b[6];
            buffer[at + 7] = b[7];
        }
        proof {
            assert(vals[k as int] == x as nat);
            assert forall|i: int| 0 <= i < (k + 1) * n implies #[trigger] buffer@[i]
                == native_bytes(vals[i / (n as int)], n as nat)[i % (n as int)] by {
                if i >= k * n {
                    assert(i / (n as int) == k && i % (n as int) == i - k * n) by {
                        vstd::arithmetic::div_mod::lemma_fundamental_div_mod_converse(i, n as int, k as int, i - k * n);
                    }
                } else {
                    assert(buffer@[i] == before[i]);
                }
            }
        }
        k = k + 1;
    }
    assert(buffer@ =~= encode_components(vals, n as nat) + old_buf.skip(count * n));
}

/// Writing components and reading them back gives the same values.
pub proof fn lemma_decode_encode(values: Seq<nat>, n: nat, rest: Seq<u8>)
    requires
        component_width(n),
        forall|k: int| 0 <= k < values.len() ==> (#[trigger] values[k]) < pow256(n),
    ensures
        decode_components(encode_components(values, n) + rest, n, values.len()) == values,
{
    let e = encode_components(values, n) + rest;
    assert forall|k: int| 0 <= k < values.len() implies
        #[trigger] decode_components(e, n, values.len())[k] == values[k] by {
        lemma_native_roundtrip(values[k], n);
        assert(k * n + n <= values.len() * n) by (nonlinear_arith)
            requires k < values.len(), n > 0;
        assert forall|j: int| 0 <= j < n implies #[trigger] e.subrange(k * n, k * n + n)[j]
            == native_bytes(values[k], n)[j] by {
            vstd::arithmetic::div_mod::lemma_fundamental_div_mod_converse(k * n + j, n as int, k, j);
        }
        assert(e.subrange(k * n, k * n + n) =~= native_bytes(values[k], n));
    }
    assert(decode_components(e, n, values.len()) =~= values);
}

} // verus!
