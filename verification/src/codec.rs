//! Byte layout of the hashed message and the zero-byte metrics of an address.

use vstd::prelude::*;
use vstd::arithmetic::div_mod::lemma_div_denominator;

verus! {

/// First byte of every hashed message.
pub const CONTROL_CHARACTER: u8 = 0xff;

/// Number of nonces in one round of the CPU search: the nonce has six bytes.
pub const NONCE_SPACE: u64 = 0x1_0000_0000_0000;

/// Value that `leading` takes for an address without a non-zero byte.
pub const NO_NONZERO_BYTE: usize = 21;

pub open spec fn pow256(exp: nat) -> nat
    decreases exp,
{
    if exp == 0 {
        1
    } else {
        256 * pow256((exp - 1) as nat)
    }
}

/// Byte `index` of `value` written in little-endian order.
pub open spec fn le_byte(value: nat, index: nat) -> u8 {
    ((value / pow256(index)) % 256) as u8
}

/// The first `len` bytes of `value` written in little-endian order.
pub open spec fn le_bytes(value: nat, len: nat) -> Seq<u8> {
    Seq::new(len, |i: int| le_byte(value, i as nat))
}

pub proof fn lemma_pow256_positive(exp: nat)
    ensures
        pow256(exp) > 0,
    decreases exp,
{
    if exp > 0 {
        lemma_pow256_positive((exp - 1) as nat);
    }
}

/// Appends `src` to `out`.
pub fn append_bytes(out: &mut Vec<u8>, src: &[u8])
    ensures
        final(out)@ == old(out)@ + src@,
{
    let mut i: usize = 0;
    while i < src.len()
        invariant
            i <= src.len(),
            out@ == old(out)@ + src@.subrange(0, i as int),
        decreases src.len() - i,
    {
        out.push(src[i]);
        i += 1;
        assert(out@ =~= old(out)@ + src@.subrange(0, i as int));
    }
    assert(src@.subrange(0, src@.len() as int) =~= src@);
}

/// Appends the first `len` little-endian bytes of `value` to `out`.
pub fn append_le_bytes(out: &mut Vec<u8>, value: u64, len: usize)
    ensures
        final(out)@ == old(out)@ + le_bytes(value as nat, len as nat),
{
    let mut rest: u64 = value;
    let mut i: usize = 0;
    proof {
        assert(pow256(0) == 1);
        assert(out@ =~= old(out)@ + le_bytes(value as nat, 0));
    }
    while i < len
        invariant
            i <= len,
            rest as nat == value as nat / pow256(i as nat),
            out@ == old(out)@ + le_bytes(value as nat, i as nat),
        decreases len - i,
    {
        let byte: u8 = (rest % 256) as u8;
        proof {
            lemma_pow256_positive(i as nat);
            lemma_div_denominator(value as int, pow256(i as nat) as int, 256);
            assert(pow256((i + 1) as nat) == 256 * pow256(i as nat));
            assert(pow256(i as nat) * 256 == 256 * pow256(i as nat)) by (nonlinear_arith);
        }
        out.push(byte);
        rest = rest / 256;
        i += 1;
        assert(out@ =~= old(out)@ + le_bytes(value as nat, i as nat));
    }
}

/// The 47 bytes that every message of one CPU round starts with.
pub open spec fn spec_cpu_header(factory: Seq<u8>, caller: Seq<u8>, run_segment: Seq<u8>) -> Seq<
    u8,
> {
    seq![CONTROL_CHARACTER] + factory + caller + run_segment
}

/// The 85-byte message of the CPU search for one nonce.
pub open spec fn spec_cpu_message(
    factory: Seq<u8>,
    caller: Seq<u8>,
    run_segment: Seq<u8>,
    nonce: u64,
    init_code_hash: Seq<u8>,
) -> Seq<u8> {
    spec_cpu_header(factory, caller, run_segment) + le_bytes(nonce as nat, 6) + init_code_hash
}

/// The 85-byte message that a solution word of the GPU search stands for.
pub open spec fn spec_gpu_solution_message(
    factory: Seq<u8>,
    caller: Seq<u8>,
    host_segment: Seq<u8>,
    solution: u64,
    init_code_hash: Seq<u8>,
) -> Seq<u8> {
    seq![CONTROL_CHARACTER] + factory + caller + host_segment + le_bytes(solution as nat, 8)
        + init_code_hash
}

/// Builds the header of one CPU round: the control byte, the factory, the
/// caller and the round's random segment.
pub fn build_cpu_header(factory: &[u8; 20], caller: &[u8; 20], run_segment: &[u8; 6]) -> (header:
    Vec<u8>)
    ensures
        header@ == spec_cpu_header(factory@, caller@, run_segment@),
        header@.len() == 47,
{
    let mut header: Vec<u8> = Vec::new();
    header.push(CONTROL_CHARACTER);
    assert(header@ =~= seq![CONTROL_CHARACTER]);
    append_bytes(&mut header, factory.as_slice());
    append_bytes(&mut header, caller.as_slice());
    append_bytes(&mut header, run_segment.as_slice());
    header
}

/// Builds the message that the host hashes to check a solution word reported
/// by the device.
pub fn build_gpu_solution_message(
    factory: &[u8; 20],
    caller: &[u8; 20],
    host_segment: &[u8; 4],
    solution: u64,
    init_code_hash: &[u8; 32],
) -> (message: Vec<u8>)
    ensures
        message@ == spec_gpu_solution_message(
            factory@,
            caller@,
            host_segment@,
            solution,
            init_code_hash@,
        ),
        message@.len() == 85,
{
    let mut message: Vec<u8> = Vec::new();
    message.push(CONTROL_CHARACTER);
    assert(message@ =~= seq![CONTROL_CHARACTER]);
    append_bytes(&mut message, factory.as_slice());
    append_bytes(&mut message, caller.as_slice());
    append_bytes(&mut message, host_segment.as_slice());
    append_le_bytes(&mut message, solution, 8);
    append_bytes(&mut message, init_code_hash.as_slice());
    message
}

/// Number of zero bytes in `bytes`.
pub open spec fn zero_count(bytes: Seq<u8>) -> nat
    decreases bytes.len(),
{
    if bytes.len() == 0 {
        0
    } else {
        zero_count(bytes.drop_last()) + if bytes.last() == 0 {
            1nat
        } else {
            0nat
        }
    }
}

/// Whether `index` is the place of the first non-zero byte of `bytes`.
pub open spec fn is_first_nonzero(bytes: Seq<u8>, index: int) -> bool {
    &&& 0 <= index < bytes.len()
    &&& bytes[index] != 0
    &&& forall|j: int| 0 <= j < index ==> bytes[j] == 0
}

/// Whether every byte of `bytes` is zero.
pub open spec fn all_zero(bytes: Seq<u8>) -> bool {
    forall|j: int| 0 <= j < bytes.len() ==> bytes[j] == 0
}

/// The leading metric of an address: the index of its first non-zero byte,
/// or `NO_NONZERO_BYTE` where it has none.
pub open spec fn spec_leading(address: Seq<u8>) -> int {
    if all_zero(address) {
        NO_NONZERO_BYTE as int
    } else {
        choose|i: int| is_first_nonzero(address, i)
    }
}

/// An address that has a non-zero byte has exactly one first non-zero byte.
pub proof fn lemma_first_nonzero_unique(bytes: Seq<u8>, a: int, b: int)
    requires
        is_first_nonzero(bytes, a),
        is_first_nonzero(bytes, b),
    ensures
        a == b,
{
    if a < b {
        assert(bytes[a] == 0);
    } else if b < a {
        assert(bytes[b] == 0);
    }
}

/// Where `index` is the first non-zero byte, the leading metric is `index`.
pub proof fn lemma_leading_is(address: Seq<u8>, index: int)
    requires
        is_first_nonzero(address, index),
    ensures
        spec_leading(address) == index,
{
    assert(!all_zero(address));
    let chosen = choose|i: int| is_first_nonzero(address, i);
    lemma_first_nonzero_unique(address, chosen, index);
}

/// An address made with exactly `leading` zero bytes at its start, a non-zero
/// byte after them and `total` zero bytes in all has these two metrics.
pub proof fn lemma_metrics_of_crafted_address(address: Seq<u8>, leading: int, total: int)
    requires
        address.len() == 20,
        0 <= leading < 20,
        forall|j: int| 0 <= j < leading ==> address[j] == 0,
        address[leading] != 0,
        zero_count(address) == total,
    ensures
        spec_leading(address) == leading,
        zero_count(address) == total,
        leading <= total <= 20,
{
    lemma_leading_is(address, leading);
    lemma_zero_count_bounds(address, leading);
}

/// The zero bytes of `bytes` are at most its length, and at least the
/// length of any run of zero bytes at its start.
pub proof fn lemma_zero_count_bounds(bytes: Seq<u8>, run: int)
    requires
        0 <= run <= bytes.len(),
        forall|j: int| 0 <= j < run ==> bytes[j] == 0,
    ensures
        run <= zero_count(bytes) <= bytes.len(),
    decreases bytes.len(),
{
    if bytes.len() > 0 {
        let shorter = bytes.drop_last();
        if run == bytes.len() {
            assert(bytes.last() == 0);
            lemma_zero_count_bounds(shorter, run - 1);
        } else {
            lemma_zero_count_bounds(shorter, run);
        }
    }
}

/// Leading and total zero bytes of an address, in one scan from the left.
pub fn zero_metrics(address: &[u8; 20]) -> (metrics: (usize, usize))
    ensures
        metrics.0 == spec_leading(address@),
        metrics.1 == zero_count(address@),
        metrics.1 <= 20,
        metrics.0 <= 19 || metrics.0 == NO_NONZERO_BYTE,
{
    let mut total: usize = 0;
    let mut leading: usize = NO_NONZERO_BYTE;
    let mut i: usize = 0;
    while i < 20
        invariant
            i <= 20,
            address@.len() == 20,
            total == zero_count(address@.subrange(0, i as int)),
            total <= i,
            leading == NO_NONZERO_BYTE ==> all_zero(address@.subrange(0, i as int)),
            leading != NO_NONZERO_BYTE ==> leading < i && is_first_nonzero(
                address@,
                leading as int,
            ),
        decreases 20 - i,
    {
        let b: u8 = address[i];
        proof {
            let next = address@.subrange(0, i + 1);
            assert(next.drop_last() =~= address@.subrange(0, i as int));
            assert(next.last() == b);
        }
        if b == 0 {
            total += 1;
        } else if leading == NO_NONZERO_BYTE {
            leading = i;
            assert(is_first_nonzero(address@, i as int)) by {
                assert forall|j: int| 0 <= j < i implies address@[j] == 0 by {
                    assert(address@.subrange(0, i as int)[j] == 0);
                }
            }
        }
        proof {
            if leading == NO_NONZERO_BYTE {
                let next = address@.subrange(0, i + 1);
                assert forall|j: int| 0 <= j < next.len() implies #[trigger] next[j] == 0 by {
                    if j < i {
                        assert(address@.subrange(0, i as int)[j] == 0);
                    }
                }
            }
        }
        i += 1;
    }
    proof {
        assert(address@.subrange(0, 20) =~= address@);
        if leading != NO_NONZERO_BYTE {
            lemma_leading_is(address@, leading as int);
        }
    }
    (leading, total)
}

/// The key under which the reward table files an address with these metrics.
pub open spec fn spec_reward_key(leading: int, total: int) -> int {
    leading * 20 + total
}

/// The key under which the reward table files an address with these metrics.
pub fn reward_key(leading: usize, total: usize) -> (key: usize)
    requires
        leading <= NO_NONZERO_BYTE,
        total <= 20,
    ensures
        key == spec_reward_key(leading as int, total as int),
{
    leading * 20 + total
}

} // verus!
