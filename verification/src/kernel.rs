//! The definitions that are put in front of the kernel's source before it
//! is compiled: each fixed byte of the message under the name of its place,
//! and the two thresholds.

use vstd::prelude::*;
use crate::config::{Config, ConfigModel};
use crate::text::{append_decimal, append_text, spec_decimal};

verus! {

/// Place of the factory's first byte in the message, counted from one.
pub const FACTORY_PLACE: u8 = 1;

/// Place of the caller's first byte in the message, counted from one.
pub const CALLER_PLACE: u8 = 21;

/// Place of the first byte of the init-code hash in the message, counted
/// from one: the twelve bytes of the salt that the device fills lie before.
pub const HASH_PLACE: u8 = 53;

/// The line that defines the byte at `place` of the message.
pub open spec fn spec_byte_definition(place: nat, value: u8) -> Seq<char> {
    "#define S_"@ + spec_decimal(place) + " "@ + spec_decimal(value as nat) + "u\n"@
}

/// The lines that define `bytes`, whose first byte stands at `first_place`.
pub open spec fn spec_byte_definitions(bytes: Seq<u8>, first_place: nat) -> Seq<char>
    decreases bytes.len(),
{
    if bytes.len() == 0 {
        Seq::empty()
    } else {
        spec_byte_definitions(bytes.drop_last(), first_place) + spec_byte_definition(
            (first_place + bytes.len() - 1) as nat,
            bytes.last(),
        )
    }
}

/// All definitions of a configuration: the factory, the caller, the
/// init-code hash, then the leading and the total threshold.
pub open spec fn spec_kernel_definitions(config: ConfigModel) -> Seq<char> {
    spec_byte_definitions(config.factory_address, FACTORY_PLACE as nat) + spec_byte_definitions(
        config.calling_address,
        CALLER_PLACE as nat,
    ) + spec_byte_definitions(config.init_code_hash, HASH_PLACE as nat)
        + "#define LEADING_ZEROES "@ + spec_decimal(config.leading_zeroes_threshold as nat) + "\n"@
        + "#define TOTAL_ZEROES "@ + spec_decimal(config.total_zeroes_threshold as nat) + "\n"@
}

/// Appends the lines that define `bytes` to `out`.
fn append_byte_definitions(out: &mut Vec<char>, bytes: &[u8], first_place: u8)
    requires
        first_place + bytes@.len() <= 256,
    ensures
        final(out)@ == old(out)@ + spec_byte_definitions(bytes@, first_place as nat),
{
    let mut i: usize = 0;
    assert(bytes@.subrange(0, 0) =~= Seq::<u8>::empty());
    assert(out@ =~= old(out)@ + spec_byte_definitions(bytes@.subrange(0, 0), first_place as nat));
    while i < bytes.len()
        invariant
            i <= bytes.len(),
            first_place + bytes@.len() <= 256,
            out@ == old(out)@ + spec_byte_definitions(
                bytes@.subrange(0, i as int),
                first_place as nat,
            ),
        decreases bytes.len() - i,
    {
        let place: u8 = first_place + i as u8;
        let ghost before = out@;
        proof {
            let next = bytes@.subrange(0, i + 1);
            assert(next.drop_last() =~= bytes@.subrange(0, i as int));
            assert(next.last() == bytes@[i as int]);
        }
        append_text(out, "#define S_");
        append_decimal(out, place);
        append_text(out, " ");
        append_decimal(out, bytes[i]);
        append_text(out, "u\n");
        assert(out@ =~= before + spec_byte_definition(place as nat, bytes@[i as int]));
        i += 1;
        assert(out@ =~= old(out)@ + spec_byte_definitions(
            bytes@.subrange(0, i as int),
            first_place as nat,
        ));
    }
    assert(bytes@.subrange(0, bytes@.len() as int) =~= bytes@);
}

/// Writes the definitions of `config`.
pub fn kernel_definitions(config: &Config) -> (text: Vec<char>)
    ensures
        text@ == spec_kernel_definitions(config@),
{
    let mut text: Vec<char> = Vec::new();
    append_byte_definitions(&mut text, config.factory_address.as_slice(), FACTORY_PLACE);
    append_byte_definitions(&mut text, config.calling_address.as_slice(), CALLER_PLACE);
    append_byte_definitions(&mut text, config.init_code_hash.as_slice(), HASH_PLACE);
    append_text(&mut text, "#define LEADING_ZEROES ");
    append_decimal(&mut text, config.leading_zeroes_threshold);
    append_text(&mut text, "\n");
    append_text(&mut text, "#define TOTAL_ZEROES ");
    append_decimal(&mut text, config.total_zeroes_threshold);
    append_text(&mut text, "\n");
    assert(text@ =~= spec_kernel_definitions(config@));
    text
}

/// Writes the source that is compiled for `config`: its definitions, then
/// the kernel's own source as it stands.
pub fn mk_kernel_src(config: &Config, kernel_source: &str) -> (text: Vec<char>)
    ensures
        text@ == spec_kernel_definitions(config@) + kernel_source@,
{
    let mut text = kernel_definitions(config);
    append_text(&mut text, kernel_source);
    text
}

} // verus!
