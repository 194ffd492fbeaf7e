//! The host side of the GPU search: the sizes of a dispatch, the pause
//! before a read-back, what to do with what was read, and the lines of the
//! solutions that the device reported.

use vstd::prelude::*;
use vstd::arithmetic::div_mod::{lemma_mod_multiples_basic, lemma_remainder};
use crate::codec::{
    append_bytes, append_le_bytes, build_gpu_solution_message, le_bytes, reward_key,
    spec_gpu_solution_message, spec_leading, spec_reward_key, zero_count, zero_metrics,
};
use crate::config::{Config, ConfigModel};
use crate::keccak::{hash_to_address, spec_address};
use crate::report::{lines_view, result_line, spec_result_line};
use crate::reward::Reward;

verus! {

/// Number of candidates that one dispatch is meant to cover.
pub const WORK_SIZE: u32 = 0x2000_0000;

/// Number of candidates that each work item hashes.
pub const VECTOR_WIDTH: u32 = 8;

/// Largest local work-group size that is used.
pub const MAX_LOCAL_WORK_SIZE: u32 = 512;

/// Number of solution words that the device can report in one dispatch.
pub const SOLUTION_SLOTS: usize = 64;

/// The local and the global work size of a dispatch.
#[derive(Clone, Copy, Debug, PartialEq, Eq, Structural)]
pub struct WorkSizes {
    pub local: u32,
    pub global: u32,
}

/// What the host does after it has read the solutions back.
#[derive(Clone, Copy, Debug, PartialEq, Eq, Structural)]
pub enum GpuAction {
    /// A solution was reported: check and record every non-zero word.
    Drain,
    /// Nothing yet: write `nonce` to the device and dispatch again.
    Redispatch { nonce: u32 },
}

/// The local work size for a device: its largest work-group size, capped.
pub open spec fn spec_local_work_size(max_wg_size: int) -> int {
    if max_wg_size < MAX_LOCAL_WORK_SIZE {
        max_wg_size
    } else {
        MAX_LOCAL_WORK_SIZE as int
    }
}

/// Whether `global` is the global work size for `local`: the least multiple
/// of `local` that covers the work items of one dispatch.
pub open spec fn is_global_work_size(global: int, local: int) -> bool {
    &&& global % local == 0
    &&& global >= WORK_SIZE / VECTOR_WIDTH
    &&& global - WORK_SIZE / VECTOR_WIDTH < local
}

/// Derives the work sizes from the largest work-group size that the device
/// reports. A device that reports zero cannot be dispatched to.
pub fn work_sizes(max_wg_size: usize) -> (sizes: Option<WorkSizes>)
    ensures
        max_wg_size == 0 <==> sizes is None,
        sizes matches Some(found) ==> {
            &&& found.local == spec_local_work_size(max_wg_size as int)
            &&& is_global_work_size(found.global as int, found.local as int)
        },
{
    if max_wg_size == 0 {
        return None;
    }
    let local: u32 = if max_wg_size < 512 {
        max_wg_size as u32
    } else {
        MAX_LOCAL_WORK_SIZE
    };
    let target: u32 = WORK_SIZE / VECTOR_WIDTH;
    let groups: u32 = (target + local - 1) / local;
    proof {
        let x = (target + local - 1) as int;
        lemma_remainder(x, local as int);
        lemma_mod_multiples_basic(groups as int, local as int);
        assert(groups * local == (x / (local as int)) * local);
    }
    let global: u32 = groups * local;
    Some(WorkSizes { local, global })
}

/// Milliseconds to sleep before reading back: 98 percent of what the last
/// dispatch took, rounded down.
pub fn sleep_millis(last_duration_millis: u64) -> (pause: u64)
    ensures
        pause == last_duration_millis * 980 / 1000,
{
    let wide: u128 = last_duration_millis as u128 * 980 / 1000;
    wide as u64
}

/// Whether the device reported a solution: a word that is not zero.
pub open spec fn spec_has_solution(solutions: Seq<u64>) -> bool {
    exists|i: int| 0 <= i < solutions.len() && solutions[i] != 0
}

/// Whether the device reported a solution.
pub fn has_solution(solutions: &[u64]) -> (found: bool)
    ensures
        found == spec_has_solution(solutions@),
{
    let mut i: usize = 0;
    while i < solutions.len()
        invariant
            i <= solutions.len(),
            forall|j: int| 0 <= j < i ==> solutions@[j] == 0,
        decreases solutions.len() - i,
    {
        if solutions[i] != 0 {
            return true;
        }
        i += 1;
    }
    false
}

/// The nonce of the dispatch after `nonce`. It goes on from the last value
/// of the space to the first.
pub open spec fn spec_next_nonce(nonce: u32) -> u32 {
    if nonce == u32::MAX {
        0
    } else {
        (nonce + 1) as u32
    }
}

/// Decides what follows a read-back: drain where a solution was reported,
/// else dispatch again with the next nonce.
pub fn after_readback(nonce: u32, solutions: &[u64]) -> (action: GpuAction)
    ensures
        action == if spec_has_solution(solutions@) {
            GpuAction::Drain
        } else {
            (GpuAction::Redispatch { nonce: spec_next_nonce(nonce) })
        },
{
    if has_solution(solutions) {
        GpuAction::Drain
    } else {
        GpuAction::Redispatch { nonce: nonce.wrapping_add(1) }
    }
}

/// The salt of a solution: the caller, the host's random segment and the
/// eight little-endian bytes of the solution word.
pub open spec fn spec_gpu_salt(caller: Seq<u8>, host_segment: Seq<u8>, solution: u64) -> Seq<u8> {
    caller + host_segment + le_bytes(solution as nat, 8)
}

/// The line of one solution word. The address is hashed again by the host;
/// its label is looked up, and is `0` where the table has none.
pub open spec fn spec_gpu_line(
    config: ConfigModel,
    rewards: Reward,
    host_segment: Seq<u8>,
    solution: u64,
) -> Seq<char> {
    let address = spec_address(
        spec_gpu_solution_message(
            config.factory_address,
            config.calling_address,
            host_segment,
            solution,
            config.init_code_hash,
        ),
    );
    let key = spec_reward_key(spec_leading(address), zero_count(address) as int);
    let label = match rewards.spec_lookup(key) {
        Some(found) => found,
        None => "0"@,
    };
    spec_result_line(spec_gpu_salt(config.calling_address, host_segment, solution), address, label)
}

/// The lines of the solutions buffer: one for each word that is not zero,
/// in the order of the buffer.
pub open spec fn spec_gpu_lines(
    config: ConfigModel,
    rewards: Reward,
    host_segment: Seq<u8>,
    solutions: Seq<u64>,
) -> Seq<Seq<char>>
    decreases solutions.len(),
{
    if solutions.len() == 0 {
        Seq::empty()
    } else {
        let before = spec_gpu_lines(config, rewards, host_segment, solutions.drop_last());
        if solutions.last() == 0 {
            before
        } else {
            before.push(spec_gpu_line(config, rewards, host_segment, solutions.last()))
        }
    }
}

/// Hashes the message of one solution word on the host and writes its line.
pub fn gpu_solution(config: &Config, rewards: &Reward, host_segment: &[u8; 4], solution: u64) -> (line:
    Vec<char>)
    ensures
        line@ == spec_gpu_line(config@, *rewards, host_segment@, solution),
{
    let message = build_gpu_solution_message(
        &config.factory_address,
        &config.calling_address,
        host_segment,
        solution,
        &config.init_code_hash,
    );
    let address = hash_to_address(message.as_slice());
    let (leading, total) = zero_metrics(&address);
    let mut salt: Vec<u8> = Vec::new();
    append_bytes(&mut salt, config.calling_address.as_slice());
    append_bytes(&mut salt, host_segment.as_slice());
    append_le_bytes(&mut salt, solution, 8);
    assert(salt@ =~= spec_gpu_salt(config.calling_address@, host_segment@, solution));
    match rewards.lookup(reward_key(leading, total)) {
        Some(label) => result_line(salt.as_slice(), &address, label),
        None => result_line(salt.as_slice(), &address, "0"),
    }
}

/// Drains the solutions buffer after a dispatch that reported something:
/// every word that is not zero is hashed again on the host, and its line
/// returned, in the order of the buffer.
pub fn gpu(config: &Config, rewards: &Reward, host_segment: &[u8; 4], solutions: &[u64]) -> (lines:
    Vec<Vec<char>>)
    ensures
        lines_view(lines@) == spec_gpu_lines(config@, *rewards, host_segment@, solutions@),
{
    let mut lines: Vec<Vec<char>> = Vec::new();
    let mut i: usize = 0;
    assert(solutions@.subrange(0, 0) =~= Seq::<u64>::empty());
    assert(lines_view(lines@) =~= Seq::<Seq<char>>::empty());
    while i < solutions.len()
        invariant
            i <= solutions.len(),
            lines_view(lines@) == spec_gpu_lines(
                config@,
                *rewards,
                host_segment@,
                solutions@.subrange(0, i as int),
            ),
        decreases solutions.len() - i,
    {
        let solution: u64 = solutions[i];
        proof {
            let next = solutions@.subrange(0, i + 1);
            assert(next.drop_last() =~= solutions@.subrange(0, i as int));
            assert(next.last() == solution);
        }
        if solution != 0 {
            let ghost before = lines_view(lines@);
            let line = gpu_solution(config, rewards, host_segment, solution);
            lines.push(line);
            assert(lines_view(lines@) =~= before.push(line@));
        }
        i += 1;
    }
    assert(solutions@.subrange(0, solutions@.len() as int) =~= solutions@);
    lines
}

} // verus!
