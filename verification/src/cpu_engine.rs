//! The CPU search: every nonce of a round is hashed from a copy of the
//! round's header state, and reported where the reward table knows it.

use vstd::prelude::*;
use crate::codec::{
    append_bytes, append_le_bytes, build_cpu_header, le_bytes, reward_key, spec_cpu_header,
    spec_cpu_message, spec_leading, spec_reward_key, zero_count, zero_metrics,
};
use crate::config::{Config, ConfigModel};
use crate::keccak::{spec_address, HeaderState};
use crate::report::{lines_view, result_line, spec_result_line};
use crate::reward::{spec_is_accepted, Reward};

verus! {

/// The salt of a CPU candidate: the caller, the round's random segment and
/// the six little-endian bytes of the nonce.
pub open spec fn spec_cpu_salt(caller: Seq<u8>, run_segment: Seq<u8>, nonce: u64) -> Seq<u8> {
    caller + run_segment + le_bytes(nonce as nat, 6)
}

/// What one nonce of a round gives: its line where the address has at least
/// three zero bytes and a label in the table, else nothing.
pub open spec fn spec_cpu_candidate(
    config: ConfigModel,
    rewards: Reward,
    run_segment: Seq<u8>,
    nonce: u64,
) -> Option<Seq<char>> {
    let address = spec_address(
        spec_cpu_message(
            config.factory_address,
            config.calling_address,
            run_segment,
            nonce,
            config.init_code_hash,
        ),
    );
    let key = spec_reward_key(spec_leading(address), zero_count(address) as int);
    if zero_count(address) >= 3 {
        match rewards.spec_lookup(key) {
            Some(label) => Some(
                spec_result_line(
                    spec_cpu_salt(config.calling_address, run_segment, nonce),
                    address,
                    label,
                ),
            ),
            None => None,
        }
    } else {
        None
    }
}

/// A nonce gives a line exactly where its address is accepted: a key that
/// the table does not hold gives nothing.
pub proof fn lemma_candidate_reported_iff_accepted(
    config: ConfigModel,
    rewards: Reward,
    run_segment: Seq<u8>,
    nonce: u64,
)
    ensures
        ({
            let address = spec_address(
                spec_cpu_message(
                    config.factory_address,
                    config.calling_address,
                    run_segment,
                    nonce,
                    config.init_code_hash,
                ),
            );
            spec_cpu_candidate(config, rewards, run_segment, nonce) is Some <==> spec_is_accepted(
                spec_leading(address),
                zero_count(address) as int,
                rewards,
            )
        }),
{
}

/// The lines of the nonces from `first` up to, not including, `end`: each
/// nonce is looked at once, in rising order.
pub open spec fn spec_cpu_lines(
    config: ConfigModel,
    rewards: Reward,
    run_segment: Seq<u8>,
    first: u64,
    end: u64,
) -> Seq<Seq<char>>
    decreases end - first,
{
    if end <= first {
        Seq::empty()
    } else {
        let before = spec_cpu_lines(config, rewards, run_segment, first, (end - 1) as u64);
        match spec_cpu_candidate(config, rewards, run_segment, (end - 1) as u64) {
            Some(line) => before.push(line),
            None => before,
        }
    }
}

/// A range of nonces may be cut anywhere: the two parts give, one after the
/// other, what the whole range gives. So workers that share a round out
/// among themselves report every nonce once, and none twice.
pub proof fn lemma_cpu_lines_split(
    config: ConfigModel,
    rewards: Reward,
    run_segment: Seq<u8>,
    first: u64,
    middle: u64,
    end: u64,
)
    requires
        first <= middle <= end,
    ensures
        spec_cpu_lines(config, rewards, run_segment, first, end) == spec_cpu_lines(
            config,
            rewards,
            run_segment,
            first,
            middle,
        ) + spec_cpu_lines(config, rewards, run_segment, middle, end),
    decreases end - middle,
{
    let left = spec_cpu_lines(config, rewards, run_segment, first, middle);
    if middle == end {
        assert(left + Seq::<Seq<char>>::empty() =~= left);
    } else {
        let last = (end - 1) as u64;
        lemma_cpu_lines_split(config, rewards, run_segment, first, middle, last);
        let right = spec_cpu_lines(config, rewards, run_segment, middle, last);
        match spec_cpu_candidate(config, rewards, run_segment, last) {
            Some(line) => {
                assert((left + right).push(line) =~= left + right.push(line));
            },
            None => {},
        }
    }
}

/// A range gives at most one line for each of its nonces.
pub proof fn lemma_cpu_lines_bounded(
    config: ConfigModel,
    rewards: Reward,
    run_segment: Seq<u8>,
    first: u64,
    end: u64,
)
    requires
        first <= end,
    ensures
        spec_cpu_lines(config, rewards, run_segment, first, end).len() <= end - first,
    decreases end - first,
{
    if first < end {
        lemma_cpu_lines_bounded(config, rewards, run_segment, first, (end - 1) as u64);
    }
}

/// Hashes one nonce from a copy of the round's header state and writes its
/// line where it is accepted.
pub fn cpu_candidate(
    config: &Config,
    rewards: &Reward,
    state: &HeaderState,
    run_segment: &[u8; 6],
    nonce: u64,
) -> (line: Option<Vec<char>>)
    requires
        state.prefix() == spec_cpu_header(
            config.factory_address@,
            config.calling_address@,
            run_segment@,
        ),
    ensures
        match line {
            Some(text) => spec_cpu_candidate(config@, *rewards, run_segment@, nonce) == Some(
                text@,
            ),
            None => spec_cpu_candidate(config@, *rewards, run_segment@, nonce) is None,
        },
{
    let mut body: Vec<u8> = Vec::new();
    append_le_bytes(&mut body, nonce, 6);
    assert(body@ =~= le_bytes(nonce as nat, 6));
    let address = state.address_with(body.as_slice(), config.init_code_hash.as_slice());
    let (leading, total) = zero_metrics(&address);
    if total < 3 {
        return None;
    }
    match rewards.lookup(reward_key(leading, total)) {
        None => None,
        Some(label) => {
            let mut salt: Vec<u8> = Vec::new();
            append_bytes(&mut salt, config.calling_address.as_slice());
            append_bytes(&mut salt, run_segment.as_slice());
            append_bytes(&mut salt, body.as_slice());
            assert(salt@ =~= spec_cpu_salt(config.calling_address@, run_segment@, nonce));
            Some(result_line(salt.as_slice(), &address, label))
        },
    }
}

/// `FixedBytes::<6>::try_random` of `alloy-primitives`: six bytes from the
/// system's random source, or nothing where that source fails. Nothing is
/// claimed of the bytes.
#[verifier::external_body]
fn random_run_segment() -> (segment: Option<[u8; 6]>) {
    alloy_primitives::FixedBytes::<6>::try_random().ok().map(|bytes| bytes.0)
}

/// One round of the search: the configuration it runs on, its random
/// segment, and the hasher that has absorbed the round's header once.
pub struct Round {
    config: Config,
    run_segment: [u8; 6],
    state: HeaderState,
}

impl Round {
    /// The hasher has absorbed the header of the round, and nothing else.
    #[verifier::type_invariant]
    spec fn header_absorbed(&self) -> bool {
        self.state.prefix() == spec_cpu_header(
            self.config.factory_address@,
            self.config.calling_address@,
            self.run_segment@,
        )
    }

    /// The configuration that the round runs on.
    pub closed spec fn config(&self) -> ConfigModel {
        self.config@
    }

    /// The random segment of the round.
    pub closed spec fn segment(&self) -> Seq<u8> {
        self.run_segment@
    }

    /// Starts the round with the segment `run_segment`: builds the header
    /// and absorbs it.
    pub fn new(config: &Config, run_segment: [u8; 6]) -> (round: Round)
        ensures
            round.config() == config@,
            round.segment() == run_segment@,
    {
        let header = build_cpu_header(
            &config.factory_address,
            &config.calling_address,
            &run_segment,
        );
        let state = HeaderState::new(header.as_slice());
        Round { config: *config, run_segment, state }
    }

    /// Starts a round with a fresh random segment. Whatever segment was
    /// drawn, the round runs on `config`; there is none where the random
    /// source fails.
    pub fn random(config: &Config) -> (round: Option<Round>)
        ensures
            round matches Some(started) ==> started.config() == config@,
    {
        Round::from_draw(config, random_run_segment())
    }

    /// Starts the round that a draw of the random source gives: a round on
    /// `config` with the drawn segment, and none where the draw failed.
    pub fn from_draw(config: &Config, draw: Option<[u8; 6]>) -> (round: Option<Round>)
        ensures
            match draw {
                Some(run_segment) => round matches Some(started) && started.config() == config@
                    && started.segment() == run_segment@,
                None => round is None,
            },
    {
        match draw {
            Some(run_segment) => Some(Round::new(config, run_segment)),
            None => None,
        }
    }

    /// The random segment of the round.
    pub fn run_segment(&self) -> (segment: [u8; 6])
        ensures
            segment@ == self.segment(),
    {
        self.run_segment
    }

    /// Searches the nonces from `first` up to, not including, `end`, and
    /// returns the lines of the accepted ones in rising order of nonce.
    /// Every nonce continues from a copy of the round's hasher.
    pub fn search(&self, rewards: &Reward, first: u64, end: u64) -> (lines: Vec<Vec<char>>)
        ensures
            lines_view(lines@) == spec_cpu_lines(
                self.config(),
                *rewards,
                self.segment(),
                first,
                end,
            ),
    {
        proof {
            use_type_invariant(self);
        }
        let mut lines: Vec<Vec<char>> = Vec::new();
        let mut nonce: u64 = first;
        assert(lines_view(lines@) =~= spec_cpu_lines(
            self.config(),
            *rewards,
            self.segment(),
            first,
            first,
        ));
        while nonce < end
            invariant
                first <= nonce || end <= first,
                nonce <= end || end <= first,
                end <= first ==> nonce == first,
                self.header_absorbed(),
                lines_view(lines@) == spec_cpu_lines(
                    self.config(),
                    *rewards,
                    self.segment(),
                    first,
                    nonce,
                ),
            decreases end - nonce,
        {
            let found = cpu_candidate(
                &self.config,
                rewards,
                &self.state,
                &self.run_segment,
                nonce,
            );
            let ghost before = lines_view(lines@);
            match found {
                Some(line) => {
                    lines.push(line);
                    assert(lines_view(lines@) =~= before.push(line@));
                },
                None => {},
            }
            nonce += 1;
        }
        lines
    }
}

/// Searches the nonces from `first` up to, not including, `end` of the
/// round with the random segment `run_segment`, and returns the lines of
/// the accepted ones in rising order of nonce. The header is hashed once
/// for the whole range.
pub fn cpu(config: &Config, rewards: &Reward, run_segment: &[u8; 6], first: u64, end: u64) -> (lines:
    Vec<Vec<char>>)
    ensures
        lines_view(lines@) == spec_cpu_lines(config@, *rewards, run_segment@, first, end),
{
    let round = Round::new(config, *run_segment);
    round.search(rewards, first, end)
}

} // verus!
