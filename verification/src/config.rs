//! The search configuration and its validation.

use vstd::prelude::*;
use crate::text::{hex_decode, hex_decoded, parse_u8, parsed_u8};

verus! {

/// Device index that selects the CPU search.
pub const CPU_DEVICE: u8 = 255;

/// Total-zeroes threshold that switches the total-zeroes test off.
pub const TOTAL_DISABLED: u8 = 255;

/// Leading-zeroes threshold used where none is given.
pub const DEFAULT_LEADING: u8 = 3;

/// Total-zeroes threshold used where none is given.
pub const DEFAULT_TOTAL: u8 = 5;

/// What a search runs on. It is checked once, when it is made, and never
/// changed afterwards.
#[derive(Clone, Copy, Debug, PartialEq, Eq)]
pub struct Config {
    pub factory_address: [u8; 20],
    pub calling_address: [u8; 20],
    pub init_code_hash: [u8; 32],
    pub gpu_device: u8,
    pub leading_zeroes_threshold: u8,
    pub total_zeroes_threshold: u8,
}

/// Why a configuration was rejected.
#[derive(Clone, Copy, Debug, PartialEq, Eq, Structural)]
pub enum ConfigError {
    MissingFactoryAddress,
    MissingCallingAddress,
    MissingInitCodeHash,
    UndecodableFactoryAddress,
    UndecodableCallingAddress,
    UndecodableInitCodeHash,
    FactoryAddressLength,
    CallingAddressLength,
    InitCodeHashLength,
    InvalidGpuDevice,
    InvalidLeadingThreshold,
    InvalidTotalThreshold,
    LeadingThresholdRange,
    TotalThresholdRange,
}

/// The values of a configuration, as mathematics.
pub struct ConfigModel {
    pub factory_address: Seq<u8>,
    pub calling_address: Seq<u8>,
    pub init_code_hash: Seq<u8>,
    pub gpu_device: u8,
    pub leading_zeroes_threshold: u8,
    pub total_zeroes_threshold: u8,
}

impl View for Config {
    type V = ConfigModel;

    open spec fn view(&self) -> ConfigModel {
        ConfigModel {
            factory_address: self.factory_address@,
            calling_address: self.calling_address@,
            init_code_hash: self.init_code_hash@,
            gpu_device: self.gpu_device,
            leading_zeroes_threshold: self.leading_zeroes_threshold,
            total_zeroes_threshold: self.total_zeroes_threshold,
        }
    }
}

/// Whether the two thresholds are in range: each at most twenty, or the
/// total threshold switched off.
pub open spec fn thresholds_in_range(leading: u8, total: u8) -> bool {
    leading <= 20 && (total <= 20 || total == TOTAL_DISABLED)
}

/// What the decoded parts of a configuration give: the configuration, or
/// the first fault in the order factory, caller, hash for decoding, then
/// for length, then the three numbers, then the two ranges.
pub open spec fn spec_from_decoded(
    factory: Option<Seq<u8>>,
    calling: Option<Seq<u8>>,
    hash: Option<Seq<u8>>,
    gpu_device: Option<u8>,
    leading: Option<u8>,
    total: Option<u8>,
) -> Result<ConfigModel, ConfigError> {
    if factory is None {
        Err(ConfigError::UndecodableFactoryAddress)
    } else if calling is None {
        Err(ConfigError::UndecodableCallingAddress)
    } else if hash is None {
        Err(ConfigError::UndecodableInitCodeHash)
    } else if factory->0.len() != 20 {
        Err(ConfigError::FactoryAddressLength)
    } else if calling->0.len() != 20 {
        Err(ConfigError::CallingAddressLength)
    } else if hash->0.len() != 32 {
        Err(ConfigError::InitCodeHashLength)
    } else if gpu_device is None {
        Err(ConfigError::InvalidGpuDevice)
    } else if leading is None {
        Err(ConfigError::InvalidLeadingThreshold)
    } else if total is None {
        Err(ConfigError::InvalidTotalThreshold)
    } else if leading->0 > 20 {
        Err(ConfigError::LeadingThresholdRange)
    } else if total->0 > 20 && total->0 != TOTAL_DISABLED {
        Err(ConfigError::TotalThresholdRange)
    } else {
        Ok(
            ConfigModel {
                factory_address: factory->0,
                calling_address: calling->0,
                init_code_hash: hash->0,
                gpu_device: gpu_device->0,
                leading_zeroes_threshold: leading->0,
                total_zeroes_threshold: total->0,
            },
        )
    }
}

/// The number that an optional argument stands for: the default where the
/// argument is absent, else what it parses to.
pub open spec fn spec_optional_number(args: Seq<Seq<char>>, index: int, default: u8) -> Option<
    u8,
> {
    if index < args.len() {
        parsed_u8(args[index])
    } else {
        Some(default)
    }
}

/// What a list of arguments gives. The first argument is the program's
/// name and is not read.
pub open spec fn spec_config(args: Seq<Seq<char>>) -> Result<ConfigModel, ConfigError> {
    if args.len() < 2 {
        Err(ConfigError::MissingFactoryAddress)
    } else if args.len() < 3 {
        Err(ConfigError::MissingCallingAddress)
    } else if args.len() < 4 {
        Err(ConfigError::MissingInitCodeHash)
    } else {
        spec_from_decoded(
            hex_decoded(args[1]),
            hex_decoded(args[2]),
            hex_decoded(args[3]),
            spec_optional_number(args, 4, CPU_DEVICE),
            spec_optional_number(args, 5, DEFAULT_LEADING),
            spec_optional_number(args, 6, DEFAULT_TOTAL),
        )
    }
}

/// The arguments as sequences of characters.
pub open spec fn args_view(args: Seq<String>) -> Seq<Seq<char>> {
    Seq::new(args.len(), |i: int| args[i]@)
}

/// Whether `result` is what `expected` asks for.
pub open spec fn result_is(
    result: Result<Config, ConfigError>,
    expected: Result<ConfigModel, ConfigError>,
) -> bool {
    match result {
        Ok(config) => expected == Ok::<ConfigModel, ConfigError>(config@),
        Err(error) => expected == Err::<ConfigModel, ConfigError>(error),
    }
}

fn to_array_20(bytes: &Vec<u8>) -> (array: [u8; 20])
    requires
        bytes@.len() == 20,
    ensures
        array@ == bytes@,
{
    let mut array: [u8; 20] = [0u8; 20];
    let mut i: usize = 0;
    while i < 20
        invariant
            i <= 20,
            bytes@.len() == 20,
            forall|j: int| 0 <= j < i ==> array@[j] == bytes@[j],
        decreases 20 - i,
    {
        array[i] = bytes[i];
        i += 1;
    }
    assert(array@ =~= bytes@);
    array
}

fn to_array_32(bytes: &Vec<u8>) -> (array: [u8; 32])
    requires
        bytes@.len() == 32,
    ensures
        array@ == bytes@,
{
    let mut array: [u8; 32] = [0u8; 32];
    let mut i: usize = 0;
    while i < 32
        invariant
            i <= 32,
            bytes@.len() == 32,
            forall|j: int| 0 <= j < i ==> array@[j] == bytes@[j],
        decreases 32 - i,
    {
        array[i] = bytes[i];
        i += 1;
    }
    assert(array@ =~= bytes@);
    array
}

fn decoded(text: &str) -> (bytes: Option<Vec<u8>>)
    ensures
        match bytes {
            Some(found) => hex_decoded(text@) == Some(found@),
            None => hex_decoded(text@) is None,
        },
{
    match hex_decode(text) {
        Ok(found) => Some(found),
        Err(_) => None,
    }
}

fn optional_number(args: &Vec<String>, index: usize, default: u8) -> (value: Option<u8>)
    ensures
        value == spec_optional_number(args_view(args@), index as int, default),
{
    if index < args.len() {
        parse_u8(args[index].as_str())
    } else {
        Some(default)
    }
}


impl ConfigError {
    /// The sentence that tells a user what was wrong.
    pub open spec fn spec_message(&self) -> Seq<char> {
        match self {
            ConfigError::MissingFactoryAddress => "didn't get a factory_address argument"@,
            ConfigError::MissingCallingAddress => "didn't get a calling_address argument"@,
            ConfigError::MissingInitCodeHash => "didn't get an init_code_hash argument"@,
            ConfigError::UndecodableFactoryAddress => "could not decode factory address argument"@,
            ConfigError::UndecodableCallingAddress => "could not decode calling address argument"@,
            ConfigError::UndecodableInitCodeHash => "could not decode initialization code hash argument"@,
            ConfigError::FactoryAddressLength => "invalid length for factory address argument"@,
            ConfigError::CallingAddressLength => "invalid length for calling address argument"@,
            ConfigError::InitCodeHashLength => "invalid length for initialization code hash argument"@,
            ConfigError::InvalidGpuDevice => "invalid gpu device value"@,
            ConfigError::InvalidLeadingThreshold => "invalid leading zeroes threshold value supplied"@,
            ConfigError::InvalidTotalThreshold => "invalid total zeroes threshold value supplied"@,
            ConfigError::LeadingThresholdRange => "invalid value for leading zeroes threshold argument. (valid: 0..=20)"@,
            ConfigError::TotalThresholdRange => "invalid value for total zeroes threshold argument. (valid: 0..=20 | 255)"@,
        }
    }

    /// The sentence that tells a user what was wrong.
    pub fn message(&self) -> (text: &'static str)
        ensures
            text@ == self.spec_message(),
    {
        match self {
            ConfigError::MissingFactoryAddress => "didn't get a factory_address argument",
            ConfigError::MissingCallingAddress => "didn't get a calling_address argument",
            ConfigError::MissingInitCodeHash => "didn't get an init_code_hash argument",
            ConfigError::UndecodableFactoryAddress => "could not decode factory address argument",
            ConfigError::UndecodableCallingAddress => "could not decode calling address argument",
            ConfigError::UndecodableInitCodeHash => "could not decode initialization code hash argument",
            ConfigError::FactoryAddressLength => "invalid length for factory address argument",
            ConfigError::CallingAddressLength => "invalid length for calling address argument",
            ConfigError::InitCodeHashLength => "invalid length for initialization code hash argument",
            ConfigError::InvalidGpuDevice => "invalid gpu device value",
            ConfigError::InvalidLeadingThreshold => "invalid leading zeroes threshold value supplied",
            ConfigError::InvalidTotalThreshold => "invalid total zeroes threshold value supplied",
            ConfigError::LeadingThresholdRange => "invalid value for leading zeroes threshold argument. (valid: 0..=20)",
            ConfigError::TotalThresholdRange => "invalid value for total zeroes threshold argument. (valid: 0..=20 | 255)",
        }
    }
}

/// Whether an address with these metrics passes the thresholds: enough
/// leading zero bytes, or enough zero bytes in all.
pub open spec fn spec_meets_thresholds(
    leading: int,
    total: int,
    leading_threshold: int,
    total_threshold: int,
) -> bool {
    leading >= leading_threshold || total >= total_threshold
}

/// Lowering a threshold never turns an accepted address away.
pub proof fn lemma_thresholds_monotonic(
    leading: int,
    total: int,
    leading_threshold: int,
    total_threshold: int,
    lower_leading: int,
    lower_total: int,
)
    requires
        spec_meets_thresholds(leading, total, leading_threshold, total_threshold),
        lower_leading <= leading_threshold,
        lower_total <= total_threshold,
    ensures
        spec_meets_thresholds(leading, total, lower_leading, lower_total),
{
}

impl Config {
    /// Whether an address with these metrics passes this configuration's
    /// thresholds. This is the test that the device applies to each
    /// candidate; a total threshold that is switched off is never reached.
    pub fn meets_thresholds(&self, leading: usize, total: usize) -> (accepted: bool)
        ensures
            accepted == spec_meets_thresholds(
                leading as int,
                total as int,
                self.leading_zeroes_threshold as int,
                self.total_zeroes_threshold as int,
            ),
    {
        leading >= self.leading_zeroes_threshold as usize || total
            >= self.total_zeroes_threshold as usize
    }

    /// Whether the thresholds are in range. Every configuration that `new`
    /// or `from_decoded` returns is valid.
    pub open spec fn is_valid(&self) -> bool {
        thresholds_in_range(self.leading_zeroes_threshold, self.total_zeroes_threshold)
    }

    /// Checks the decoded parts and builds the configuration. `None` stands
    /// for a part that could not be decoded or parsed.
    pub fn from_decoded(
        factory: Option<Vec<u8>>,
        calling: Option<Vec<u8>>,
        hash: Option<Vec<u8>>,
        gpu_device: Option<u8>,
        leading: Option<u8>,
        total: Option<u8>,
    ) -> (result: Result<Config, ConfigError>)
        ensures
            result_is(
                result,
                spec_from_decoded(
                    match factory {
                        Some(found) => Some(found@),
                        None => None,
                    },
                    match calling {
                        Some(found) => Some(found@),
                        None => None,
                    },
                    match hash {
                        Some(found) => Some(found@),
                        None => None,
                    },
                    gpu_device,
                    leading,
                    total,
                ),
            ),
            result is Ok ==> result->Ok_0.is_valid(),
    {
        let Some(factory_bytes) = factory else {
            return Err(ConfigError::UndecodableFactoryAddress);
        };
        let Some(calling_bytes) = calling else {
            return Err(ConfigError::UndecodableCallingAddress);
        };
        let Some(hash_bytes) = hash else {
            return Err(ConfigError::UndecodableInitCodeHash);
        };
        if factory_bytes.len() != 20 {
            return Err(ConfigError::FactoryAddressLength);
        }
        if calling_bytes.len() != 20 {
            return Err(ConfigError::CallingAddressLength);
        }
        if hash_bytes.len() != 32 {
            return Err(ConfigError::InitCodeHashLength);
        }
        let Some(gpu_device) = gpu_device else {
            return Err(ConfigError::InvalidGpuDevice);
        };
        let Some(leading_zeroes_threshold) = leading else {
            return Err(ConfigError::InvalidLeadingThreshold);
        };
        let Some(total_zeroes_threshold) = total else {
            return Err(ConfigError::InvalidTotalThreshold);
        };
        if leading_zeroes_threshold > 20 {
            return Err(ConfigError::LeadingThresholdRange);
        }
        if total_zeroes_threshold > 20 && total_zeroes_threshold != TOTAL_DISABLED {
            return Err(ConfigError::TotalThresholdRange);
        }
        Ok(
            Config {
                factory_address: to_array_20(&factory_bytes),
                calling_address: to_array_20(&calling_bytes),
                init_code_hash: to_array_32(&hash_bytes),
                gpu_device,
                leading_zeroes_threshold,
                total_zeroes_threshold,
            },
        )
    }

    /// Validates the arguments of the program and builds the configuration.
    /// The first argument, the program's name, is skipped.
    pub fn new(args: Vec<String>) -> (result: Result<Config, ConfigError>)
        ensures
            result_is(result, spec_config(args_view(args@))),
            result is Ok ==> result->Ok_0.is_valid(),
    {
        if args.len() < 2 {
            return Err(ConfigError::MissingFactoryAddress);
        }
        if args.len() < 3 {
            return Err(ConfigError::MissingCallingAddress);
        }
        if args.len() < 4 {
            return Err(ConfigError::MissingInitCodeHash);
        }
        let factory = decoded(args[1].as_str());
        let calling = decoded(args[2].as_str());
        let hash = decoded(args[3].as_str());
        let gpu_device = optional_number(&args, 4, CPU_DEVICE);
        let leading = optional_number(&args, 5, DEFAULT_LEADING);
        let total = optional_number(&args, 6, DEFAULT_TOTAL);
        Config::from_decoded(factory, calling, hash, gpu_device, leading, total)
    }
}

} // verus!
