use create2crunch::config::{Config, ConfigError};

const FACTORY: &str = "0x0000000000ffe8b47b3e2130213b802212439497";
const CALLER: &str = "0x0734d56da60852a03e2aafae8a36ffd8c12b32f1";
const HASH: &str = "0x64e604787cbf194841e7b68d7cd28786f6c9a0a3ab9f8b0a0e87cb4387ab0107";

fn args(rest: &[&str]) -> Vec<String> {
    let mut all = vec![String::from("program")];
    for item in rest {
        all.push(String::from(*item));
    }
    all
}

#[test]
fn three_arguments_take_the_defaults() {
    let config = Config::new(args(&[FACTORY, CALLER, HASH])).unwrap();
    assert_eq!(config.factory_address[0..5], [0u8, 0, 0, 0, 0]);
    assert_eq!(config.factory_address[5], 0xff);
    assert_eq!(config.factory_address[19], 0x97);
    assert_eq!(config.calling_address[0], 0x07);
    assert_eq!(config.calling_address[19], 0xf1);
    assert_eq!(config.init_code_hash[0], 0x64);
    assert_eq!(config.init_code_hash[31], 0x07);
    assert_eq!(config.gpu_device, 255);
    assert_eq!(config.leading_zeroes_threshold, 3);
    assert_eq!(config.total_zeroes_threshold, 5);
}

#[test]
fn six_arguments_are_all_read() {
    let config = Config::new(args(&[&FACTORY[2..], &CALLER[2..], &HASH[2..], "1", "20", "255"]))
        .unwrap();
    assert_eq!(config.factory_address[19], 0x97);
    assert_eq!(config.gpu_device, 1);
    assert_eq!(config.leading_zeroes_threshold, 20);
    assert_eq!(config.total_zeroes_threshold, 255);
    let upper = Config::new(args(&["0X0000000000FFE8B47B3E2130213B802212439497", CALLER, HASH, "0", "0", "0"]))
        .unwrap();
    assert_eq!(upper.factory_address, config.factory_address);
    assert_eq!(upper.total_zeroes_threshold, 0);
}

#[test]
fn missing_arguments_are_named() {
    assert_eq!(Config::new(Vec::new()), Err(ConfigError::MissingFactoryAddress));
    assert_eq!(Config::new(args(&[])), Err(ConfigError::MissingFactoryAddress));
    assert_eq!(Config::new(args(&[FACTORY])), Err(ConfigError::MissingCallingAddress));
    assert_eq!(Config::new(args(&[FACTORY, CALLER])), Err(ConfigError::MissingInitCodeHash));
}

#[test]
fn undecodable_arguments_are_named_in_order() {
    assert_eq!(
        Config::new(args(&["zz", "zz", "zz"])),
        Err(ConfigError::UndecodableFactoryAddress)
    );
    assert_eq!(
        Config::new(args(&[FACTORY, "abc", HASH])),
        Err(ConfigError::UndecodableCallingAddress)
    );
    assert_eq!(
        Config::new(args(&[FACTORY, CALLER, "0xgg"])),
        Err(ConfigError::UndecodableInitCodeHash)
    );
    assert_eq!(
        Config::new(args(&["00", CALLER, "0xgg"])),
        Err(ConfigError::UndecodableInitCodeHash)
    );
}

#[test]
fn wrong_lengths_are_named_in_order() {
    assert_eq!(Config::new(args(&["00", "00", "00"])), Err(ConfigError::FactoryAddressLength));
    assert_eq!(Config::new(args(&[FACTORY, HASH, HASH])), Err(ConfigError::CallingAddressLength));
    assert_eq!(Config::new(args(&[FACTORY, CALLER, CALLER])), Err(ConfigError::InitCodeHashLength));
    assert_eq!(Config::new(args(&[FACTORY, CALLER, ""])), Err(ConfigError::InitCodeHashLength));
}

#[test]
fn numbers_that_do_not_parse_are_named() {
    assert_eq!(
        Config::new(args(&[FACTORY, CALLER, HASH, "256"])),
        Err(ConfigError::InvalidGpuDevice)
    );
    assert_eq!(
        Config::new(args(&[FACTORY, CALLER, HASH, "0", "-1"])),
        Err(ConfigError::InvalidLeadingThreshold)
    );
    assert_eq!(
        Config::new(args(&[FACTORY, CALLER, HASH, "0", "3", "five"])),
        Err(ConfigError::InvalidTotalThreshold)
    );
    assert_eq!(
        Config::new(args(&[FACTORY, CALLER, HASH, "x", "y", "z"])),
        Err(ConfigError::InvalidGpuDevice)
    );
}

#[test]
fn thresholds_out_of_range_are_named() {
    assert_eq!(
        Config::new(args(&[FACTORY, CALLER, HASH, "0", "21", "5"])),
        Err(ConfigError::LeadingThresholdRange)
    );
    assert_eq!(
        Config::new(args(&[FACTORY, CALLER, HASH, "0", "21", "21"])),
        Err(ConfigError::LeadingThresholdRange)
    );
    assert_eq!(
        Config::new(args(&[FACTORY, CALLER, HASH, "0", "20", "21"])),
        Err(ConfigError::TotalThresholdRange)
    );
    assert_eq!(
        Config::new(args(&[FACTORY, CALLER, HASH, "0", "20", "254"])),
        Err(ConfigError::TotalThresholdRange)
    );
    assert!(Config::new(args(&[FACTORY, CALLER, HASH, "0", "20", "20"])).is_ok());
}

#[test]
fn decoded_parts_are_checked_in_order() {
    let twenty = Some(vec![1u8; 20]);
    let thirty_two = Some(vec![2u8; 32]);
    let config = Config::from_decoded(
        twenty.clone(),
        twenty.clone(),
        thirty_two.clone(),
        Some(255),
        Some(3),
        Some(5),
    )
    .unwrap();
    assert_eq!(config.factory_address, [1u8; 20]);
    assert_eq!(config.calling_address, [1u8; 20]);
    assert_eq!(config.init_code_hash, [2u8; 32]);
    assert_eq!(
        Config::from_decoded(None, None, None, None, None, None),
        Err(ConfigError::UndecodableFactoryAddress)
    );
    assert_eq!(
        Config::from_decoded(Some(vec![1u8; 19]), None, thirty_two.clone(), None, None, None),
        Err(ConfigError::UndecodableCallingAddress)
    );
    assert_eq!(
        Config::from_decoded(Some(vec![1u8; 19]), twenty.clone(), thirty_two.clone(), None, None, None),
        Err(ConfigError::FactoryAddressLength)
    );
    assert_eq!(
        Config::from_decoded(twenty.clone(), twenty.clone(), thirty_two.clone(), None, Some(30), None),
        Err(ConfigError::InvalidGpuDevice)
    );
    assert_eq!(
        Config::from_decoded(twenty.clone(), twenty.clone(), thirty_two.clone(), Some(0), Some(30), None),
        Err(ConfigError::InvalidTotalThreshold)
    );
    assert_eq!(
        Config::from_decoded(twenty.clone(), twenty, thirty_two, Some(0), Some(30), Some(30)),
        Err(ConfigError::LeadingThresholdRange)
    );
}

#[test]
fn every_error_has_its_sentence() {
    assert_eq!(
        ConfigError::MissingFactoryAddress.message(),
        "didn't get a factory_address argument"
    );
    assert_eq!(
        ConfigError::InitCodeHashLength.message(),
        "invalid length for initialization code hash argument"
    );
    assert_eq!(
        ConfigError::TotalThresholdRange.message(),
        "invalid value for total zeroes threshold argument. (valid: 0..=20 | 255)"
    );
    assert_eq!(ConfigError::InvalidGpuDevice.message(), "invalid gpu device value");
}

#[test]
fn lower_thresholds_accept_what_higher_ones_accept() {
    let base = Config::new(args(&[FACTORY, CALLER, HASH, "0", "4", "6"])).unwrap();
    let lower = Config::new(args(&[FACTORY, CALLER, HASH, "0", "2", "6"])).unwrap();
    let off = Config::new(args(&[FACTORY, CALLER, HASH, "0", "4", "255"])).unwrap();
    assert!(base.meets_thresholds(4, 4));
    assert!(base.meets_thresholds(0, 6));
    assert!(!base.meets_thresholds(3, 5));
    assert!(lower.meets_thresholds(3, 5));
    assert!(!off.meets_thresholds(0, 20));
    assert!(off.meets_thresholds(21, 20));
    for leading in 0..=20usize {
        for total in leading..=20usize {
            if base.meets_thresholds(leading, total) {
                assert!(lower.meets_thresholds(leading, total));
            }
        }
    }
}

#[test]
fn numbers_may_carry_a_plus_sign_and_leading_zeros() {
    let config = Config::new(args(&[FACTORY, CALLER, HASH, "+7", "007", "0000000000000000000020"]))
        .unwrap();
    assert_eq!(config.gpu_device, 7);
    assert_eq!(config.leading_zeroes_threshold, 7);
    assert_eq!(config.total_zeroes_threshold, 20);
    assert_eq!(
        Config::new(args(&[FACTORY, CALLER, HASH, "+"])),
        Err(ConfigError::InvalidGpuDevice)
    );
    assert_eq!(
        Config::new(args(&[FACTORY, CALLER, HASH, ""])),
        Err(ConfigError::InvalidGpuDevice)
    );
    assert_eq!(
        Config::new(args(&[FACTORY, CALLER, HASH, " 1"])),
        Err(ConfigError::InvalidGpuDevice)
    );
    assert_eq!(
        Config::new(args(&[FACTORY, CALLER, HASH, "1", "++1"])),
        Err(ConfigError::InvalidLeadingThreshold)
    );
}

#[test]
fn hexadecimal_digits_of_either_case_decode_alike() {
    let lower = Config::new(args(&["0x00000000000000000000000000000000deadbeef", CALLER, HASH]))
        .unwrap();
    let mixed = Config::new(args(&["00000000000000000000000000000000DeAdBeEf", CALLER, HASH]))
        .unwrap();
    assert_eq!(lower.factory_address, mixed.factory_address);
    assert_eq!(lower.factory_address[16..], [0xde, 0xad, 0xbe, 0xef]);
    assert_eq!(
        Config::new(args(&["0x0x000000000000000000000000000000deadbeef", CALLER, HASH])),
        Err(ConfigError::UndecodableFactoryAddress)
    );
    assert_eq!(
        Config::new(args(&["0x00000000000000000000000000000000deadbee", CALLER, HASH])),
        Err(ConfigError::UndecodableFactoryAddress)
    );
}
