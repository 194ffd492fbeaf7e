use create2crunch::codec::build_cpu_header;
use create2crunch::keccak::{hash_to_address, HeaderState};
use tiny_keccak::{Hasher, Keccak};

const EMPTY_DIGEST: [u8; 32] = [
    0xc5, 0xd2, 0x46, 0x01, 0x86, 0xf7, 0x23, 0x3c, 0x92, 0x7e, 0x7d, 0xb2, 0xdc, 0xc7, 0x03, 0xc0,
    0xe5, 0x00, 0xb6, 0x53, 0xca, 0x82, 0x27, 0x3b, 0x7b, 0xfa, 0xd8, 0x04, 0x5d, 0x85, 0xa4, 0x70,
];

fn independent_address(message: &[u8]) -> [u8; 20] {
    let mut hasher = Keccak::v256();
    hasher.update(message);
    let mut digest = [0u8; 32];
    hasher.finalize(&mut digest);
    let mut address = [0u8; 20];
    address.copy_from_slice(&digest[12..]);
    address
}

#[test]
fn address_of_the_empty_message() {
    let address = hash_to_address(&[]);
    assert_eq!(&address[..], &EMPTY_DIGEST[12..]);
}

#[test]
fn same_message_same_address() {
    let message = [0x5au8; 85];
    let first = hash_to_address(&message);
    let second = hash_to_address(&message);
    assert_eq!(first, second);
    assert_eq!(first, independent_address(&message));
    let mut other = message;
    other[84] = 0x5b;
    assert_ne!(hash_to_address(&other), first);
}

#[test]
fn continuing_from_a_copy_is_hashing_the_whole() {
    let header = [0x31u8; 47];
    let state = HeaderState::new(&header);
    let footer = [0x07u8; 32];
    for nonce in 0u64..50 {
        let body = &nonce.to_le_bytes()[..6];
        let mut whole = header.to_vec();
        whole.extend_from_slice(body);
        whole.extend_from_slice(&footer);
        assert_eq!(state.address_with(body, &footer), hash_to_address(&whole));
        assert_eq!(state.address_with(body, &footer), independent_address(&whole));
    }
    let again = state.address_with(&[0u8; 6], &footer);
    assert_eq!(again, state.address_with(&[0u8; 6], &footer));
}

#[test]
fn first_candidate_of_the_zero_configuration() {
    let factory = [0u8; 20];
    let caller = [0u8; 20];
    let segment = [0x10u8, 0x20, 0x30, 0x40, 0x50, 0x60];
    let header = build_cpu_header(&factory, &caller, &segment);
    let state = HeaderState::new(&header);
    let address = state.address_with(&[0u8; 6], &EMPTY_DIGEST);

    let mut message = vec![0xffu8];
    message.extend_from_slice(&[0u8; 40]);
    message.extend_from_slice(&segment);
    message.extend_from_slice(&[0u8; 6]);
    message.extend_from_slice(&EMPTY_DIGEST);
    assert_eq!(message.len(), 85);
    assert_eq!(address, independent_address(&message));
    assert_eq!(address, hash_to_address(&message));
}
