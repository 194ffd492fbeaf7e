use create2crunch::codec::{
    append_bytes, append_le_bytes, build_cpu_header, build_gpu_solution_message, reward_key,
    zero_metrics, CONTROL_CHARACTER, NONCE_SPACE, NO_NONZERO_BYTE,
};

fn crafted(leading: usize, extra_zero_places: &[usize]) -> [u8; 20] {
    let mut address = [0x11u8; 20];
    for place in 0..leading {
        address[place] = 0;
    }
    for &place in extra_zero_places {
        address[place] = 0;
    }
    address
}

#[test]
fn cpu_header_is_control_factory_caller_segment() {
    let factory = [0xaau8; 20];
    let caller = [0xbbu8; 20];
    let segment = [1u8, 2, 3, 4, 5, 6];
    let header = build_cpu_header(&factory, &caller, &segment);
    assert_eq!(header.len(), 47);
    assert_eq!(header[0], 0xff);
    assert_eq!(header[0], CONTROL_CHARACTER);
    assert_eq!(&header[1..21], &factory[..]);
    assert_eq!(&header[21..41], &caller[..]);
    assert_eq!(&header[41..], &segment[..]);
}

#[test]
fn gpu_message_has_85_bytes_in_order() {
    let factory = [0x01u8; 20];
    let caller = [0x02u8; 20];
    let segment = [0xde, 0xad, 0xbe, 0xef];
    let hash = [0x77u8; 32];
    let solution: u64 = 0x0807_0605_0403_0201;
    let message = build_gpu_solution_message(&factory, &caller, &segment, solution, &hash);
    assert_eq!(message.len(), 85);
    assert_eq!(message[0], 0xff);
    assert_eq!(&message[1..21], &factory[..]);
    assert_eq!(&message[21..41], &caller[..]);
    assert_eq!(&message[41..45], &segment[..]);
    assert_eq!(&message[45..53], &[1u8, 2, 3, 4, 5, 6, 7, 8][..]);
    assert_eq!(&message[45..53], &solution.to_le_bytes()[..]);
    assert_eq!(&message[53..], &hash[..]);
}

#[test]
fn le_bytes_are_appended_low_byte_first() {
    let mut out = vec![9u8];
    append_le_bytes(&mut out, 0x0000_a1b2_c3d4_e5f6, 6);
    assert_eq!(out, vec![9u8, 0xf6, 0xe5, 0xd4, 0xc3, 0xb2, 0xa1]);
    let mut short = Vec::new();
    append_le_bytes(&mut short, 0x0102, 0);
    assert!(short.is_empty());
    let mut wide = Vec::new();
    append_le_bytes(&mut wide, u64::MAX, 6);
    assert_eq!(wide, vec![0xffu8; 6]);
    let mut last = Vec::new();
    append_le_bytes(&mut last, NONCE_SPACE - 1, 6);
    assert_eq!(last, vec![0xffu8; 6]);
}

#[test]
fn append_bytes_keeps_what_was_there() {
    let mut out = vec![1u8, 2];
    append_bytes(&mut out, &[3, 4, 5]);
    assert_eq!(out, vec![1u8, 2, 3, 4, 5]);
    append_bytes(&mut out, &[]);
    assert_eq!(out, vec![1u8, 2, 3, 4, 5]);
}

#[test]
fn metrics_of_crafted_addresses() {
    assert_eq!(zero_metrics(&crafted(0, &[])), (0, 0));
    assert_eq!(zero_metrics(&crafted(3, &[])), (3, 3));
    assert_eq!(zero_metrics(&crafted(3, &[7, 19])), (3, 5));
    assert_eq!(zero_metrics(&crafted(0, &[1, 2, 3])), (0, 3));
    assert_eq!(zero_metrics(&crafted(19, &[])), (19, 19));
    for leading in 0..20usize {
        for extra in 0..(19 - leading) {
            let places: Vec<usize> = (0..extra).map(|n| leading + 1 + n).collect();
            let address = crafted(leading, &places);
            assert_eq!(zero_metrics(&address), (leading, leading + extra));
        }
    }
}

#[test]
fn metrics_of_the_zero_address() {
    assert_eq!(zero_metrics(&[0u8; 20]), (21, 20));
    assert_eq!(NO_NONZERO_BYTE, 21);
}

#[test]
fn reward_key_is_leading_times_twenty_plus_total() {
    assert_eq!(reward_key(0, 0), 0);
    assert_eq!(reward_key(3, 5), 65);
    assert_eq!(reward_key(19, 19), 399);
    assert_eq!(reward_key(21, 20), 440);
}
