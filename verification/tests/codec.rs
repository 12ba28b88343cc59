use sfy_buoy::axl::{AxlPacket, AXL_OUTN, AXL_SZ};

#[test]
fn base64_data_package() {
    let data: Vec<u16> = (0..3072).map(|v| half::f16::from_f32(v as f32).to_bits()).collect();
    let p = AxlPacket { timestamp: 0, data };

    let b64 = p.base64();
    println!("{}", core::str::from_utf8(&b64).unwrap());
}

#[test]
fn encode_deterministic() {
    let data: Vec<u16> = (0..AXL_SZ).map(|v| (v % 65536) as u16).collect();
    let p = AxlPacket { timestamp: 7, data };

    let a = p.base64();
    let b = p.base64();
    assert_eq!(a, b);
}

#[test]
fn encode_len_bounds() {
    let full: Vec<u16> = (0..AXL_SZ).map(|v| (v % 65536) as u16).collect();
    let p = AxlPacket { timestamp: 0, data: full };
    let b64 = p.base64();
    assert_eq!(b64.len(), 8192);
    assert!(b64.len() <= AXL_OUTN);

    let empty = AxlPacket { timestamp: 0, data: Vec::new() };
    let b64 = empty.base64();
    assert_eq!(b64.len(), 0);
}

#[test]
fn encode_output_is_transport_safe() {
    let data: Vec<u16> = (0..AXL_SZ).map(|v| (v * 31 % 65536) as u16).collect();
    let p = AxlPacket { timestamp: 3, data };
    for b in p.base64() {
        assert!(
            b.is_ascii_alphanumeric() || b == b'+' || b == b'/' || b == b'=',
            "byte {b} outside the base64 alphabet"
        );
    }
}

#[test]
fn encode_known_values() {
    // One sample 0x6261 serializes little-endian to the bytes of "ab".
    let p = AxlPacket { timestamp: 0, data: vec![0x6261] };
    assert_eq!(p.base64(), b"YWI=".to_vec());

    // Two samples spell "abcd".
    let p = AxlPacket { timestamp: 0, data: vec![0x6261, 0x6463] };
    assert_eq!(p.base64(), b"YWJjZA==".to_vec());
}
