use vcl_rs::error::VclError;
use vcl_rs::{decode_tcp_dns_len, frame_tcp_dns_query};

/// Frames the bytes, then reads them as a peer's send buffer would be read.
fn exercise(data: &[u8]) {
    let cap = std::cmp::min(data.len(), (u16::MAX as usize) + 16);
    let q = &data[..cap];
    match frame_tcp_dns_query(q) {
        Ok(framed) => {
            assert!(q.len() <= u16::MAX as usize);
            assert_eq!(framed.len(), 2 + q.len());
            let prefix = [framed[0], framed[1]];
            let len = decode_tcp_dns_len(prefix).map(|n| n as u16).unwrap_or(0);
            assert_eq!(len as usize, q.len(), "framing prefix mismatch");
            assert_eq!(&framed[2..], q);
        }
        Err(_) => {
            assert!(q.len() > u16::MAX as usize);
        }
    }
    if data.len() < 2 {
        return;
    }
    let prefix = [data[0], data[1]];
    match decode_tcp_dns_len(prefix) {
        Ok(len) => {
            assert!(len > 0);
            assert!(len <= u16::MAX as usize);
        }
        Err(_) => {
            assert_eq!(prefix, [0, 0]);
        }
    }
}

#[test]
fn framing_is_lossless_or_refused() {
    exercise(&[]);
    exercise(&[0]);
    exercise(&[0, 0]);
    exercise(&[0, 1, 9]);
    exercise(&[1, 0, 2, 3]);
    exercise(&[0xff; 300]);
    exercise(&vec![0x5a; 65535]);
    exercise(&vec![0xa5; 65536]);
    exercise(&vec![1; 70000]);
}

#[test]
fn the_prefix_is_big_endian() {
    assert_eq!(frame_tcp_dns_query(&[7, 8, 9]).unwrap(), [0, 3, 7, 8, 9]);
    let framed = frame_tcp_dns_query(&vec![1; 0x1234]).unwrap();
    assert_eq!(framed[..2], [0x12, 0x34]);
    assert_eq!(decode_tcp_dns_len([0x12, 0x34]), Ok(0x1234));
    assert_eq!(decode_tcp_dns_len([0xff, 0xff]), Ok(65535));
}

#[test]
fn an_oversized_query_is_refused() {
    assert_eq!(
        frame_tcp_dns_query(&vec![0; 65536]),
        Err(VclError::Api("DNS query longer than 65535 bytes".to_owned(), -1))
    );
}

#[test]
fn an_empty_response_is_refused() {
    assert_eq!(
        decode_tcp_dns_len([0, 0]),
        Err(VclError::Api("zero-length DNS response".to_owned(), -1))
    );
}
