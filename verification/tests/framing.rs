use contract_enclave::framing::{reply_len, write_reply};

#[test]
fn reply_round_trips_through_a_zeroed_buffer() {
    let reply = br#"{"message":"SuccessMatch","transaction_1":null,"transaction_2":null}"#;
    let mut buffer = [0u8; 1024];
    write_reply(&mut buffer, reply);
    let n: usize = reply_len(&buffer);
    assert_eq!(n, reply.len());
    assert_eq!(&buffer[..n], &reply[..]);
    assert!(buffer[n..].iter().all(|&b| b == 0));
}

#[test]
fn reply_filling_the_buffer_is_read_whole() {
    let reply = [7u8; 16];
    let mut buffer = [0u8; 16];
    write_reply(&mut buffer, &reply);
    assert_eq!(reply_len(&buffer), 16);
    assert_eq!(buffer, reply);
}

#[test]
fn write_reply_keeps_the_rest_of_the_buffer() {
    let mut buffer = [9u8; 6];
    write_reply(&mut buffer, &[1, 2]);
    assert_eq!(buffer, [1, 2, 9, 9, 9, 9]);
}

#[test]
fn reply_ends_at_the_first_zero_byte() {
    assert_eq!(reply_len(&[0u8; 1024]), 0);
    assert_eq!(reply_len(&[]), 0);
    assert_eq!(reply_len(&[5, 6, 0, 7, 0]), 2);
    assert_eq!(reply_len(&[5, 6, 7]), 3);
}
