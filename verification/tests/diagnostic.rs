use segment_clock::diagnostic::{diagnostic, FetchStage, DETAIL_CAPACITY, PACKET_CAPACITY};

const STAGES: [FetchStage; 5] =
    [FetchStage::Request, FetchStage::Send, FetchStage::Body, FetchStage::Text, FetchStage::Json];

#[test]
fn each_stage_has_its_label() {
    assert_eq!(FetchStage::Request.label(), "Error req: ");
    assert_eq!(FetchStage::Send.label(), "Error res: ");
    assert_eq!(FetchStage::Body.label(), "Error byte: ");
    assert_eq!(FetchStage::Text.label(), "Error body: ");
    assert_eq!(FetchStage::Json.label(), "Error buf: ");
}

#[test]
fn a_line_is_label_detail_and_line_end() {
    assert_eq!(diagnostic(FetchStage::Request, "Dns"), b"Error req: Dns\r\n".to_vec());
    assert_eq!(diagnostic(FetchStage::Send, "Network(Timeout)"), b"Error res: Network(Timeout)\r\n".to_vec());
    assert_eq!(diagnostic(FetchStage::Body, "BufferTooSmall"), b"Error byte: BufferTooSmall\r\n".to_vec());
    assert_eq!(
        diagnostic(FetchStage::Text, "Utf8Error { valid_up_to: 3, error_len: Some(1) }"),
        b"Error body: Utf8Error { valid_up_to: 3, error_len: Some(1) }\r\n".to_vec()
    );
    assert_eq!(diagnostic(FetchStage::Json, "EofWhileParsingObject"), b"Error buf: EofWhileParsingObject\r\n".to_vec());
}

#[test]
fn an_empty_detail_still_gives_a_line() {
    assert_eq!(diagnostic(FetchStage::Send, ""), b"Error res: \r\n".to_vec());
}

#[test]
fn a_detail_of_fifty_bytes_fits_with_every_label() {
    assert_eq!(DETAIL_CAPACITY, 50);
    let detail = "x".repeat(DETAIL_CAPACITY);
    for stage in STAGES {
        let packet = diagnostic(stage, &detail);
        let expected = format!("{}{}\r\n", stage.label(), detail);
        assert_eq!(packet, expected.into_bytes());
        assert!(packet.len() <= PACKET_CAPACITY);
    }
}

#[test]
fn a_line_may_fill_the_buffer_to_the_last_byte() {
    // 12 + 50 + 2 = 64.
    let packet = diagnostic(FetchStage::Body, &"y".repeat(50));
    assert_eq!(packet.len(), 64);
    assert!(packet.ends_with(b"\r\n"));
}

#[test]
fn a_line_end_that_does_not_fit_is_left_out() {
    // 12 + 51 = 63: the detail fits, the line end does not.
    let detail = "z".repeat(51);
    let packet = diagnostic(FetchStage::Text, &detail);
    assert_eq!(packet, format!("Error body: {}", detail).into_bytes());
    // 11 + 52 = 63 as well.
    let detail = "z".repeat(52);
    let packet = diagnostic(FetchStage::Send, &detail);
    assert_eq!(packet, format!("Error res: {}", detail).into_bytes());
}

#[test]
fn a_detail_that_does_not_fit_is_left_out_whole() {
    // 12 + 53 = 65.
    let packet = diagnostic(FetchStage::Body, &"w".repeat(53));
    assert_eq!(packet, b"Error byte: ".to_vec());
    let packet = diagnostic(FetchStage::Request, &"w".repeat(500));
    assert_eq!(packet, b"Error req: ".to_vec());
}

#[test]
fn capacity_counts_bytes_not_characters() {
    // 26 characters of two bytes each: 52 bytes.
    let detail = "\u{e9}".repeat(26);
    assert_eq!(detail.len(), 52);
    let packet = diagnostic(FetchStage::Send, &detail);
    assert_eq!(packet, format!("Error res: {}", detail).into_bytes());
    // 27 characters: 54 bytes, 11 + 54 = 65.
    let detail = "\u{e9}".repeat(27);
    assert_eq!(diagnostic(FetchStage::Send, &detail), b"Error res: ".to_vec());
}

#[test]
fn a_packet_never_exceeds_the_capacity_and_starts_with_the_label() {
    assert_eq!(PACKET_CAPACITY, 64);
    for stage in STAGES {
        for length in 0..80usize {
            let packet = diagnostic(stage, &"q".repeat(length));
            assert!(packet.len() <= 64);
            assert!(packet.starts_with(stage.label().as_bytes()));
        }
    }
}
