use simple_rust_controller::config::{heap_mem_size, parse_size, WatchConfig, HEAP_MEM_SIZE};
use simple_rust_controller::context::{allocate, Data};
use simple_rust_controller::error::{ErrorResponse, KubeError};

#[test]
fn unset_size_is_zero() {
    assert_eq!(heap_mem_size(None), 0);
    assert_eq!(HEAP_MEM_SIZE, "HEAP_MEM_SIZE");
}

#[test]
fn decimal_sizes_are_read() {
    assert_eq!(heap_mem_size(Some("0")), 0);
    assert_eq!(heap_mem_size(Some("1024")), 1024);
    assert_eq!(heap_mem_size(Some("+17")), 17);
    assert_eq!(heap_mem_size(Some("007")), 7);
    assert_eq!(parse_size(b"4096"), Some(4096));
    assert_eq!(parse_size(usize::MAX.to_string().as_bytes()), Some(usize::MAX));
}

#[test]
fn unparsable_sizes_are_zero() {
    for text in ["", "+", "-1", "12a", " 12", "12 ", "1.5", "++1", "0x10", "١٢"] {
        assert_eq!(heap_mem_size(Some(text)), 0, "{:?}", text);
        assert_eq!(parse_size(text.as_bytes()), None, "{:?}", text);
    }
}

#[test]
fn sizes_beyond_the_machine_word_are_zero() {
    let too_large = format!("{}0", usize::MAX);
    assert_eq!(parse_size(too_large.as_bytes()), None);
    assert_eq!(heap_mem_size(Some(&too_large)), 0);
    let one_more = "18446744073709551616";
    if usize::MAX as u128 == u64::MAX as u128 {
        assert_eq!(parse_size(one_more.as_bytes()), None);
    }
}

#[test]
fn parsing_agrees_with_the_standard_library() {
    for text in ["0", "9", "10", "+5", "65535", "-0", "+", "", "9a", "00000000000000000000001"] {
        assert_eq!(parse_size(text.as_bytes()), text.parse::<usize>().ok(), "{:?}", text);
    }
}

#[test]
fn buffer_is_filled_with_offset_bytes() {
    assert_eq!(allocate(0), Vec::<u8>::new());
    assert_eq!(allocate(4), vec![9, 10, 11, 12]);
    let buffer = allocate(600);
    assert_eq!(buffer.len(), 600);
    assert_eq!(buffer[246], 255);
    assert_eq!(buffer[247], 0);
    assert_eq!(buffer[599], ((599 + 9) % 256) as u8);
}

#[test]
fn context_keeps_client_and_buffer() {
    let ctx = Data::new("handle", 300);
    assert_eq!(*ctx.client(), "handle");
    assert_eq!(ctx.buffer_len(), 300);
    assert_eq!(ctx.huge_mem_alloc().len(), 300);
    assert_eq!(ctx.huge_mem_alloc()[0], 9);
    assert_eq!(ctx.buffer_len(), 300);
}

#[test]
fn watch_asks_for_no_bookmarks() {
    assert_eq!(WatchConfig::new(), WatchConfig { bookmarks: false });
}

#[test]
fn only_an_api_answer_with_the_code_is_not_found() {
    let response = |code: u16| ErrorResponse {
        status: "Failure".to_string(),
        message: String::new(),
        reason: String::new(),
        code,
    };
    assert!(KubeError::Api(response(404)).is_not_found());
    assert!(!KubeError::Api(response(403)).is_not_found());
    assert!(!KubeError::Api(response(500)).is_not_found());
    assert!(!KubeError::Other("404".to_string()).is_not_found());
}
