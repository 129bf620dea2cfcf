use stack_cstr::{CArrayString, CStrError, CStrHeap, ContainsNulError, FromBytesWithNulError, NulError};

#[test]
fn test_stack_overflow() {
    assert_eq!(
        CArrayString::<12>::try_from("hello world")
            .unwrap()
            .as_c_str(),
        "hello world"
    );
    assert_eq!(
        CArrayString::<11>::try_from("hello world")
            .unwrap()
            .as_c_str(),
        "hello world"
    );
}

#[test]
fn test_cstr() {
    let source = CStrHeap::new(String::from("hello world")).unwrap();
    assert_eq!(CArrayString::<12>::from(&source).as_c_str(), "hello world");
    assert_eq!(CArrayString::<11>::from(&source).as_c_str(), "hello world");
}

#[test]
fn test_format_args() {
    let s1 = "hello";
    let s2 = "world";
    assert_eq!(
        CArrayString::<12>::new(Ok(&format!("{s1} world")))
            .unwrap()
            .as_c_str(),
        "hello world"
    );
    assert_eq!(
        CArrayString::<11>::new(Ok(&format!("hello {s2}")))
            .unwrap()
            .as_c_str(),
        "hello world"
    );
}

#[test]
fn text_that_fits_is_inline_and_the_rest_is_on_the_heap() {
    assert!(matches!(
        CArrayString::<12>::try_from("hello world"),
        Ok(CArrayString::Stack(_))
    ));
    assert!(matches!(
        CArrayString::<11>::try_from("hello world"),
        Ok(CArrayString::Heap(_))
    ));
    assert!(matches!(
        CArrayString::<16>::new(Ok("hello")),
        Ok(CArrayString::Stack(_))
    ));
    assert!(matches!(
        CArrayString::<4>::new(Ok("this is too long")),
        Ok(CArrayString::Heap(_))
    ));
    assert!(matches!(
        CArrayString::<0>::try_from(""),
        Ok(CArrayString::Heap(_))
    ));
    assert!(matches!(
        CArrayString::<1>::try_from(""),
        Ok(CArrayString::Stack(_))
    ));
}

fn check_run<const N: usize>(value: &CArrayString<N>) {
    let run = value.as_ptr();
    let len = value.as_c_str().len();
    assert_eq!(run.len(), len + 1);
    assert_eq!(run[len], 0);
    assert!(run[..len].iter().all(|byte| *byte != 0));
}

#[test]
fn run_is_the_text_and_one_zero_byte() {
    let inline = CArrayString::<8>::try_from("hello").unwrap();
    assert_eq!(inline.as_ptr(), b"hello\0");
    let heap = CArrayString::<4>::try_from("hello").unwrap();
    assert_eq!(heap.as_ptr(), b"hello\0");
    let empty = CArrayString::<8>::try_from("").unwrap();
    assert_eq!(empty.as_ptr(), b"\0");
    check_run(&inline);
    check_run(&heap);
    check_run(&empty);
}

#[test]
fn text_of_several_bytes_per_character_round_trips() {
    let text = "na\u{ef}ve \u{2603} \u{1f980}";
    assert_eq!(text.len(), 15);
    let inline = CArrayString::<16>::try_from(text).unwrap();
    assert!(matches!(inline, CArrayString::Stack(_)));
    assert_eq!(inline.as_c_str(), text);
    assert_eq!(&inline.as_ptr()[..15], text.as_bytes());
    let heap = CArrayString::<15>::try_from(text).unwrap();
    assert!(matches!(heap, CArrayString::Heap(_)));
    assert_eq!(heap.as_c_str(), text);
    assert_eq!(&heap.as_ptr()[..15], text.as_bytes());
}

#[test]
fn owned_text_converts_like_borrowed_text() {
    let owned = String::from("hello world");
    let made = CArrayString::<12>::try_from(&owned).unwrap();
    assert!(matches!(made, CArrayString::Stack(_)));
    assert_eq!(made.as_c_str(), "hello world");
    let made = CArrayString::<4>::try_from(&owned).unwrap();
    assert!(matches!(made, CArrayString::Heap(_)));
    assert_eq!(made.as_c_str(), "hello world");
}

#[test]
fn nul_in_text_is_rejected_by_either_store() {
    assert_eq!(
        CArrayString::<12>::try_from("he\0llo").unwrap_err(),
        CStrError::ContainsNulError(ContainsNulError)
    );
    assert_eq!(
        CArrayString::<12>::try_from("\0").unwrap_err(),
        CStrError::ContainsNulError(ContainsNulError)
    );
    assert_eq!(
        CArrayString::<12>::try_from("hello\0").unwrap_err(),
        CStrError::ContainsNulError(ContainsNulError)
    );
    assert_eq!(
        CArrayString::<4>::try_from("he\0llo\0").unwrap_err(),
        CStrError::NulError(NulError { position: 2 })
    );
    assert_eq!(
        CArrayString::<4>::try_from("\u{2603}\0abc").unwrap_err(),
        CStrError::NulError(NulError { position: 3 })
    );
    assert_eq!(
        CArrayString::<12>::new(Ok("a\0b")).unwrap_err(),
        CStrError::ContainsNulError(ContainsNulError)
    );
    assert_eq!(
        CArrayString::<2>::new(Ok("a\0b")).unwrap_err(),
        CStrError::NulError(NulError { position: 1 })
    );
    assert!(CArrayString::<12>::try_from("he\0llo").unwrap_err() != CStrError::OverflowError(arrayvec::CapacityError::new('\0')));
}

#[test]
fn formatter_failure_is_handed_on() {
    assert_eq!(
        CArrayString::<12>::new(Err(std::fmt::Error)).unwrap_err(),
        CStrError::FormatError(std::fmt::Error)
    );
    assert_eq!(
        CArrayString::<0>::new(Err(std::fmt::Error)).unwrap_err(),
        CStrError::FormatError(std::fmt::Error)
    );
}

#[test]
fn bytes_with_their_terminator_convert() {
    let bytes: &[u8] = b"hello world\0";
    let inline = CArrayString::<12>::try_from(bytes).unwrap();
    assert!(matches!(inline, CArrayString::Stack(_)));
    assert_eq!(inline.as_c_str(), "hello world");
    assert_eq!(inline.as_ptr(), bytes);
    let heap = CArrayString::<11>::try_from(bytes).unwrap();
    assert!(matches!(heap, CArrayString::Heap(_)));
    assert_eq!(heap.as_c_str(), "hello world");
    assert_eq!(heap.as_ptr(), bytes);
    let only_terminator: &[u8] = b"\0";
    assert_eq!(CArrayString::<4>::try_from(only_terminator).unwrap().as_c_str(), "");
    let snowman: &[u8] = b"\xe2\x98\x83\0";
    assert_eq!(CArrayString::<4>::try_from(snowman).unwrap().as_c_str(), "\u{2603}");
}

#[test]
fn bytes_that_are_no_terminated_run_are_rejected() {
    let unterminated: &[u8] = b"hello";
    assert_eq!(
        CArrayString::<12>::try_from(unterminated).unwrap_err(),
        CStrError::FromBytesWithNulError(FromBytesWithNulError::NotNulTerminated)
    );
    let empty: &[u8] = b"";
    assert_eq!(
        CArrayString::<12>::try_from(empty).unwrap_err(),
        CStrError::FromBytesWithNulError(FromBytesWithNulError::NotNulTerminated)
    );
    let interior: &[u8] = b"he\0llo\0";
    assert_eq!(
        CArrayString::<12>::try_from(interior).unwrap_err(),
        CStrError::FromBytesWithNulError(FromBytesWithNulError::InteriorNul { position: 2 })
    );
    let trailing_garbage: &[u8] = b"hello\0x";
    assert_eq!(
        CArrayString::<12>::try_from(trailing_garbage).unwrap_err(),
        CStrError::FromBytesWithNulError(FromBytesWithNulError::InteriorNul { position: 5 })
    );
    let two_terminators: &[u8] = b"hello\0\0";
    assert_eq!(
        CArrayString::<2>::try_from(two_terminators).unwrap_err(),
        CStrError::FromBytesWithNulError(FromBytesWithNulError::InteriorNul { position: 5 })
    );
}

#[test]
fn bytes_that_are_no_text_are_rejected() {
    let lone_continuation: &[u8] = b"ab\x80\0";
    assert_eq!(
        CArrayString::<12>::try_from(lone_continuation).unwrap_err(),
        CStrError::Utf8Error
    );
    let cut_short: &[u8] = b"\xe2\x98\0";
    assert_eq!(
        CArrayString::<2>::try_from(cut_short).unwrap_err(),
        CStrError::Utf8Error
    );
    let overlong: &[u8] = b"\xc0\xaf\0";
    assert_eq!(
        CArrayString::<12>::try_from(overlong).unwrap_err(),
        CStrError::Utf8Error
    );
    let surrogate: &[u8] = b"\xed\xa0\x80\0";
    assert_eq!(
        CArrayString::<12>::try_from(surrogate).unwrap_err(),
        CStrError::Utf8Error
    );
}

#[test]
fn owned_heap_string_stays_on_the_heap() {
    let source = CStrHeap::new(String::from("hi")).unwrap();
    let made = CArrayString::<128>::from(source);
    assert!(matches!(made, CArrayString::Heap(_)));
    assert_eq!(made.as_c_str(), "hi");
}

#[test]
fn borrowed_heap_string_moves_inline_if_it_fits() {
    let source = CStrHeap::new(String::from("hello world")).unwrap();
    assert!(matches!(CArrayString::<12>::from(&source), CArrayString::Stack(_)));
    assert!(matches!(CArrayString::<11>::from(&source), CArrayString::Heap(_)));
    assert_eq!(source.as_cstr(), "hello world");
}

fn check_stable<const N: usize>(value: &CArrayString<N>) {
    assert_eq!(value.as_c_str(), value.as_c_str());
    assert_eq!(value.as_ptr(), value.as_ptr());
    assert_eq!(value.as_ptr().as_ptr(), value.as_ptr().as_ptr());
}

#[test]
fn accessors_answer_the_same_each_time() {
    check_stable(&CArrayString::<8>::try_from("hello").unwrap());
    check_stable(&CArrayString::<4>::try_from("hello").unwrap());
}

#[test]
fn clones_keep_text_and_store() {
    let inline = CArrayString::<8>::try_from("hello").unwrap();
    let heap = CArrayString::<4>::try_from("hello").unwrap();
    assert_eq!(inline.clone(), inline);
    assert_eq!(heap.clone(), heap);
    assert!(matches!(inline.clone(), CArrayString::Stack(_)));
    assert!(matches!(heap.clone(), CArrayString::Heap(_)));
    assert_eq!(heap.clone().as_c_str(), "hello");
}
