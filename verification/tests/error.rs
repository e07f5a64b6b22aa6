use nb::Error;

#[test]
fn map_transforms_other() {
    let e: Error<u8> = Error::Other(1);
    assert_eq!(e.map(|x| x + 1), Error::Other(2u8));
}

#[test]
fn map_keeps_would_block() {
    let e: Error<u8> = Error::WouldBlock;
    assert_eq!(e.map(|x| x + 1), Error::<u8>::WouldBlock);
}

#[test]
fn map_can_change_the_error_type() {
    let e: Error<u8> = Error::Other(200);
    assert_eq!(e.map(|x| x as u16 * 2), Error::Other(400u16));
}

#[test]
fn map_error_keeps_success_untouched() {
    let r: Result<u32, Error<u8>> = Ok(5);
    assert_eq!(nb::map_error(r, |e| e as u16), Ok(5));
}

#[test]
fn map_error_keeps_would_block_untouched() {
    let r: Result<u32, Error<u8>> = Err(Error::WouldBlock);
    assert_eq!(nb::map_error(r, |e| e as u16), Err(Error::WouldBlock));
}

#[test]
fn map_error_transforms_failure() {
    let r: Result<u32, Error<u8>> = Err(Error::Other(7));
    assert_eq!(nb::map_error(r, |e| e as u16 + 1), Err(Error::Other(8u16)));
}

#[test]
fn from_wraps_into_other() {
    assert_eq!(Error::from(3u8), Error::Other(3u8));
}

#[test]
fn ordering_compares_shape_first_then_payload() {
    assert!(Error::<u8>::Other(200) < Error::<u8>::WouldBlock);
    assert!(Error::<u8>::Other(1) < Error::<u8>::Other(2));
    assert_eq!(Error::<u8>::WouldBlock, Error::<u8>::WouldBlock);
    assert_ne!(Error::<u8>::Other(1), Error::<u8>::WouldBlock);
}
