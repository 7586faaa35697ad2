use linux_max6675::connection::{frame_of_read, transport_result};
use linux_max6675::{Max6675, Max6675Error};

#[test]
fn missing_device_is_a_transport_fault() {
    let r = Max6675::new("/dev/this-spidev-does-not-exist0.0");
    match r {
        Err(Max6675Error::IoError { source }) => {
            assert_eq!(source.kind(), std::io::ErrorKind::NotFound)
        },
        _ => panic!("opening a missing device must be a transport fault"),
    }
}

#[test]
fn device_that_refuses_configuration_is_a_transport_fault() {
    // /dev/null opens, but is no SPI device, so configuring it fails
    let r = Max6675::new(String::from("/dev/null"));
    assert!(matches!(r, Err(Max6675Error::IoError { .. })));
}

#[test]
fn short_read_is_a_transport_fault() {
    let short = std::io::Error::new(std::io::ErrorKind::UnexpectedEof, "failed to fill whole buffer");
    let r = frame_of_read(Err(short), [0x01, 0x90]);
    match r {
        Err(Max6675Error::IoError { source }) => {
            assert_eq!(source.kind(), std::io::ErrorKind::UnexpectedEof)
        },
        _ => panic!("a failed read must not yield a frame"),
    }
}

#[test]
fn filled_read_yields_the_buffer() {
    assert_eq!(frame_of_read(Ok(()), [0x01, 0x90]).unwrap(), [0x01, 0x90]);
}

#[test]
fn transport_result_keeps_the_value_or_the_os_error() {
    assert_eq!(transport_result::<u8>(Ok(5)).unwrap(), 5);
    let denied = std::io::Error::new(std::io::ErrorKind::PermissionDenied, "denied");
    match transport_result::<u8>(Err(denied)) {
        Err(Max6675Error::IoError { source }) => {
            assert_eq!(source.kind(), std::io::ErrorKind::PermissionDenied)
        },
        _ => panic!("an OS error must become a transport fault"),
    }
}
