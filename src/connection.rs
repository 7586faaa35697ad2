//! The SPI link to one MAX6675: opening and configuring the bus, and reading
//! frames from it.
use vstd::prelude::*;

use spidev::{SpiModeFlags, Spidev, SpidevOptions};

use crate::frame::{decode_frame, frame_reading};
use crate::{is_transport_fault, Max6675Error};

verus! {

/// Bits per SPI transfer word.
pub const BITS_PER_WORD: u8 = 8;

/// Highest SPI clock the converter is driven at, in Hz.
pub const MAX_SPEED_HZ: u32 = 1_000_000;

/// SPI mode 1: clock idle low (CPOL 0), data sampled on the trailing edge (CPHA 1).
pub const SPI_MODE_1_BITS: u32 = 0x01;

/// Declares spidev's handle on an SPI character device.
#[verifier::external_type_specification]
#[verifier::external_body]
pub struct ExSpidev(Spidev);

/// Relies on `spidev::Spidev::open`: opens the device file for reading and
/// writing. Whether it succeeds depends on the system, so nothing is promised.
#[verifier::external_body]
fn open_bus(path: impl AsRef<str>) -> (r: Result<Spidev, std::io::Error>) {
    Spidev::open(path.as_ref())
}

/// An opened SPI device, with a model of what has been done to it: the
/// settings last written by a successful configuration, and every frame read
/// issued on it, oldest first.
pub struct Bus {
    spi: Spidev,
    options: Ghost<Option<(u8, u32, u32)>>,
    reads: Ghost<Seq<Option<[u8; 2]>>>,
}

impl Bus {
    /// Bits per word, clock limit in Hz and mode bits last configured.
    pub closed spec fn options(&self) -> Option<(u8, u32, u32)> {
        self.options@
    }

    /// One entry per frame read issued: the bytes delivered, or `None` where
    /// the read failed.
    pub closed spec fn reads(&self) -> Seq<Option<[u8; 2]>> {
        self.reads@
    }
}

/// Relies on `spidev::Spidev::configure`: writes word size, clock limit and
/// mode bits, as given, to the device, leaving the bit order as it is. Success
/// means all three were written; no data is transferred.
#[verifier::external_body]
fn configure_bus(bus: &mut Bus, bits_per_word: u8, max_speed_hz: u32, mode: u32) -> (r: Result<
    (),
    std::io::Error,
>)
    ensures
        r is Ok ==> final(bus).options() == Some((bits_per_word, max_speed_hz, mode)),
        final(bus).reads() == old(bus).reads(),
{
    let options = SpidevOptions {
        bits_per_word: Some(bits_per_word),
        max_speed_hz: Some(max_speed_hz),
        lsb_first: None,
        spi_mode: Some(SpiModeFlags::from_bits_retain(mode)),
    };
    bus.spi.configure(&options)
}

/// Relies on `std::io::Read::read_exact` over spidev's `Read` impl: one read
/// of the whole buffer, which fills it or fails; a short read is an error.
/// It leaves the configuration alone. Which bytes arrive is up to the device:
/// they are recorded, and nothing else is promised of them.
#[verifier::external_body]
fn read_exact_bus(bus: &mut Bus, buf: &mut [u8; 2]) -> (r: Result<(), std::io::Error>)
    ensures
        final(bus).reads() == old(bus).reads().push(
            if r is Ok {
                Some(*final(buf))
            } else {
                None
            },
        ),
        final(bus).options() == old(bus).options(),
{
    std::io::Read::read_exact(&mut bus.spi, buf)
}

/// The outcome of a bus operation in the library's terms: the value as it
/// is, or a transport fault that carries the OS error unchanged.
pub fn transport_result<T>(outcome: Result<T, std::io::Error>) -> (r: Result<T, Max6675Error>)
    ensures
        match outcome {
            Ok(v) => r == Ok::<T, Max6675Error>(v),
            Err(e) => r == Err::<T, Max6675Error>(Max6675Error::IoError { source: e }),
        },
{
    match outcome {
        Ok(v) => Ok(v),
        Err(source) => Err(Max6675Error::IoError { source }),
    }
}

/// The frame of a read: the buffer when the read filled it, else a transport
/// fault carrying the read's error. No failed read yields a frame.
pub fn frame_of_read(outcome: Result<(), std::io::Error>, buf: [u8; 2]) -> (r: Result<
    [u8; 2],
    Max6675Error,
>)
    ensures
        outcome is Ok <==> r is Ok,
        r is Ok ==> r == Ok::<[u8; 2], Max6675Error>(buf),
        outcome is Err ==> r == Err::<[u8; 2], Max6675Error>(
            Max6675Error::IoError { source: outcome->Err_0 },
        ),
{
    match transport_result(outcome) {
        Ok(()) => Ok(buf),
        Err(e) => Err(e),
    }
}

/// An open and configured SPI connection to one MAX6675, with the scratch
/// buffer that frames are read into.
pub struct Connection {
    bus: Bus,
    data: [u8; 2],
}

impl Connection {
    /// The settings written to the bus.
    pub closed spec fn bus_options(&self) -> Option<(u8, u32, u32)> {
        self.bus.options()
    }

    /// Every frame read issued on the bus, oldest first: the bytes delivered,
    /// or `None` where the read failed.
    pub closed spec fn reads(&self) -> Seq<Option<[u8; 2]>> {
        self.bus.reads()
    }

    /// Opens `spi_path` and configures it for the MAX6675: 8-bit words,
    /// 1 MHz, SPI mode 1. No frame is read. A failure to open or configure is
    /// a transport fault that carries the OS error; configuring is not tried
    /// on a device that did not open.
    pub(crate) fn new(spi_path: impl AsRef<str>) -> (r: Result<Self, Max6675Error>)
        ensures
            match r {
                Ok(c) => {
                    &&& c.bus_options() == Some((8u8, 1_000_000u32, 0x01u32))
                    &&& c.reads() == Seq::<Option<[u8; 2]>>::empty()
                },
                Err(e) => e is IoError,
            },
    {
        let spi = transport_result(open_bus(spi_path))?;
        let mut bus = Bus { spi, options: Ghost(None), reads: Ghost(Seq::empty()) };
        transport_result(configure_bus(&mut bus, BITS_PER_WORD, MAX_SPEED_HZ, SPI_MODE_1_BITS))?;
        Ok(Connection { bus, data: [0u8; 2] })
    }

    /// Reads one frame in one fresh SPI transaction. On success the bytes
    /// delivered are returned; a failed transfer is a transport fault.
    pub(crate) fn read_raw(&mut self) -> (r: Result<[u8; 2], Max6675Error>)
        ensures
            final(self).reads().len() == old(self).reads().len() + 1,
            final(self).reads().drop_last() == old(self).reads(),
            final(self).bus_options() == old(self).bus_options(),
            match final(self).reads().last() {
                Some(frame) => r == Ok::<[u8; 2], Max6675Error>(frame),
                None => is_transport_fault(r),
            },
    {
        let outcome = read_exact_bus(&mut self.bus, &mut self.data);
        let r = frame_of_read(outcome, self.data);
        proof {
            assert(self.reads().drop_last() =~= old(self).reads());
        }
        r
    }

    /// Reads one frame in one fresh SPI transaction and decodes it to
    /// millidegrees Celsius: a transport fault exactly when the transfer
    /// failed, else what the bytes delivered decode to.
    pub(crate) fn read_as_celsius(&mut self) -> (r: Result<i64, Max6675Error>)
        ensures
            final(self).reads().len() == old(self).reads().len() + 1,
            final(self).reads().drop_last() == old(self).reads(),
            final(self).bus_options() == old(self).bus_options(),
            match final(self).reads().last() {
                Some(frame) => r == frame_reading(frame),
                None => is_transport_fault(r),
            },
    {
        let frame = self.read_raw()?;
        decode_frame(frame)
    }
}

} // verus!
