//! Driver for the MAX6675 thermocouple-to-digital converter on a Linux SPI bus.
use vstd::prelude::*;

pub mod connection;
pub mod frame;
pub mod temperature;

use crate::connection::Connection;
use crate::frame::frame_reading;
use crate::temperature::{fahrenheit_of_celsius, kelvin_of_celsius, Temperature};

verus! {

/// Why a read of the MAX6675 did not produce a value.
#[derive(Debug)]
pub enum Max6675Error {
    /// Opening, configuring or reading the SPI bus failed; the OS error is kept.
    IoError { source: std::io::Error },
    /// The converter set its fault bit (D2): the thermocouple input is open.
    OpenCircuitError,
}

/// Declares `std::io::Error` so that the transport fault can carry it.
#[verifier::external_type_specification]
#[verifier::external_body]
pub struct ExIoError(std::io::Error);

/// True when `r` failed on the bus rather than in the converter.
pub open spec fn is_transport_fault<T>(r: Result<T, Max6675Error>) -> bool {
    r matches Err(Max6675Error::IoError { .. })
}

/// What a frame yields when read in Celsius.
pub open spec fn celsius_reading(frame: [u8; 2]) -> Result<Temperature, Max6675Error> {
    match frame_reading(frame) {
        Ok(c) => Ok(Temperature::Celsius(c)),
        Err(e) => Err(e),
    }
}

/// What a frame yields when read in Fahrenheit.
pub open spec fn fahrenheit_reading(frame: [u8; 2]) -> Result<Temperature, Max6675Error> {
    match frame_reading(frame) {
        Ok(c) => Ok(Temperature::Fahrenheit(fahrenheit_of_celsius(c as int) as i64)),
        Err(e) => Err(e),
    }
}

/// What a frame yields when read in Kelvin.
pub open spec fn kelvin_reading(frame: [u8; 2]) -> Result<Temperature, Max6675Error> {
    match frame_reading(frame) {
        Ok(c) => Ok(Temperature::Kelvin(kelvin_of_celsius(c as int) as i64)),
        Err(e) => Err(e),
    }
}

/// A MAX6675 thermocouple digitizer on one SPI device. Every read is a fresh
/// SPI transaction; nothing is cached.
pub struct Max6675 {
    connection: Connection,
}

/// What a read of one frame leaves behind: exactly one more read was issued
/// on the bus, the bus settings are unchanged, and the result is a transport
/// fault when that read failed, else `reading` of the bytes it delivered.
pub open spec fn one_fresh_read<T>(
    old: Max6675,
    new: Max6675,
    r: Result<T, Max6675Error>,
    reading: spec_fn([u8; 2]) -> Result<T, Max6675Error>,
) -> bool {
    &&& new.reads().len() == old.reads().len() + 1
    &&& new.reads().drop_last() == old.reads()
    &&& new.bus_options() == old.bus_options()
    &&& match new.reads().last() {
        Some(frame) => r == reading(frame),
        None => is_transport_fault(r),
    }
}

impl Max6675 {
    /// Bits per word, clock limit in Hz and mode bits written to the bus.
    pub closed spec fn bus_options(&self) -> Option<(u8, u32, u32)> {
        self.connection.bus_options()
    }

    /// Every frame read issued on the bus, oldest first: the bytes delivered,
    /// or `None` where the read failed.
    pub closed spec fn reads(&self) -> Seq<Option<[u8; 2]>> {
        self.connection.reads()
    }

    /// Opens the SPI device at `spi_connection_path` (such as
    /// `/dev/spidev0.0`) and configures it: 8 bits per word, 1 MHz, SPI mode 1
    /// (CPOL 0, CPHA 1). No frame is read. A failure to open or configure the
    /// bus is a transport fault, and no driver is made.
    pub fn new(spi_connection_path: impl AsRef<str>) -> (r: Result<Self, Max6675Error>)
        ensures
            match r {
                Ok(d) => {
                    &&& d.bus_options() == Some((8u8, 1_000_000u32, 0x01u32))
                    &&& d.reads() == Seq::<Option<[u8; 2]>>::empty()
                },
                Err(e) => e is IoError,
            },
    {
        let connection = Connection::new(spi_connection_path)?;
        Ok(Max6675 { connection })
    }

    /// Reads the temperature in Celsius, in one fresh SPI transaction. Unless
    /// the transfer failed, the result is what the frame read decodes to: an
    /// open-circuit fault when its bit D2 is set, else its magnitude field
    /// times 0.25 °C.
    pub fn read_celsius(&mut self) -> (r: Result<Temperature, Max6675Error>)
        ensures
            one_fresh_read(*old(self), *final(self), r, |f: [u8; 2]| celsius_reading(f)),
    {
        let c = self.connection.read_as_celsius()?;
        Ok(Temperature::Celsius(c))
    }

    /// Reads the temperature in Fahrenheit, in one fresh SPI transaction.
    pub fn read_fahrenheit(&mut self) -> (r: Result<Temperature, Max6675Error>)
        ensures
            one_fresh_read(*old(self), *final(self), r, |f: [u8; 2]| fahrenheit_reading(f)),
    {
        let t = self.read_celsius()?;
        Ok(t.to_fahrenheit())
    }

    /// Reads the temperature in Kelvin, in one fresh SPI transaction.
    pub fn read_kelvin(&mut self) -> (r: Result<Temperature, Max6675Error>)
        ensures
            one_fresh_read(*old(self), *final(self), r, |f: [u8; 2]| kelvin_reading(f)),
    {
        let t = self.read_celsius()?;
        Ok(t.to_kelvin())
    }

    /// Reads one raw frame, as the device sent it (big-endian), in one fresh
    /// SPI transaction, for callers that decode it themselves.
    pub fn read_raw(&mut self) -> (r: Result<[u8; 2], Max6675Error>)
        ensures
            one_fresh_read(
                *old(self),
                *final(self),
                r,
                |f: [u8; 2]| Ok::<[u8; 2], Max6675Error>(f),
            ),
    {
        self.connection.read_raw()
    }
}

} // verus!
