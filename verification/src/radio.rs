//! Bring-up of the long-range radio: the outcome of the driver's handshake
//! becomes either a transport that holds the driver or an explicit error.

use vstd::prelude::*;

verus! {

/// The SX127x driver of the `radio_sx127x` crate, carried as an opaque value.
/// Nothing is claimed of what it holds.
#[verifier::external_type_specification]
#[verifier::external_body]
#[verifier::reject_recursive_types(Hal)]
pub struct ExSx127x<Hal>(radio_sx127x::Sx127x<Hal>);

/// The error type of the `radio_sx127x` crate, carried as an opaque value.
/// Nothing is claimed of what it holds.
#[verifier::external_type_specification]
#[verifier::external_body]
#[verifier::reject_recursive_types(HalError)]
pub struct ExDriverError<HalError: core::fmt::Debug + 'static>(radio_sx127x::Error<HalError>);

/// Why the radio could not be brought up.
#[derive(Clone, Copy, Debug, PartialEq, Eq, Structural)]
pub enum RadioInitError {
    /// The bus, a pin or the delay source failed during the handshake.
    Communication,
    /// The driver rejected the configuration.
    InvalidConfiguration,
    /// The driver gave the handshake up.
    Aborted,
    /// The device answered with something the driver could not use.
    InvalidResponse,
    /// The device did not answer in time.
    Timeout,
    /// A frame arrived with a bad checksum.
    Crc,
    /// A frame was larger than the buffer offered for it.
    BufferSize,
    /// The device reported a silicon version other than the expected one.
    InvalidDevice(u8),
}

/// The radio transport: the driver after a successful handshake. It exists
/// only where the handshake succeeded.
#[verifier::reject_recursive_types(Hal)]
pub struct Radio<Hal> {
    radio: radio_sx127x::Sx127x<Hal>,
}

/// Tells the driver's error variants apart with `match`, one arm for each
/// variant of `radio_sx127x::Error`, keeping the silicon version that
/// `InvalidDevice` carries. Which variant an error is cannot be seen by the
/// verifier, so nothing is promised of the result.
#[verifier::external_body]
fn init_error_of<E: core::fmt::Debug + 'static>(error: &radio_sx127x::Error<E>) -> (kind:
    RadioInitError) {
    match error {
        radio_sx127x::Error::Hal(_) => RadioInitError::Communication,
        radio_sx127x::Error::InvalidConfiguration => RadioInitError::InvalidConfiguration,
        radio_sx127x::Error::Aborted => RadioInitError::Aborted,
        radio_sx127x::Error::InvalidResponse => RadioInitError::InvalidResponse,
        radio_sx127x::Error::Timeout => RadioInitError::Timeout,
        radio_sx127x::Error::Crc => RadioInitError::Crc,
        radio_sx127x::Error::BufferSize => RadioInitError::BufferSize,
        radio_sx127x::Error::InvalidDevice(version) => RadioInitError::InvalidDevice(*version),
    }
}

impl<Hal> Radio<Hal> {
    /// The driver that the transport holds.
    pub closed spec fn driver(self) -> radio_sx127x::Sx127x<Hal> {
        self.radio
    }

    /// Makes the transport from the outcome of the driver's handshake. A
    /// driver that came up is wrapped as it is; a failed handshake gives an
    /// error and no transport, and the caller decides whether that is fatal.
    pub fn new<E: core::fmt::Debug + 'static>(
        handshake: Result<radio_sx127x::Sx127x<Hal>, radio_sx127x::Error<E>>,
    ) -> (made: Result<Radio<Hal>, RadioInitError>)
        ensures
            made is Ok <==> handshake is Ok,
            handshake is Ok ==> made->Ok_0.driver() == handshake->Ok_0,
    {
        match handshake {
            Ok(radio) => Radio::from_outcome(Ok(radio)),
            Err(error) => Radio::from_outcome(Err(init_error_of(&error))),
        }
    }

    /// Makes the transport from a handshake whose failure has been classified.
    pub fn from_outcome(outcome: Result<radio_sx127x::Sx127x<Hal>, RadioInitError>) -> (made:
        Result<Radio<Hal>, RadioInitError>)
        ensures
            match outcome {
                Ok(driver) => made is Ok && made->Ok_0.driver() == driver,
                Err(error) => made == Err::<Radio<Hal>, RadioInitError>(error),
            },
    {
        match outcome {
            Ok(radio) => Ok(Radio { radio }),
            Err(error) => Err(error),
        }
    }

    /// Hands the driver to the code that speaks the radio's protocol.
    pub fn into_driver(self) -> (driver: radio_sx127x::Sx127x<Hal>)
        ensures
            driver == self.driver(),
    {
        self.radio
    }
}

} // verus!
