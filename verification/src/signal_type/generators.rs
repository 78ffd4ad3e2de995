//! The description of one signal generator: which waveform it produces,
//! how the waveform is shaped, and how its samples are quantized.
//!
//! The shaping parameters are real numbers in IEEE 754 binary32 format.
//! This module carries each of them as the 32 bits of its encoding and
//! reads from those bits only whether the number is zero. The arithmetic
//! on the numbers themselves belongs to the caller, who hands this module
//! the rounded code of a sample and gets back the code that the generator's
//! bit width can represent.

use super::quantization::{
    bits_supported, check_width, clamp_code, fit, max_code, min_code, supported_code_range,
    width_error,
};
use super::SignalType;
use vstd::prelude::*;

verus! {

/// Why a set of parameters describes no usable generator.
#[derive(Copy, Clone, Debug, PartialEq, Eq, Structural)]
pub enum ConfigurationError {
    /// The period of a periodic waveform is zero.
    ZeroPeriod,
    /// The scale is zero.
    ZeroScale,
    /// The bit width is zero.
    ZeroBits,
    /// The bit width is larger than the codes can hold.
    TooManyBits,
}

/// Whether the binary32 number with this encoding is zero: all bits but
/// the sign bit are clear.
pub open spec fn is_zero(bits: u32) -> bool {
    bits == 0 || bits == 0x8000_0000
}

/// Whether the waveform of this kind repeats with the generator's period.
/// Only the constant signal does not.
pub open spec fn is_periodic(kind: SignalType) -> bool {
    kind != SignalType::Constant
}

/// The first fault in a set of parameters, if there is one. The period is
/// looked at first, then the scale, then the bit width.
pub open spec fn configuration_error(
    kind: SignalType,
    period: u32,
    num_bits: u8,
    is_signed: bool,
    scale: u32,
) -> Option<ConfigurationError> {
    if is_periodic(kind) && is_zero(period) {
        Some(ConfigurationError::ZeroPeriod)
    } else if is_zero(scale) {
        Some(ConfigurationError::ZeroScale)
    } else {
        width_error(num_bits as nat, is_signed)
    }
}

/// What a [`Signal`] holds.
pub ghost struct SignalView {
    pub kind: SignalType,
    pub minimum: u32,
    pub maximum: u32,
    pub amplitude: u32,
    pub period: u32,
    pub phase: u32,
    pub num_bits: u8,
    pub is_signed: bool,
    pub scale: u32,
    pub offset: u32,
}

impl SignalView {
    /// Whether these parameters describe a usable generator.
    pub open spec fn valid(self) -> bool {
        configuration_error(self.kind, self.period, self.num_bits, self.is_signed, self.scale)
            is None
    }
}

/// A signal generator's parameters, checked when the value is made and
/// never changed afterwards.
#[derive(Copy, Clone, Debug, PartialEq, Eq, Structural)]
pub struct Signal {
    kind: SignalType,
    minimum: u32,
    maximum: u32,
    amplitude: u32,
    period: u32,
    phase: u32,
    num_bits: u8,
    is_signed: bool,
    scale: u32,
    offset: u32,
}

impl View for Signal {
    type V = SignalView;

    closed spec fn view(&self) -> SignalView {
        SignalView {
            kind: self.kind,
            minimum: self.minimum,
            maximum: self.maximum,
            amplitude: self.amplitude,
            period: self.period,
            phase: self.phase,
            num_bits: self.num_bits,
            is_signed: self.is_signed,
            scale: self.scale,
            offset: self.offset,
        }
    }
}

/// Tells whether the binary32 number with this encoding is zero.
pub fn encodes_zero(bits: u32) -> (zero: bool)
    ensures
        zero == is_zero(bits),
{
    bits == 0 || bits == 0x8000_0000
}

impl Signal {
    #[verifier::type_invariant]
    spec fn well_formed(self) -> bool {
        self@.valid()
    }

    /// Makes a generator of the given kind, or says what is wrong with
    /// the parameters. The numbers `minimum`, `maximum`, `amplitude`,
    /// `period`, `phase`, `scale` and `offset` are given by their binary32
    /// encodings.
    ///
    /// A periodic waveform needs a period other than zero; every generator
    /// needs a scale other than zero and a bit width that is supported.
    pub fn new(
        kind: SignalType,
        minimum: u32,
        maximum: u32,
        amplitude: u32,
        period: u32,
        phase: u32,
        num_bits: u8,
        is_signed: bool,
        scale: u32,
        offset: u32,
    ) -> (made: Result<Signal, ConfigurationError>)
        ensures
            match made {
                Ok(signal) => signal@ == (SignalView {
                    kind,
                    minimum,
                    maximum,
                    amplitude,
                    period,
                    phase,
                    num_bits,
                    is_signed,
                    scale,
                    offset,
                }) && signal@.valid(),
                Err(e) => configuration_error(kind, period, num_bits, is_signed, scale) == Some(e),
            },
            is_periodic(kind) && is_zero(period) ==> made == Err::<Signal, ConfigurationError>(
                ConfigurationError::ZeroPeriod,
            ),
    {
        let periodic: bool = match kind {
            SignalType::Constant => false,
            _ => true,
        };
        if periodic && encodes_zero(period) {
            Err(ConfigurationError::ZeroPeriod)
        } else if encodes_zero(scale) {
            Err(ConfigurationError::ZeroScale)
        } else {
            match check_width(num_bits, is_signed) {
                Err(e) => Err(e),
                Ok(_) => Ok(
                    Signal {
                        kind,
                        minimum,
                        maximum,
                        amplitude,
                        period,
                        phase,
                        num_bits,
                        is_signed,
                        scale,
                        offset,
                    },
                ),
            }
        }
    }

    /// The kind of waveform.
    pub fn get_type(&self) -> (kind: SignalType)
        ensures
            kind == self@.kind,
    {
        self.kind
    }

    /// The canonical name of the kind of waveform.
    pub fn get_type_name(&self) -> (name: &'static str)
        ensures
            name@ == self@.kind.name(),
    {
        self.kind.to_string()
    }

    /// The lower bound of the output.
    pub fn get_minimum(&self) -> (bits: u32)
        ensures
            bits == self@.minimum,
    {
        self.minimum
    }

    /// The upper bound of the output.
    pub fn get_maximum(&self) -> (bits: u32)
        ensures
            bits == self@.maximum,
    {
        self.maximum
    }

    /// The factor by which the waveform is scaled.
    pub fn get_amplitude(&self) -> (bits: u32)
        ensures
            bits == self@.amplitude,
    {
        self.amplitude
    }

    /// The period of the waveform. It is not zero unless the signal is
    /// constant.
    pub fn get_period(&self) -> (bits: u32)
        ensures
            bits == self@.period,
            is_periodic(self@.kind) ==> !is_zero(bits),
    {
        proof {
            use_type_invariant(self);
        }
        self.period
    }

    /// The shift of the waveform in time.
    pub fn get_phase(&self) -> (bits: u32)
        ensures
            bits == self@.phase,
    {
        self.phase
    }

    /// The width of a quantized sample, in bits. It is supported.
    pub fn get_num_bits(&self) -> (num_bits: u8)
        ensures
            num_bits == self@.num_bits,
            bits_supported(num_bits as nat, self@.is_signed),
    {
        proof {
            use_type_invariant(self);
        }
        self.num_bits
    }

    /// Whether a quantized sample is signed.
    pub fn is_signed(&self) -> (is_signed: bool)
        ensures
            is_signed == self@.is_signed,
    {
        self.is_signed
    }

    /// The step between two neighbouring codes. It is not zero.
    pub fn get_scale(&self) -> (bits: u32)
        ensures
            bits == self@.scale,
            !is_zero(bits),
    {
        proof {
            use_type_invariant(self);
        }
        self.scale
    }

    /// The shift between a code and the number it stands for.
    pub fn get_offset(&self) -> (bits: u32)
        ensures
            bits == self@.offset,
    {
        self.offset
    }

    /// The smallest and the largest code that a sample of this generator
    /// can have.
    pub fn code_range(&self) -> (range: (i64, i64))
        ensures
            range.0 == min_code(self@.num_bits as nat, self@.is_signed),
            range.1 == max_code(self@.num_bits as nat, self@.is_signed),
    {
        proof {
            use_type_invariant(self);
        }
        supported_code_range(self.num_bits, self.is_signed)
    }

    /// Shrinks a code to the generator's bit width: a code below the
    /// smallest becomes the smallest, one above the largest the largest,
    /// and any other stays.
    pub fn fit_code(&self, code: i64) -> (fitted: i64)
        ensures
            fitted == fit(code as int, self@.num_bits as nat, self@.is_signed),
    {
        let (low, high) = self.code_range();
        clamp_code(code, low, high)
    }
}

} // verus!
