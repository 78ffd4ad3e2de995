//! Waveform kinds and the integer side of signal quantization.
//!
//! The crate names the five waveform families a signal generator can
//! produce, validates a generator's configuration, and clamps quantized
//! codes to the range a given bit width can represent.

pub mod signal_type;
