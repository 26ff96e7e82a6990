//! A small frequency-modulation synthesis voice, built on integer
//! (Q16.16 fixed-point) arithmetic throughout: two sine oscillators in a
//! carrier/modulator arrangement, a biquad lowpass filter, a hard-clip
//! waveshaper, a clamped gain stage and a dynamics compressor, together
//! with the note/gain/FM/filter parameter setters that drive them.

pub mod fixed;
pub mod note;
pub mod osc;
pub mod filter;
pub mod dynamics;
pub mod voice;

pub use note::midi_to_freq;
pub use voice::FmOsc;
pub use voice::VoiceError;
