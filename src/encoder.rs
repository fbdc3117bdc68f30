use vstd::prelude::*;
use crate::error::ConvertError;
use crate::settings::{EncoderConfig, LoopPolicy};

verus! {

/// The encoder's frame intake.
#[verifier::external_type_specification]
#[verifier::external_body]
pub struct ExCollector(gifski::Collector);

/// The encoder's output side, which writes the encoded stream.
#[verifier::external_type_specification]
#[verifier::external_body]
pub struct ExWriter(gifski::Writer);

/// Relies on `gifski::new`: it refuses a quality outside `1..=100` or a
/// requested side above 65536, and otherwise hands out the frame intake and
/// the writer. The error is carried as its text.
#[verifier::external_body]
fn gifski_new(width: Option<u32>, height: Option<u32>, quality: u8, repeat: LoopPolicy) -> (r: Result<
    (gifski::Collector, gifski::Writer),
    String,
>)
    ensures
        r is Ok <==> (1 <= quality <= 100 && (width matches Some(w) ==> w <= 65536) && (height matches Some(h)
            ==> h <= 65536)),
{
    let repeat = match repeat {
        LoopPolicy::Infinite => gifski::Repeat::Infinite,
        LoopPolicy::Finite(n) => gifski::Repeat::Finite(n),
    };
    match gifski::new(gifski::Settings { width, height, quality, fast: false, repeat }) {
        Ok(pair) => Ok(pair),
        Err(e) => Err(e.to_string()),
    }
}

/// Largest output side the encoder accepts.
pub const MAX_ENCODER_SIDE: u32 = 65536;

/// Opens the streaming encoder for `cfg`: succeeds exactly when the
/// quality is on the `1..=100` scale and no requested side exceeds
/// `MAX_ENCODER_SIDE`; else `Encoder` with the encoder's reason.
pub fn open_encoder(cfg: &EncoderConfig) -> (r: Result<(gifski::Collector, gifski::Writer), ConvertError>)
    ensures
        r is Ok <==> (1 <= cfg.quality <= 100 && (cfg.width matches Some(w) ==> w <= MAX_ENCODER_SIDE) && (
        cfg.height matches Some(h) ==> h <= MAX_ENCODER_SIDE)),
        r matches Err(e) ==> e is Encoder,
{
    match gifski_new(cfg.width, cfg.height, cfg.quality, cfg.repeat) {
        Ok(pair) => Ok(pair),
        Err(m) => Err(ConvertError::Encoder(m)),
    }
}

} // verus!
