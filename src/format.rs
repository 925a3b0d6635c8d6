//! Streaming formats, format negotiation and the content type of a stream.
use vstd::prelude::*;

verus! {

/// The container or sample encoding served to a renderer.
#[derive(Debug, Clone, Copy, PartialEq, Eq, Structural)]
pub enum StreamingFormat {
    Lpcm,
    Wav,
    Rf64,
    Flac,
}

/// The per-request snapshot of the process configuration.
#[derive(Debug, Clone, Copy)]
pub struct StreamerConfig {
    /// Configured default format; `None` stands for FLAC.
    pub streaming_format: Option<StreamingFormat>,
    /// Configured default bit depth; `None` stands for 16.
    pub bits_per_sample: Option<u16>,
    /// Whether LPCM is wrapped in a canonical WAV header.
    pub use_wave_format: bool,
}

/// The format a configuration selects when it names none.
pub open spec fn configured_format(cfg: StreamerConfig) -> StreamingFormat {
    match cfg.streaming_format {
        Some(f) => f,
        None => StreamingFormat::Flac,
    }
}

/// The bit depth a configuration selects when it names none.
pub open spec fn configured_bits(cfg: StreamerConfig) -> u16 {
    match cfg.bits_per_sample {
        Some(b) => b,
        None => 16,
    }
}

/// The bit depth that a recognized path implies for its format.
pub open spec fn implied_bits(f: StreamingFormat) -> u16 {
    match f {
        StreamingFormat::Flac => 24,
        _ => 16,
    }
}

/// The (format, bits) pair actually served for a path implying `requested`:
/// the path wins over the configuration when the formats differ, otherwise the
/// configured format and bit depth are kept.
pub open spec fn negotiated(requested: StreamingFormat, cfg: StreamerConfig) -> (StreamingFormat, u16) {
    if requested != configured_format(cfg) {
        (requested, implied_bits(requested))
    } else {
        (configured_format(cfg), configured_bits(cfg))
    }
}

impl StreamerConfig {
    /// The configured default format.
    pub fn format_or_default(&self) -> (r: StreamingFormat)
        ensures
            r == configured_format(*self),
    {
        match self.streaming_format {
            Some(f) => f,
            None => StreamingFormat::Flac,
        }
    }

    /// The configured default bit depth.
    pub fn bits_or_default(&self) -> (r: u16)
        ensures
            r == configured_bits(*self),
    {
        match self.bits_per_sample {
            Some(b) => b,
            None => 16,
        }
    }
}

/// Chooses the format and bit depth to serve for a path that implies `requested`.
pub fn negotiate(requested: StreamingFormat, cfg: &StreamerConfig) -> (r: (StreamingFormat, u16))
    ensures
        r == negotiated(requested, *cfg),
        r.0 == requested,
{
    let format = cfg.format_or_default();
    let bits = cfg.bits_or_default();
    let req_bits: u16 = match requested {
        StreamingFormat::Flac => 24,
        _ => 16,
    };
    if requested != format {
        (requested, req_bits)
    } else {
        (format, bits)
    }
}

/// The path's format always wins: whatever the configuration, the served
/// format is the one the path implies, and when it differs from the configured
/// format the bit depth is the path's own too.
pub proof fn lemma_path_format_wins(requested: StreamingFormat, cfg: StreamerConfig)
    ensures
        negotiated(requested, cfg).0 == requested,
        requested != configured_format(cfg) ==> negotiated(requested, cfg) == (requested, implied_bits(requested)),
{
}

/// Decimal digit character for `d < 10`.
pub open spec fn digit_char(d: nat) -> char {
    if d == 0 { '0' }
    else if d == 1 { '1' }
    else if d == 2 { '2' }
    else if d == 3 { '3' }
    else if d == 4 { '4' }
    else if d == 5 { '5' }
    else if d == 6 { '6' }
    else if d == 7 { '7' }
    else if d == 8 { '8' }
    else { '9' }
}

/// The decimal notation of `n`, without sign or leading zeros.
pub open spec fn decimal(n: nat) -> Seq<char>
    decreases n,
{
    if n < 10 {
        seq![digit_char(n)]
    } else {
        decimal(n / 10).push(digit_char(n % 10))
    }
}

/// Relies on `u32`'s `Display` (through `to_string`): plain decimal notation.
#[verifier::external_body]
fn decimal_string(n: u32) -> (r: String)
    ensures
        r@ == decimal(n as nat),
{
    n.to_string()
}

/// The exact `Content-Type` of a stream of `format` at `bits` and `rate` Hz.
pub open spec fn content_type_of(format: StreamingFormat, bits: u16, rate: u32) -> Seq<char> {
    match format {
        StreamingFormat::Flac => "audio/flac"@,
        StreamingFormat::Wav | StreamingFormat::Rf64 => "audio/vnd.wave;codec=1"@,
        StreamingFormat::Lpcm => if bits == 16 {
            "audio/L16;rate="@ + decimal(rate as nat) + ";channels=2"@
        } else {
            "audio/L24;rate="@ + decimal(rate as nat) + ";channels=2"@
        },
    }
}

/// Builds the `Content-Type` header value for a negotiated stream.
pub fn content_type(format: StreamingFormat, bits: u16, rate: u32) -> (r: String)
    ensures
        r@ == content_type_of(format, bits, rate),
{
    match format {
        StreamingFormat::Flac => String::from_str("audio/flac"),
        StreamingFormat::Wav | StreamingFormat::Rf64 => String::from_str("audio/vnd.wave;codec=1"),
        StreamingFormat::Lpcm => {
            let mut s = if bits == 16 {
                String::from_str("audio/L16;rate=")
            } else {
                String::from_str("audio/L24;rate=")
            };
            let digits = decimal_string(rate);
            s.append(digits.as_str());
            s.append(";channels=2");
            s
        },
    }
}

/// Advertised body length and chunked-encoding threshold of a stream. Both are
/// huge but bounded so that the server never falls back to chunked encoding.
#[derive(Debug, Clone, Copy, PartialEq, Eq, Structural)]
pub struct Framing {
    pub stream_len: u64,
    pub chunk_threshold: u64,
}

/// Largest value of a 32-bit length field.
pub const WAV_LIMIT: u64 = 0xffff_ffff;

/// Largest value of a signed 64-bit length.
pub const STREAM_LIMIT: u64 = 0x7fff_ffff_ffff_ffff;

/// WAV keeps within what its 32-bit header can state; every other format
/// uses the largest signed 64-bit length.
pub open spec fn framing_of(format: StreamingFormat) -> Framing {
    if format == StreamingFormat::Wav {
        Framing { stream_len: (WAV_LIMIT - 1) as u64, chunk_threshold: WAV_LIMIT }
    } else {
        Framing { stream_len: (STREAM_LIMIT - 1) as u64, chunk_threshold: STREAM_LIMIT }
    }
}

/// The framing of a response streaming `format`.
pub fn framing(format: StreamingFormat) -> (r: Framing)
    ensures
        r == framing_of(format),
        r.stream_len < r.chunk_threshold,
{
    if format == StreamingFormat::Wav {
        Framing { stream_len: WAV_LIMIT - 1, chunk_threshold: WAV_LIMIT }
    } else {
        Framing { stream_len: STREAM_LIMIT - 1, chunk_threshold: STREAM_LIMIT }
    }
}

} // verus!
