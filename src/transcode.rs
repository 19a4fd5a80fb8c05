use vstd::prelude::*;
use vstd::string::*;

use openh264::encoder::{Encoder, EncoderConfig};
use openh264::formats::YUVBuffer;

use crate::memo::TopicMemo;
use crate::topic::{output_topic, output_topic_of};
use crate::wire::{compressed_video_bytes, encode_compressed_video};

verus! {

#[verifier::external_type_specification]
#[verifier::external_body]
pub struct ExImageError(image::ImageError);

#[verifier::external_type_specification]
#[verifier::external_body]
pub struct ExEncoder(Encoder);

#[verifier::external_type_specification]
#[verifier::external_body]
pub struct ExYUVBuffer(YUVBuffer);

#[verifier::external_type_specification]
#[verifier::external_body]
pub struct ExOpenh264Error(openh264::Error);

/// Target bitrate of every video stream, in bits per second.
pub const BITRATE_BPS: u32 = 10_000_000;

/// Timing metadata of a record, carried over unchanged to its video record.
#[derive(Debug, Clone, Copy, PartialEq, Eq, Structural)]
pub struct Timing {
    pub log_time: u64,
    pub publish_time: u64,
    pub sequence: u32,
}

/// The fields read from one still-image message.
pub struct Frame {
    pub seconds: i64,
    pub nanos: i32,
    pub frame_id: String,
    pub image: Vec<u8>,
}

/// A video record to append on the derived topic.
pub struct VideoRecord {
    pub topic: String,
    pub payload: Vec<u8>,
    pub timing: Timing,
}

/// A decoded image as 8-bit RGB triples, row by row.
pub struct Raster {
    pub width: u32,
    pub height: u32,
    pub rgb: Vec<u8>,
}

/// Why a still-image record could not be transcoded.
#[derive(Debug, Clone, Copy, PartialEq, Eq, Structural)]
pub enum TranscodeError {
    /// The image bytes decode under no known format, or to an empty image.
    ImageDecode,
    /// The image has an odd or oversized width or height, which the planar
    /// 4:2:0 layout cannot hold.
    UnsupportedDimensions,
    /// The image differs in size from the first frame of its topic.
    DimensionMismatch,
    /// The video encoder failed.
    Encode,
}

/// The width and height of the image that `bytes` hold, or `None` when no
/// known format decodes them.
pub uninterp spec fn decoded_size(bytes: Seq<u8>) -> Option<(u32, u32)>;

/// Relies on image's `io::Reader` with format guessing from the content,
/// `decode` and `DynamicImage::to_rgb8`: whether decoding succeeds, and the
/// size it finds, depend on the bytes alone (the pixel values may vary with
/// the decoder's code path, so they get no name), and an RGB buffer holds
/// three bytes per pixel.
#[verifier::external_body]
fn decode_rgb8(bytes: &[u8]) -> (r: Result<Raster, image::ImageError>)
    ensures
        r is Ok <==> decoded_size(bytes@) is Some,
        r is Ok ==> decoded_size(bytes@) == Some((r->Ok_0.width, r->Ok_0.height)),
        r is Ok ==> r->Ok_0.rgb@.len() == r->Ok_0.width * r->Ok_0.height * 3,
{
    let reader = match image::io::Reader::new(std::io::Cursor::new(bytes)).with_guessed_format() {
        Ok(reader) => reader,
        Err(e) => return Err(image::ImageError::IoError(e)),
    };
    let rgb = reader.decode()?.to_rgb8();
    Ok(Raster { width: rgb.width(), height: rgb.height(), rgb: rgb.into_raw() })
}

/// Relies on openh264's `YUVBuffer::with_rgb`, which panics unless the buffer
/// holds three bytes per pixel and both sides are even.
#[verifier::external_body]
fn rgb_to_yuv(width: usize, height: usize, rgb: &[u8]) -> (r: YUVBuffer)
    requires
        rgb@.len() == width * height * 3,
        width % 2 == 0,
        height % 2 == 0,
{
    YUVBuffer::with_rgb(width, height, rgb)
}

/// Relies on openh264's `Encoder::with_config` with `EncoderConfig::new` and
/// `set_bitrate_bps`.
#[verifier::external_body]
fn open_encoder(width: u32, height: u32, bitrate_bps: u32) -> (r: Result<Encoder, openh264::Error>) {
    Encoder::with_config(EncoderConfig::new(width, height).set_bitrate_bps(bitrate_bps))
}

/// Relies on openh264's `Encoder::encode` and `EncodedBitStream::to_vec`; the
/// encoder panics on a frame whose size differs from its configured size.
#[verifier::external_body]
fn encode_planar(enc: &mut VideoEncoder, frame: &PlanarFrame) -> (r: Result<
    Vec<u8>,
    openh264::Error,
>)
    requires
        old(enc).width() as int == frame.width(),
        old(enc).height() as int == frame.height(),
        frame.width() <= i32::MAX,
        frame.height() <= i32::MAX,
    ensures
        final(enc).width() == old(enc).width(),
        final(enc).height() == old(enc).height(),
        final(enc).bitrate() == old(enc).bitrate(),
{
    enc.encoder.encode(&frame.yuv).map(|b| b.to_vec())
}

/// An image in the planar 4:2:0 layout that the encoder takes.
pub struct PlanarFrame {
    yuv: YUVBuffer,
    width: usize,
    height: usize,
}

impl PlanarFrame {
    pub closed spec fn width(&self) -> int {
        self.width as int
    }

    pub closed spec fn height(&self) -> int {
        self.height as int
    }

    /// Converts an RGB raster of even width and height.
    pub fn from_rgb(width: usize, height: usize, rgb: &[u8]) -> (r: Self)
        requires
            rgb@.len() == width * height * 3,
            width % 2 == 0,
            height % 2 == 0,
        ensures
            r.width() == width,
            r.height() == height,
    {
        PlanarFrame { yuv: rgb_to_yuv(width, height, rgb), width, height }
    }
}

/// A video encoder bound to the size of the first frame of its stream.
pub struct VideoEncoder {
    encoder: Encoder,
    width: u32,
    height: u32,
    bitrate_bps: u32,
}

impl VideoEncoder {
    pub closed spec fn width(&self) -> u32 {
        self.width
    }

    pub closed spec fn height(&self) -> u32 {
        self.height
    }

    pub closed spec fn bitrate(&self) -> u32 {
        self.bitrate_bps
    }

    /// Opens an encoder for frames of the given size at the given bitrate.
    pub fn open(width: u32, height: u32, bitrate_bps: u32) -> (r: Result<Self, TranscodeError>)
        ensures
            r is Ok ==> r->Ok_0.width() == width && r->Ok_0.height() == height
                && r->Ok_0.bitrate() == bitrate_bps,
            r is Err ==> r->Err_0 == TranscodeError::Encode,
    {
        match open_encoder(width, height, bitrate_bps) {
            Ok(encoder) => Ok(VideoEncoder { encoder, width, height, bitrate_bps }),
            Err(_) => Err(TranscodeError::Encode),
        }
    }
}

/// The payload format tag of every video record.
pub open spec fn video_format() -> Seq<char> {
    "h264"@
}

/// Builds the video record for one encoded frame; an empty access unit gives
/// no record at all.
pub fn assemble_video_record(
    topic: String,
    frame: &Frame,
    bitstream: Vec<u8>,
    timing: Timing,
) -> (r: Option<VideoRecord>)
    ensures
        r is None <==> bitstream@.len() == 0,
        r is Some ==> r->Some_0.topic@ == topic@,
        r is Some ==> r->Some_0.timing == timing,
        r is Some ==> r->Some_0.payload@ == compressed_video_bytes(
            frame.seconds,
            frame.nanos,
            frame.frame_id@,
            bitstream@,
            video_format(),
        ),
{
    if bitstream.len() == 0 {
        return None;
    }
    let format = String::from_str("h264");
    let payload = encode_compressed_video(
        frame.seconds,
        frame.nanos,
        &frame.frame_id,
        &bitstream,
        &format,
    );
    Some(VideoRecord { topic, payload, timing })
}

/// What the transcoding of one still-image record gives: the derived topic,
/// whether its encoder was opened by this call, and the record to write there
/// unless the encoder emitted nothing.
pub struct Transcoded {
    pub topic: String,
    pub created_encoder: bool,
    pub record: Option<VideoRecord>,
}

/// Whether an image of this size fits the planar layout and the encoder.
pub open spec fn supported_size(width: u32, height: u32) -> bool {
    width % 2 == 0 && height % 2 == 0 && width <= i32::MAX && height <= i32::MAX
}

/// The state of one conversion run: an encoder and an output channel per
/// derived topic, each created once.
pub struct Transcoder {
    encoders: TopicMemo<VideoEncoder>,
    channels: TopicMemo<u16>,
}

impl Transcoder {
    pub open spec fn wf(&self) -> bool {
        self.encoders().wf() && self.channels().wf()
    }

    pub closed spec fn encoders(&self) -> TopicMemo<VideoEncoder> {
        self.encoders
    }

    pub closed spec fn channels(&self) -> TopicMemo<u16> {
        self.channels
    }

    /// A run with no encoder and no channel yet.
    pub fn new() -> (r: Self)
        ensures
            r.wf(),
            r.encoders().keys() == Seq::<Seq<char>>::empty(),
            r.channels().keys() == Seq::<Seq<char>>::empty(),
    {
        Transcoder { encoders: TopicMemo::new(), channels: TopicMemo::new() }
    }

    /// The channel id registered for a derived topic, if any.
    pub fn channel_for(&self, topic: &String) -> (r: Option<u16>)
        requires
            self.wf(),
        ensures
            r is None <==> !self.channels().has(topic@),
            r is Some ==> exists|i: int|
                0 <= i < self.channels().keys().len() && self.channels().keys()[i] == topic@
                    && #[trigger] self.channels().values()[i] == r->Some_0,
    {
        match self.channels.find(topic) {
            Some(i) => {
                let id = *self.channels.get(i);
                Some(id)
            },
            None => {
                proof {
                    if self.channels().has(topic@) {
                        let k = self.channels().keys().index_of(topic@);
                    }
                }
                None
            },
        }
    }

    /// Records that the channel of a derived topic was registered under `id`.
    pub fn record_channel(&mut self, topic: String, id: u16)
        requires
            old(self).wf(),
            !old(self).channels().has(topic@),
        ensures
            final(self).wf(),
            final(self).channels().keys() == old(self).channels().keys().push(topic@),
            final(self).channels().values() == old(self).channels().values().push(id),
            final(self).encoders() == old(self).encoders(),
    {
        self.channels.insert_new(topic, id);
    }

    /// Transcodes one still-image record of input topic `topic`.
    ///
    /// The image is decoded, converted to the planar layout and handed to the
    /// encoder of the derived topic, which is opened at the first frame's size
    /// on first use. The result carries the derived topic, and a video record
    /// with the frame's timestamp and id, the access unit and the source
    /// record's timing, unless the access unit is empty.
    pub fn transcode_frame(&mut self, topic: &String, frame: &Frame, timing: Timing) -> (r: Result<
        Transcoded,
        TranscodeError,
    >)
        requires
            old(self).wf(),
        ensures
            final(self).wf(),
            final(self).channels() == old(self).channels(),
            old(self).encoders().has(output_topic_of(topic@)) ==> final(self).encoders().keys()
                == old(self).encoders().keys(),
            !old(self).encoders().has(output_topic_of(topic@)) ==> (final(self).encoders().keys()
                == old(self).encoders().keys() || final(self).encoders().keys() == old(
                self,
            ).encoders().keys().push(output_topic_of(topic@))),
            match decoded_size(frame.image@) {
                None => r == Err::<Transcoded, TranscodeError>(TranscodeError::ImageDecode),
                Some(img) => {
                    if img.0 == 0 || img.1 == 0 {
                        r == Err::<Transcoded, TranscodeError>(TranscodeError::ImageDecode)
                    } else if !supported_size(img.0, img.1) {
                        r == Err::<Transcoded, TranscodeError>(
                            TranscodeError::UnsupportedDimensions,
                        )
                    } else {
                        (r is Ok || r == Err::<Transcoded, TranscodeError>(TranscodeError::Encode)
                            || r == Err::<Transcoded, TranscodeError>(
                            TranscodeError::DimensionMismatch,
                        ))
                        && (r == Err::<Transcoded, TranscodeError>(
                            TranscodeError::DimensionMismatch,
                        ) <==> exists|i: int|
                            0 <= i < old(self).encoders().keys().len()
                                && old(self).encoders().keys()[i] == output_topic_of(topic@)
                                && ((#[trigger] old(self).encoders().values()[i]).width() != img.0
                                || old(self).encoders().values()[i].height() != img.1))
                    }
                },
            },
            r is Ok ==> r->Ok_0.topic@ == output_topic_of(topic@),
            r is Ok ==> (r->Ok_0.created_encoder <==> !old(self).encoders().has(
                output_topic_of(topic@),
            )),
            r is Ok && r->Ok_0.created_encoder ==> final(self).encoders().keys() == old(
                self,
            ).encoders().keys().push(output_topic_of(topic@)),
            forall|i: int|
                0 <= i < old(self).encoders().keys().len() ==> {
                    &&& (#[trigger] final(self).encoders().values()[i]).width() == old(
                        self,
                    ).encoders().values()[i].width()
                    &&& final(self).encoders().values()[i].height() == old(
                        self,
                    ).encoders().values()[i].height()
                    &&& final(self).encoders().values()[i].bitrate() == old(
                        self,
                    ).encoders().values()[i].bitrate()
                },
            final(self).encoders().keys().len() > old(self).encoders().keys().len() ==> match
                decoded_size(frame.image@) {
                Some(img) => {
                    let created = final(self).encoders().values()[old(
                        self,
                    ).encoders().keys().len() as int];
                    &&& created.width() == img.0
                    &&& created.height() == img.1
                    &&& created.bitrate() == 10_000_000
                },
                None => false,
            },
            r is Ok && r->Ok_0.record is Some ==> {
                let rec = r->Ok_0.record->Some_0;
                &&& rec.topic@ == output_topic_of(topic@)
                &&& rec.timing == timing
                &&& exists|bits: Seq<u8>|
                    bits.len() > 0 && rec.payload@ == #[trigger] compressed_video_bytes(
                        frame.seconds,
                        frame.nanos,
                        frame.frame_id@,
                        bits,
                        video_format(),
                    )
            },
    {
        let raster = match decode_rgb8(frame.image.as_slice()) {
            Ok(raster) => raster,
            Err(_) => {
                return Err(TranscodeError::ImageDecode);
            },
        };
        if raster.width == 0 || raster.height == 0 {
            return Err(TranscodeError::ImageDecode);
        }
        if raster.width % 2 != 0 || raster.height % 2 != 0 || raster.width > 0x7fff_ffff
            || raster.height > 0x7fff_ffff {
            return Err(TranscodeError::UnsupportedDimensions);
        }
        let out = output_topic(topic);
        let ghost old_keys = self.encoders().keys();
        let ghost old_values = self.encoders().values();
        let mut created = false;
        let slot = match self.encoders.find(&out) {
            Some(i) => {
                assert(old_keys.contains(out@));
                i
            },
            None => {
                let enc = match VideoEncoder::open(raster.width, raster.height, BITRATE_BPS) {
                    Ok(enc) => enc,
                    Err(e) => {
                        proof {
                            if exists|i: int|
                                0 <= i < old_keys.len() && old_keys[i] == out@
                                    && ((#[trigger] old_values[i]).width() != raster.width
                                    || old_values[i].height() != raster.height) {
                                let i = choose|i: int|
                                    0 <= i < old_keys.len() && old_keys[i] == out@
                                        && ((#[trigger] old_values[i]).width() != raster.width
                                        || old_values[i].height() != raster.height);
                                assert(old_keys.contains(out@));
                            }
                        }
                        return Err(e);
                    },
                };
                created = true;
                self.encoders.insert_new(out.clone(), enc)
            },
        };
        let width = raster.width;
        let height = raster.height;
        let enc = self.encoders.get_mut(slot);
        if enc.width != width || enc.height != height {
            return Err(TranscodeError::DimensionMismatch);
        }
        let planar = PlanarFrame::from_rgb(width as usize, height as usize, raster.rgb.as_slice());
        let bits = match encode_planar(enc, &planar) {
            Ok(bits) => bits,
            Err(_) => {
                return Err(TranscodeError::Encode);
            },
        };
        let record = assemble_video_record(out.clone(), frame, bits, timing);
        Ok(Transcoded { topic: out, created_encoder: created, record })
    }
}

/// In a run, no derived topic has two encoders or two output channels.
pub proof fn lemma_one_encoder_and_channel_per_topic(t: Transcoder, i: int, j: int)
    requires
        t.wf(),
    ensures
        0 <= i < t.encoders().keys().len() && 0 <= j < t.encoders().keys().len()
            && t.encoders().keys()[i] == t.encoders().keys()[j] ==> i == j,
        0 <= i < t.channels().keys().len() && 0 <= j < t.channels().keys().len()
            && t.channels().keys()[i] == t.channels().keys()[j] ==> i == j,
{
}

} // verus!
