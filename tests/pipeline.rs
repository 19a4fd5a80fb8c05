use mcap_videoify::cli::{parse_args, CliAction, CliError};
use mcap_videoify::help::get_help_msg;
use mcap_videoify::memo::TopicMemo;
use mcap_videoify::schema::{
    locate_still_image, parse_schema, qualify, resolve_image_schema, MessageShape, SchemaError,
};
use mcap_videoify::topic::{is_still_image, output_topic};
use mcap_videoify::transcode::{assemble_video_record, Frame, Timing, TranscodeError, Transcoder};
use mcap_videoify::wire::{encode_compressed_video, encode_timestamp, push_varint};

use protobuf::descriptor::field_descriptor_proto::{Label, Type};
use protobuf::descriptor::{
    DescriptorProto, FieldDescriptorProto, FileDescriptorProto, FileDescriptorSet,
};
use protobuf::Message;

fn s(x: &str) -> String {
    x.to_string()
}

fn args(list: &[&str]) -> Vec<String> {
    list.iter().map(|a| a.to_string()).collect()
}

fn jpeg(width: u32, height: u32) -> Vec<u8> {
    let img = image::RgbImage::from_fn(width, height, |x, y| {
        image::Rgb([(x * 4) as u8, (y * 5) as u8, ((x + y) * 2) as u8])
    });
    let mut out = std::io::Cursor::new(Vec::new());
    image::DynamicImage::ImageRgb8(img)
        .write_to(&mut out, image::ImageOutputFormat::Jpeg(90))
        .unwrap();
    out.into_inner()
}

fn frame(image: Vec<u8>) -> Frame {
    Frame { seconds: 12, nanos: 34, frame_id: s("camera"), image }
}

fn field(name: &str, number: i32, ty: Type, type_ref: Option<&str>) -> FieldDescriptorProto {
    let mut f = FieldDescriptorProto::new();
    f.set_name(name.to_string());
    f.set_number(number);
    f.set_type(ty);
    f.set_label(Label::LABEL_OPTIONAL);
    if let Some(t) = type_ref {
        f.set_type_name(t.to_string());
    }
    f
}

fn image_schema(with_data: bool) -> Vec<u8> {
    let mut msg = DescriptorProto::new();
    msg.set_name("CompressedImage".to_string());
    msg.field.push(field("timestamp", 1, Type::TYPE_MESSAGE, Some(".google.protobuf.Timestamp")));
    msg.field.push(field("frame_id", 4, Type::TYPE_STRING, None));
    if with_data {
        msg.field.push(field("data", 2, Type::TYPE_BYTES, None));
    }
    msg.field.push(field("format", 3, Type::TYPE_STRING, None));
    let mut file = FileDescriptorProto::new();
    file.set_name("foxglove/CompressedImage.proto".to_string());
    file.set_package("foxglove".to_string());
    file.set_syntax("proto3".to_string());
    file.dependency.push("google/protobuf/timestamp.proto".to_string());
    file.message_type.push(msg);
    let mut set = FileDescriptorSet::new();
    set.file.push(protobuf::well_known_types::timestamp::file_descriptor().proto().clone());
    set.file.push(file);
    set.write_to_bytes().unwrap()
}

#[test]
fn help_text_aligns_options() {
    let h = get_help_msg();
    assert!(h.starts_with("mcap-videoify - Convert MCAP files containing image data to compressed video\n\nUsage:\n"));
    assert!(h.contains("  -i, --input <FILE>   Input MCAP file path (required)\n"));
    assert!(h.contains("  -o, --output <FILE>  Output MCAP file path (default: compressed_video.mcap)\n"));
    assert!(h.contains("  --silent             Disable verbose output."));
    assert!(h.contains("  -h, --help           Show this help message\n"));
    assert!(h.ends_with("through video compression."));
}

#[test]
fn classification_needs_name_and_encoding() {
    assert!(is_still_image(&s("foxglove.CompressedImage"), &s("protobuf")));
    assert!(!is_still_image(&s("foxglove.CompressedImage"), &s("jsonschema")));
    assert!(!is_still_image(&s("sensor_msgs.Imu"), &s("protobuf")));
    assert!(!is_still_image(&s(""), &s("")));
}

#[test]
fn output_topic_appends_suffix() {
    assert_eq!(output_topic(&s("/cam")), "/cam_video");
    assert_eq!(output_topic(&s("")), "_video");
    assert_ne!(output_topic(&s("/a")), output_topic(&s("/b")));
}

#[test]
fn varint_examples() {
    let mut out = Vec::new();
    push_varint(&mut out, 300);
    assert_eq!(out, vec![0xAC, 0x02]);
    let mut one = Vec::new();
    push_varint(&mut one, 0);
    assert_eq!(one, vec![0]);
}

#[test]
fn timestamp_encoding() {
    assert_eq!(encode_timestamp(0, 0), Vec::<u8>::new());
    assert_eq!(encode_timestamp(1, 2), vec![0x08, 0x01, 0x10, 0x02]);
    let neg = encode_timestamp(-1, 0);
    assert_eq!(neg.len(), 11);
    assert_eq!(neg[0], 0x08);
    assert_eq!(neg[10], 0x01);
}

#[test]
fn video_message_encoding() {
    let bytes = encode_compressed_video(1, 2, &s("f"), &vec![0xAA], &s("h264"));
    assert_eq!(
        bytes,
        vec![0x0a, 0x04, 0x08, 0x01, 0x10, 0x02, 0x12, 0x01, b'f', 0x1a, 0x01, 0xAA, 0x22, 0x04, b'h', b'2', b'6', b'4']
    );
    let empty = encode_compressed_video(0, 0, &s(""), &vec![], &s(""));
    assert_eq!(empty, vec![0x0a, 0x00]);
}

#[test]
fn empty_access_unit_gives_no_record() {
    let t = Timing { log_time: 5, publish_time: 6, sequence: 7 };
    assert!(assemble_video_record(s("/cam_video"), &frame(vec![]), vec![], t).is_none());
}

#[test]
fn video_record_keeps_timing() {
    let t = Timing { log_time: 5, publish_time: 6, sequence: 7 };
    let f = frame(vec![]);
    let r = assemble_video_record(s("/cam_video"), &f, vec![1, 2, 3], t).unwrap();
    assert_eq!(r.timing, t);
    assert_eq!(r.topic, "/cam_video");
    assert_eq!(r.payload, encode_compressed_video(12, 34, &s("camera"), &vec![1, 2, 3], &s("h264")));
}

#[test]
fn memo_creates_once() {
    let mut m: TopicMemo<u32> = TopicMemo::new();
    assert_eq!(m.find(&s("a")), None);
    assert_eq!(m.insert_new(s("a"), 10), 0);
    assert_eq!(m.insert_new(s("b"), 20), 1);
    assert_eq!(m.find(&s("b")), Some(1));
    assert_eq!(*m.get(0), 10);
    *m.get_mut(0) = 11;
    assert_eq!(*m.get(0), 11);
    assert_eq!(m.len(), 2);
}

#[test]
fn cli_run_with_default_output() {
    match parse_args(&args(&["-i", "in.mcap", "--silent"])) {
        Ok(CliAction::Run { input, output, silent }) => {
            assert_eq!(input, "in.mcap");
            assert_eq!(output, "compressed_video.mcap");
            assert!(silent);
        }
        _ => panic!("expected a run"),
    }
    match parse_args(&args(&["--input", "a", "--output", "b"])) {
        Ok(CliAction::Run { input, output, silent }) => {
            assert_eq!(input, "a");
            assert_eq!(output, "b");
            assert!(!silent);
        }
        _ => panic!("expected a run"),
    }
}

#[test]
fn cli_help_and_warm_up() {
    assert!(matches!(parse_args(&args(&["-h"])), Ok(CliAction::Help)));
    assert!(matches!(parse_args(&args(&["--warm-up"])), Ok(CliAction::WarmUp)));
    assert!(matches!(parse_args(&args(&["-i", "x", "--help", "--bogus"])), Ok(CliAction::Help)));
}

#[test]
fn cli_errors() {
    assert!(matches!(parse_args(&args(&["-i"])), Err(CliError::MissingInputValue)));
    assert!(matches!(parse_args(&args(&["-i", "x", "-o"])), Err(CliError::MissingOutputValue)));
    assert!(matches!(parse_args(&args(&[])), Err(CliError::NoInput)));
    match parse_args(&args(&["--bogus", "-h"])) {
        Err(CliError::UnexpectedArgument(a)) => assert_eq!(a, "--bogus"),
        _ => panic!("expected an unexpected argument"),
    }
}

#[test]
fn cli_error_messages() {
    assert_eq!(CliError::MissingInputValue.message(), "Missing value for --input/-i argument");
    assert_eq!(CliError::MissingOutputValue.message(), "Missing value for --output/-o argument");
    assert_eq!(
        CliError::NoInput.message(),
        "No input file specified. Use --input/-i to specify input file"
    );
    let m = CliError::UnexpectedArgument(s("--x")).message();
    assert_eq!(m, format!("Unexpected argument: --x. \n\n {}", get_help_msg()));
}

fn resolve(bytes: &[u8]) -> Result<(), SchemaError> {
    let set = parse_schema(bytes)?;
    let files = protobuf::reflect::FileDescriptor::new_dynamic_fds(set.file, &[])
        .map_err(|_| SchemaError::SchemaParse)?;
    resolve_image_schema(&files).map(|_| ())
}

fn shape(name: &str, fields: &[&str]) -> MessageShape {
    MessageShape { full_name: s(name), fields: fields.iter().map(|f| s(f)).collect() }
}

#[test]
fn qualified_names() {
    assert_eq!(qualify(&s("foxglove"), &s("CompressedImage")), "foxglove.CompressedImage");
    assert_eq!(qualify(&s(""), &s("CompressedImage")), "CompressedImage");
}

#[test]
fn locate_takes_first_match_by_name() {
    let all = ["timestamp", "frame_id", "data"];
    let shapes = vec![
        shape("google.protobuf.Timestamp", &["seconds", "nanos"]),
        shape("foxglove.CompressedImage", &all),
        shape("foxglove.CompressedImage", &["data"]),
    ];
    assert_eq!(locate_still_image(&shapes), Ok(1));
    let missing = vec![shape("foxglove.CompressedImage", &["timestamp", "data"])];
    assert_eq!(locate_still_image(&missing), Err(SchemaError::FieldMissing));
    let none = vec![shape("foxglove.RawImage", &all)];
    assert_eq!(locate_still_image(&none), Err(SchemaError::TypeNotFound));
    assert_eq!(locate_still_image(&vec![]), Err(SchemaError::TypeNotFound));
}

#[test]
fn malformed_schema_is_parse_error() {
    assert!(matches!(parse_schema(&[0xff, 0xff, 0xff]), Err(SchemaError::SchemaParse)));
    assert_eq!(resolve(&[0xff, 0xff, 0xff]), Err(SchemaError::SchemaParse));
}

#[test]
fn schema_without_image_type() {
    assert_eq!(resolve(&[]), Err(SchemaError::TypeNotFound));
}

#[test]
fn schema_resolution() {
    assert_eq!(resolve(&image_schema(true)), Ok(()));
    assert_eq!(resolve(&image_schema(false)), Err(SchemaError::FieldMissing));
}

#[test]
fn transcode_three_frames_on_one_topic() {
    let mut t = Transcoder::new();
    let img = jpeg(64, 48);
    assert!(!is_still_image(&s("sensor_msgs.Imu"), &s("protobuf")));
    let mut written = 0;
    let mut last_log = 0;
    for k in 0..3u64 {
        let timing = Timing { log_time: 100 + k, publish_time: 200 + k, sequence: k as u32 };
        let out = t.transcode_frame(&s("/cam"), &frame(img.clone()), timing).unwrap();
        assert_eq!(out.topic, "/cam_video");
        assert_eq!(out.created_encoder, k == 0);
        if t.channel_for(&out.topic).is_none() {
            t.record_channel(out.topic.clone(), 1);
        }
        if let Some(rec) = out.record {
            assert_eq!(rec.topic, "/cam_video");
            assert_eq!(rec.timing, timing);
            assert!(rec.timing.log_time >= last_log);
            last_log = rec.timing.log_time;
            written += 1;
        }
    }
    assert!(written <= 3);
    assert_eq!(t.channel_for(&s("/cam_video")), Some(1));
    assert_eq!(t.channel_for(&s("/imu_video")), None);
}

#[test]
fn transcode_rejects_bad_images() {
    let mut t = Transcoder::new();
    let timing = Timing { log_time: 1, publish_time: 1, sequence: 0 };
    assert_eq!(
        t.transcode_frame(&s("/cam"), &frame(vec![1, 2, 3]), timing).err(),
        Some(TranscodeError::ImageDecode)
    );
    assert_eq!(
        t.transcode_frame(&s("/cam"), &frame(jpeg(63, 48)), timing).err(),
        Some(TranscodeError::UnsupportedDimensions)
    );
    assert!(t.transcode_frame(&s("/cam"), &frame(jpeg(64, 48)), timing).is_ok());
    assert_eq!(
        t.transcode_frame(&s("/cam"), &frame(jpeg(32, 32)), timing).err(),
        Some(TranscodeError::DimensionMismatch)
    );
    assert!(t.transcode_frame(&s("/other"), &frame(jpeg(32, 32)), timing).is_ok());
}
